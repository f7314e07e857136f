# benzene

The core of a small Vulkan-based 3D engine, written in Verus.

- `src/` is the verified library: the entity/component scene on slot maps,
  window input state, viewport clamping, frame-rate bookkeeping, the
  choices the renderer makes about physical devices, queue families,
  surface formats, present modes, extents, image counts, memory types and
  depth formats, the frame cycle and how acquire/present results are
  judged, and what destroying GPU resources releases.
- `tests/` exercises the library on concrete values.
- `app/` is the demo program around it: the winit window, the Vulkan calls
  made through ash, and the floating-point matrix and camera math.

Vectors and matrices cross into the library as `f32` bit patterns; the
arithmetic on them lives in `app/`.
