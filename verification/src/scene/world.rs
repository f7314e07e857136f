//! The scene: entities and their components.
use vstd::prelude::*;

use crate::scene::bundles::{
    CameraBundle, DirectionalLightBundle, MeshInstanceBundle, PointLightBundle, SpotLightBundle,
};
use crate::scene::components::{
    Camera, Component, ComponentKind, DirectionalLight, Entity, MeshInstance, Name, PointLight,
    SpotLight, Transform, Vec4Bits, Visibility, POINT_ONE_BITS,
};
use crate::scene::storage::{
    component_map_get, component_map_get_mut, component_map_insert, component_map_keys,
    component_map_new, component_map_remove, component_slots, entity_map_contains,
    entity_map_insert, entity_map_keys, entity_map_new, entity_map_remove, entity_slots, holds_key,
    holds_stored, holds_live, key_valid, lemma_lists_slots_unique, lists_live, lists_slots, lists_stored, live_valid, live_version, slots_valid, stored_valid, stored_after_insert,
    stored_after_remove, stored_under, stored_version, ComponentMap, EntityMap,
};

verus! {

/// Bit pattern of `0.15f32`.
pub const POINT_ONE_FIVE_BITS: u32 = 0x3E19_999A;

/// At most this many lights of each kind reach the shaders.
pub const MAX_LIGHTS_PER_KIND: usize = 16;

/// Entities, their components, the active camera and the ambient light.
pub struct Scene {
    entities: EntityMap,
    names: ComponentMap,
    visibilities: ComponentMap,
    transforms: ComponentMap,
    cameras: ComponentMap,
    point_lights: ComponentMap,
    directional_lights: ComponentMap,
    spot_lights: ComponentMap,
    mesh_instances: ComponentMap,
    active_camera: Option<Entity>,
    ambient_color: Vec4Bits,
}

/// The slot order of a component storage: its keys by increasing slot.
pub open spec fn slot_order(m: Map<u32, (u32, Component)>) -> Seq<u64> {
    choose|keys: Seq<u64>| #[trigger] lists_stored(keys, m)
}

/// `s` with at most its first `n` elements.
pub open spec fn at_most(s: Seq<u64>, n: nat) -> Seq<u64> {
    if s.len() <= n {
        s
    } else {
        s.take(n as int)
    }
}

/// Filtering a prefix of `s` gives a prefix of filtering `s`.
pub proof fn lemma_filter_take_prefix(s: Seq<u64>, i: int, pred: spec_fn(u64) -> bool)
    requires
        0 <= i <= s.len(),
    ensures
        s.take(i).filter(pred).len() <= s.filter(pred).len(),
        forall|j: int| 0 <= j < s.take(i).filter(pred).len() ==> #[trigger] s.take(i).filter(pred)[j] == s.filter(pred)[j],
    decreases s.len(),
{
    reveal(Seq::filter);
    if i == s.len() {
        assert(s.take(i) =~= s);
    } else {
        let t = s.drop_last();
        assert(s.take(i) =~= t.take(i));
        lemma_filter_take_prefix(t, i, pred);
    }
}

/// Every element of `at_most(s.filter(pred), cap)` satisfies `pred`.
pub proof fn lemma_filter_member(s: Seq<u64>, pred: spec_fn(u64) -> bool, cap: nat, j: int)
    requires
        0 <= j < at_most(s.filter(pred), cap).len(),
    ensures
        pred(at_most(s.filter(pred), cap)[j]),
{
    broadcast use vstd::seq_lib::group_filter_ensures;
}

impl Scene {
    /// Live entities: slot index to the version living there.
    pub closed spec fn live(&self) -> Map<u32, u32> {
        entity_slots(self.entities)
    }

    /// The storage of one kind of component, slot by slot.
    pub closed spec fn slots(&self, kind: ComponentKind) -> Map<u32, (u32, Component)> {
        match kind {
            ComponentKind::Name => component_slots(self.names),
            ComponentKind::Visibility => component_slots(self.visibilities),
            ComponentKind::Transform => component_slots(self.transforms),
            ComponentKind::Camera => component_slots(self.cameras),
            ComponentKind::PointLight => component_slots(self.point_lights),
            ComponentKind::DirectionalLight => component_slots(self.directional_lights),
            ComponentKind::SpotLight => component_slots(self.spot_lights),
            ComponentKind::MeshInstance => component_slots(self.mesh_instances),
        }
    }

    pub closed spec fn active_camera_spec(&self) -> Option<Entity> {
        self.active_camera
    }

    pub closed spec fn ambient_color_spec(&self) -> Vec4Bits {
        self.ambient_color
    }

    /// Every storage holds valid keys and only components of its own kind.
    pub open spec fn wf(&self) -> bool {
        &&& live_valid(self.live())
        &&& forall|k: ComponentKind| #[trigger] stored_valid(self.slots(k))
        &&& forall|k: ComponentKind, i: u32| #[trigger] self.slots(k).contains_key(i) ==> self.slots(k)[i].1.kind() == k
    }

    /// The entity is live.
    pub open spec fn alive(&self, e: Entity) -> bool {
        holds_key(self.live(), e.bits_spec(), |v: u32| live_version(v))
    }

    /// The component of this kind stored for the entity.
    pub open spec fn component(&self, kind: ComponentKind, e: Entity) -> Option<Component> {
        stored_under(self.slots(kind), e.bits_spec())
    }

    /// Visible unless a visibility component says otherwise.
    pub open spec fn visible_key(&self, bits: u64) -> bool {
        match stored_under(self.slots(ComponentKind::Visibility), bits) {
            Some(Component::Visibility(v)) => v.visible,
            _ => true,
        }
    }

    pub open spec fn visible(&self, e: Entity) -> bool {
        self.visible_key(e.bits_spec())
    }

    /// Everything but the storage of `kind` is as in `old`.
    pub open spec fn same_except(&self, old: &Scene, kind: ComponentKind) -> bool {
        &&& self.live() == old.live()
        &&& self.active_camera_spec() == old.active_camera_spec()
        &&& self.ambient_color_spec() == old.ambient_color_spec()
        &&& forall|k: ComponentKind| k != kind ==> #[trigger] self.slots(k) == old.slots(k)
    }

    /// An empty scene with a dim ambient light and no active camera.
    pub fn new() -> (s: Self)
        ensures
            s.wf(),
            s.live().dom() == Set::<u32>::empty(),
            forall|k: ComponentKind| #[trigger] s.slots(k).dom() == Set::<u32>::empty(),
            s.active_camera_spec() is None,
            s.ambient_color_spec() == (Vec4Bits { x: POINT_ONE_BITS, y: POINT_ONE_BITS, z: POINT_ONE_BITS, w: POINT_ONE_FIVE_BITS }),
    {
        let s = Scene {
            entities: entity_map_new(),
            names: component_map_new(),
            visibilities: component_map_new(),
            transforms: component_map_new(),
            cameras: component_map_new(),
            point_lights: component_map_new(),
            directional_lights: component_map_new(),
            spot_lights: component_map_new(),
            mesh_instances: component_map_new(),
            active_camera: None,
            ambient_color: Vec4Bits::new(POINT_ONE_BITS, POINT_ONE_BITS, POINT_ONE_BITS, POINT_ONE_FIVE_BITS),
        };
        proof {
            assert forall|k: ComponentKind| #[trigger] s.slots(k).dom() == Set::<u32>::empty() by {
                match k {
                    _ => {}
                }
            }
            assert(s.live().dom().finite());
        }
        s
    }

    /// Stores `c` in the storage of `kind` under the entity's key.
    fn insert_component(&mut self, kind: ComponentKind, e: Entity, c: Component)
        requires
            old(self).wf(),
            c.kind() == kind,
        ensures
            final(self).wf(),
            final(self).same_except(old(self), kind),
            final(self).slots(kind) == stored_after_insert(old(self).slots(kind), e.bits_spec(), c),
    {
        let bits = e.to_bits();
        let ghost before = *self;
        match kind {
            ComponentKind::Name => { component_map_insert(&mut self.names, bits, c); }
            ComponentKind::Visibility => { component_map_insert(&mut self.visibilities, bits, c); }
            ComponentKind::Transform => { component_map_insert(&mut self.transforms, bits, c); }
            ComponentKind::Camera => { component_map_insert(&mut self.cameras, bits, c); }
            ComponentKind::PointLight => { component_map_insert(&mut self.point_lights, bits, c); }
            ComponentKind::DirectionalLight => { component_map_insert(&mut self.directional_lights, bits, c); }
            ComponentKind::SpotLight => { component_map_insert(&mut self.spot_lights, bits, c); }
            ComponentKind::MeshInstance => { component_map_insert(&mut self.mesh_instances, bits, c); }
        }
        proof {
            assert forall|k: ComponentKind| k != kind implies #[trigger] self.slots(k) == before.slots(k) by {
                match k { _ => {} }
            }
            assert forall|k: ComponentKind| #[trigger] stored_valid(self.slots(k)) by {
                assert(stored_valid(before.slots(k)));
            }
            assert forall|k: ComponentKind, i: u32| #[trigger] self.slots(k).contains_key(i) implies self.slots(k)[i].1.kind() == k by {
                if k != kind {
                    assert(before.slots(k).contains_key(i));
                } else if before.slots(k).contains_key(i) && i != e.index() {
                }
            }
        }
    }

    /// Empties the slot of `kind` that holds the entity's key.
    fn remove_component(&mut self, kind: ComponentKind, e: Entity)
        requires
            old(self).wf(),
        ensures
            final(self).wf(),
            final(self).same_except(old(self), kind),
            final(self).slots(kind) == stored_after_remove(old(self).slots(kind), e.bits_spec()),
    {
        let bits = e.to_bits();
        let ghost before = *self;
        match kind {
            ComponentKind::Name => { component_map_remove(&mut self.names, bits); }
            ComponentKind::Visibility => { component_map_remove(&mut self.visibilities, bits); }
            ComponentKind::Transform => { component_map_remove(&mut self.transforms, bits); }
            ComponentKind::Camera => { component_map_remove(&mut self.cameras, bits); }
            ComponentKind::PointLight => { component_map_remove(&mut self.point_lights, bits); }
            ComponentKind::DirectionalLight => { component_map_remove(&mut self.directional_lights, bits); }
            ComponentKind::SpotLight => { component_map_remove(&mut self.spot_lights, bits); }
            ComponentKind::MeshInstance => { component_map_remove(&mut self.mesh_instances, bits); }
        }
        proof {
            assert forall|k: ComponentKind| k != kind implies #[trigger] self.slots(k) == before.slots(k) by {
                match k { _ => {} }
            }
            assert forall|k: ComponentKind| #[trigger] stored_valid(self.slots(k)) by {
                assert(stored_valid(before.slots(k)));
            }
            assert forall|k: ComponentKind, i: u32| #[trigger] self.slots(k).contains_key(i) implies self.slots(k)[i].1.kind() == k by {
                assert(before.slots(k).contains_key(i));
            }
        }
    }

    /// The stored component of this kind for the entity.
    fn get_component(&self, kind: ComponentKind, e: Entity) -> (r: Option<&Component>)
        requires
            self.wf(),
        ensures
            r matches Some(c) ==> (self.component(kind, e) == Some(*c) && c.kind() == kind),
            r is None ==> self.component(kind, e) is None,
    {
        let bits = e.to_bits();
        let r = match kind {
            ComponentKind::Name => component_map_get(&self.names, bits),
            ComponentKind::Visibility => component_map_get(&self.visibilities, bits),
            ComponentKind::Transform => component_map_get(&self.transforms, bits),
            ComponentKind::Camera => component_map_get(&self.cameras, bits),
            ComponentKind::PointLight => component_map_get(&self.point_lights, bits),
            ComponentKind::DirectionalLight => component_map_get(&self.directional_lights, bits),
            ComponentKind::SpotLight => component_map_get(&self.spot_lights, bits),
            ComponentKind::MeshInstance => component_map_get(&self.mesh_instances, bits),
        };
        proof {
            if r is Some {
                assert(self.slots(kind).contains_key(e.index()));
            }
        }
        r
    }

    /// A mutable borrow of the stored component of this kind for the entity.
    fn get_component_mut(&mut self, kind: ComponentKind, e: Entity) -> (r: Option<&mut Component>)
        requires
            old(self).wf(),
        ensures
            r matches Some(c) ==> (old(self).component(kind, e) == Some(*c) && c.kind() == kind
                && final(self).same_except(old(self), kind)
                && final(self).slots(kind) == old(self).slots(kind).insert(e.index(), (e.version(), *final(c)))
                && forall|v: Component| #[trigger] stored_valid(old(self).slots(kind).insert(e.index(), (e.version(), v)))),
            r is None ==> (old(self).component(kind, e) is None && *final(self) == *old(self)),
            key_valid(e.bits_spec()),
    {
        let bits = e.to_bits();
        if self.get_component(kind, e).is_none() {
            return None;
        }
        let ghost before = *self;
        proof {
            assert(before.slots(kind).contains_key(e.index()));
            assert(stored_valid(before.slots(kind)));
            assert forall|v: Component| #[trigger] stored_valid(before.slots(kind).insert(e.index(), (e.version(), v))) by {
                assert(before.slots(kind).insert(e.index(), (e.version(), v)).dom() == before.slots(kind).dom());
            }
        }
        let r = match kind {
            ComponentKind::Name => component_map_get_mut(&mut self.names, bits),
            ComponentKind::Visibility => component_map_get_mut(&mut self.visibilities, bits),
            ComponentKind::Transform => component_map_get_mut(&mut self.transforms, bits),
            ComponentKind::Camera => component_map_get_mut(&mut self.cameras, bits),
            ComponentKind::PointLight => component_map_get_mut(&mut self.point_lights, bits),
            ComponentKind::DirectionalLight => component_map_get_mut(&mut self.directional_lights, bits),
            ComponentKind::SpotLight => component_map_get_mut(&mut self.spot_lights, bits),
            ComponentKind::MeshInstance => component_map_get_mut(&mut self.mesh_instances, bits),
        };
        Some(r)
    }

    /// `after` is `before` with `e` spawned as by `spawn_empty`: a fresh slot,
    /// a visible visibility component, nothing else changed.
    pub open spec fn spawned_empty(before: Scene, after: Scene, e: Entity) -> bool {
        &&& !before.live().contains_key(e.index())
        &&& after.live() == before.live().insert(e.index(), e.version())
        &&& after.slots(ComponentKind::Visibility) == stored_after_insert(
            before.slots(ComponentKind::Visibility),
            e.bits_spec(),
            Component::Visibility(Visibility { visible: true }),
        )
        &&& after.active_camera_spec() == before.active_camera_spec()
        &&& after.ambient_color_spec() == before.ambient_color_spec()
        &&& forall|k: ComponentKind| k != ComponentKind::Visibility ==> #[trigger] after.slots(k) == before.slots(k)
    }

    /// `after` is `before` with `entity` despawned as by `despawn`.
    pub open spec fn despawned(before: Scene, after: Scene, entity: Entity) -> bool {
        &&& after.live() == if before.alive(entity) {
            before.live().remove(entity.index())
        } else {
            before.live()
        }
        &&& forall|k: ComponentKind| #[trigger] after.slots(k) == stored_after_remove(before.slots(k), entity.bits_spec())
        &&& after.active_camera_spec() == if before.active_camera_spec() == Some(entity) {
            None
        } else {
            before.active_camera_spec()
        }
        &&& after.ambient_color_spec() == before.ambient_color_spec()
    }

    /// Creates an entity with only a visibility component, visible.
    pub fn spawn_empty(&mut self) -> (e: Entity)
        requires
            old(self).wf(),
            old(self).live().dom().len() + 2 < u32::MAX,
        ensures
            final(self).wf(),
            Scene::spawned_empty(*old(self), *final(self), e),
            final(self).alive(e),
            final(self).visible(e),
    {
        let ghost before = *self;
        let bits = entity_map_insert(&mut self.entities);
        let e = Entity::from_bits(bits);
        let ghost spawned = *self;
        proof {
            assert forall|k: ComponentKind| #[trigger] spawned.slots(k) == before.slots(k) by {
                match k { _ => {} }
            }
            assert(live_valid(spawned.live()));
        }
        self.insert_component(ComponentKind::Visibility, e, Component::Visibility(Visibility::visible()));
        e
    }

    /// Removes the entity and all its components; the scene loses its
    /// active camera if that was the entity.
    pub fn despawn(&mut self, entity: Entity)
        requires
            old(self).wf(),
        ensures
            final(self).wf(),
            Scene::despawned(*old(self), *final(self), entity),
            !final(self).alive(entity),
            forall|k: ComponentKind| #[trigger] final(self).component(k, entity) is None,
    {
        let ghost before = *self;
        let bits = entity.to_bits();
        entity_map_remove(&mut self.entities, bits);
        let ghost s0 = *self;
        proof {
            assert forall|k: ComponentKind| #[trigger] s0.slots(k) == before.slots(k) by {
                match k { _ => {} }
            }
        }
        self.remove_component(ComponentKind::Name, entity);
        let ghost s1 = *self;
        self.remove_component(ComponentKind::Visibility, entity);
        let ghost s2 = *self;
        self.remove_component(ComponentKind::Transform, entity);
        let ghost s3 = *self;
        self.remove_component(ComponentKind::Camera, entity);
        let ghost s4 = *self;
        self.remove_component(ComponentKind::PointLight, entity);
        let ghost s5 = *self;
        self.remove_component(ComponentKind::DirectionalLight, entity);
        let ghost s6 = *self;
        self.remove_component(ComponentKind::SpotLight, entity);
        let ghost s7 = *self;
        self.remove_component(ComponentKind::MeshInstance, entity);
        let ghost s8 = *self;
        let clear = match &self.active_camera {
            Some(active) => active.same(&entity),
            None => false,
        };
        if clear {
            self.active_camera = None;
        }
        proof {
            assert forall|k: ComponentKind| #[trigger] self.slots(k) == stored_after_remove(before.slots(k), entity.bits_spec()) by {
                assert(self.slots(k) == s8.slots(k));
                assert(s0.slots(k) == before.slots(k));
                match k {
                    ComponentKind::Name => {
                        assert(s8.slots(k) == s1.slots(k));
                    }
                    ComponentKind::Visibility => {
                        assert(s8.slots(k) == s2.slots(k));
                        assert(s1.slots(k) == s0.slots(k));
                    }
                    ComponentKind::Transform => {
                        assert(s8.slots(k) == s3.slots(k));
                        assert(s2.slots(k) == s0.slots(k));
                    }
                    ComponentKind::Camera => {
                        assert(s8.slots(k) == s4.slots(k));
                        assert(s3.slots(k) == s0.slots(k));
                    }
                    ComponentKind::PointLight => {
                        assert(s8.slots(k) == s5.slots(k));
                        assert(s4.slots(k) == s0.slots(k));
                    }
                    ComponentKind::DirectionalLight => {
                        assert(s8.slots(k) == s6.slots(k));
                        assert(s5.slots(k) == s0.slots(k));
                    }
                    ComponentKind::SpotLight => {
                        assert(s8.slots(k) == s7.slots(k));
                        assert(s6.slots(k) == s0.slots(k));
                    }
                    ComponentKind::MeshInstance => {
                        assert(s7.slots(k) == s0.slots(k));
                    }
                }
            }
        }
    }

    /// Stores (or replaces) the entity's name.
    pub fn insert_name(&mut self, entity: Entity, name: Name)
        requires
            old(self).wf(),
        ensures
            final(self).wf(),
            final(self).same_except(old(self), ComponentKind::Name),
            final(self).slots(ComponentKind::Name) == stored_after_insert(old(self).slots(ComponentKind::Name), entity.bits_spec(), Component::Name(name)),
    {
        self.insert_component(ComponentKind::Name, entity, Component::Name(name));
    }

    /// Stores (or replaces) the entity's transform.
    pub fn insert_transform(&mut self, entity: Entity, transform: Transform)
        requires
            old(self).wf(),
        ensures
            final(self).wf(),
            final(self).same_except(old(self), ComponentKind::Transform),
            final(self).slots(ComponentKind::Transform) == stored_after_insert(old(self).slots(ComponentKind::Transform), entity.bits_spec(), Component::Transform(transform)),
    {
        self.insert_component(ComponentKind::Transform, entity, Component::Transform(transform));
    }

    /// Stores (or replaces) the entity's camera.
    pub fn insert_camera(&mut self, entity: Entity, camera: Camera)
        requires
            old(self).wf(),
        ensures
            final(self).wf(),
            final(self).same_except(old(self), ComponentKind::Camera),
            final(self).slots(ComponentKind::Camera) == stored_after_insert(old(self).slots(ComponentKind::Camera), entity.bits_spec(), Component::Camera(camera)),
    {
        self.insert_component(ComponentKind::Camera, entity, Component::Camera(camera));
    }

    /// Stores (or replaces) the entity's point light.
    pub fn insert_point_light(&mut self, entity: Entity, light: PointLight)
        requires
            old(self).wf(),
        ensures
            final(self).wf(),
            final(self).same_except(old(self), ComponentKind::PointLight),
            final(self).slots(ComponentKind::PointLight) == stored_after_insert(old(self).slots(ComponentKind::PointLight), entity.bits_spec(), Component::PointLight(light)),
    {
        self.insert_component(ComponentKind::PointLight, entity, Component::PointLight(light));
    }

    /// Stores (or replaces) the entity's directional light.
    pub fn insert_directional_light(&mut self, entity: Entity, light: DirectionalLight)
        requires
            old(self).wf(),
        ensures
            final(self).wf(),
            final(self).same_except(old(self), ComponentKind::DirectionalLight),
            final(self).slots(ComponentKind::DirectionalLight) == stored_after_insert(old(self).slots(ComponentKind::DirectionalLight), entity.bits_spec(), Component::DirectionalLight(light)),
    {
        self.insert_component(ComponentKind::DirectionalLight, entity, Component::DirectionalLight(light));
    }

    /// Stores (or replaces) the entity's spot light.
    pub fn insert_spot_light(&mut self, entity: Entity, light: SpotLight)
        requires
            old(self).wf(),
        ensures
            final(self).wf(),
            final(self).same_except(old(self), ComponentKind::SpotLight),
            final(self).slots(ComponentKind::SpotLight) == stored_after_insert(old(self).slots(ComponentKind::SpotLight), entity.bits_spec(), Component::SpotLight(light)),
    {
        self.insert_component(ComponentKind::SpotLight, entity, Component::SpotLight(light));
    }

    /// Stores (or replaces) the entity's mesh instance.
    pub fn insert_mesh_instance_component(&mut self, entity: Entity, mesh: MeshInstance)
        requires
            old(self).wf(),
        ensures
            final(self).wf(),
            final(self).same_except(old(self), ComponentKind::MeshInstance),
            final(self).slots(ComponentKind::MeshInstance) == stored_after_insert(old(self).slots(ComponentKind::MeshInstance), entity.bits_spec(), Component::MeshInstance(mesh)),
    {
        self.insert_component(ComponentKind::MeshInstance, entity, Component::MeshInstance(mesh));
    }

    /// The storage after a bundle with an optional name, a transform and a
    /// component `c` of `kind` was stored under `e`.
    pub open spec fn bundle_stored(&self, old: &Scene, e: Entity, name: Option<Name>, transform: Transform, kind: ComponentKind, c: Component) -> bool {
        &&& self.live() == old.live()
        &&& self.active_camera_spec() == old.active_camera_spec()
        &&& self.ambient_color_spec() == old.ambient_color_spec()
        &&& self.slots(ComponentKind::Name) == match name {
            Some(n) => stored_after_insert(old.slots(ComponentKind::Name), e.bits_spec(), Component::Name(n)),
            None => old.slots(ComponentKind::Name),
        }
        &&& self.slots(ComponentKind::Transform) == stored_after_insert(old.slots(ComponentKind::Transform), e.bits_spec(), Component::Transform(transform))
        &&& self.slots(kind) == stored_after_insert(old.slots(kind), e.bits_spec(), c)
        &&& forall|k: ComponentKind| k != ComponentKind::Name && k != ComponentKind::Transform && k != kind ==> #[trigger] self.slots(k) == old.slots(k)
    }

    fn insert_bundle(&mut self, e: Entity, name: Option<Name>, transform: Transform, kind: ComponentKind, c: Component)
        requires
            old(self).wf(),
            c.kind() == kind,
            kind != ComponentKind::Name,
            kind != ComponentKind::Transform,
        ensures
            final(self).wf(),
            final(self).bundle_stored(old(self), e, name, transform, kind, c),
    {
        let ghost s0 = *self;
        match name {
            Some(n) => self.insert_name(e, n),
            None => {}
        }
        let ghost s1 = *self;
        self.insert_transform(e, transform);
        let ghost s2 = *self;
        self.insert_component(kind, e, c);
        proof {
            assert(self.slots(ComponentKind::Name) == s2.slots(ComponentKind::Name));
            assert(s2.slots(ComponentKind::Name) == s1.slots(ComponentKind::Name));
            assert(self.slots(ComponentKind::Transform) == s2.slots(ComponentKind::Transform));
            assert(s1.slots(ComponentKind::Transform) == s0.slots(ComponentKind::Transform));
            assert(s2.slots(kind) == s1.slots(kind));
            assert(s1.slots(kind) == s0.slots(kind));
            assert forall|k: ComponentKind| k != ComponentKind::Name && k != ComponentKind::Transform && k != kind implies #[trigger] self.slots(k) == s0.slots(k) by {
                assert(self.slots(k) == s2.slots(k));
                assert(s2.slots(k) == s1.slots(k));
                assert(s1.slots(k) == s0.slots(k));
            }
        }
    }

    /// Stores the camera bundle's components under the entity.
    pub fn insert_camera_bundle(&mut self, entity: Entity, bundle: CameraBundle)
        requires
            old(self).wf(),
        ensures
            final(self).wf(),
            final(self).bundle_stored(old(self), entity, bundle.name, bundle.transform, ComponentKind::Camera, Component::Camera(bundle.camera)),
    {
        self.insert_bundle(entity, bundle.name, bundle.transform, ComponentKind::Camera, Component::Camera(bundle.camera));
    }

    /// Stores the directional light bundle's components under the entity.
    pub fn insert_directional_light_bundle(&mut self, entity: Entity, bundle: DirectionalLightBundle)
        requires
            old(self).wf(),
        ensures
            final(self).wf(),
            final(self).bundle_stored(old(self), entity, bundle.name, bundle.transform, ComponentKind::DirectionalLight, Component::DirectionalLight(bundle.light)),
    {
        self.insert_bundle(entity, bundle.name, bundle.transform, ComponentKind::DirectionalLight, Component::DirectionalLight(bundle.light));
    }

    /// Stores the point light bundle's components under the entity.
    pub fn insert_point_light_bundle(&mut self, entity: Entity, bundle: PointLightBundle)
        requires
            old(self).wf(),
        ensures
            final(self).wf(),
            final(self).bundle_stored(old(self), entity, bundle.name, bundle.transform, ComponentKind::PointLight, Component::PointLight(bundle.light)),
    {
        self.insert_bundle(entity, bundle.name, bundle.transform, ComponentKind::PointLight, Component::PointLight(bundle.light));
    }

    /// Stores the spot light bundle's components under the entity.
    pub fn insert_spot_light_bundle(&mut self, entity: Entity, bundle: SpotLightBundle)
        requires
            old(self).wf(),
        ensures
            final(self).wf(),
            final(self).bundle_stored(old(self), entity, bundle.name, bundle.transform, ComponentKind::SpotLight, Component::SpotLight(bundle.light)),
    {
        self.insert_bundle(entity, bundle.name, bundle.transform, ComponentKind::SpotLight, Component::SpotLight(bundle.light));
    }

    /// Stores the mesh instance bundle's components under the entity.
    pub fn insert_mesh_instance_bundle(&mut self, entity: Entity, bundle: MeshInstanceBundle)
        requires
            old(self).wf(),
        ensures
            final(self).wf(),
            final(self).bundle_stored(old(self), entity, bundle.name, bundle.transform, ComponentKind::MeshInstance, Component::MeshInstance(bundle.mesh_instance)),
    {
        self.insert_bundle(entity, bundle.name, bundle.transform, ComponentKind::MeshInstance, Component::MeshInstance(bundle.mesh_instance));
    }

    /// The scene after spawning `e` (visible) and storing a bundle under it,
    /// starting from `old`; the active camera is left to the caller.
    pub open spec fn spawned_with(&self, old: &Scene, e: Entity, name: Option<Name>, transform: Transform, kind: ComponentKind, c: Component) -> bool {
        &&& !old.live().contains_key(e.index())
        &&& self.live() == old.live().insert(e.index(), e.version())
        &&& self.ambient_color_spec() == old.ambient_color_spec()
        &&& self.slots(ComponentKind::Visibility) == stored_after_insert(old.slots(ComponentKind::Visibility), e.bits_spec(), Component::Visibility(Visibility { visible: true }))
        &&& self.slots(ComponentKind::Name) == match name {
            Some(n) => stored_after_insert(old.slots(ComponentKind::Name), e.bits_spec(), Component::Name(n)),
            None => old.slots(ComponentKind::Name),
        }
        &&& self.slots(ComponentKind::Transform) == stored_after_insert(old.slots(ComponentKind::Transform), e.bits_spec(), Component::Transform(transform))
        &&& self.slots(kind) == stored_after_insert(old.slots(kind), e.bits_spec(), c)
        &&& forall|k: ComponentKind| k != ComponentKind::Visibility && k != ComponentKind::Name && k != ComponentKind::Transform && k != kind ==> #[trigger] self.slots(k) == old.slots(k)
    }

    fn spawn_bundle(&mut self, name: Option<Name>, transform: Transform, kind: ComponentKind, c: Component) -> (e: Entity)
        requires
            old(self).wf(),
            old(self).live().dom().len() + 2 < u32::MAX,
            c.kind() == kind,
            kind != ComponentKind::Name,
            kind != ComponentKind::Transform,
            kind != ComponentKind::Visibility,
        ensures
            final(self).wf(),
            final(self).spawned_with(old(self), e, name, transform, kind, c),
            final(self).active_camera_spec() == old(self).active_camera_spec(),
    {
        let ghost s0 = *self;
        let e = self.spawn_empty();
        let ghost s1 = *self;
        self.insert_bundle(e, name, transform, kind, c);
        proof {
            assert(self.slots(ComponentKind::Visibility) == s1.slots(ComponentKind::Visibility));
            assert(s1.slots(ComponentKind::Name) == s0.slots(ComponentKind::Name));
            assert(s1.slots(ComponentKind::Transform) == s0.slots(ComponentKind::Transform));
            assert(s1.slots(kind) == s0.slots(kind));
            assert forall|k: ComponentKind| k != ComponentKind::Visibility && k != ComponentKind::Name && k != ComponentKind::Transform && k != kind implies #[trigger] self.slots(k) == s0.slots(k) by {
                assert(self.slots(k) == s1.slots(k));
                assert(s1.slots(k) == s0.slots(k));
            }
        }
        e
    }

    /// Spawns a camera entity; it becomes the active camera if there is none.
    pub fn spawn_camera(&mut self, bundle: CameraBundle) -> (e: Entity)
        requires
            old(self).wf(),
            old(self).live().dom().len() + 2 < u32::MAX,
        ensures
            final(self).wf(),
            final(self).spawned_with(old(self), e, bundle.name, bundle.transform, ComponentKind::Camera, Component::Camera(bundle.camera)),
            final(self).active_camera_spec() == match old(self).active_camera_spec() {
                Some(a) => Some(a),
                None => Some(e),
            },
    {
        let e = self.spawn_bundle(bundle.name, bundle.transform, ComponentKind::Camera, Component::Camera(bundle.camera));
        let ghost spawned = *self;
        if self.active_camera.is_none() {
            self.active_camera = Some(e);
        }
        proof {
            assert forall|k: ComponentKind| #[trigger] self.slots(k) == spawned.slots(k) by {
                match k { _ => {} }
            }
        }
        e
    }

    /// Spawns a directional light entity.
    pub fn spawn_directional_light(&mut self, bundle: DirectionalLightBundle) -> (e: Entity)
        requires
            old(self).wf(),
            old(self).live().dom().len() + 2 < u32::MAX,
        ensures
            final(self).wf(),
            final(self).spawned_with(old(self), e, bundle.name, bundle.transform, ComponentKind::DirectionalLight, Component::DirectionalLight(bundle.light)),
            final(self).active_camera_spec() == old(self).active_camera_spec(),
    {
        self.spawn_bundle(bundle.name, bundle.transform, ComponentKind::DirectionalLight, Component::DirectionalLight(bundle.light))
    }

    /// Spawns a point light entity.
    pub fn spawn_point_light(&mut self, bundle: PointLightBundle) -> (e: Entity)
        requires
            old(self).wf(),
            old(self).live().dom().len() + 2 < u32::MAX,
        ensures
            final(self).wf(),
            final(self).spawned_with(old(self), e, bundle.name, bundle.transform, ComponentKind::PointLight, Component::PointLight(bundle.light)),
            final(self).active_camera_spec() == old(self).active_camera_spec(),
    {
        self.spawn_bundle(bundle.name, bundle.transform, ComponentKind::PointLight, Component::PointLight(bundle.light))
    }

    /// Spawns a spot light entity.
    pub fn spawn_spot_light(&mut self, bundle: SpotLightBundle) -> (e: Entity)
        requires
            old(self).wf(),
            old(self).live().dom().len() + 2 < u32::MAX,
        ensures
            final(self).wf(),
            final(self).spawned_with(old(self), e, bundle.name, bundle.transform, ComponentKind::SpotLight, Component::SpotLight(bundle.light)),
            final(self).active_camera_spec() == old(self).active_camera_spec(),
    {
        self.spawn_bundle(bundle.name, bundle.transform, ComponentKind::SpotLight, Component::SpotLight(bundle.light))
    }

    /// Spawns a mesh instance entity.
    pub fn spawn_mesh_instance(&mut self, bundle: MeshInstanceBundle) -> (e: Entity)
        requires
            old(self).wf(),
            old(self).live().dom().len() + 2 < u32::MAX,
        ensures
            final(self).wf(),
            final(self).spawned_with(old(self), e, bundle.name, bundle.transform, ComponentKind::MeshInstance, Component::MeshInstance(bundle.mesh_instance)),
            final(self).active_camera_spec() == old(self).active_camera_spec(),
    {
        self.spawn_bundle(bundle.name, bundle.transform, ComponentKind::MeshInstance, Component::MeshInstance(bundle.mesh_instance))
    }

    /// The entity's name, if it has one.
    pub fn name(&self, entity: Entity) -> (r: Option<&Name>)
        requires
            self.wf(),
        ensures
            r matches Some(c) ==> self.component(ComponentKind::Name, entity) == Some(Component::Name(*c)),
            r is None ==> self.component(ComponentKind::Name, entity) is None,
    {
        match self.get_component(ComponentKind::Name, entity) {
            Some(Component::Name(c)) => Some(c),
            _ => None,
        }
    }

    /// A mutable borrow of the entity's name, if it has one.
    pub fn name_mut(&mut self, entity: Entity) -> (r: Option<&mut Name>)
        requires
            old(self).wf(),
        ensures
            r matches Some(c) ==> (old(self).component(ComponentKind::Name, entity) == Some(Component::Name(*c))
                && final(self).wf()
                && final(self).same_except(old(self), ComponentKind::Name)
                && final(self).slots(ComponentKind::Name) == old(self).slots(ComponentKind::Name).insert(entity.index(), (entity.version(), Component::Name(*final(c))))
                && final(self).component(ComponentKind::Name, entity) == Some(Component::Name(*final(c)))),
            r is None ==> (old(self).component(ComponentKind::Name, entity) is None && *final(self) == *old(self)),
    {
        match self.get_component_mut(ComponentKind::Name, entity) {
            Some(Component::Name(c)) => Some(c),
            _ => None,
        }
    }

    /// The entity's visibility, if it has one.
    pub fn visibility(&self, entity: Entity) -> (r: Option<&Visibility>)
        requires
            self.wf(),
        ensures
            r matches Some(c) ==> self.component(ComponentKind::Visibility, entity) == Some(Component::Visibility(*c)),
            r is None ==> self.component(ComponentKind::Visibility, entity) is None,
    {
        match self.get_component(ComponentKind::Visibility, entity) {
            Some(Component::Visibility(c)) => Some(c),
            _ => None,
        }
    }

    /// A mutable borrow of the entity's visibility, if it has one.
    pub fn visibility_mut(&mut self, entity: Entity) -> (r: Option<&mut Visibility>)
        requires
            old(self).wf(),
        ensures
            r matches Some(c) ==> (old(self).component(ComponentKind::Visibility, entity) == Some(Component::Visibility(*c))
                && final(self).wf()
                && final(self).same_except(old(self), ComponentKind::Visibility)
                && final(self).slots(ComponentKind::Visibility) == old(self).slots(ComponentKind::Visibility).insert(entity.index(), (entity.version(), Component::Visibility(*final(c))))
                && final(self).component(ComponentKind::Visibility, entity) == Some(Component::Visibility(*final(c)))),
            r is None ==> (old(self).component(ComponentKind::Visibility, entity) is None && *final(self) == *old(self)),
    {
        match self.get_component_mut(ComponentKind::Visibility, entity) {
            Some(Component::Visibility(c)) => Some(c),
            _ => None,
        }
    }

    /// The entity's transform, if it has one.
    pub fn transform(&self, entity: Entity) -> (r: Option<&Transform>)
        requires
            self.wf(),
        ensures
            r matches Some(c) ==> self.component(ComponentKind::Transform, entity) == Some(Component::Transform(*c)),
            r is None ==> self.component(ComponentKind::Transform, entity) is None,
    {
        match self.get_component(ComponentKind::Transform, entity) {
            Some(Component::Transform(c)) => Some(c),
            _ => None,
        }
    }

    /// A mutable borrow of the entity's transform, if it has one.
    pub fn transform_mut(&mut self, entity: Entity) -> (r: Option<&mut Transform>)
        requires
            old(self).wf(),
        ensures
            r matches Some(c) ==> (old(self).component(ComponentKind::Transform, entity) == Some(Component::Transform(*c))
                && final(self).wf()
                && final(self).same_except(old(self), ComponentKind::Transform)
                && final(self).slots(ComponentKind::Transform) == old(self).slots(ComponentKind::Transform).insert(entity.index(), (entity.version(), Component::Transform(*final(c))))
                && final(self).component(ComponentKind::Transform, entity) == Some(Component::Transform(*final(c)))),
            r is None ==> (old(self).component(ComponentKind::Transform, entity) is None && *final(self) == *old(self)),
    {
        match self.get_component_mut(ComponentKind::Transform, entity) {
            Some(Component::Transform(c)) => Some(c),
            _ => None,
        }
    }

    /// The entity's camera, if it has one.
    pub fn camera(&self, entity: Entity) -> (r: Option<&Camera>)
        requires
            self.wf(),
        ensures
            r matches Some(c) ==> self.component(ComponentKind::Camera, entity) == Some(Component::Camera(*c)),
            r is None ==> self.component(ComponentKind::Camera, entity) is None,
    {
        match self.get_component(ComponentKind::Camera, entity) {
            Some(Component::Camera(c)) => Some(c),
            _ => None,
        }
    }

    /// A mutable borrow of the entity's camera, if it has one.
    pub fn camera_mut(&mut self, entity: Entity) -> (r: Option<&mut Camera>)
        requires
            old(self).wf(),
        ensures
            r matches Some(c) ==> (old(self).component(ComponentKind::Camera, entity) == Some(Component::Camera(*c))
                && final(self).wf()
                && final(self).same_except(old(self), ComponentKind::Camera)
                && final(self).slots(ComponentKind::Camera) == old(self).slots(ComponentKind::Camera).insert(entity.index(), (entity.version(), Component::Camera(*final(c))))
                && final(self).component(ComponentKind::Camera, entity) == Some(Component::Camera(*final(c)))),
            r is None ==> (old(self).component(ComponentKind::Camera, entity) is None && *final(self) == *old(self)),
    {
        match self.get_component_mut(ComponentKind::Camera, entity) {
            Some(Component::Camera(c)) => Some(c),
            _ => None,
        }
    }

    /// The entity's point light, if it has one.
    pub fn point_light(&self, entity: Entity) -> (r: Option<&PointLight>)
        requires
            self.wf(),
        ensures
            r matches Some(c) ==> self.component(ComponentKind::PointLight, entity) == Some(Component::PointLight(*c)),
            r is None ==> self.component(ComponentKind::PointLight, entity) is None,
    {
        match self.get_component(ComponentKind::PointLight, entity) {
            Some(Component::PointLight(c)) => Some(c),
            _ => None,
        }
    }

    /// A mutable borrow of the entity's point light, if it has one.
    pub fn point_light_mut(&mut self, entity: Entity) -> (r: Option<&mut PointLight>)
        requires
            old(self).wf(),
        ensures
            r matches Some(c) ==> (old(self).component(ComponentKind::PointLight, entity) == Some(Component::PointLight(*c))
                && final(self).wf()
                && final(self).same_except(old(self), ComponentKind::PointLight)
                && final(self).slots(ComponentKind::PointLight) == old(self).slots(ComponentKind::PointLight).insert(entity.index(), (entity.version(), Component::PointLight(*final(c))))
                && final(self).component(ComponentKind::PointLight, entity) == Some(Component::PointLight(*final(c)))),
            r is None ==> (old(self).component(ComponentKind::PointLight, entity) is None && *final(self) == *old(self)),
    {
        match self.get_component_mut(ComponentKind::PointLight, entity) {
            Some(Component::PointLight(c)) => Some(c),
            _ => None,
        }
    }

    /// The entity's directional light, if it has one.
    pub fn directional_light(&self, entity: Entity) -> (r: Option<&DirectionalLight>)
        requires
            self.wf(),
        ensures
            r matches Some(c) ==> self.component(ComponentKind::DirectionalLight, entity) == Some(Component::DirectionalLight(*c)),
            r is None ==> self.component(ComponentKind::DirectionalLight, entity) is None,
    {
        match self.get_component(ComponentKind::DirectionalLight, entity) {
            Some(Component::DirectionalLight(c)) => Some(c),
            _ => None,
        }
    }

    /// A mutable borrow of the entity's directional light, if it has one.
    pub fn directional_light_mut(&mut self, entity: Entity) -> (r: Option<&mut DirectionalLight>)
        requires
            old(self).wf(),
        ensures
            r matches Some(c) ==> (old(self).component(ComponentKind::DirectionalLight, entity) == Some(Component::DirectionalLight(*c))
                && final(self).wf()
                && final(self).same_except(old(self), ComponentKind::DirectionalLight)
                && final(self).slots(ComponentKind::DirectionalLight) == old(self).slots(ComponentKind::DirectionalLight).insert(entity.index(), (entity.version(), Component::DirectionalLight(*final(c))))
                && final(self).component(ComponentKind::DirectionalLight, entity) == Some(Component::DirectionalLight(*final(c)))),
            r is None ==> (old(self).component(ComponentKind::DirectionalLight, entity) is None && *final(self) == *old(self)),
    {
        match self.get_component_mut(ComponentKind::DirectionalLight, entity) {
            Some(Component::DirectionalLight(c)) => Some(c),
            _ => None,
        }
    }

    /// The entity's spot light, if it has one.
    pub fn spot_light(&self, entity: Entity) -> (r: Option<&SpotLight>)
        requires
            self.wf(),
        ensures
            r matches Some(c) ==> self.component(ComponentKind::SpotLight, entity) == Some(Component::SpotLight(*c)),
            r is None ==> self.component(ComponentKind::SpotLight, entity) is None,
    {
        match self.get_component(ComponentKind::SpotLight, entity) {
            Some(Component::SpotLight(c)) => Some(c),
            _ => None,
        }
    }

    /// A mutable borrow of the entity's spot light, if it has one.
    pub fn spot_light_mut(&mut self, entity: Entity) -> (r: Option<&mut SpotLight>)
        requires
            old(self).wf(),
        ensures
            r matches Some(c) ==> (old(self).component(ComponentKind::SpotLight, entity) == Some(Component::SpotLight(*c))
                && final(self).wf()
                && final(self).same_except(old(self), ComponentKind::SpotLight)
                && final(self).slots(ComponentKind::SpotLight) == old(self).slots(ComponentKind::SpotLight).insert(entity.index(), (entity.version(), Component::SpotLight(*final(c))))
                && final(self).component(ComponentKind::SpotLight, entity) == Some(Component::SpotLight(*final(c)))),
            r is None ==> (old(self).component(ComponentKind::SpotLight, entity) is None && *final(self) == *old(self)),
    {
        match self.get_component_mut(ComponentKind::SpotLight, entity) {
            Some(Component::SpotLight(c)) => Some(c),
            _ => None,
        }
    }

    /// The entity's mesh instance, if it has one.
    pub fn mesh_instance(&self, entity: Entity) -> (r: Option<&MeshInstance>)
        requires
            self.wf(),
        ensures
            r matches Some(c) ==> self.component(ComponentKind::MeshInstance, entity) == Some(Component::MeshInstance(*c)),
            r is None ==> self.component(ComponentKind::MeshInstance, entity) is None,
    {
        match self.get_component(ComponentKind::MeshInstance, entity) {
            Some(Component::MeshInstance(c)) => Some(c),
            _ => None,
        }
    }

    /// A mutable borrow of the entity's mesh instance, if it has one.
    pub fn mesh_instance_mut(&mut self, entity: Entity) -> (r: Option<&mut MeshInstance>)
        requires
            old(self).wf(),
        ensures
            r matches Some(c) ==> (old(self).component(ComponentKind::MeshInstance, entity) == Some(Component::MeshInstance(*c))
                && final(self).wf()
                && final(self).same_except(old(self), ComponentKind::MeshInstance)
                && final(self).slots(ComponentKind::MeshInstance) == old(self).slots(ComponentKind::MeshInstance).insert(entity.index(), (entity.version(), Component::MeshInstance(*final(c))))
                && final(self).component(ComponentKind::MeshInstance, entity) == Some(Component::MeshInstance(*final(c)))),
            r is None ==> (old(self).component(ComponentKind::MeshInstance, entity) is None && *final(self) == *old(self)),
    {
        match self.get_component_mut(ComponentKind::MeshInstance, entity) {
            Some(Component::MeshInstance(c)) => Some(c),
            _ => None,
        }
    }

    /// Whether the entity is drawn and lit: its visibility component, or
    /// visible when it has none.
    pub fn is_visible(&self, entity: Entity) -> (r: bool)
        requires
            self.wf(),
        ensures
            r == self.visible(entity),
    {
        match self.get_component(ComponentKind::Visibility, entity) {
            Some(Component::Visibility(v)) => v.visible,
            _ => true,
        }
    }

    /// Makes the entity the active camera.
    pub fn set_active_camera(&mut self, entity: Entity)
        requires
            old(self).wf(),
        ensures
            final(self).wf(),
            final(self).active_camera_spec() == Some(entity),
            final(self).live() == old(self).live(),
            final(self).ambient_color_spec() == old(self).ambient_color_spec(),
            forall|k: ComponentKind| #[trigger] final(self).slots(k) == old(self).slots(k),
    {
        let ghost before = *self;
        self.active_camera = Some(entity);
        proof {
            assert forall|k: ComponentKind| #[trigger] self.slots(k) == before.slots(k) by {
                match k { _ => {} }
            }
        }
    }

    pub fn active_camera(&self) -> (r: Option<Entity>)
        ensures
            r == self.active_camera_spec(),
    {
        self.active_camera
    }

    pub fn ambient_color(&self) -> (r: Vec4Bits)
        ensures
            r == self.ambient_color_spec(),
    {
        self.ambient_color
    }

    pub fn set_ambient_color(&mut self, ambient_color: Vec4Bits)
        requires
            old(self).wf(),
        ensures
            final(self).wf(),
            final(self).ambient_color_spec() == ambient_color,
            final(self).live() == old(self).live(),
            final(self).active_camera_spec() == old(self).active_camera_spec(),
            forall|k: ComponentKind| #[trigger] final(self).slots(k) == old(self).slots(k),
    {
        let ghost before = *self;
        self.ambient_color = ambient_color;
        proof {
            assert forall|k: ComponentKind| #[trigger] self.slots(k) == before.slots(k) by {
                match k { _ => {} }
            }
        }
    }

    /// The live entities, by increasing slot.
    pub fn entities(&self) -> (r: Vec<Entity>)
        requires
            self.wf(),
        ensures
            lists_live(r@.map_values(|e: Entity| e.bits_spec()), self.live()),
    {
        let keys = entity_map_keys(&self.entities);
        let mut r: Vec<Entity> = Vec::new();
        let mut i: usize = 0;
        while i < keys.len()
            invariant
                self.wf(),
                lists_live(keys@, self.live()),
                i <= keys.len(),
                r@.len() == i,
                forall|j: int| 0 <= j < i ==> #[trigger] r@[j].bits_spec() == keys@[j],
            decreases keys.len() - i,
        {
            proof {
                assert(holds_key(self.live(), keys@[i as int], |v: u32| live_version(v)));
                assert(self.live().contains_key(crate::scene::storage::key_index(keys@[i as int])));
            }
            r.push(Entity::from_bits(keys[i]));
            i = i + 1;
        }
        proof {
            assert(r@.map_values(|e: Entity| e.bits_spec()) =~= keys@);
        }
        r
    }

    /// The keys the transform storage holds, by increasing slot; a slot may
    /// still hold the key of a despawned entity's transform.
    pub fn transform_entities(&self) -> (r: Vec<Entity>)
        requires
            self.wf(),
        ensures
            lists_stored(r@.map_values(|e: Entity| e.bits_spec()), self.slots(ComponentKind::Transform)),
    {
        self.stored_entities(ComponentKind::Transform)
    }

    /// The keys a component storage holds, by increasing slot.
    fn stored_keys(&self, kind: ComponentKind) -> (keys: Vec<u64>)
        ensures
            lists_stored(keys@, self.slots(kind)),
    {
        match kind {
            ComponentKind::Name => component_map_keys(&self.names),
            ComponentKind::Visibility => component_map_keys(&self.visibilities),
            ComponentKind::Transform => component_map_keys(&self.transforms),
            ComponentKind::Camera => component_map_keys(&self.cameras),
            ComponentKind::PointLight => component_map_keys(&self.point_lights),
            ComponentKind::DirectionalLight => component_map_keys(&self.directional_lights),
            ComponentKind::SpotLight => component_map_keys(&self.spot_lights),
            ComponentKind::MeshInstance => component_map_keys(&self.mesh_instances),
        }
    }

    fn stored_entities(&self, kind: ComponentKind) -> (r: Vec<Entity>)
        requires
            self.wf(),
        ensures
            lists_stored(r@.map_values(|e: Entity| e.bits_spec()), self.slots(kind)),
    {
        let keys = self.stored_keys(kind);
        let mut r: Vec<Entity> = Vec::new();
        let mut i: usize = 0;
        while i < keys.len()
            invariant
                self.wf(),
                lists_stored(keys@, self.slots(kind)),
                i <= keys.len(),
                r@.len() == i,
                forall|j: int| 0 <= j < i ==> #[trigger] r@[j].bits_spec() == keys@[j],
            decreases keys.len() - i,
        {
            proof {
                assert(holds_key(self.slots(kind), keys@[i as int], |p: (u32, Component)| stored_version(p)));
                assert(stored_valid(self.slots(kind)));
                assert(self.slots(kind).contains_key(crate::scene::storage::key_index(keys@[i as int])));
            }
            r.push(Entity::from_bits(keys[i]));
            i = i + 1;
        }
        proof {
            assert(r@.map_values(|e: Entity| e.bits_spec()) =~= keys@);
        }
        r
    }

    /// The active camera with its transform and camera components, when it
    /// has both.
    pub fn active_camera_components(&self) -> (r: Option<(Entity, &Transform, &Camera)>)
        requires
            self.wf(),
        ensures
            r matches Some(found) ==> (self.active_camera_spec() == Some(found.0)
                && self.component(ComponentKind::Transform, found.0) == Some(Component::Transform(*found.1))
                && self.component(ComponentKind::Camera, found.0) == Some(Component::Camera(*found.2))),
            r is None ==> match self.active_camera_spec() {
                None => true,
                Some(a) => self.component(ComponentKind::Transform, a) is None || self.component(ComponentKind::Camera, a) is None,
            },
    {
        let entity = match self.active_camera {
            Some(e) => e,
            None => return None,
        };
        let transform = match self.transform(entity) {
            Some(t) => t,
            None => return None,
        };
        let camera = match self.camera(entity) {
            Some(c) => c,
            None => return None,
        };
        Some((entity, transform, camera))
    }

    /// A stored key whose entity is visible and has a transform.
    pub open spec fn placed(&self, bits: u64) -> bool {
        self.visible_key(bits) && stored_under(self.slots(ComponentKind::Transform), bits) is Some
    }

    /// The keys of `kind` whose entities are placed, in slot order, at most
    /// `cap` of them.
    pub open spec fn placed_order(&self, kind: ComponentKind, cap: nat) -> Seq<u64> {
        at_most(self.placed_filter(kind), cap)
    }

    /// The keys of `kind` whose entities are placed, in slot order.
    pub open spec fn placed_filter(&self, kind: ComponentKind) -> Seq<u64> {
        slot_order(self.slots(kind)).filter(|b: u64| self.placed(b))
    }

    /// Every key of `keys` is a valid key that the storage of `kind` holds.
    pub open spec fn all_stored(&self, kind: ComponentKind, keys: Seq<u64>) -> bool {
        forall|j: int| 0 <= j < keys.len() ==> key_valid(#[trigger] keys[j]) && holds_stored(self.slots(kind), keys[j])
    }

    /// The keys whose lights are uploaded for one kind of light.
    pub open spec fn upload_order(&self, kind: ComponentKind) -> Seq<u64> {
        self.placed_order(kind, MAX_LIGHTS_PER_KIND as nat)
    }

    /// The keys whose meshes are drawn.
    pub open spec fn draw_order(&self) -> Seq<u64> {
        self.placed_filter(ComponentKind::MeshInstance)
    }

    fn key_is_placed(&self, bits: u64) -> (r: bool)
        requires
            self.wf(),
            key_valid(bits),
        ensures
            r == self.placed(bits),
    {
        let e = Entity::from_bits(bits);
        self.is_visible(e) && self.get_component(ComponentKind::Transform, e).is_some()
    }

    /// The keys of `kind` whose entities are placed, in slot order, stopping
    /// after `cap` of them.
    fn placed_keys(&self, kind: ComponentKind, cap: usize) -> (r: Vec<u64>)
        requires
            self.wf(),
        ensures
            r@ == self.placed_order(kind, cap as nat),
            self.all_stored(kind, r@),
            self.placed_filter(kind).len() <= usize::MAX,
    {
        let keys = self.stored_keys(kind);
        let ghost pred = |b: u64| self.placed(b);
        proof {
            lemma_lists_slots_unique(keys@, slot_order(self.slots(kind)), self.slots(kind), |p: (u32, Component)| stored_version(p));
            reveal(Seq::filter);
            assert(keys@.take(0) =~= Seq::<u64>::empty());
            assert(keys@.take(0).filter(pred) =~= Seq::<u64>::empty());
        }
        let mut r: Vec<u64> = Vec::new();
        let mut i: usize = 0;
        while i < keys.len() && r.len() < cap
            invariant
                self.wf(),
                keys@ == slot_order(self.slots(kind)),
                lists_stored(keys@, self.slots(kind)),
                pred == (|b: u64| self.placed(b)),
                i <= keys.len(),
                r.len() <= cap,
                r@ == keys@.take(i as int).filter(pred),
                self.all_stored(kind, r@),
            decreases keys.len() - i,
        {
            let k = keys[i];
            proof {
                assert(holds_key(self.slots(kind), keys@[i as int], |p: (u32, Component)| stored_version(p)));
                assert(stored_valid(self.slots(kind)));
                assert(self.slots(kind).contains_key(crate::scene::storage::key_index(k)));
                assert(key_valid(k));
                reveal(Seq::filter);
                assert(keys@.take(i + 1).drop_last() =~= keys@.take(i as int));
                assert(keys@.take(i + 1).last() == k);
            }
            if self.key_is_placed(k) {
                r.push(k);
            }
            i = i + 1;
        }
        proof {
            lemma_filter_take_prefix(keys@, i as int, pred);
            let all = keys@.filter(pred);
            broadcast use vstd::seq_lib::group_filter_ensures;
            assert(all.len() <= keys@.len());
            if i == keys.len() {
                assert(keys@.take(i as int) =~= keys@);
            } else {
                assert(r@.len() == cap);
                assert(all.take(cap as int) =~= r@);
            }
        }
        r
    }

    /// The point lights that reach the shaders, with their transforms: the
    /// first ones in slot order whose entities are visible and have a
    /// transform, at most `MAX_LIGHTS_PER_KIND`.
    pub fn point_lights_to_upload(&self) -> (r: Vec<(Transform, PointLight)>)
        requires
            self.wf(),
        ensures
            r@.len() == self.upload_order(ComponentKind::PointLight).len(),
            forall|j: int| 0 <= j < r@.len() ==> {
                &&& stored_under(self.slots(ComponentKind::Transform), self.upload_order(ComponentKind::PointLight)[j]) == Some(Component::Transform(#[trigger] r@[j].0))
                &&& stored_under(self.slots(ComponentKind::PointLight), self.upload_order(ComponentKind::PointLight)[j]) == Some(Component::PointLight(r@[j].1))
            },
    {
        let keys = self.placed_keys(ComponentKind::PointLight, MAX_LIGHTS_PER_KIND);
        let mut r: Vec<(Transform, PointLight)> = Vec::new();
        let mut i: usize = 0;
        while i < keys.len()
            invariant
                self.wf(),
                keys@ == self.upload_order(ComponentKind::PointLight),
                self.all_stored(ComponentKind::PointLight, keys@),
                i <= keys.len(),
                r@.len() == i,
                forall|j: int| 0 <= j < i ==> {
                    &&& stored_under(self.slots(ComponentKind::Transform), keys@[j]) == Some(Component::Transform(#[trigger] r@[j].0))
                    &&& stored_under(self.slots(ComponentKind::PointLight), keys@[j]) == Some(Component::PointLight(r@[j].1))
                },
            decreases keys.len() - i,
        {
            let k = keys[i];
            proof {
                assert(self.slots(ComponentKind::PointLight).contains_key(crate::scene::storage::key_index(keys@[i as int])));
                lemma_filter_member(slot_order(self.slots(ComponentKind::PointLight)), |b: u64| self.placed(b), MAX_LIGHTS_PER_KIND as nat, i as int);
            }
            let e = Entity::from_bits(k);
            match (self.transform(e), self.point_light(e)) {
                (Some(t), Some(l)) => r.push((*t, *l)),
                _ => {
                    proof {
                        assert(false);
                    }
                },
            }
            i = i + 1;
        }
        r
    }

    /// The directional lights that reach the shaders, with their transforms: the
    /// first ones in slot order whose entities are visible and have a
    /// transform, at most `MAX_LIGHTS_PER_KIND`.
    pub fn directional_lights_to_upload(&self) -> (r: Vec<(Transform, DirectionalLight)>)
        requires
            self.wf(),
        ensures
            r@.len() == self.upload_order(ComponentKind::DirectionalLight).len(),
            forall|j: int| 0 <= j < r@.len() ==> {
                &&& stored_under(self.slots(ComponentKind::Transform), self.upload_order(ComponentKind::DirectionalLight)[j]) == Some(Component::Transform(#[trigger] r@[j].0))
                &&& stored_under(self.slots(ComponentKind::DirectionalLight), self.upload_order(ComponentKind::DirectionalLight)[j]) == Some(Component::DirectionalLight(r@[j].1))
            },
    {
        let keys = self.placed_keys(ComponentKind::DirectionalLight, MAX_LIGHTS_PER_KIND);
        let mut r: Vec<(Transform, DirectionalLight)> = Vec::new();
        let mut i: usize = 0;
        while i < keys.len()
            invariant
                self.wf(),
                keys@ == self.upload_order(ComponentKind::DirectionalLight),
                self.all_stored(ComponentKind::DirectionalLight, keys@),
                i <= keys.len(),
                r@.len() == i,
                forall|j: int| 0 <= j < i ==> {
                    &&& stored_under(self.slots(ComponentKind::Transform), keys@[j]) == Some(Component::Transform(#[trigger] r@[j].0))
                    &&& stored_under(self.slots(ComponentKind::DirectionalLight), keys@[j]) == Some(Component::DirectionalLight(r@[j].1))
                },
            decreases keys.len() - i,
        {
            let k = keys[i];
            proof {
                assert(self.slots(ComponentKind::DirectionalLight).contains_key(crate::scene::storage::key_index(keys@[i as int])));
                lemma_filter_member(slot_order(self.slots(ComponentKind::DirectionalLight)), |b: u64| self.placed(b), MAX_LIGHTS_PER_KIND as nat, i as int);
            }
            let e = Entity::from_bits(k);
            match (self.transform(e), self.directional_light(e)) {
                (Some(t), Some(l)) => r.push((*t, *l)),
                _ => {
                    proof {
                        assert(false);
                    }
                },
            }
            i = i + 1;
        }
        r
    }

    /// The spot lights that reach the shaders, with their transforms: the
    /// first ones in slot order whose entities are visible and have a
    /// transform, at most `MAX_LIGHTS_PER_KIND`.
    pub fn spot_lights_to_upload(&self) -> (r: Vec<(Transform, SpotLight)>)
        requires
            self.wf(),
        ensures
            r@.len() == self.upload_order(ComponentKind::SpotLight).len(),
            forall|j: int| 0 <= j < r@.len() ==> {
                &&& stored_under(self.slots(ComponentKind::Transform), self.upload_order(ComponentKind::SpotLight)[j]) == Some(Component::Transform(#[trigger] r@[j].0))
                &&& stored_under(self.slots(ComponentKind::SpotLight), self.upload_order(ComponentKind::SpotLight)[j]) == Some(Component::SpotLight(r@[j].1))
            },
    {
        let keys = self.placed_keys(ComponentKind::SpotLight, MAX_LIGHTS_PER_KIND);
        let mut r: Vec<(Transform, SpotLight)> = Vec::new();
        let mut i: usize = 0;
        while i < keys.len()
            invariant
                self.wf(),
                keys@ == self.upload_order(ComponentKind::SpotLight),
                self.all_stored(ComponentKind::SpotLight, keys@),
                i <= keys.len(),
                r@.len() == i,
                forall|j: int| 0 <= j < i ==> {
                    &&& stored_under(self.slots(ComponentKind::Transform), keys@[j]) == Some(Component::Transform(#[trigger] r@[j].0))
                    &&& stored_under(self.slots(ComponentKind::SpotLight), keys@[j]) == Some(Component::SpotLight(r@[j].1))
                },
            decreases keys.len() - i,
        {
            let k = keys[i];
            proof {
                assert(self.slots(ComponentKind::SpotLight).contains_key(crate::scene::storage::key_index(keys@[i as int])));
                lemma_filter_member(slot_order(self.slots(ComponentKind::SpotLight)), |b: u64| self.placed(b), MAX_LIGHTS_PER_KIND as nat, i as int);
            }
            let e = Entity::from_bits(k);
            match (self.transform(e), self.spot_light(e)) {
                (Some(t), Some(l)) => r.push((*t, *l)),
                _ => {
                    proof {
                        assert(false);
                    }
                },
            }
            i = i + 1;
        }
        r
    }

    /// The mesh instances to draw, with their entities and transforms: all
    /// of them in slot order whose entities are visible and have a transform.
    pub fn mesh_draws(&self) -> (r: Vec<(Entity, MeshInstance, Transform)>)
        requires
            self.wf(),
        ensures
            r@.len() == self.draw_order().len(),
            forall|j: int| 0 <= j < r@.len() ==> {
                &&& #[trigger] r@[j].0.bits_spec() == self.draw_order()[j]
                &&& stored_under(self.slots(ComponentKind::MeshInstance), self.draw_order()[j]) == Some(Component::MeshInstance(r@[j].1))
                &&& stored_under(self.slots(ComponentKind::Transform), self.draw_order()[j]) == Some(Component::Transform(r@[j].2))
            },
    {
        let keys = self.placed_keys(ComponentKind::MeshInstance, usize::MAX);
        proof {
            assert(keys@ == self.draw_order());
        }
        let mut r: Vec<(Entity, MeshInstance, Transform)> = Vec::new();
        let mut i: usize = 0;
        while i < keys.len()
            invariant
                self.wf(),
                keys@ == self.draw_order(),
                keys@ == self.placed_order(ComponentKind::MeshInstance, usize::MAX as nat),
                self.all_stored(ComponentKind::MeshInstance, keys@),
                i <= keys.len(),
                r@.len() == i,
                forall|j: int| 0 <= j < i ==> {
                    &&& #[trigger] r@[j].0.bits_spec() == keys@[j]
                    &&& stored_under(self.slots(ComponentKind::MeshInstance), keys@[j]) == Some(Component::MeshInstance(r@[j].1))
                    &&& stored_under(self.slots(ComponentKind::Transform), keys@[j]) == Some(Component::Transform(r@[j].2))
                },
            decreases keys.len() - i,
        {
            let k = keys[i];
            proof {
                assert(self.slots(ComponentKind::MeshInstance).contains_key(crate::scene::storage::key_index(keys@[i as int])));
                lemma_filter_member(slot_order(self.slots(ComponentKind::MeshInstance)), |b: u64| self.placed(b), usize::MAX as nat, i as int);
            }
            let e = Entity::from_bits(k);
            match (self.mesh_instance(e), self.transform(e)) {
                (Some(m), Some(t)) => r.push((e, *m, *t)),
                _ => {
                    proof {
                        assert(false);
                    }
                },
            }
            i = i + 1;
        }
        proof {
            let order = self.draw_order();
            assert forall|j: int| 0 <= j < r@.len() implies {
                &&& #[trigger] r@[j].0.bits_spec() == order[j]
                &&& stored_under(self.slots(ComponentKind::MeshInstance), order[j]) == Some(Component::MeshInstance(r@[j].1))
                &&& stored_under(self.slots(ComponentKind::Transform), order[j]) == Some(Component::Transform(r@[j].2))
            } by {
                assert(keys@[j] == order[j]);
            }
        }
        r
    }
}

/// The slot of `bits` holds a different, newer version, so an insert under
/// `bits` is ignored.
pub open spec fn slot_taken_by_newer(m: Map<u32, (u32, Component)>, bits: u64) -> bool {
    let i = crate::scene::storage::key_index(bits);
    let v = crate::scene::storage::key_version(bits);
    m.contains_key(i) && m[i].0 != v && crate::scene::storage::is_older_version(v, m[i].0)
}

/// A component stored for an entity reads back for that entity, unless its
/// slot belongs to a newer entity; components of other entities are
/// untouched.
pub proof fn lemma_insert_reads_back(before: Scene, after: Scene, kind: ComponentKind, e: Entity, c: Component)
    requires
        after.slots(kind) == stored_after_insert(before.slots(kind), e.bits_spec(), c),
    ensures
        !slot_taken_by_newer(before.slots(kind), e.bits_spec()) ==> after.component(kind, e) == Some(c),
        forall|other: Entity| other.index() != e.index() ==> #[trigger] after.component(kind, other) == before.component(kind, other),
{
}

/// A stale handle cannot overwrite what a newer entity stored in its slot:
/// an insert under it leaves the storage as it was.
pub proof fn lemma_stale_insert_ignored(before: Scene, after: Scene, kind: ComponentKind, e: Entity, c: Component)
    requires
        after.slots(kind) == stored_after_insert(before.slots(kind), e.bits_spec(), c),
        slot_taken_by_newer(before.slots(kind), e.bits_spec()),
    ensures
        after.slots(kind) == before.slots(kind),
        after.component(kind, e) is None,
{
}

/// Spawning an entity and despawning it again leaves the set of live
/// entities as it was, and the entity with no component of any kind.
pub proof fn lemma_spawn_then_despawn(s0: Scene, s1: Scene, s2: Scene, e: Entity)
    requires
        Scene::spawned_empty(s0, s1, e),
        Scene::despawned(s1, s2, e),
    ensures
        s2.live() == s0.live(),
        forall|k: ComponentKind| #[trigger] s2.component(k, e) is None,
{
    assert(s1.alive(e));
    assert(s2.live() =~= s0.live());
}

/// Despawning removes every component of the entity and nothing of any
/// other entity.
pub proof fn lemma_despawn_only_removes_entity(before: Scene, after: Scene, e: Entity)
    requires
        Scene::despawned(before, after, e),
    ensures
        forall|k: ComponentKind| #[trigger] after.component(k, e) is None,
        forall|k: ComponentKind, other: Entity| other.index() != e.index() ==> #[trigger] after.component(k, other) == before.component(k, other),
{
}

/// At most `MAX_LIGHTS_PER_KIND` lights of a kind are uploaded, each of a
/// visible entity with a transform, in slot order.
pub proof fn lemma_upload_order(scene: Scene, kind: ComponentKind)
    ensures
        scene.upload_order(kind).len() <= MAX_LIGHTS_PER_KIND,
        forall|j: int| 0 <= j < scene.upload_order(kind).len() ==> scene.placed(#[trigger] scene.upload_order(kind)[j]),
{
    assert forall|j: int| 0 <= j < scene.upload_order(kind).len() implies scene.placed(#[trigger] scene.upload_order(kind)[j]) by {
        lemma_filter_member(slot_order(scene.slots(kind)), |b: u64| scene.placed(b), MAX_LIGHTS_PER_KIND as nat, j);
    }
}

proof fn lemma_filter_by_slot(s: Seq<u64>, pred: spec_fn(u64) -> bool)
    requires
        forall|a: int, b: int| 0 <= a < b < s.len()
            ==> crate::scene::storage::key_index(#[trigger] s[a]) < crate::scene::storage::key_index(#[trigger] s[b]),
    ensures
        forall|a: int, b: int| 0 <= a < b < s.filter(pred).len()
            ==> crate::scene::storage::key_index(#[trigger] s.filter(pred)[a]) < crate::scene::storage::key_index(#[trigger] s.filter(pred)[b]),
    decreases s.len(),
{
    reveal(Seq::filter);
    if s.len() > 0 {
        let t = s.drop_last();
        assert forall|a: int, b: int| 0 <= a < b < t.len()
            implies crate::scene::storage::key_index(#[trigger] t[a]) < crate::scene::storage::key_index(#[trigger] t[b]) by {
            assert(t[a] == s[a] && t[b] == s[b]);
        }
        lemma_filter_by_slot(t, pred);
        let ft = t.filter(pred);
        if pred(s.last()) {
            let f = ft.push(s.last());
            assert(s.filter(pred) == f);
            assert forall|a: int| 0 <= a < ft.len() implies crate::scene::storage::key_index(#[trigger] ft[a]) < crate::scene::storage::key_index(s.last()) by {
                broadcast use vstd::seq_lib::group_filter_ensures;
                assert(ft.contains(ft[a]));
                t.lemma_filter_contains_rev(pred, ft[a]);
                let k = choose|k: int| 0 <= k < t.len() && t[k] == ft[a];
                assert(s[k] == t[k]);
                assert(s[s.len() - 1] == s.last());
            }
            assert forall|a: int, b: int| 0 <= a < b < f.len()
                implies crate::scene::storage::key_index(#[trigger] f[a]) < crate::scene::storage::key_index(#[trigger] f[b]) by {
                assert(f[a] == ft[a]);
                if b < ft.len() {
                    assert(f[b] == ft[b]);
                } else {
                    assert(f[b] == s.last());
                }
            }
        } else {
            assert(s.filter(pred) == ft);
        }
    }
}

/// The meshes are drawn in slot order, each key once.
pub proof fn lemma_draw_order_by_slot(scene: Scene)
    requires
        scene.wf(),
    ensures
        forall|a: int, b: int| 0 <= a < b < scene.draw_order().len()
            ==> crate::scene::storage::key_index(#[trigger] scene.draw_order()[a]) < crate::scene::storage::key_index(#[trigger] scene.draw_order()[b]),
        scene.draw_order().no_duplicates(),
{
    let m = scene.slots(ComponentKind::MeshInstance);
    assert(stored_valid(m));
    crate::scene::storage::lemma_stored_listing_exists(m);
    let so = slot_order(m);
    assert(lists_stored(so, m));
    let pred = |b: u64| scene.placed(b);
    assert(scene.draw_order() == so.filter(pred));
    lemma_filter_by_slot(so, pred);
    let d = scene.draw_order();
    assert forall|a: int, b: int| 0 <= a < d.len() && 0 <= b < d.len() && a != b implies d[a] != d[b] by {
        if a < b {
            assert(crate::scene::storage::key_index(d[a]) < crate::scene::storage::key_index(d[b]));
        } else {
            assert(crate::scene::storage::key_index(d[b]) < crate::scene::storage::key_index(d[a]));
        }
    }
}

/// A stored key of `kind` is in the slot-ordered list of placed keys exactly
/// when its entity is visible and has a transform.
pub proof fn lemma_placed_filter_complete(scene: Scene, kind: ComponentKind, k: u64)
    requires
        scene.wf(),
    ensures
        scene.placed_filter(kind).contains(k) <==> (holds_stored(scene.slots(kind), k) && scene.placed(k)),
{
    let m = scene.slots(kind);
    assert(stored_valid(m));
    crate::scene::storage::lemma_stored_listing_exists(m);
    let so = slot_order(m);
    assert(lists_stored(so, m));
    let pred = |b: u64| scene.placed(b);
    broadcast use vstd::seq_lib::group_filter_ensures;
    assert(scene.placed_filter(kind) == so.filter(pred));
    if holds_stored(m, k) && scene.placed(k) {
        let i = crate::scene::storage::key_index(k);
        assert(m.contains_key(i));
        let j = choose|j: int| 0 <= j < so.len() && crate::scene::storage::key_index(so[j]) == i;
        assert(holds_stored(m, so[j]));
        crate::scene::storage::lemma_key_parts(so[j], k);
        so.lemma_filter_contains(pred, j);
    }
    if scene.placed_filter(kind).contains(k) {
        so.lemma_filter_contains_rev(pred, k);
        let j = choose|j: int| 0 <= j < so.len() && so[j] == k;
        assert(holds_stored(m, so[j]));
        let f = so.filter(pred);
        let jj = choose|jj: int| 0 <= jj < f.len() && f[jj] == k;
        so.lemma_filter_pred(pred, jj);
    }
}

/// Every mesh instance stored under a key whose entity is visible and has a
/// transform is drawn, however many there are, and nothing else is drawn.
pub proof fn lemma_draw_order_complete(scene: Scene, k: u64)
    requires
        scene.wf(),
    ensures
        scene.draw_order().contains(k) <==> (holds_stored(scene.slots(ComponentKind::MeshInstance), k) && scene.placed(k)),
{
    lemma_placed_filter_complete(scene, ComponentKind::MeshInstance, k);
}

/// A light of a visible entity with a transform is left out of the upload
/// only when `MAX_LIGHTS_PER_KIND` lights of its kind are uploaded; every
/// uploaded key is such a light.
pub proof fn lemma_upload_complete(scene: Scene, kind: ComponentKind, k: u64)
    requires
        scene.wf(),
    ensures
        holds_stored(scene.slots(kind), k) && scene.placed(k) && !scene.upload_order(kind).contains(k)
            ==> scene.upload_order(kind).len() == MAX_LIGHTS_PER_KIND,
        scene.upload_order(kind).contains(k) ==> holds_stored(scene.slots(kind), k) && scene.placed(k),
{
    lemma_placed_filter_complete(scene, kind, k);
    let f = scene.placed_filter(kind);
    if f.len() <= MAX_LIGHTS_PER_KIND {
        assert(scene.upload_order(kind) == f);
    } else {
        assert(scene.upload_order(kind) == f.take(MAX_LIGHTS_PER_KIND as int));
        if scene.upload_order(kind).contains(k) {
            let j = choose|j: int| 0 <= j < scene.upload_order(kind).len() && scene.upload_order(kind)[j] == k;
            assert(f[j] == k);
            assert(f.contains(k));
        }
    }
}

/// Every drawn mesh belongs to a visible entity with a transform.
pub proof fn lemma_draw_order_placed(scene: Scene)
    ensures
        forall|j: int| 0 <= j < scene.draw_order().len() ==> scene.placed(#[trigger] scene.draw_order()[j]),
{
    assert forall|j: int| 0 <= j < scene.draw_order().len() implies scene.placed(#[trigger] scene.draw_order()[j]) by {
        broadcast use vstd::seq_lib::group_filter_ensures;
        let f = slot_order(scene.slots(ComponentKind::MeshInstance)).filter(|b: u64| scene.placed(b));
        assert(f == scene.draw_order());
    }
}

impl Default for Scene {
    fn default() -> (s: Self)
        ensures
            s.wf(),
            s.live().dom() == Set::<u32>::empty(),
            forall|k: ComponentKind| #[trigger] s.slots(k).dom() == Set::<u32>::empty(),
            s.active_camera_spec() is None,
    {
        Self::new()
    }
}

} // verus!
