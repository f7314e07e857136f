//! Entity handles and the components a scene can attach to them.
//!
//! Vectors and matrices are carried as IEEE-754 single-precision bit
//! patterns; the arithmetic on them happens in the float-capable front end.
use vstd::prelude::*;

use crate::scene::storage::{key_index, key_valid, key_version};

verus! {

/// Bit pattern of `1.0f32`.
pub const ONE_BITS: u32 = 0x3F80_0000;

/// Bit pattern of `0.0f32`.
pub const ZERO_BITS: u32 = 0;

/// Handle of an entity of a scene: the slot map key in its 64-bit form.
#[derive(Clone, Copy, Debug, PartialEq, Eq, Hash)]
pub struct Entity {
    bits: u64,
}

impl Entity {
    #[verifier::type_invariant]
    spec fn handed_out(self) -> bool {
        key_valid(self.bits)
    }

    pub closed spec fn bits_spec(self) -> u64 {
        self.bits
    }

    /// The slot of the entity.
    pub open spec fn index(self) -> u32 {
        key_index(self.bits_spec())
    }

    /// The version of the slot the entity was created in.
    pub open spec fn version(self) -> u32 {
        key_version(self.bits_spec())
    }

    pub(crate) fn from_bits(bits: u64) -> (e: Self)
        requires
            key_valid(bits),
        ensures
            e.bits_spec() == bits,
    {
        Entity { bits }
    }

    /// The 64-bit form of the key (`slotmap::KeyData::as_ffi`).
    pub fn to_bits(&self) -> (bits: u64)
        ensures
            bits == self.bits_spec(),
            key_valid(bits),
    {
        proof {
            use_type_invariant(self);
        }
        self.bits
    }

    /// Two handles are the same entity exactly when their keys are equal.
    pub fn same(&self, other: &Entity) -> (r: bool)
        ensures
            r == (*self == *other),
    {
        self.bits == other.bits
    }
}

/// Identifier of a mesh held by the asset store.
#[derive(Clone, Copy, Debug, PartialEq, Eq, Hash)]
pub struct MeshId(pub u64);

/// Identifier of a material held by the asset store.
#[derive(Clone, Copy, Debug, PartialEq, Eq, Hash)]
pub struct MaterialId(pub u64);

/// A three-component float vector, as bit patterns.
#[derive(Clone, Copy, Debug, PartialEq, Eq)]
pub struct Vec3Bits {
    pub x: u32,
    pub y: u32,
    pub z: u32,
}

/// A four-component float vector, as bit patterns.
#[derive(Clone, Copy, Debug, PartialEq, Eq)]
pub struct Vec4Bits {
    pub x: u32,
    pub y: u32,
    pub z: u32,
    pub w: u32,
}

impl Vec3Bits {
    pub fn new(x: u32, y: u32, z: u32) -> (v: Self)
        ensures
            v.x == x && v.y == y && v.z == z,
    {
        Vec3Bits { x, y, z }
    }
}

impl Vec4Bits {
    pub fn new(x: u32, y: u32, z: u32, w: u32) -> (v: Self)
        ensures
            v.x == x && v.y == y && v.z == z && v.w == w,
    {
        Vec4Bits { x, y, z, w }
    }
}

/// Column-major 4x4 identity matrix, as bit patterns.
pub open spec fn identity_matrix_bits() -> [u32; 16] {
    [
        ONE_BITS, ZERO_BITS, ZERO_BITS, ZERO_BITS,
        ZERO_BITS, ONE_BITS, ZERO_BITS, ZERO_BITS,
        ZERO_BITS, ZERO_BITS, ONE_BITS, ZERO_BITS,
        ZERO_BITS, ZERO_BITS, ZERO_BITS, ONE_BITS,
    ]
}

/// A display name.
#[derive(Clone, Debug)]
pub struct Name {
    pub value: String,
}

impl Name {
    pub fn new(value: String) -> (n: Self)
        ensures
            n.value == value,
    {
        Name { value }
    }
}

/// Whether an entity is drawn and lit.
#[derive(Clone, Copy, Debug, PartialEq, Eq)]
pub struct Visibility {
    pub visible: bool,
}

impl Visibility {
    pub fn visible() -> (v: Self)
        ensures
            v.visible,
    {
        Visibility { visible: true }
    }
}

impl Default for Visibility {
    fn default() -> (v: Self)
        ensures
            v.visible,
    {
        Self::visible()
    }
}

/// Position, Euler rotation (radians) and scale, with the cached model
/// matrix and whether that cache is stale.
#[derive(Clone, Copy, Debug)]
pub struct Transform {
    pub position: Vec3Bits,
    pub rotation: Vec3Bits,
    pub scale: Vec3Bits,
    pub cached_matrix: [u32; 16],
    pub dirty: bool,
}

impl Transform {
    pub fn new(position: Vec3Bits, rotation: Vec3Bits, scale: Vec3Bits) -> (t: Self)
        ensures
            t.position == position,
            t.rotation == rotation,
            t.scale == scale,
            t.cached_matrix == identity_matrix_bits(),
            t.dirty,
    {
        Transform {
            position,
            rotation,
            scale,
            cached_matrix: [
                ONE_BITS, ZERO_BITS, ZERO_BITS, ZERO_BITS,
                ZERO_BITS, ONE_BITS, ZERO_BITS, ZERO_BITS,
                ZERO_BITS, ZERO_BITS, ONE_BITS, ZERO_BITS,
                ZERO_BITS, ZERO_BITS, ZERO_BITS, ONE_BITS,
            ],
            dirty: true,
        }
    }

    /// At the origin, unrotated, unit scale.
    pub fn identity() -> (t: Self)
        ensures
            t.position == (Vec3Bits { x: ZERO_BITS, y: ZERO_BITS, z: ZERO_BITS }),
            t.rotation == (Vec3Bits { x: ZERO_BITS, y: ZERO_BITS, z: ZERO_BITS }),
            t.scale == (Vec3Bits { x: ONE_BITS, y: ONE_BITS, z: ONE_BITS }),
            t.cached_matrix == identity_matrix_bits(),
            t.dirty,
    {
        Self::new(
            Vec3Bits::new(ZERO_BITS, ZERO_BITS, ZERO_BITS),
            Vec3Bits::new(ZERO_BITS, ZERO_BITS, ZERO_BITS),
            Vec3Bits::new(ONE_BITS, ONE_BITS, ONE_BITS),
        )
    }
}

impl Default for Transform {
    fn default() -> (t: Self)
        ensures
            t.position == (Vec3Bits { x: ZERO_BITS, y: ZERO_BITS, z: ZERO_BITS }),
            t.rotation == (Vec3Bits { x: ZERO_BITS, y: ZERO_BITS, z: ZERO_BITS }),
            t.scale == (Vec3Bits { x: ONE_BITS, y: ONE_BITS, z: ONE_BITS }),
            t.cached_matrix == identity_matrix_bits(),
            t.dirty,
    {
        Self::identity()
    }
}

/// Bit pattern of `std::f32::consts::FRAC_PI_3`.
pub const FRAC_PI_3_BITS: u32 = 0x3F86_0A92;

/// Bit pattern of `0.1f32`.
pub const POINT_ONE_BITS: u32 = 0x3DCC_CCCD;

/// Bit pattern of `5.0f32`.
pub const FIVE_BITS: u32 = 0x40A0_0000;

/// Bit pattern of `10_000.0f32`.
pub const TEN_THOUSAND_BITS: u32 = 0x461C_4000;

/// Movement and projection settings of a camera.
#[derive(Clone, Copy, Debug, PartialEq, Eq)]
pub struct Camera {
    pub speed: u32,
    pub rotation_speed: u32,
    pub fov_y_radians: u32,
    pub near_clip: u32,
    pub far_clip: u32,
}

impl Camera {
    /// A camera with the given speeds, a 60 degree vertical field of view and
    /// clip planes at 0.1 and 10000.
    pub fn new(speed: u32, rotation_speed: u32) -> (c: Self)
        ensures
            c.speed == speed,
            c.rotation_speed == rotation_speed,
            c.fov_y_radians == FRAC_PI_3_BITS,
            c.near_clip == POINT_ONE_BITS,
            c.far_clip == TEN_THOUSAND_BITS,
    {
        Camera {
            speed,
            rotation_speed,
            fov_y_radians: FRAC_PI_3_BITS,
            near_clip: POINT_ONE_BITS,
            far_clip: TEN_THOUSAND_BITS,
        }
    }

    /// The same camera with another projection.
    pub fn with_projection(self, fov_y_radians: u32, near_clip: u32, far_clip: u32) -> (c: Self)
        ensures
            c == (Camera { fov_y_radians, near_clip, far_clip, ..self }),
    {
        let mut c = self;
        c.fov_y_radians = fov_y_radians;
        c.near_clip = near_clip;
        c.far_clip = far_clip;
        c
    }
}

impl Default for Camera {
    fn default() -> (c: Self)
        ensures
            c.speed == FIVE_BITS,
            c.rotation_speed == POINT_ONE_BITS,
            c.fov_y_radians == FRAC_PI_3_BITS,
            c.near_clip == POINT_ONE_BITS,
            c.far_clip == TEN_THOUSAND_BITS,
    {
        Self::new(FIVE_BITS, POINT_ONE_BITS)
    }
}

/// A light radiating from the entity's position.
#[derive(Clone, Copy, Debug, PartialEq, Eq)]
pub struct PointLight {
    pub color: Vec4Bits,
}

impl PointLight {
    pub fn new(color: Vec4Bits) -> (l: Self)
        ensures
            l.color == color,
    {
        PointLight { color }
    }
}

/// A light shining along the entity's forward axis from infinitely far.
#[derive(Clone, Copy, Debug, PartialEq, Eq)]
pub struct DirectionalLight {
    pub color: Vec4Bits,
}

impl DirectionalLight {
    pub fn new(color: Vec4Bits) -> (l: Self)
        ensures
            l.color == color,
    {
        DirectionalLight { color }
    }
}

/// A cone light at the entity's position along its forward axis.
#[derive(Clone, Copy, Debug, PartialEq, Eq)]
pub struct SpotLight {
    pub color: Vec4Bits,
}

impl SpotLight {
    pub fn new(color: Vec4Bits) -> (l: Self)
        ensures
            l.color == color,
    {
        SpotLight { color }
    }
}

/// A mesh drawn at the entity's transform, with an optional material.
#[derive(Clone, Copy, Debug, PartialEq, Eq)]
pub struct MeshInstance {
    pub mesh: MeshId,
    pub material: Option<MaterialId>,
}

impl MeshInstance {
    pub fn new(mesh: MeshId, material: Option<MaterialId>) -> (m: Self)
        ensures
            m.mesh == mesh,
            m.material == material,
    {
        MeshInstance { mesh, material }
    }
}

/// The kinds of component a scene stores, one storage per kind.
#[derive(Clone, Copy, Debug, PartialEq, Eq)]
pub enum ComponentKind {
    Name,
    Visibility,
    Transform,
    Camera,
    PointLight,
    DirectionalLight,
    SpotLight,
    MeshInstance,
}

/// One stored component.
#[derive(Clone, Debug)]
pub enum Component {
    Name(Name),
    Visibility(Visibility),
    Transform(Transform),
    Camera(Camera),
    PointLight(PointLight),
    DirectionalLight(DirectionalLight),
    SpotLight(SpotLight),
    MeshInstance(MeshInstance),
}

impl Component {
    pub open spec fn kind(self) -> ComponentKind {
        match self {
            Component::Name(_) => ComponentKind::Name,
            Component::Visibility(_) => ComponentKind::Visibility,
            Component::Transform(_) => ComponentKind::Transform,
            Component::Camera(_) => ComponentKind::Camera,
            Component::PointLight(_) => ComponentKind::PointLight,
            Component::DirectionalLight(_) => ComponentKind::DirectionalLight,
            Component::SpotLight(_) => ComponentKind::SpotLight,
            Component::MeshInstance(_) => ComponentKind::MeshInstance,
        }
    }
}

} // verus!
