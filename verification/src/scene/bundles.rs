//! Groups of components that are spawned together.
use vstd::prelude::*;

use crate::scene::components::{
    Camera, DirectionalLight, MeshInstance, Name, PointLight, SpotLight, Transform,
};

verus! {

/// A camera with its transform and an optional name.
#[derive(Clone, Debug)]
pub struct CameraBundle {
    pub name: Option<Name>,
    pub transform: Transform,
    pub camera: Camera,
}

impl CameraBundle {
    pub fn new(transform: Transform, camera: Camera) -> (b: Self)
        ensures
            b.name is None,
            b.transform == transform,
            b.camera == camera,
    {
        CameraBundle { name: None, transform, camera }
    }

    /// The same bundle, named.
    pub fn named(self, name: String) -> (b: Self)
        ensures
            b.name == Some(Name { value: name }),
            b.transform == self.transform,
            b.camera == self.camera,
    {
        let mut b = self;
        b.name = Some(Name::new(name));
        b
    }
}

/// A directional light with its transform and an optional name.
#[derive(Clone, Debug)]
pub struct DirectionalLightBundle {
    pub name: Option<Name>,
    pub transform: Transform,
    pub light: DirectionalLight,
}

impl DirectionalLightBundle {
    pub fn new(transform: Transform, light: DirectionalLight) -> (b: Self)
        ensures
            b.name is None,
            b.transform == transform,
            b.light == light,
    {
        DirectionalLightBundle { name: None, transform, light }
    }

    /// The same bundle, named.
    pub fn named(self, name: String) -> (b: Self)
        ensures
            b.name == Some(Name { value: name }),
            b.transform == self.transform,
            b.light == self.light,
    {
        let mut b = self;
        b.name = Some(Name::new(name));
        b
    }
}

/// A point light with its transform and an optional name.
#[derive(Clone, Debug)]
pub struct PointLightBundle {
    pub name: Option<Name>,
    pub transform: Transform,
    pub light: PointLight,
}

impl PointLightBundle {
    pub fn new(transform: Transform, light: PointLight) -> (b: Self)
        ensures
            b.name is None,
            b.transform == transform,
            b.light == light,
    {
        PointLightBundle { name: None, transform, light }
    }

    /// The same bundle, named.
    pub fn named(self, name: String) -> (b: Self)
        ensures
            b.name == Some(Name { value: name }),
            b.transform == self.transform,
            b.light == self.light,
    {
        let mut b = self;
        b.name = Some(Name::new(name));
        b
    }
}

/// A spot light with its transform and an optional name.
#[derive(Clone, Debug)]
pub struct SpotLightBundle {
    pub name: Option<Name>,
    pub transform: Transform,
    pub light: SpotLight,
}

impl SpotLightBundle {
    pub fn new(transform: Transform, light: SpotLight) -> (b: Self)
        ensures
            b.name is None,
            b.transform == transform,
            b.light == light,
    {
        SpotLightBundle { name: None, transform, light }
    }

    /// The same bundle, named.
    pub fn named(self, name: String) -> (b: Self)
        ensures
            b.name == Some(Name { value: name }),
            b.transform == self.transform,
            b.light == self.light,
    {
        let mut b = self;
        b.name = Some(Name::new(name));
        b
    }
}

/// A mesh instance with its transform and an optional name.
#[derive(Clone, Debug)]
pub struct MeshInstanceBundle {
    pub name: Option<Name>,
    pub transform: Transform,
    pub mesh_instance: MeshInstance,
}

impl MeshInstanceBundle {
    pub fn new(transform: Transform, mesh_instance: MeshInstance) -> (b: Self)
        ensures
            b.name is None,
            b.transform == transform,
            b.mesh_instance == mesh_instance,
    {
        MeshInstanceBundle { name: None, transform, mesh_instance }
    }

    /// The same bundle, named.
    pub fn named(self, name: String) -> (b: Self)
        ensures
            b.name == Some(Name { value: name }),
            b.transform == self.transform,
            b.mesh_instance == self.mesh_instance,
    {
        let mut b = self;
        b.name = Some(Name::new(name));
        b
    }
}

} // verus!
