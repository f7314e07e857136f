use benzene::scene::bundles::{
    CameraBundle, DirectionalLightBundle, MeshInstanceBundle, PointLightBundle, SpotLightBundle,
};
use benzene::scene::components::{
    Camera, DirectionalLight, Entity, MaterialId, MeshId, MeshInstance, Name, PointLight,
    SpotLight, Transform, Vec3Bits, Vec4Bits, Visibility, FIVE_BITS, FRAC_PI_3_BITS, ONE_BITS,
    POINT_ONE_BITS, TEN_THOUSAND_BITS, ZERO_BITS,
};
use benzene::scene::world::{Scene, MAX_LIGHTS_PER_KIND, POINT_ONE_FIVE_BITS};

fn bits3(x: f32, y: f32, z: f32) -> Vec3Bits {
    Vec3Bits::new(x.to_bits(), y.to_bits(), z.to_bits())
}

fn at(x: f32) -> Transform {
    Transform::new(bits3(x, 0.0, 0.0), bits3(0.0, 0.0, 0.0), bits3(1.0, 1.0, 1.0))
}

fn color(r: f32) -> Vec4Bits {
    Vec4Bits::new(r.to_bits(), 0, 0, 1.0f32.to_bits())
}

fn slot(e: Entity) -> u64 {
    e.to_bits() & 0xFFFF_FFFF
}

fn version(e: Entity) -> u64 {
    e.to_bits() >> 32
}

#[test]
fn spawned_entities_are_visible_by_default() {
    let mut scene = Scene::new();
    let entity = scene.spawn_empty();

    assert!(scene.is_visible(entity));
    scene.visibility_mut(entity).unwrap().visible = false;
    assert!(!scene.is_visible(entity));
}

#[test]
fn new_scene_is_empty_with_dim_ambient_light() {
    let scene = Scene::new();
    assert!(scene.entities().is_empty());
    assert_eq!(scene.active_camera(), None);
    let ambient = scene.ambient_color();
    assert_eq!(f32::from_bits(ambient.x), 0.1);
    assert_eq!(f32::from_bits(ambient.y), 0.1);
    assert_eq!(f32::from_bits(ambient.z), 0.1);
    assert_eq!(f32::from_bits(ambient.w), 0.15);
    assert_eq!(ambient.w, POINT_ONE_FIVE_BITS);
    assert_eq!(ambient.x, POINT_ONE_BITS);
    let default_scene = Scene::default();
    assert!(default_scene.entities().is_empty());
}

#[test]
fn spawned_entities_are_distinct_and_listed_by_slot() {
    let mut scene = Scene::new();
    let a = scene.spawn_empty();
    let b = scene.spawn_empty();
    let c = scene.spawn_empty();
    assert!(!a.same(&b));
    assert!(!b.same(&c));
    assert_ne!(slot(a), slot(b));
    assert_eq!(version(a) % 2, 1);
    let listed = scene.entities();
    assert_eq!(listed.len(), 3);
    assert!(listed[0].same(&a));
    assert!(listed[1].same(&b));
    assert!(listed[2].same(&c));
    assert!(slot(listed[0]) < slot(listed[1]));
    assert!(slot(listed[1]) < slot(listed[2]));
}

#[test]
fn inserted_components_read_back() {
    let mut scene = Scene::new();
    let e = scene.spawn_empty();
    scene.insert_transform(e, at(3.0));
    scene.insert_name(e, Name::new(String::from("crate")));
    scene.insert_camera(e, Camera::default());
    scene.insert_point_light(e, PointLight::new(color(0.5)));
    scene.insert_directional_light(e, DirectionalLight::new(color(0.25)));
    scene.insert_spot_light(e, SpotLight::new(color(0.75)));
    scene.insert_mesh_instance_component(e, MeshInstance::new(MeshId(7), Some(MaterialId(9))));

    assert_eq!(scene.transform(e).unwrap().position, bits3(3.0, 0.0, 0.0));
    assert_eq!(scene.name(e).unwrap().value, "crate");
    assert_eq!(*scene.camera(e).unwrap(), Camera::default());
    assert_eq!(scene.point_light(e).unwrap().color, color(0.5));
    assert_eq!(scene.directional_light(e).unwrap().color, color(0.25));
    assert_eq!(scene.spot_light(e).unwrap().color, color(0.75));
    assert_eq!(*scene.mesh_instance(e).unwrap(), MeshInstance::new(MeshId(7), Some(MaterialId(9))));
    assert_eq!(*scene.visibility(e).unwrap(), Visibility::visible());
}

#[test]
fn inserting_again_replaces_the_component() {
    let mut scene = Scene::new();
    let e = scene.spawn_empty();
    scene.insert_transform(e, at(1.0));
    scene.insert_transform(e, at(2.0));
    assert_eq!(scene.transform(e).unwrap().position, bits3(2.0, 0.0, 0.0));
}

#[test]
fn components_of_other_entities_are_untouched() {
    let mut scene = Scene::new();
    let a = scene.spawn_empty();
    let b = scene.spawn_empty();
    scene.insert_transform(a, at(1.0));
    scene.insert_transform(b, at(2.0));
    assert_eq!(scene.transform(a).unwrap().position, bits3(1.0, 0.0, 0.0));
    assert_eq!(scene.transform(b).unwrap().position, bits3(2.0, 0.0, 0.0));
    assert!(scene.camera(a).is_none());
}

#[test]
fn mutable_borrows_write_back() {
    let mut scene = Scene::new();
    let e = scene.spawn_empty();
    scene.insert_transform(e, at(1.0));
    scene.insert_name(e, Name::new(String::from("before")));
    scene.transform_mut(e).unwrap().position = bits3(4.0, 5.0, 6.0);
    scene.name_mut(e).unwrap().value = String::from("after");
    assert_eq!(scene.transform(e).unwrap().position, bits3(4.0, 5.0, 6.0));
    assert_eq!(scene.name(e).unwrap().value, "after");
    assert!(scene.camera_mut(e).is_none());
    assert!(scene.point_light_mut(e).is_none());
    assert!(scene.directional_light_mut(e).is_none());
    assert!(scene.spot_light_mut(e).is_none());
    assert!(scene.mesh_instance_mut(e).is_none());
}

#[test]
fn despawn_removes_every_component() {
    let mut scene = Scene::new();
    let e = scene.spawn_mesh_instance(MeshInstanceBundle::new(at(1.0), MeshInstance::new(MeshId(1), None)).named(String::from("m")));
    let keep = scene.spawn_empty();
    scene.insert_transform(keep, at(2.0));
    scene.despawn(e);
    assert!(scene.transform(e).is_none());
    assert!(scene.name(e).is_none());
    assert!(scene.mesh_instance(e).is_none());
    assert!(scene.visibility(e).is_none());
    let listed = scene.entities();
    assert_eq!(listed.len(), 1);
    assert!(listed[0].same(&keep));
    assert_eq!(scene.transform(keep).unwrap().position, bits3(2.0, 0.0, 0.0));
}

#[test]
fn spawn_then_despawn_leaves_the_entity_list_as_it_was() {
    let mut scene = Scene::new();
    let a = scene.spawn_empty();
    let before = scene.entities();
    let e = scene.spawn_empty();
    scene.despawn(e);
    let after = scene.entities();
    assert_eq!(before.len(), after.len());
    assert!(after[0].same(&a));
    assert!(scene.visibility(e).is_none());
    assert!(scene.is_visible(e));
}

#[test]
fn despawning_twice_is_harmless() {
    let mut scene = Scene::new();
    let e = scene.spawn_empty();
    scene.despawn(e);
    scene.despawn(e);
    assert!(scene.entities().is_empty());
}

#[test]
fn reused_slots_get_a_new_version() {
    let mut scene = Scene::new();
    let old = scene.spawn_empty();
    scene.despawn(old);
    let new = scene.spawn_empty();
    assert_eq!(slot(old), slot(new));
    assert_ne!(version(old), version(new));
    assert!(!old.same(&new));
}

#[test]
fn stale_handles_cannot_overwrite_a_newer_entity() {
    let mut scene = Scene::new();
    let old = scene.spawn_empty();
    scene.despawn(old);
    let new = scene.spawn_empty();
    scene.insert_transform(new, at(2.0));
    scene.insert_transform(old, at(9.0));
    assert_eq!(scene.transform(new).unwrap().position, bits3(2.0, 0.0, 0.0));
    assert!(scene.transform(old).is_none());
    assert!(scene.transform_mut(old).is_none());
}

#[test]
fn first_camera_becomes_active() {
    let mut scene = Scene::new();
    let first = scene.spawn_camera(CameraBundle::new(at(0.0), Camera::default()));
    let second = scene.spawn_camera(CameraBundle::new(at(1.0), Camera::new(ONE_BITS, ONE_BITS)).named(String::from("second")));
    assert!(scene.active_camera().unwrap().same(&first));
    scene.set_active_camera(second);
    assert!(scene.active_camera().unwrap().same(&second));
    let (e, transform, camera) = scene.active_camera_components().unwrap();
    assert!(e.same(&second));
    assert_eq!(transform.position, bits3(1.0, 0.0, 0.0));
    assert_eq!(camera.speed, ONE_BITS);
    assert_eq!(scene.name(second).unwrap().value, "second");
}

#[test]
fn despawning_the_active_camera_clears_it() {
    let mut scene = Scene::new();
    let cam = scene.spawn_camera(CameraBundle::new(at(0.0), Camera::default()));
    let other = scene.spawn_empty();
    scene.despawn(other);
    assert!(scene.active_camera().is_some());
    scene.despawn(cam);
    assert_eq!(scene.active_camera(), None);
    assert!(scene.active_camera_components().is_none());
}

#[test]
fn active_camera_needs_transform_and_camera() {
    let mut scene = Scene::new();
    let e = scene.spawn_empty();
    scene.set_active_camera(e);
    assert!(scene.active_camera_components().is_none());
    scene.insert_camera(e, Camera::default());
    assert!(scene.active_camera_components().is_none());
    scene.insert_transform(e, at(0.0));
    assert!(scene.active_camera_components().is_some());
}

#[test]
fn ambient_color_can_be_set() {
    let mut scene = Scene::new();
    scene.set_ambient_color(color(0.3));
    assert_eq!(scene.ambient_color(), color(0.3));
}

#[test]
fn hidden_lights_are_not_uploaded() {
    let mut scene = Scene::new();
    let lit = scene.spawn_point_light(PointLightBundle::new(at(1.0), PointLight::new(color(0.1))));
    let hidden = scene.spawn_point_light(PointLightBundle::new(at(2.0), PointLight::new(color(0.2))));
    scene.visibility_mut(hidden).unwrap().visible = false;
    let uploaded = scene.point_lights_to_upload();
    assert_eq!(uploaded.len(), 1);
    assert_eq!(uploaded[0].0.position, bits3(1.0, 0.0, 0.0));
    assert_eq!(uploaded[0].1.color, color(0.1));
    assert!(scene.is_visible(lit));
}

#[test]
fn lights_without_transform_are_not_uploaded() {
    let mut scene = Scene::new();
    let e = scene.spawn_empty();
    scene.insert_spot_light(e, SpotLight::new(color(0.4)));
    assert!(scene.spot_lights_to_upload().is_empty());
    scene.insert_transform(e, at(1.0));
    assert_eq!(scene.spot_lights_to_upload().len(), 1);
}

#[test]
fn at_most_sixteen_lights_of_a_kind_are_uploaded_in_slot_order() {
    let mut scene = Scene::new();
    let mut i: u32 = 0;
    while i < 20 {
        scene.spawn_directional_light(DirectionalLightBundle::new(at(i as f32), DirectionalLight::new(color(i as f32))));
        i += 1;
    }
    let uploaded = scene.directional_lights_to_upload();
    assert_eq!(uploaded.len(), MAX_LIGHTS_PER_KIND);
    assert_eq!(MAX_LIGHTS_PER_KIND, 16);
    let mut j: usize = 0;
    while j < uploaded.len() {
        assert_eq!(uploaded[j].0.position, bits3(j as f32, 0.0, 0.0));
        j += 1;
    }
}

#[test]
fn spot_light_bundles_upload() {
    let mut scene = Scene::new();
    scene.spawn_spot_light(SpotLightBundle::new(at(5.0), SpotLight::new(color(0.9))).named(String::from("spot")));
    let uploaded = scene.spot_lights_to_upload();
    assert_eq!(uploaded.len(), 1);
    assert_eq!(uploaded[0].1.color, color(0.9));
}

#[test]
fn mesh_draws_skip_hidden_entities_and_keep_slot_order() {
    let mut scene = Scene::new();
    let a = scene.spawn_mesh_instance(MeshInstanceBundle::new(at(1.0), MeshInstance::new(MeshId(1), None)));
    let b = scene.spawn_mesh_instance(MeshInstanceBundle::new(at(2.0), MeshInstance::new(MeshId(2), Some(MaterialId(3)))));
    let c = scene.spawn_mesh_instance(MeshInstanceBundle::new(at(3.0), MeshInstance::new(MeshId(3), None)));
    scene.visibility_mut(b).unwrap().visible = false;
    let draws = scene.mesh_draws();
    assert_eq!(draws.len(), 2);
    assert!(draws[0].0.same(&a));
    assert_eq!(draws[0].1.mesh, MeshId(1));
    assert_eq!(draws[0].2.position, bits3(1.0, 0.0, 0.0));
    assert!(draws[1].0.same(&c));
    assert_eq!(draws[1].1.mesh, MeshId(3));
}

#[test]
fn transform_entities_lists_entities_with_transforms() {
    let mut scene = Scene::new();
    let a = scene.spawn_empty();
    let b = scene.spawn_empty();
    scene.insert_transform(b, at(1.0));
    let listed = scene.transform_entities();
    assert_eq!(listed.len(), 1);
    assert!(listed[0].same(&b));
    assert!(!listed[0].same(&a));
}

#[test]
fn bundles_insert_onto_existing_entities() {
    let mut scene = Scene::new();
    let e = scene.spawn_empty();
    scene.insert_camera_bundle(e, CameraBundle::new(at(1.0), Camera::default()).named(String::from("cam")));
    assert_eq!(scene.name(e).unwrap().value, "cam");
    assert!(scene.camera(e).is_some());
    scene.insert_point_light_bundle(e, PointLightBundle::new(at(2.0), PointLight::new(color(0.5))));
    assert_eq!(scene.transform(e).unwrap().position, bits3(2.0, 0.0, 0.0));
    scene.insert_directional_light_bundle(e, DirectionalLightBundle::new(at(3.0), DirectionalLight::new(color(0.5))));
    scene.insert_spot_light_bundle(e, SpotLightBundle::new(at(4.0), SpotLight::new(color(0.5))));
    scene.insert_mesh_instance_bundle(e, MeshInstanceBundle::new(at(5.0), MeshInstance::new(MeshId(4), None)));
    assert_eq!(scene.transform(e).unwrap().position, bits3(5.0, 0.0, 0.0));
    assert_eq!(scene.name(e).unwrap().value, "cam");
    assert!(scene.point_light(e).is_some());
    assert!(scene.directional_light(e).is_some());
    assert!(scene.spot_light(e).is_some());
    assert!(scene.mesh_instance(e).is_some());
    assert_eq!(scene.active_camera(), None);
}

#[test]
fn component_defaults() {
    let t = Transform::identity();
    assert_eq!(t.position, Vec3Bits::new(ZERO_BITS, ZERO_BITS, ZERO_BITS));
    assert_eq!(t.scale, Vec3Bits::new(ONE_BITS, ONE_BITS, ONE_BITS));
    assert!(t.dirty);
    assert_eq!(f32::from_bits(t.cached_matrix[0]), 1.0);
    assert_eq!(f32::from_bits(t.cached_matrix[5]), 1.0);
    assert_eq!(f32::from_bits(t.cached_matrix[1]), 0.0);
    assert_eq!(f32::from_bits(t.cached_matrix[15]), 1.0);
    assert_eq!(Transform::default().scale, t.scale);

    let c = Camera::default();
    assert_eq!(f32::from_bits(c.speed), 5.0);
    assert_eq!(f32::from_bits(c.rotation_speed), 0.1);
    assert_eq!(f32::from_bits(c.fov_y_radians), std::f32::consts::FRAC_PI_3);
    assert_eq!(f32::from_bits(c.near_clip), 0.1);
    assert_eq!(f32::from_bits(c.far_clip), 10_000.0);
    assert_eq!(c.speed, FIVE_BITS);
    assert_eq!(c.fov_y_radians, FRAC_PI_3_BITS);
    assert_eq!(c.far_clip, TEN_THOUSAND_BITS);

    let p = c.with_projection(45.0f32.to_radians().to_bits(), 0.1f32.to_bits(), 1_000.0f32.to_bits());
    assert_eq!(p.speed, c.speed);
    assert_eq!(f32::from_bits(p.far_clip), 1_000.0);
    assert_ne!(p.fov_y_radians, c.fov_y_radians);

    assert!(Visibility::default().visible);
    assert_eq!(Name::new(String::from("n")).value, "n");
}
