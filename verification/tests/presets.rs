use rt::presets::{
    all_objects_world, auditor_renders, build_scene, build_scene_interactive, effective_settings,
    layout_of, light_count, plane_cube_world, sphere_world, CameraSetup, Layout, ObjectPlan, Preset,
    RenderSettings, Shape, TextureKind, AUDITOR_HEIGHT, AUDITOR_WIDTH,
};

fn all() -> RenderSettings {
    RenderSettings { textures: true, reflection: true, refraction: true, particles: true, fluid: true }
}

fn shapes(objs: &[ObjectPlan]) -> Vec<Shape> {
    objs.iter().map(|o| o.shape).collect()
}

#[test]
fn default_settings_are_all_off() {
    let s = RenderSettings::default();
    assert_eq!(
        s,
        RenderSettings { textures: false, reflection: false, refraction: false, particles: false, fluid: false }
    );
}

#[test]
fn showcase_forces_every_bonus() {
    assert_eq!(effective_settings(Preset::Showcase, &RenderSettings::default()), all());
    let s = RenderSettings { textures: true, fluid: true, ..Default::default() };
    assert_eq!(effective_settings(Preset::AllObjects, &s), s);
    let plan = build_scene(Preset::Showcase, &RenderSettings::default());
    assert_eq!(plan.settings, all());
    assert_eq!(plan.camera, CameraSetup::ShowcaseView);
    assert_eq!(
        shapes(&plan.objects),
        vec![Shape::Plane, Shape::Sphere, Shape::Cube, Shape::Cylinder, Shape::Fluid, Shape::Particles]
    );
}

#[test]
fn sphere_scene() {
    let plan = build_scene(Preset::Sphere, &RenderSettings::default());
    assert_eq!(plan.layout, Layout::SoloSphere);
    assert_eq!(plan.camera, CameraSetup::TrackSphere);
    assert_eq!(plan.max_trace_depth, 8);
    assert_eq!(
        plan.objects,
        vec![ObjectPlan { shape: Shape::Sphere, texture: TextureKind::Plain, reflective: false, refractive: false }]
    );
    let w = sphere_world(&all());
    assert_eq!(
        w,
        vec![ObjectPlan { shape: Shape::Sphere, texture: TextureKind::Noise, reflective: true, refractive: false }]
    );
}

#[test]
fn plane_cube_scene() {
    let s = RenderSettings { textures: true, particles: true, fluid: true, ..Default::default() };
    let plan = build_scene(Preset::PlaneCube, &s);
    assert_eq!(plan.layout, Layout::PlaneCube);
    assert_eq!(plan.camera, CameraSetup::PlaneCubeView);
    assert_eq!(plan.max_trace_depth, 8);
    assert_eq!(plan.settings, s);
    assert_eq!(
        plan.objects,
        vec![
            ObjectPlan { shape: Shape::Plane, texture: TextureKind::Checker, reflective: false, refractive: false },
            ObjectPlan { shape: Shape::Cube, texture: TextureKind::Plain, reflective: false, refractive: false },
        ]
    );
    assert_eq!(plane_cube_world(&all())[1].reflective, true);
}

#[test]
fn all_objects_scene_bonuses() {
    let none = all_objects_world(&RenderSettings::default());
    assert_eq!(shapes(&none), vec![Shape::Plane, Shape::Sphere, Shape::Cube, Shape::Cylinder]);
    assert!(none.iter().all(|o| o.texture == TextureKind::Plain && !o.reflective && !o.refractive));
    let fluid = all_objects_world(&RenderSettings { fluid: true, ..Default::default() });
    assert_eq!(shapes(&fluid), vec![Shape::Plane, Shape::Sphere, Shape::Cube, Shape::Cylinder, Shape::Fluid]);
    let dust = all_objects_world(&RenderSettings { particles: true, ..Default::default() });
    assert_eq!(shapes(&dust), vec![Shape::Plane, Shape::Sphere, Shape::Cube, Shape::Cylinder, Shape::Particles]);
    let full = all_objects_world(&all());
    assert_eq!(full[0].texture, TextureKind::Checker);
    assert_eq!(
        full[1],
        ObjectPlan { shape: Shape::Sphere, texture: TextureKind::Noise, reflective: true, refractive: true }
    );
    assert_eq!(full[2].reflective, true);
    assert_eq!(full[3].reflective, false);
    let plan = build_scene(Preset::AllObjects, &all());
    assert_eq!(plan.max_trace_depth, 10);
    assert_eq!(plan.camera, CameraSetup::AllObjectsView);
}

#[test]
fn alt_camera_shares_the_world() {
    let s = RenderSettings { reflection: true, particles: true, ..Default::default() };
    let a = build_scene(Preset::AllObjects, &s);
    let b = build_scene(Preset::AllObjectsAltCam, &s);
    assert_eq!(a.objects, b.objects);
    assert_eq!(a.settings, b.settings);
    assert_eq!(b.camera, CameraSetup::AltOrbit);
}

#[test]
fn interactive_framing() {
    let s = RenderSettings::default();
    assert_eq!(build_scene_interactive(Preset::Sphere, &s).camera, CameraSetup::TrackSphere);
    assert_eq!(build_scene_interactive(Preset::PlaneCube, &s).camera, CameraSetup::PlaneCubeView);
    for p in [Preset::AllObjects, Preset::AllObjectsAltCam, Preset::Showcase] {
        let plan = build_scene_interactive(p, &s);
        assert_eq!(plan.camera, CameraSetup::UserOrbit);
        assert_eq!(plan.objects, build_scene(p, &s).objects);
    }
    assert_eq!(build_scene_interactive(Preset::Showcase, &s).settings, all());
}

#[test]
fn returned_settings_rebuild_the_same_scene() {
    for p in [Preset::Sphere, Preset::PlaneCube, Preset::AllObjects, Preset::AllObjectsAltCam, Preset::Showcase] {
        let s = RenderSettings { refraction: true, ..Default::default() };
        let first = build_scene(p, &s);
        let second = build_scene(p, &first.settings);
        assert_eq!(first.objects, second.objects);
        assert_eq!(first.settings, second.settings);
    }
}

#[test]
fn layouts() {
    assert_eq!(layout_of(Preset::Sphere), Layout::SoloSphere);
    assert_eq!(layout_of(Preset::PlaneCube), Layout::PlaneCube);
    assert_eq!(layout_of(Preset::Showcase), Layout::AllObjects);
}

#[test]
fn auditor_render_list() {
    let r = auditor_renders();
    assert_eq!((AUDITOR_WIDTH, AUDITOR_HEIGHT), (800, 600));
    assert_eq!(r.len(), 4);
    assert_eq!(r[0].path, "images/01_sphere.ppm");
    assert_eq!(r[0].preset, Preset::Sphere);
    assert_eq!(r[0].settings, RenderSettings { textures: true, reflection: true, ..Default::default() });
    assert_eq!(r[1].path, "images/02_plane_cube_dim.ppm");
    assert_eq!(r[1].preset, Preset::PlaneCube);
    assert_eq!(r[2].path, "images/03_all_primitives.ppm");
    assert_eq!(r[2].settings, all());
    assert_eq!(r[3].path, "images/04_all_primitives_alt_camera.ppm");
    assert_eq!(r[3].preset, Preset::AllObjectsAltCam);
    let third = build_scene(r[2].preset, &r[2].settings);
    assert_eq!(
        shapes(&third.objects),
        vec![Shape::Plane, Shape::Sphere, Shape::Cube, Shape::Cylinder, Shape::Fluid, Shape::Particles]
    );
}

#[test]
fn light_counts() {
    assert_eq!(light_count(Layout::SoloSphere), 1);
    assert_eq!(light_count(Layout::PlaneCube), 1);
    assert_eq!(light_count(Layout::AllObjects), 2);
    let s = RenderSettings::default();
    assert_eq!(build_scene(Preset::Sphere, &s).light_count, 1);
    assert_eq!(build_scene(Preset::PlaneCube, &s).light_count, 1);
    assert_eq!(build_scene(Preset::Showcase, &s).light_count, 2);
    assert_eq!(build_scene_interactive(Preset::AllObjectsAltCam, &s).light_count, 2);
}
