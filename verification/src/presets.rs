//! The built-in scenes: which objects each preset puts in the world, which
//! bonus features touch which material, the camera framing and the
//! recursion limit. Geometry and colours are filled in by the caller.

use vstd::prelude::*;

verus! {

/// Optional features that can be switched on for a render.
#[derive(Clone, Copy, Debug, PartialEq, Eq, Structural)]
pub struct RenderSettings {
    pub textures: bool,
    pub reflection: bool,
    pub refraction: bool,
    pub particles: bool,
    pub fluid: bool,
}

impl Default for RenderSettings {
    /// Every bonus feature off.
    fn default() -> (s: Self)
        ensures
            s == RenderSettings::none(),
    {
        RenderSettings {
            textures: false,
            reflection: false,
            refraction: false,
            particles: false,
            fluid: false,
        }
    }
}

impl RenderSettings {
    /// Settings with every bonus feature off.
    pub open spec fn none() -> RenderSettings {
        RenderSettings {
            textures: false,
            reflection: false,
            refraction: false,
            particles: false,
            fluid: false,
        }
    }

    /// Settings with every bonus feature on.
    pub open spec fn all() -> RenderSettings {
        RenderSettings {
            textures: true,
            reflection: true,
            refraction: true,
            particles: true,
            fluid: true,
        }
    }
}

/// The built-in scenes.
#[derive(Clone, Copy, Debug, PartialEq, Eq, Structural)]
pub enum Preset {
    Sphere,
    PlaneCube,
    AllObjects,
    AllObjectsAltCam,
    /// Quick preview: all shapes + bonuses.
    Showcase,
}

/// Which family of scene a preset builds.
#[derive(Clone, Copy, Debug, PartialEq, Eq, Structural)]
pub enum Layout {
    /// A single sphere, brightly lit.
    SoloSphere,
    /// A floor plane and a cube, dimly lit.
    PlaneCube,
    /// Floor, sphere, cube and cylinder, with optional fluid and particles.
    AllObjects,
}

/// How the camera of a scene is placed.
#[derive(Clone, Copy, Debug, PartialEq, Eq, Structural)]
pub enum CameraSetup {
    /// Looks at the solo sphere from a fixed offset, following it when it moves.
    TrackSphere,
    /// The fixed framing of the plane-and-cube scene.
    PlaneCubeView,
    /// The fixed framing of the multi-object scene.
    AllObjectsView,
    /// The built-in orbit framing of the alternative multi-object view.
    AltOrbit,
    /// The fixed framing of the showcase.
    ShowcaseView,
    /// An orbit camera placed by the caller's look-at, distance, yaw, height and field of view.
    UserOrbit,
}

/// The kinds of object a scene holds.
#[derive(Clone, Copy, Debug, PartialEq, Eq, Structural)]
pub enum Shape {
    Plane,
    Sphere,
    Cube,
    Cylinder,
    Fluid,
    Particles,
}

/// The texture a material samples.
#[derive(Clone, Copy, Debug, PartialEq, Eq, Structural)]
pub enum TextureKind {
    Plain,
    Checker,
    Noise,
}

/// One object of a scene and the bonus adjustments applied to its material.
#[derive(Clone, Copy, Debug, PartialEq, Eq, Structural)]
pub struct ObjectPlan {
    pub shape: Shape,
    pub texture: TextureKind,
    /// The material takes its reflective variant.
    pub reflective: bool,
    /// The material takes its refractive variant.
    pub refractive: bool,
}

/// A scene as decided from a preset and settings.
pub struct ScenePlan {
    pub layout: Layout,
    pub camera: CameraSetup,
    /// The settings the scene is to be rendered with.
    pub settings: RenderSettings,
    /// The objects, in the order they are added to the world.
    pub objects: Vec<ObjectPlan>,
    pub max_trace_depth: u32,
    /// How many point lights the scene has.
    pub light_count: usize,
}

/// An object of `shape` with the given texture and material variants.
pub open spec fn obj(shape: Shape, texture: TextureKind, reflective: bool, refractive: bool) -> ObjectPlan {
    ObjectPlan { shape, texture, reflective, refractive }
}

/// The settings a preset renders with: the showcase switches every bonus on,
/// the other presets keep what was asked for.
pub open spec fn spec_effective_settings(preset: Preset, settings: RenderSettings) -> RenderSettings {
    if preset == Preset::Showcase {
        RenderSettings::all()
    } else {
        settings
    }
}

/// The family of scene of each preset.
pub open spec fn spec_layout(preset: Preset) -> Layout {
    match preset {
        Preset::Sphere => Layout::SoloSphere,
        Preset::PlaneCube => Layout::PlaneCube,
        _ => Layout::AllObjects,
    }
}

/// The camera of the fixed (command-line) framing of each preset.
pub open spec fn spec_fixed_camera(preset: Preset) -> CameraSetup {
    match preset {
        Preset::Sphere => CameraSetup::TrackSphere,
        Preset::PlaneCube => CameraSetup::PlaneCubeView,
        Preset::AllObjects => CameraSetup::AllObjectsView,
        Preset::AllObjectsAltCam => CameraSetup::AltOrbit,
        Preset::Showcase => CameraSetup::ShowcaseView,
    }
}

/// The camera of the interactive framing: the multi-object presets orbit
/// where the caller says, the others keep their fixed framing.
pub open spec fn spec_interactive_camera(preset: Preset) -> CameraSetup {
    match preset {
        Preset::Sphere => CameraSetup::TrackSphere,
        Preset::PlaneCube => CameraSetup::PlaneCubeView,
        _ => CameraSetup::UserOrbit,
    }
}

/// `kind` where `on` holds, no texture otherwise.
pub open spec fn texture_if(on: bool, kind: TextureKind) -> TextureKind {
    if on {
        kind
    } else {
        TextureKind::Plain
    }
}

/// The world of the solo-sphere scene.
pub open spec fn spec_sphere_world(s: RenderSettings) -> Seq<ObjectPlan> {
    seq![obj(Shape::Sphere, texture_if(s.textures, TextureKind::Noise), s.reflection, false)]
}

/// The world of the plane-and-cube scene.
pub open spec fn spec_plane_cube_world(s: RenderSettings) -> Seq<ObjectPlan> {
    seq![
        obj(Shape::Plane, texture_if(s.textures, TextureKind::Checker), false, false),
        obj(Shape::Cube, TextureKind::Plain, s.reflection, false),
    ]
}

/// The four solids of the multi-object scene.
pub open spec fn spec_solids(s: RenderSettings) -> Seq<ObjectPlan> {
    seq![
        obj(Shape::Plane, texture_if(s.textures, TextureKind::Checker), false, false),
        obj(Shape::Sphere, texture_if(s.textures, TextureKind::Noise), s.reflection, s.refraction),
        obj(Shape::Cube, TextureKind::Plain, s.reflection, false),
        obj(Shape::Cylinder, TextureKind::Plain, false, false),
    ]
}

/// The fluid surface, where the fluid bonus is on.
pub open spec fn spec_fluid_part(s: RenderSettings) -> Seq<ObjectPlan> {
    if s.fluid {
        seq![obj(Shape::Fluid, TextureKind::Plain, false, false)]
    } else {
        Seq::empty()
    }
}

/// The particle cloud, where the particle bonus is on.
pub open spec fn spec_particle_part(s: RenderSettings) -> Seq<ObjectPlan> {
    if s.particles {
        seq![obj(Shape::Particles, TextureKind::Plain, false, false)]
    } else {
        Seq::empty()
    }
}

/// The world of the multi-object scene: the four solids, then the fluid
/// surface and the particle cloud where those bonuses are on.
pub open spec fn spec_all_objects_world(s: RenderSettings) -> Seq<ObjectPlan> {
    spec_solids(s) + spec_fluid_part(s) + spec_particle_part(s)
}

/// The world of each family of scene.
pub open spec fn spec_world(layout: Layout, s: RenderSettings) -> Seq<ObjectPlan> {
    match layout {
        Layout::SoloSphere => spec_sphere_world(s),
        Layout::PlaneCube => spec_plane_cube_world(s),
        Layout::AllObjects => spec_all_objects_world(s),
    }
}

/// How many point lights each family of scene has: one key light for the
/// single-object scenes, a key and a fill light for the multi-object scene.
pub open spec fn spec_light_count(layout: Layout) -> usize {
    match layout {
        Layout::AllObjects => 2,
        _ => 1,
    }
}

/// How many point lights a family of scene has.
pub fn light_count(layout: Layout) -> (n: usize)
    ensures
        n == spec_light_count(layout),
{
    match layout {
        Layout::AllObjects => 2,
        _ => 1,
    }
}

/// The recursion limit for reflected and refracted rays.
pub open spec fn spec_trace_depth(layout: Layout) -> u32 {
    match layout {
        Layout::AllObjects => 10,
        _ => 8,
    }
}

impl ScenePlan {
    /// The plan is the scene that `preset` builds with `settings`, framed by `camera`.
    pub open spec fn describes(&self, preset: Preset, settings: RenderSettings, camera: CameraSetup) -> bool {
        let eff = spec_effective_settings(preset, settings);
        &&& self.layout == spec_layout(preset)
        &&& self.camera == camera
        &&& self.settings == eff
        &&& self.objects@ == spec_world(spec_layout(preset), eff)
        &&& self.max_trace_depth == spec_trace_depth(spec_layout(preset))
        &&& self.light_count == spec_light_count(spec_layout(preset))
    }
}

fn texture_when(on: bool, kind: TextureKind) -> (t: TextureKind)
    ensures
        t == texture_if(on, kind),
{
    if on {
        kind
    } else {
        TextureKind::Plain
    }
}

/// The settings a preset renders with.
pub fn effective_settings(preset: Preset, settings: &RenderSettings) -> (eff: RenderSettings)
    ensures
        eff == spec_effective_settings(preset, *settings),
{
    match preset {
        Preset::Showcase => RenderSettings {
            textures: true,
            reflection: true,
            refraction: true,
            particles: true,
            fluid: true,
        },
        _ => *settings,
    }
}

/// The world of the solo-sphere scene.
pub fn sphere_world(settings: &RenderSettings) -> (objects: Vec<ObjectPlan>)
    ensures
        objects@ == spec_sphere_world(*settings),
{
    let mut objects: Vec<ObjectPlan> = Vec::new();
    objects.push(
        ObjectPlan {
            shape: Shape::Sphere,
            texture: texture_when(settings.textures, TextureKind::Noise),
            reflective: settings.reflection,
            refractive: false,
        },
    );
    assert(objects@ =~= spec_sphere_world(*settings));
    objects
}

/// The world of the plane-and-cube scene.
pub fn plane_cube_world(settings: &RenderSettings) -> (objects: Vec<ObjectPlan>)
    ensures
        objects@ == spec_plane_cube_world(*settings),
{
    let mut objects: Vec<ObjectPlan> = Vec::new();
    objects.push(
        ObjectPlan {
            shape: Shape::Plane,
            texture: texture_when(settings.textures, TextureKind::Checker),
            reflective: false,
            refractive: false,
        },
    );
    objects.push(
        ObjectPlan {
            shape: Shape::Cube,
            texture: TextureKind::Plain,
            reflective: settings.reflection,
            refractive: false,
        },
    );
    assert(objects@ =~= spec_plane_cube_world(*settings));
    objects
}

/// The world of the multi-object scene.
pub fn all_objects_world(settings: &RenderSettings) -> (objects: Vec<ObjectPlan>)
    ensures
        objects@ == spec_all_objects_world(*settings),
{
    let mut objects: Vec<ObjectPlan> = Vec::new();
    objects.push(
        ObjectPlan {
            shape: Shape::Plane,
            texture: texture_when(settings.textures, TextureKind::Checker),
            reflective: false,
            refractive: false,
        },
    );
    objects.push(
        ObjectPlan {
            shape: Shape::Sphere,
            texture: texture_when(settings.textures, TextureKind::Noise),
            reflective: settings.reflection,
            refractive: settings.refraction,
        },
    );
    objects.push(
        ObjectPlan {
            shape: Shape::Cube,
            texture: TextureKind::Plain,
            reflective: settings.reflection,
            refractive: false,
        },
    );
    objects.push(
        ObjectPlan {
            shape: Shape::Cylinder,
            texture: TextureKind::Plain,
            reflective: false,
            refractive: false,
        },
    );
    assert(objects@ =~= spec_solids(*settings));
    if settings.fluid {
        objects.push(
            ObjectPlan {
                shape: Shape::Fluid,
                texture: TextureKind::Plain,
                reflective: false,
                refractive: false,
            },
        );
    }
    assert(objects@ =~= spec_solids(*settings) + spec_fluid_part(*settings));
    if settings.particles {
        objects.push(
            ObjectPlan {
                shape: Shape::Particles,
                texture: TextureKind::Plain,
                reflective: false,
                refractive: false,
            },
        );
    }
    assert(objects@ =~= spec_all_objects_world(*settings));
    objects
}

/// Which family of scene a preset builds.
pub fn layout_of(preset: Preset) -> (layout: Layout)
    ensures
        layout == spec_layout(preset),
{
    match preset {
        Preset::Sphere => Layout::SoloSphere,
        Preset::PlaneCube => Layout::PlaneCube,
        _ => Layout::AllObjects,
    }
}

fn plan_with_camera(preset: Preset, settings: &RenderSettings, camera: CameraSetup) -> (plan: ScenePlan)
    ensures
        plan.describes(preset, *settings, camera),
{
    let eff = effective_settings(preset, settings);
    let layout = layout_of(preset);
    let (objects, max_trace_depth) = match layout {
        Layout::SoloSphere => (sphere_world(&eff), 8u32),
        Layout::PlaneCube => (plane_cube_world(&eff), 8u32),
        Layout::AllObjects => (all_objects_world(&eff), 10u32),
    };
    let light_count = light_count(layout);
    ScenePlan { layout, camera, settings: eff, objects, max_trace_depth, light_count }
}

/// The scene of a preset in its fixed framing, as rendered from the command line.
pub fn build_scene(preset: Preset, settings: &RenderSettings) -> (plan: ScenePlan)
    ensures
        plan.describes(preset, *settings, spec_fixed_camera(preset)),
{
    let camera = match preset {
        Preset::Sphere => CameraSetup::TrackSphere,
        Preset::PlaneCube => CameraSetup::PlaneCubeView,
        Preset::AllObjects => CameraSetup::AllObjectsView,
        Preset::AllObjectsAltCam => CameraSetup::AltOrbit,
        Preset::Showcase => CameraSetup::ShowcaseView,
    };
    plan_with_camera(preset, settings, camera)
}

/// The scene of a preset for interactive use: multi-object presets use an
/// orbit camera placed by the caller; the sphere and plane-cube presets
/// ignore the orbit and keep their fixed framing.
pub fn build_scene_interactive(preset: Preset, settings: &RenderSettings) -> (plan: ScenePlan)
    ensures
        plan.describes(preset, *settings, spec_interactive_camera(preset)),
{
    let camera = match preset {
        Preset::Sphere => CameraSetup::TrackSphere,
        Preset::PlaneCube => CameraSetup::PlaneCubeView,
        _ => CameraSetup::UserOrbit,
    };
    plan_with_camera(preset, settings, camera)
}


/// `shape` is the shape of some object of `objects`.
pub open spec fn occurs(objects: Seq<ObjectPlan>, shape: Shape) -> bool {
    exists|i: int| 0 <= i < objects.len() && (#[trigger] objects[i]).shape == shape
}

/// Exactly one object of `objects` has `shape`.
pub open spec fn occurs_once(objects: Seq<ObjectPlan>, shape: Shape) -> bool {
    exists|i: int|
        0 <= i < objects.len() && (#[trigger] objects[i]).shape == shape && forall|j: int|
            0 <= j < objects.len() && (#[trigger] objects[j]).shape == shape ==> j == i
}

/// The showcase renders with every bonus feature on, whatever was asked for.
pub proof fn lemma_showcase_enables_all_bonuses(settings: RenderSettings)
    ensures
        spec_effective_settings(Preset::Showcase, settings) == RenderSettings::all(),
{
}

/// Every other preset renders with the settings it was given.
pub proof fn lemma_other_presets_keep_settings(preset: Preset, settings: RenderSettings)
    requires
        preset != Preset::Showcase,
    ensures
        spec_effective_settings(preset, settings) == settings,
{
}

/// Building a preset again with the settings that the first build returned
/// gives the same scene.
pub proof fn lemma_returned_settings_rebuild_the_scene(preset: Preset, settings: RenderSettings)
    ensures
        spec_effective_settings(preset, spec_effective_settings(preset, settings))
            == spec_effective_settings(preset, settings),
        spec_world(spec_layout(preset), spec_effective_settings(preset, spec_effective_settings(preset, settings)))
            == spec_world(spec_layout(preset), spec_effective_settings(preset, settings)),
{
}

/// The interactive framing of the sphere and plane-cube presets is their
/// fixed framing: they ignore the orbit. The multi-object presets orbit.
pub proof fn lemma_interactive_camera(preset: Preset)
    ensures
        preset == Preset::Sphere || preset == Preset::PlaneCube ==> spec_interactive_camera(preset)
            == spec_fixed_camera(preset),
        spec_layout(preset) == Layout::AllObjects ==> spec_interactive_camera(preset)
            == CameraSetup::UserOrbit,
{
}

/// The alternative-camera preset renders the same world as the multi-object
/// preset, through a different camera.
pub proof fn lemma_alt_camera_same_world(settings: RenderSettings)
    ensures
        spec_layout(Preset::AllObjectsAltCam) == spec_layout(Preset::AllObjects),
        spec_effective_settings(Preset::AllObjectsAltCam, settings) == spec_effective_settings(
            Preset::AllObjects,
            settings,
        ),
        spec_fixed_camera(Preset::AllObjectsAltCam) != spec_fixed_camera(Preset::AllObjects),
{
}

/// The multi-object scene holds exactly one plane, sphere, cube and
/// cylinder; the fluid surface is there exactly when the fluid bonus is on,
/// and the particle cloud exactly when the particle bonus is on.
pub proof fn lemma_all_objects_world(s: RenderSettings)
    ensures
        occurs_once(spec_all_objects_world(s), Shape::Plane),
        occurs_once(spec_all_objects_world(s), Shape::Sphere),
        occurs_once(spec_all_objects_world(s), Shape::Cube),
        occurs_once(spec_all_objects_world(s), Shape::Cylinder),
        occurs(spec_all_objects_world(s), Shape::Fluid) <==> s.fluid,
        occurs(spec_all_objects_world(s), Shape::Particles) <==> s.particles,
{
    let w = spec_all_objects_world(s);
    let shapes = w.map_values(|o: ObjectPlan| o.shape);
    let base = seq![Shape::Plane, Shape::Sphere, Shape::Cube, Shape::Cylinder];
    let expected = if s.fluid && s.particles {
        base + seq![Shape::Fluid, Shape::Particles]
    } else if s.fluid {
        base + seq![Shape::Fluid]
    } else if s.particles {
        base + seq![Shape::Particles]
    } else {
        base
    };
    assert(shapes =~= expected);
    lemma_distinct_shapes(w, shapes);
    assert(shapes[0] == Shape::Plane);
    assert(shapes[1] == Shape::Sphere);
    assert(shapes[2] == Shape::Cube);
    assert(shapes[3] == Shape::Cylinder);
    if s.fluid {
        assert(shapes[4] == Shape::Fluid);
    }
    if s.particles {
        assert(shapes[shapes.len() - 1] == Shape::Particles);
    }
    if occurs(w, Shape::Fluid) {
        let i = choose|i: int| 0 <= i < w.len() && (#[trigger] w[i]).shape == Shape::Fluid;
        assert(shapes[i] == Shape::Fluid);
    }
    if occurs(w, Shape::Particles) {
        let i = choose|i: int| 0 <= i < w.len() && (#[trigger] w[i]).shape == Shape::Particles;
        assert(shapes[i] == Shape::Particles);
    }
}

/// Where no two objects share a shape, every shape present occurs once.
proof fn lemma_distinct_shapes(w: Seq<ObjectPlan>, shapes: Seq<Shape>)
    requires
        shapes == w.map_values(|o: ObjectPlan| o.shape),
        forall|j: int, k: int| 0 <= j < k < shapes.len() ==> shapes[j] != shapes[k],
    ensures
        forall|i: int| 0 <= i < w.len() ==> occurs_once(w, #[trigger] shapes[i]),
{
    assert forall|i: int| 0 <= i < w.len() implies occurs_once(w, #[trigger] shapes[i]) by {
        assert(w[i].shape == shapes[i]);
        assert forall|j: int| 0 <= j < w.len() && (#[trigger] w[j]).shape == shapes[i] implies j == i by {
            assert(shapes[j] == w[j].shape);
        }
    }
}

/// The particle cloud and the fluid surface appear only in the multi-object
/// scenes.
pub proof fn lemma_bonus_objects_only_in_multi_object_scenes(preset: Preset, s: RenderSettings)
    requires
        spec_layout(preset) != Layout::AllObjects,
    ensures
        !occurs(spec_world(spec_layout(preset), s), Shape::Fluid),
        !occurs(spec_world(spec_layout(preset), s), Shape::Particles),
{
    let w = spec_world(spec_layout(preset), s);
    assert forall|i: int| 0 <= i < w.len() implies (#[trigger] w[i]).shape != Shape::Fluid
        && w[i].shape != Shape::Particles by {
        if spec_layout(preset) == Layout::PlaneCube {
            assert(i == 0 || i == 1);
        }
    }
}

/// A bonus that is off leaves every material untouched: no textures without
/// the texture bonus, no reflective variant without reflection, no
/// refractive variant without refraction.
pub proof fn lemma_bonus_off_leaves_materials_plain(layout: Layout, s: RenderSettings)
    ensures
        forall|i: int|
            0 <= i < spec_world(layout, s).len() ==> {
                &&& !s.textures ==> (#[trigger] spec_world(layout, s)[i]).texture == TextureKind::Plain
                &&& !s.reflection ==> !spec_world(layout, s)[i].reflective
                &&& !s.refraction ==> !spec_world(layout, s)[i].refractive
            },
{
    let w = spec_world(layout, s);
    if layout == Layout::AllObjects {
        let solids = spec_solids(s);
        let f = spec_fluid_part(s);
        let p = spec_particle_part(s);
        assert forall|i: int| 0 <= i < w.len() implies {
            &&& !s.textures ==> (#[trigger] w[i]).texture == TextureKind::Plain
            &&& !s.reflection ==> !w[i].reflective
            &&& !s.refraction ==> !w[i].refractive
        } by {
            if i < 4 {
                assert(w[i] == (solids + f)[i]);
                assert(w[i] == solids[i]);
            } else if i < 4 + f.len() {
                assert(w[i] == (solids + f)[i]);
                assert(w[i] == f[i - 4]);
            } else {
                assert(w[i] == p[i - 4 - f.len()]);
            }
        }
    } else if layout == Layout::PlaneCube {
        assert forall|i: int| 0 <= i < w.len() implies {
            &&& !s.textures ==> (#[trigger] w[i]).texture == TextureKind::Plain
            &&& !s.reflection ==> !w[i].reflective
            &&& !s.refraction ==> !w[i].refractive
        } by {
            assert(i == 0 || i == 1);
        }
    }
}


/// Width and height of the auditor renders.
pub const AUDITOR_WIDTH: u32 = 800;
pub const AUDITOR_HEIGHT: u32 = 600;

/// One of the renders written by the auditor run.
pub struct AuditorRender {
    pub path: &'static str,
    pub preset: Preset,
    pub settings: RenderSettings,
}

/// Settings with textures and reflection on and the other bonuses off.
pub open spec fn textures_and_reflection() -> RenderSettings {
    RenderSettings { textures: true, reflection: true, ..RenderSettings::none() }
}

/// The four auditor renders, in order: the sphere and the plane-and-cube
/// scenes with textures and reflection, and the multi-object scene with
/// every bonus from its two cameras.
pub fn auditor_renders() -> (r: Vec<AuditorRender>)
    ensures
        r.len() == 4,
        r[0].path@ == "images/01_sphere.ppm"@,
        r[0].preset == Preset::Sphere,
        r[0].settings == textures_and_reflection(),
        r[1].path@ == "images/02_plane_cube_dim.ppm"@,
        r[1].preset == Preset::PlaneCube,
        r[1].settings == textures_and_reflection(),
        r[2].path@ == "images/03_all_primitives.ppm"@,
        r[2].preset == Preset::AllObjects,
        r[2].settings == RenderSettings::all(),
        r[3].path@ == "images/04_all_primitives_alt_camera.ppm"@,
        r[3].preset == Preset::AllObjectsAltCam,
        r[3].settings == RenderSettings::all(),
{
    let tr = RenderSettings {
        textures: true,
        reflection: true,
        refraction: false,
        particles: false,
        fluid: false,
    };
    let all = RenderSettings {
        textures: true,
        reflection: true,
        refraction: true,
        particles: true,
        fluid: true,
    };
    let mut r: Vec<AuditorRender> = Vec::new();
    r.push(AuditorRender { path: "images/01_sphere.ppm", preset: Preset::Sphere, settings: tr });
    r.push(AuditorRender { path: "images/02_plane_cube_dim.ppm", preset: Preset::PlaneCube, settings: tr });
    r.push(AuditorRender { path: "images/03_all_primitives.ppm", preset: Preset::AllObjects, settings: all });
    r.push(
        AuditorRender {
            path: "images/04_all_primitives_alt_camera.ppm",
            preset: Preset::AllObjectsAltCam,
            settings: all,
        },
    );
    r
}


/// What the bonuses do to the material of an object of `shape` in a scene of
/// family `layout`: only the multi-object sphere takes the refractive
/// variant, and only with refraction on; spheres and cubes take the
/// reflective variant exactly when reflection is on, and nothing else ever
/// does; with textures on, floors take the checker and spheres the noise
/// texture, and every other object stays plain.
pub open spec fn bonus_rule(layout: Layout, s: RenderSettings, o: ObjectPlan) -> bool {
    &&& o.refractive <==> (layout == Layout::AllObjects && o.shape == Shape::Sphere && s.refraction)
    &&& o.reflective <==> ((o.shape == Shape::Sphere || o.shape == Shape::Cube) && s.reflection)
    &&& o.texture == (if s.textures && o.shape == Shape::Plane {
        TextureKind::Checker
    } else if s.textures && o.shape == Shape::Sphere {
        TextureKind::Noise
    } else {
        TextureKind::Plain
    })
}

/// The shapes of `objects`, in order.
pub open spec fn shapes_of(objects: Seq<ObjectPlan>) -> Seq<Shape> {
    objects.map_values(|o: ObjectPlan| o.shape)
}

/// Every object of every built-in scene follows the bonus rule: the floor
/// plane is never reflective or refractive, the cube never refractive, and
/// only the multi-object sphere refracts.
pub proof fn lemma_worlds_follow_the_bonus_rule(layout: Layout, s: RenderSettings)
    ensures
        forall|i: int|
            0 <= i < spec_world(layout, s).len() ==> bonus_rule(layout, s, #[trigger] spec_world(layout, s)[i]),
{
    let w = spec_world(layout, s);
    match layout {
        Layout::SoloSphere => {
            assert(bonus_rule(layout, s, w[0]));
        },
        Layout::PlaneCube => {
            assert(bonus_rule(layout, s, w[0]));
            assert(bonus_rule(layout, s, w[1]));
        },
        Layout::AllObjects => {
            let sol = spec_solids(s);
            let fl = obj(Shape::Fluid, TextureKind::Plain, false, false);
            let pa = obj(Shape::Particles, TextureKind::Plain, false, false);
            assert(bonus_rule(layout, s, sol[0]));
            assert(bonus_rule(layout, s, sol[1]));
            assert(bonus_rule(layout, s, sol[2]));
            assert(bonus_rule(layout, s, sol[3]));
            assert(bonus_rule(layout, s, fl));
            assert(bonus_rule(layout, s, pa));
            if s.fluid && s.particles {
                assert(w =~= seq![sol[0], sol[1], sol[2], sol[3], fl, pa]);
            } else if s.fluid {
                assert(w =~= seq![sol[0], sol[1], sol[2], sol[3], fl]);
            } else if s.particles {
                assert(w =~= seq![sol[0], sol[1], sol[2], sol[3], pa]);
            } else {
                assert(w =~= seq![sol[0], sol[1], sol[2], sol[3]]);
            }
        },
    }
}

/// The objects of each built-in scene, in the order they are added: a
/// sphere alone; a floor then a cube; a floor, a sphere, a cube and a
/// cylinder, then the fluid surface if the fluid bonus is on, then the
/// particle cloud if the particle bonus is on.
pub proof fn lemma_world_order(layout: Layout, s: RenderSettings)
    ensures
        layout == Layout::SoloSphere ==> shapes_of(spec_world(layout, s)) == seq![Shape::Sphere],
        layout == Layout::PlaneCube ==> shapes_of(spec_world(layout, s)) == seq![Shape::Plane, Shape::Cube],
        layout == Layout::AllObjects ==> shapes_of(spec_world(layout, s)) == seq![
            Shape::Plane,
            Shape::Sphere,
            Shape::Cube,
            Shape::Cylinder,
        ] + (if s.fluid {
            seq![Shape::Fluid]
        } else {
            Seq::empty()
        }) + (if s.particles {
            seq![Shape::Particles]
        } else {
            Seq::empty()
        }),
{
    let w = spec_world(layout, s);
    let extra = (if s.fluid {
        seq![Shape::Fluid]
    } else {
        Seq::<Shape>::empty()
    }) + (if s.particles {
        seq![Shape::Particles]
    } else {
        Seq::<Shape>::empty()
    });
    match layout {
        Layout::SoloSphere => {
            assert(shapes_of(w) =~= seq![Shape::Sphere]);
        },
        Layout::PlaneCube => {
            assert(shapes_of(w) =~= seq![Shape::Plane, Shape::Cube]);
        },
        Layout::AllObjects => {
            assert(shapes_of(w) =~= seq![Shape::Plane, Shape::Sphere, Shape::Cube, Shape::Cylinder] + extra);
        },
    }
}

} // verus!
