//! The recursion of the Whitted-style shader: at a surface hit, which
//! secondary rays are traced and with what remaining depth.

use vstd::prelude::*;
use crate::presets::RenderSettings;

verus! {

/// What the shader does with a ray.
#[derive(Clone, Copy, Debug, PartialEq, Eq, Structural)]
pub enum TraceStep {
    /// The recursion limit is reached: the ray contributes black.
    Black,
    /// The ray is traced; at a surface hit the reflected and refracted rays
    /// are traced, where enabled, with `child_depth` left.
    Trace { reflect: bool, refract: bool, child_depth: u32 },
}

/// The step for a ray with `depth` levels left, hitting a material that has
/// a noticeable reflectivity (`reflective`) and an index of refraction above
/// one (`refractive`): reflection needs the reflection bonus, refraction the
/// refraction bonus, and each level of recursion uses up one level of depth.
pub open spec fn spec_trace_step(depth: u32, settings: RenderSettings, reflective: bool, refractive: bool) -> TraceStep {
    if depth == 0 {
        TraceStep::Black
    } else {
        TraceStep::Trace {
            reflect: settings.reflection && reflective,
            refract: settings.refraction && refractive,
            child_depth: (depth - 1) as u32,
        }
    }
}

/// Decides what the shader does with a ray that has `depth` levels left.
pub fn trace_step(depth: u32, settings: &RenderSettings, reflective: bool, refractive: bool) -> (step: TraceStep)
    ensures
        step == spec_trace_step(depth, *settings, reflective, refractive),
        depth == 0 <==> step == TraceStep::Black,
        step matches TraceStep::Trace { reflect, refract, child_depth } ==> {
            &&& reflect == (settings.reflection && reflective)
            &&& refract == (settings.refraction && refractive)
            &&& child_depth + 1 == depth
        },
{
    if depth == 0 {
        TraceStep::Black
    } else {
        TraceStep::Trace {
            reflect: settings.reflection && reflective,
            refract: settings.refraction && refractive,
            child_depth: depth - 1,
        }
    }
}

/// Each secondary ray has one level of depth less than its parent, and a
/// ray with no depth left traces nothing.
pub proof fn lemma_recursion_is_bounded(depth: u32, settings: RenderSettings, reflective: bool, refractive: bool)
    ensures
        depth == 0 <==> spec_trace_step(depth, settings, reflective, refractive) == TraceStep::Black,
        spec_trace_step(depth, settings, reflective, refractive) matches TraceStep::Trace { child_depth, .. }
            ==> child_depth + 1 == depth,
{
}

/// With the reflection and refraction bonuses off, no secondary ray is
/// traced, whatever the material.
pub proof fn lemma_no_secondary_rays_without_bonuses(depth: u32, settings: RenderSettings, reflective: bool, refractive: bool)
    requires
        !settings.reflection,
        !settings.refraction,
    ensures
        spec_trace_step(depth, settings, reflective, refractive) matches TraceStep::Trace { reflect, refract, .. }
            ==> !reflect && !refract,
{
}


/// `depths` are the depths of a chain of rays, each one traced by the
/// shader at a hit of the one before it; the `k`-th hit is on a material
/// with `reflective[k]` and `refractive[k]`.
pub open spec fn is_ray_chain(depths: Seq<u32>, settings: RenderSettings, reflective: Seq<bool>, refractive: Seq<bool>) -> bool {
    forall|k: int|
        0 <= k < depths.len() - 1 ==> (#[trigger] spec_trace_step(depths[k], settings, reflective[k], refractive[k])
            matches TraceStep::Trace { child_depth, .. } && child_depth == depths[k + 1])
}

/// A chain of rays that the shader traces one from another is at most one
/// longer than the depth that its first ray starts with: the recursion
/// stops at the limit.
pub proof fn lemma_ray_chain_is_bounded(depths: Seq<u32>, settings: RenderSettings, reflective: Seq<bool>, refractive: Seq<bool>)
    requires
        depths.len() > 0,
        is_ray_chain(depths, settings, reflective, refractive),
    ensures
        depths.len() <= depths[0] + 1,
{
    let last = depths.len() - 1;
    lemma_chain_step(depths, settings, reflective, refractive, last);
}

proof fn lemma_chain_step(depths: Seq<u32>, settings: RenderSettings, reflective: Seq<bool>, refractive: Seq<bool>, k: int)
    requires
        0 <= k < depths.len(),
        is_ray_chain(depths, settings, reflective, refractive),
    ensures
        depths[k] == depths[0] - k,
    decreases k,
{
    if k > 0 {
        lemma_chain_step(depths, settings, reflective, refractive, k - 1);
        let st = spec_trace_step(depths[k - 1], settings, reflective[k - 1], refractive[k - 1]);
        assert(st matches TraceStep::Trace { child_depth, .. } && child_depth == depths[k]);
        assert(depths[k - 1] > 0);
    }
}


/// Each bonus gates its own secondary ray and nothing else: a reflected ray
/// is traced exactly when the reflection bonus is on and the material is
/// reflective, whatever the refraction bonus says, and a refracted ray
/// exactly when the refraction bonus is on and the material is refractive,
/// whatever the reflection bonus says; a ray with depth left is traced with
/// one level less for its children.
pub proof fn lemma_each_bonus_gates_its_own_ray(depth: u32, settings: RenderSettings, reflective: bool, refractive: bool)
    requires
        depth > 0,
    ensures
        spec_trace_step(depth, settings, reflective, refractive) matches TraceStep::Trace {
            reflect,
            refract,
            child_depth,
        } && reflect == (settings.reflection && reflective) && refract == (settings.refraction
            && refractive) && child_depth + 1 == depth,
        !settings.reflection ==> !(spec_trace_step(depth, settings, reflective, refractive)
            matches TraceStep::Trace { reflect: true, .. }),
        !settings.refraction ==> !(spec_trace_step(depth, settings, reflective, refractive)
            matches TraceStep::Trace { refract: true, .. }),
        !reflective ==> !(spec_trace_step(depth, settings, reflective, refractive)
            matches TraceStep::Trace { reflect: true, .. }),
        !refractive ==> !(spec_trace_step(depth, settings, reflective, refractive)
            matches TraceStep::Trace { refract: true, .. }),
{
}

} // verus!
