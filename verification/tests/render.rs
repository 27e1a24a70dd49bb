use rt::presets::RenderSettings;
use rt::render::{trace_step, TraceStep};

fn bonuses(reflection: bool, refraction: bool) -> RenderSettings {
    RenderSettings { reflection, refraction, ..Default::default() }
}

#[test]
fn depth_zero_is_black() {
    assert_eq!(trace_step(0, &bonuses(true, true), true, true), TraceStep::Black);
}

#[test]
fn secondary_rays_follow_bonuses_and_material() {
    assert_eq!(
        trace_step(8, &bonuses(true, true), true, true),
        TraceStep::Trace { reflect: true, refract: true, child_depth: 7 }
    );
    assert_eq!(
        trace_step(1, &bonuses(true, false), true, true),
        TraceStep::Trace { reflect: true, refract: false, child_depth: 0 }
    );
    assert_eq!(
        trace_step(3, &bonuses(true, true), false, true),
        TraceStep::Trace { reflect: false, refract: true, child_depth: 2 }
    );
    assert_eq!(
        trace_step(u32::MAX, &bonuses(false, false), true, true),
        TraceStep::Trace { reflect: false, refract: false, child_depth: u32::MAX - 1 }
    );
}

#[test]
fn ray_chain_stops_at_the_limit() {
    let s = bonuses(true, true);
    let mut depth = 10u32;
    let mut rays = 1;
    while let TraceStep::Trace { child_depth, .. } = trace_step(depth, &s, true, false) {
        depth = child_depth;
        rays += 1;
    }
    assert_eq!(rays, 11);
}
