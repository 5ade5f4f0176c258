use weekend_raytracer::trace::trace_step;
use weekend_raytracer::trace::MAX_DEPTH_LIMIT;
use weekend_raytracer::trace::TraceEvent;
use weekend_raytracer::trace::TraceStep;

#[test]
fn scattering_bounces_one_level_deeper() {
    assert_eq!(TraceStep::Bounce(1), trace_step(0, TraceEvent::HitScattered));
    assert_eq!(TraceStep::Bounce(8), trace_step(7, TraceEvent::HitScattered));
}

#[test]
fn absorption_contributes_black() {
    assert_eq!(TraceStep::Black, trace_step(0, TraceEvent::HitAbsorbed));
}

#[test]
fn a_miss_contributes_the_sky() {
    assert_eq!(TraceStep::Sky, trace_step(0, TraceEvent::Miss));
    assert_eq!(TraceStep::Sky, trace_step(MAX_DEPTH_LIMIT - 1, TraceEvent::Miss));
}

#[test]
fn a_ray_that_keeps_bouncing_ends_black_exactly_at_the_bound() {
    // Mirrors that face each other scatter the ray forever: walk the
    // depth as the integrator would and check it stops at the bound.
    let mut depth: u32 = 0;
    let mut bounces: u32 = 0;
    loop {
        match trace_step(depth, TraceEvent::HitScattered) {
            TraceStep::Bounce(next) => {
                assert_eq!(depth + 1, next);
                bounces += 1;
                depth = next;
            }
            TraceStep::Black => break,
            TraceStep::Sky => unreachable!(),
        }
    }
    assert_eq!(MAX_DEPTH_LIMIT, bounces);
    assert_eq!(MAX_DEPTH_LIMIT, depth);
}

#[test]
fn depth_exhaustion_wins_over_any_event() {
    assert_eq!(TraceStep::Black, trace_step(MAX_DEPTH_LIMIT, TraceEvent::HitScattered));
    assert_eq!(TraceStep::Black, trace_step(MAX_DEPTH_LIMIT, TraceEvent::Miss));
    assert_eq!(TraceStep::Black, trace_step(MAX_DEPTH_LIMIT, TraceEvent::HitAbsorbed));
    assert_eq!(TraceStep::Black, trace_step(u32::MAX, TraceEvent::Miss));
}
