//! The control skeleton of the recursive radiance integrator.
//!
//! Tracing one ray alternates floating-point work (intersecting the scene,
//! scattering at the struck material) with exact decisions: stop when the
//! bounce depth is exhausted, stop when the ray is absorbed or misses, or
//! recurse one level deeper. The decisions live here with a contract; the
//! rendering front end performs the geometric work between them.

use vstd::prelude::*;

verus! {

/// Recursion bound of the integrator: a ray that is still bouncing at
/// this depth contributes black.
pub const MAX_DEPTH_LIMIT: u32 = 50;

/// What the scene and the struck material said about the current ray.
#[derive(Debug, Clone, Copy, PartialEq, Eq, Structural)]
pub enum TraceEvent {
    /// The ray hit a surface and its material scattered it onward.
    HitScattered,
    /// The ray hit a surface and its material absorbed it.
    HitAbsorbed,
    /// The ray left the scene without hitting anything.
    Miss,
}

/// What the integrator does next with the current ray.
#[derive(Debug, Clone, Copy, PartialEq, Eq, Structural)]
pub enum TraceStep {
    /// Trace the scattered ray at the carried depth, and tint the
    /// gathered radiance by the material's attenuation.
    Bounce(u32),
    /// Contribute black: the ray was absorbed, or bounced too often.
    Black,
    /// Contribute the background gradient for the ray's direction.
    Sky,
}

/// The integrator's decision at one depth for one event: black once the
/// depth bound is reached, regardless of the event; otherwise black on
/// absorption, the sky gradient on a miss, and one more bounce on a
/// scattered hit.
pub open spec fn step_of(depth: u32, event: TraceEvent) -> TraceStep {
    if depth >= MAX_DEPTH_LIMIT {
        TraceStep::Black
    } else {
        match event {
            TraceEvent::HitScattered => TraceStep::Bounce((depth + 1) as u32),
            TraceEvent::HitAbsorbed => TraceStep::Black,
            TraceEvent::Miss => TraceStep::Sky,
        }
    }
}

/// Decides one step of the integrator.
pub fn trace_step(depth: u32, event: TraceEvent) -> (step: TraceStep)
    ensures
        step == step_of(depth, event),
{
    if depth >= MAX_DEPTH_LIMIT {
        TraceStep::Black
    } else {
        match event {
            TraceEvent::HitScattered => TraceStep::Bounce(depth + 1),
            TraceEvent::HitAbsorbed => TraceStep::Black,
            TraceEvent::Miss => TraceStep::Sky,
        }
    }
}

/// Depth bound of the integrator: a bounce always carries the depth up by
/// exactly one and only happens strictly below the bound, so a chain of
/// bounces started at depth zero stays within `MAX_DEPTH_LIMIT`, and a ray
/// that keeps re-intersecting is answered with black exactly when the
/// depth reaches the bound, never later.
pub proof fn lemma_trace_depth_bound(depth: u32, event: TraceEvent)
    ensures
        forall|next: u32|
            step_of(depth, event) == TraceStep::Bounce(next) ==> depth < MAX_DEPTH_LIMIT && next
                == depth + 1,
        depth >= MAX_DEPTH_LIMIT ==> step_of(depth, event) == TraceStep::Black,
{
}

} // verus!
