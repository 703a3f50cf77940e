use vstd::prelude::*;

verus! {

/// What the closest-hit search and the struck surface's material report for
/// a ray traced below the depth limit.
#[derive(Debug, Clone, Copy, PartialEq, Eq, Structural)]
pub enum SurfaceEvent {
    /// No surface was hit in range.
    Missed,
    /// A surface was hit and its material absorbed the ray.
    Absorbed,
    /// A surface was hit and its material scattered the ray.
    Scattered,
}

/// What the estimator returns for a ray at some depth.
#[derive(Debug, Clone, Copy, PartialEq, Eq, Structural)]
pub enum PathStep {
    /// No light: the depth limit was reached or the ray was absorbed.
    Black,
    /// The background gradient seen along the ray's direction.
    Sky,
    /// The attenuation of the scattering event times the light of the
    /// scattered ray, estimated at the given depth.
    Bounce(usize),
}

/// The estimator's rule for one ray at `depth` below `max_depth`.
pub open spec fn next_step(depth: usize, max_depth: usize, event: SurfaceEvent) -> PathStep {
    if depth >= max_depth {
        PathStep::Black
    } else {
        match event {
            SurfaceEvent::Missed => PathStep::Sky,
            SurfaceEvent::Absorbed => PathStep::Black,
            SurfaceEvent::Scattered => PathStep::Bounce((depth + 1) as usize),
        }
    }
}

/// Follows one light path from `depth`, where `events` are the reports for
/// the successive rays that get traced. Gives the step that ends the path
/// (`None` while the events run out first) and the number of bounces.
pub open spec fn run_path(depth: usize, max_depth: usize, events: Seq<SurfaceEvent>) -> (
    Option<PathStep>,
    nat,
)
    decreases events.len(),
{
    if depth >= max_depth {
        (Some(PathStep::Black), 0)
    } else if events.len() == 0 {
        (None, 0)
    } else {
        match next_step(depth, max_depth, events[0]) {
            PathStep::Bounce(d) => {
                let rest = run_path(d, max_depth, events.drop_first());
                (rest.0, rest.1 + 1)
            },
            step => (Some(step), 0),
        }
    }
}

/// Whether a ray at `depth` gets no light without being traced: the path has
/// reached the depth limit, whatever the scene holds.
pub fn depth_exhausted(depth: usize, max_depth: usize) -> (r: bool)
    ensures
        r == (depth >= max_depth),
        r ==> forall|event: SurfaceEvent| next_step(depth, max_depth, event) == PathStep::Black,
{
    depth >= max_depth
}

/// The estimator's step for a ray at `depth`, given what tracing it reported.
pub fn path_step(depth: usize, max_depth: usize, event: SurfaceEvent) -> (r: PathStep)
    ensures
        r == next_step(depth, max_depth, event),
{
    if depth >= max_depth {
        return PathStep::Black;
    }
    match event {
        SurfaceEvent::Missed => PathStep::Sky,
        SurfaceEvent::Absorbed => PathStep::Black,
        SurfaceEvent::Scattered => PathStep::Bounce(depth + 1),
    }
}

/// With a depth limit of zero every ray gives black, whatever it hits.
pub proof fn lemma_zero_depth_is_black(event: SurfaceEvent, events: Seq<SurfaceEvent>)
    ensures
        next_step(0, 0, event) == PathStep::Black,
        run_path(0, 0, events) == (Some(PathStep::Black), 0nat),
{
}

/// A path started at `depth` ends after at most `max_depth - depth` bounces,
/// whatever the scene reports: once that many events are known it has ended,
/// with black or with the sky.
pub proof fn lemma_path_terminates(depth: usize, max_depth: usize, events: Seq<SurfaceEvent>)
    requires
        depth <= max_depth,
    ensures
        run_path(depth, max_depth, events).1 <= max_depth - depth,
        events.len() >= max_depth - depth ==> run_path(depth, max_depth, events).0 is Some,
        run_path(depth, max_depth, events).0 is Some ==> run_path(depth, max_depth, events).0
            == Some(PathStep::Black) || run_path(depth, max_depth, events).0 == Some(
            PathStep::Sky,
        ),
    decreases events.len(),
{
    if depth < max_depth && events.len() > 0 {
        if events[0] == SurfaceEvent::Scattered {
            lemma_path_terminates((depth + 1) as usize, max_depth, events.drop_first());
        }
    }
}

} // verus!
