//! Per-entity tracking decisions: when a filter starts, updates or is left
//! alone, and how much time passed between two updates.

use vstd::prelude::*;

verus! {

/// Time elapsed from `last` to `now`, in the clock's units: none before the
/// first update, and none if the clock reads earlier than `last`.
pub open spec fn spec_elapsed(last: Option<u64>, now: u64) -> u64 {
    match last {
        None => 0,
        Some(t) => if now >= t {
            (now - t) as u64
        } else {
            0
        },
    }
}

/// Time elapsed from `last` to `now`; see [`spec_elapsed`].
pub fn elapsed_since(last: Option<u64>, now: u64) -> (r: u64)
    ensures
        r == spec_elapsed(last, now),
{
    match last {
        None => 0,
        Some(t) => if now >= t {
            now - t
        } else {
            0
        },
    }
}

/// When the pose was last updated, in microseconds of a monotonic clock.
#[derive(Debug, Clone, Copy, PartialEq, Eq, Structural)]
pub struct LastPoseUpdateTime(pub Option<u64>);

impl LastPoseUpdateTime {
    /// Records an update at `now` and returns the time since the previous one.
    pub fn advance(&mut self, now: u64) -> (dt: u64)
        ensures
            dt == spec_elapsed(old(self).0, now),
            final(self).0 == Some(now),
    {
        let dt = elapsed_since(self.0, now);
        self.0 = Some(now);
        dt
    }
}

/// When the hands were last updated, in microseconds of a monotonic clock.
#[derive(Debug, Clone, Copy, PartialEq, Eq, Structural)]
pub struct LastHandsUpdateTime(pub Option<u64>);

impl LastHandsUpdateTime {
    /// Records an update at `now` and returns the time since the previous one.
    pub fn advance(&mut self, now: u64) -> (dt: u64)
        ensures
            dt == spec_elapsed(old(self).0, now),
            final(self).0 == Some(now),
    {
        let dt = elapsed_since(self.0, now);
        self.0 = Some(now);
        dt
    }
}

/// What to do with one tracked entity's filter for one incoming frame.
#[derive(Debug, Clone, Copy, PartialEq, Eq, Structural)]
pub enum TrackStep {
    /// Leave the filter as it is.
    Keep,
    /// Start a filter from the frame's observation.
    Start,
    /// Feed the frame's observation to the running filter.
    Update,
}

/// The step for an entity: nothing happens while updates are switched off or
/// the frame has no detection of it; otherwise the first detection starts
/// its filter and every later one updates it.
pub fn track_step(updates_enabled: bool, detected: bool, tracking: bool) -> (r: TrackStep)
    ensures
        r == (if !updates_enabled || !detected {
            TrackStep::Keep
        } else if tracking {
            TrackStep::Update
        } else {
            TrackStep::Start
        }),
{
    if !updates_enabled || !detected {
        TrackStep::Keep
    } else if tracking {
        TrackStep::Update
    } else {
        TrackStep::Start
    }
}

} // verus!
