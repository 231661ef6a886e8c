//! The retention sweeper: how often it runs, and which ticks of its timer
//! sweep the feed.

use vstd::prelude::*;
use crate::text::{parse_seconds, seconds_of};

verus! {

/// How often the sweeper runs where no interval is set: once an hour.
pub const DEFAULT_CLEANUP_INTERVAL_SECONDS: u64 = 3600;

/// The interval between sweeps, in seconds: the one the setting gives, or
/// the default where the setting is absent or is no number of seconds.
pub fn cleanup_interval_seconds(setting: Option<&str>) -> (seconds: u64)
    ensures
        seconds == match seconds_of(setting) {
            Some(given) => given,
            None => DEFAULT_CLEANUP_INTERVAL_SECONDS,
        },
{
    match parse_seconds(setting) {
        Some(seconds) => seconds,
        None => DEFAULT_CLEANUP_INTERVAL_SECONDS,
    }
}

/// What the sweeper does on a tick of its timer.
#[derive(Clone, Copy, Debug, PartialEq, Eq)]
pub enum SweepAction {
    /// Let the tick pass.
    Skip,
    /// Sweep the feed.
    Sweep,
}

/// The sweeper between ticks: whether the first tick, which comes at once
/// when the timer starts, has passed.
#[derive(Debug)]
pub struct Sweeper {
    started: bool,
}

impl Sweeper {
    /// Whether the first tick has passed.
    pub closed spec fn started(&self) -> bool {
        self.started
    }

    /// A sweeper whose timer has not ticked yet.
    pub fn new() -> (sweeper: Sweeper)
        ensures
            !sweeper.started(),
    {
        Sweeper { started: false }
    }

    /// Takes a tick: the first one passes, every later one sweeps.
    pub fn on_tick(&mut self) -> (action: SweepAction)
        ensures
            final(self).started(),
            action == if old(self).started() {
                SweepAction::Sweep
            } else {
                SweepAction::Skip
            },
    {
        if self.started {
            SweepAction::Sweep
        } else {
            self.started = true;
            SweepAction::Skip
        }
    }
}

} // verus!
