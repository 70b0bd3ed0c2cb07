//! The pair of scenes that two consecutive observations give.

use crate::acts::Acts;
use vstd::prelude::*;

verus! {

/// The scene observed before the latest observation, and the latest one.
#[derive(Clone, Copy, PartialEq, Eq, Debug, Structural)]
pub struct Pair {
    pub old: Acts,
    pub current: Acts,
}

impl Pair {
    /// Whether the latest observation differs from the one before.
    pub open spec fn spec_changed(self) -> bool {
        self.current != self.old
    }

    /// Tells whether the latest observation differs from the one before.
    pub fn changed(&self) -> (changed: bool)
        ensures
            changed == self.spec_changed(),
    {
        self.current != self.old
    }
}

/// Keeps the last two observations of a scene. It holds no pair until the
/// first observation is made.
#[derive(Clone, Copy, PartialEq, Eq, Debug, Structural)]
pub struct Watcher {
    pub pair: Option<Pair>,
}

impl Watcher {
    /// The pair after `value` is observed on top of `pair`: the first
    /// observation stands on both sides, so that it shows no transition; each
    /// later one moves the former `current` to `old`.
    pub open spec fn spec_update(pair: Option<Pair>, value: Acts) -> Pair {
        match pair {
            Some(before) => Pair { old: before.current, current: value },
            None => Pair { old: value, current: value },
        }
    }

    /// A watcher that has observed nothing yet.
    pub fn new() -> (watcher: Watcher)
        ensures
            watcher.pair is None,
    {
        Watcher { pair: None }
    }

    /// Records `value` as the latest observation.
    pub fn update(&mut self, value: Acts)
        ensures
            final(self).pair == Some(Watcher::spec_update(old(self).pair, value)),
    {
        let pair = match self.pair {
            Some(before) => Pair { old: before.current, current: value },
            None => Pair { old: value, current: value },
        };
        self.pair = Some(pair);
    }
}

/// The watchers of a running game; the scene is all that is watched.
#[derive(Clone, Copy, PartialEq, Eq, Debug, Structural)]
pub struct Watchers {
    pub scene_id: Watcher,
}

} // verus!
