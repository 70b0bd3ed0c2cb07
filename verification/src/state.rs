//! The state of the autosplitter between polls, and the questions that
//! decide what the timer is told: start, split, reset.

use crate::acts::Acts;
use crate::process::ProcessInfo;
use crate::settings::Settings;
use crate::watcher::{Pair, Watcher, Watchers};
use core::time::Duration;
use vstd::prelude::*;

verus! {

/// What the autosplitter keeps from one poll to the next: the attached
/// process, the user's toggles, and the last two scenes observed.
#[derive(Clone, Copy, PartialEq, Eq, Debug, Structural)]
pub struct State {
    pub game: Option<ProcessInfo>,
    pub settings: Option<Settings>,
    pub watchers: Watchers,
}

impl State {
    /// The state before anything has happened: no process, no settings, no
    /// scene observed.
    pub open spec fn spec_new() -> State {
        State { game: None, settings: None, watchers: Watchers { scene_id: Watcher { pair: None } } }
    }

    /// Whether a process is attached and its scene pointer is resolved.
    pub open spec fn spec_resolved(self) -> bool {
        match self.game {
            Some(game) => game.addresses is Some,
            None => false,
        }
    }

    /// The scene code that a read of the scene gives: the value read, or 0
    /// where the read failed.
    pub open spec fn spec_scene_code(read: Option<u16>) -> u16 {
        match read {
            Some(code) => code,
            None => 0,
        }
    }

    /// The scene that `code` is taken for after `pair` was observed: the
    /// scene the code stands for; for a code that stands for none, the scene
    /// observed last, or `Undefined` where none has been observed.
    pub open spec fn spec_classify(code: u16, pair: Option<Pair>) -> Acts {
        match Acts::spec_from_code(code) {
            Some(act) => act,
            None => match pair {
                Some(before) => before.current,
                None => Acts::Undefined,
            },
        }
    }

    /// The state after a read of the scene came back with `read`. While no
    /// scene pointer is resolved nothing is observed and the state stays as
    /// it is; otherwise the classified scene becomes the latest observation.
    pub open spec fn spec_update(self, read: Option<u16>) -> State {
        if self.spec_resolved() {
            let pair = self.watchers.scene_id.pair;
            let scene = State::spec_classify(State::spec_scene_code(read), pair);
            State {
                watchers: Watchers {
                    scene_id: Watcher { pair: Some(Watcher::spec_update(pair, scene)) },
                },
                ..self
            }
        } else {
            self
        }
    }

    /// Whether the timer is to start: automatic start is enabled and the
    /// scene went from the new-game menu to the start of the game.
    pub open spec fn spec_start(self) -> bool {
        match (self.settings, self.watchers.scene_id.pair) {
            (Some(settings), Some(pair)) => settings.start && pair.old == Acts::NewGameMenu
                && pair.current == Acts::GameStart,
            _ => false,
        }
    }

    /// Whether the timer is to split: the scene left a playable act whose
    /// split is enabled for the scene that completes it.
    pub open spec fn spec_split(self) -> bool {
        match (self.settings, self.watchers.scene_id.pair) {
            (Some(settings), Some(pair)) => settings.spec_split_enabled(pair.old)
                && pair.old.spec_completed_by(pair.current),
            _ => false,
        }
    }

    /// Whether the timer is to reset: automatic reset is enabled and the
    /// scene changed to the new-game menu.
    pub open spec fn spec_reset(self) -> bool {
        match (self.settings, self.watchers.scene_id.pair) {
            (Some(settings), Some(pair)) => settings.reset && pair.current != pair.old
                && pair.current == Acts::NewGameMenu,
            _ => false,
        }
    }

    /// Creates the state before anything has happened.
    pub fn new() -> (state: State)
        ensures
            state == State::spec_new(),
    {
        State { game: None, settings: None, watchers: Watchers { scene_id: Watcher::new() } }
    }

    /// Tells whether a process is attached and its scene pointer is resolved.
    pub fn resolved(&self) -> (resolved: bool)
        ensures
            resolved == self.spec_resolved(),
    {
        match self.game {
            Some(game) => game.addresses.is_some(),
            None => false,
        }
    }

    /// Takes in the outcome of a read of the scene code.
    pub fn update(&mut self, read: Option<u16>)
        ensures
            *final(self) == old(self).spec_update(read),
    {
        if !self.resolved() {
            return ;
        }
        let code: u16 = match read {
            Some(code) => code,
            None => 0,
        };
        let scene = match Acts::from_code(code) {
            Some(act) => act,
            None => match self.watchers.scene_id.pair {
                Some(before) => before.current,
                None => Acts::Undefined,
            },
        };
        self.watchers.scene_id.update(scene);
    }

    /// Decides whether the timer is to start.
    pub fn start(&self) -> (fires: bool)
        ensures
            fires == self.spec_start(),
    {
        let Some(settings) = self.settings else {
            return false;
        };
        if !settings.start {
            return false;
        }
        let Some(level_id) = self.watchers.scene_id.pair else {
            return false;
        };
        level_id.old == Acts::NewGameMenu && level_id.current == Acts::GameStart
    }

    /// Decides whether the timer is to split.
    pub fn split(&self) -> (fires: bool)
        ensures
            fires == self.spec_split(),
    {
        let Some(settings) = self.settings else {
            return false;
        };
        let Some(level_id) = self.watchers.scene_id.pair else {
            return false;
        };
        settings.split_enabled(level_id.old) && level_id.old.completed_by(level_id.current)
    }

    /// Decides whether the timer is to reset.
    pub fn reset(&self) -> (fires: bool)
        ensures
            fires == self.spec_reset(),
    {
        let Some(settings) = self.settings else {
            return false;
        };
        if !settings.reset {
            return false;
        }
        let Some(level_id) = self.watchers.scene_id.pair else {
            return false;
        };
        level_id.changed() && level_id.current == Acts::NewGameMenu
    }

    /// Whether the game is loading. The game is timed by the wall clock
    /// alone, so there is never an opinion on it.
    pub fn is_loading(&self) -> (loading: Option<bool>)
        ensures
            loading is None,
    {
        None
    }

    /// The game's own time. The game is timed by the wall clock alone, so
    /// there is never an opinion on it.
    pub fn game_time(&self) -> (time: Option<Duration>)
        ensures
            time is None,
    {
        None
    }

    /// A scene code that stands for no scene changes nothing about the
    /// current scene: it stays what it was, and is `Undefined` where no scene
    /// has been observed yet. A failed read counts as the code 0, which
    /// stands for no scene.
    pub proof fn lemma_unknown_code_is_sticky(self, read: Option<u16>)
        requires
            self.spec_resolved(),
            Acts::spec_from_code(State::spec_scene_code(read)) is None,
        ensures
            self.spec_update(read).watchers.scene_id.pair is Some,
            self.spec_update(read).watchers.scene_id.pair.unwrap().current == (
            match self.watchers.scene_id.pair {
                Some(before) => before.current,
                None => Acts::Undefined,
            }),
    {
    }

    /// The codes that stand for a scene are 1 to 15 and 17 to 20, and no
    /// others.
    pub proof fn lemma_known_codes(code: u16)
        ensures
            Acts::spec_from_code(code) is Some <==> (1 <= code <= 15 || 17 <= code <= 20),
    {
    }

    /// While the scene stays the same nothing fires: with the current scene
    /// equal to the one before, neither start nor split nor reset is due.
    pub proof fn lemma_steady_state_is_silent(self)
        requires
            self.watchers.scene_id.pair is Some,
            self.watchers.scene_id.pair.unwrap().current == self.watchers.scene_id.pair.unwrap().old,
        ensures
            !self.spec_start(),
            !self.spec_split(),
            !self.spec_reset(),
    {
    }

    /// With the split of the act just left disabled no split fires, whatever
    /// scene follows and whatever the other toggles say.
    pub proof fn lemma_disabled_act_never_splits(self)
        requires
            self.settings is Some,
            self.watchers.scene_id.pair is Some,
            !self.settings.unwrap().spec_split_enabled(self.watchers.scene_id.pair.unwrap().old),
        ensures
            !self.spec_split(),
    {
    }

    /// Reset fires exactly when automatic reset is enabled and the scene
    /// changed to the new-game menu; staying in the new-game menu does not
    /// fire it.
    pub proof fn lemma_reset_on_entering_menu(self)
        requires
            self.settings is Some,
            self.watchers.scene_id.pair is Some,
        ensures
            self.spec_reset() <==> (self.settings.unwrap().reset
                && self.watchers.scene_id.pair.unwrap().current == Acts::NewGameMenu
                && self.watchers.scene_id.pair.unwrap().current
                != self.watchers.scene_id.pair.unwrap().old),
            self.watchers.scene_id.pair.unwrap().current == self.watchers.scene_id.pair.unwrap().old
                ==> !self.spec_reset(),
    {
    }

    /// At most one of start, split and reset is due at a time.
    pub proof fn lemma_decisions_exclude_each_other(self)
        ensures
            !(self.spec_reset() && self.spec_split()),
            !(self.spec_reset() && self.spec_start()),
            !(self.spec_split() && self.spec_start()),
    {
    }
}

} // verus!
