//! One poll of the game, step by step. The autosplitter itself reads no
//! memory and talks to no timer: it answers each event with the action that
//! is due next, and whoever drives it carries the action out and reports the
//! outcome as the next event.

use crate::memory::{
    scene_address, scene_width, spec_scene_address, spec_scene_width, spec_u16_le, spec_u32_le,
    u16_le, u32_le, SCENE_PATH_LEN,
};
use crate::process::{ProcessInfo, PROCESS_COUNT};
use crate::settings::Settings;
use crate::state::State;
use crate::timer::{TimerCommand, TimerState};
use vstd::prelude::*;

verus! {

/// Where a poll stands: which outcome the autosplitter is waiting for.
#[derive(Clone, Copy, PartialEq, Eq, Debug, Structural)]
pub enum Phase {
    /// Between two polls.
    Idle,
    /// Waiting to hear whether the executable at `candidate` of the search
    /// order could be attached.
    Attaching { candidate: usize },
    /// Waiting for the place of the main module of the process just attached.
    Locating,
    /// Waiting for the process handle to be let go.
    Detaching,
    /// Waiting to hear whether the attached process is still open.
    CheckingOpen,
    /// Waiting for the bytes of the main module.
    Scanning,
    /// Waiting for the read of step `hop` on the way to the scene code.
    Walking { hop: usize },
    /// Waiting for the timer's state to decide on reset and split.
    TimerRunning,
    /// Waiting for a reset or split to be carried out.
    Commanding,
    /// Waiting for the timer's state to decide on start.
    TimerIdle,
    /// Waiting for a start to be carried out.
    Starting,
    /// Stopped for good after a fault.
    Halted,
}

/// What the driver reports to the autosplitter.
#[derive(Debug)]
pub enum Event {
    /// A poll begins; with it come the toggles as the user has them now.
    Tick(Settings),
    /// Whether the attach that was asked for gave a process.
    Attached(bool),
    /// Base address and size of the main module, or nothing where they could
    /// not be had.
    Module(Option<(u64, u64)>),
    /// Whether the attached process is still open.
    Open(bool),
    /// The bytes that the read that was asked for gave, or nothing where the
    /// read failed.
    Memory(Option<Vec<u8>>),
    /// The state of the timer.
    Timer(TimerState),
    /// The detach or timer command that was asked for has been carried out.
    Done,
}

/// What the autosplitter asks of the driver.
#[derive(Clone, Copy, PartialEq, Eq, Debug, Structural)]
pub enum Action {
    /// Attach to the executable at `candidate` of the search order and
    /// report `Event::Attached`.
    Attach { candidate: usize },
    /// Find the main module of the process attached under the name at
    /// `candidate` and report `Event::Module`.
    LocateModule { candidate: usize },
    /// Let go of the process handle and report `Event::Done`.
    Detach,
    /// Report with `Event::Open` whether the process is still open.
    CheckOpen,
    /// Read `len` bytes at `address` and report `Event::Memory`.
    Read { address: u64, len: u64 },
    /// Report the timer's state with `Event::Timer`.
    QueryTimer,
    /// Send the command to the timer and report `Event::Done`.
    Command(TimerCommand),
    /// The poll is over; the next event is the `Event::Tick` of the next one.
    Finish,
    /// A fault: stop at once, for good.
    Trap,
}

/// The autosplitter: what it keeps between polls, and where the poll stands.
#[derive(Clone, Copy, PartialEq, Eq, Debug, Structural)]
pub struct Autosplitter {
    pub state: State,
    pub phase: Phase,
}

impl Autosplitter {
    /// The autosplitter before its first poll.
    pub open spec fn spec_new() -> Autosplitter {
        Autosplitter { state: State::spec_new(), phase: Phase::Idle }
    }

    /// The same autosplitter in another phase, with the action that leads
    /// there.
    pub open spec fn spec_goto(self, phase: Phase, action: Action) -> (Autosplitter, Action) {
        (Autosplitter { phase, ..self }, action)
    }

    /// The fault path: nothing of the state is kept, the autosplitter is
    /// halted, and the driver is told to trap.
    pub open spec fn spec_panic() -> (Autosplitter, Action) {
        (Autosplitter { state: State::spec_new(), phase: Phase::Halted }, Action::Trap)
    }

    /// The start of attachment and resolution: with no process at hand the
    /// first executable of the search order is tried; with one at hand it is
    /// first asked whether it is still open.
    pub open spec fn spec_init(self) -> (Autosplitter, Action) {
        if self.state.game is None {
            self.spec_goto(Phase::Attaching { candidate: 0 }, Action::Attach { candidate: 0 })
        } else {
            self.spec_goto(Phase::CheckingOpen, Action::CheckOpen)
        }
    }

    /// The start of a poll: the toggles are taken over, then attachment and
    /// resolution begin.
    pub open spec fn spec_tick(self, settings: Settings) -> (Autosplitter, Action) {
        Autosplitter { state: State { settings: Some(settings), ..self.state }, ..self }.spec_init()
    }

    /// After an attach of the executable at `candidate`: a process that was
    /// found has its main module located; otherwise the next executable of
    /// the search order is tried, and after the last one the poll is over.
    pub open spec fn spec_attached(self, candidate: usize, attached: bool) -> (
        Autosplitter,
        Action,
    ) {
        if candidate >= PROCESS_COUNT {
            Autosplitter::spec_panic()
        } else if attached {
            self.spec_goto(Phase::Locating, Action::LocateModule { candidate })
        } else if candidate + 1 < PROCESS_COUNT {
            let next = (candidate + 1) as usize;
            self.spec_goto(Phase::Attaching { candidate: next }, Action::Attach { candidate: next })
        } else {
            self.spec_goto(Phase::Idle, Action::Finish)
        }
    }

    /// After the main module was looked for: where it was found the process
    /// is kept, without a scene pointer so far, and is asked whether it is
    /// open; where it was not, the process is let go.
    pub open spec fn spec_located(self, module: Option<(u64, u64)>) -> (Autosplitter, Action) {
        match ProcessInfo::spec_attach_process(module) {
            Some(game) => (
                Autosplitter {
                    state: State { game: Some(game), ..self.state },
                    phase: Phase::CheckingOpen,
                },
                Action::CheckOpen,
            ),
            None => self.spec_goto(Phase::Detaching, Action::Detach),
        }
    }

    /// After the process was asked whether it is open: a closed process is
    /// forgotten and let go; an open one has its main module read if the
    /// scene pointer is not resolved yet, and the scene read if it is.
    pub open spec fn spec_open(self, open: bool) -> (Autosplitter, Action) {
        match self.state.game {
            Some(game) => if !open {
                (
                    Autosplitter {
                        state: State { game: None, ..self.state },
                        phase: Phase::Detaching,
                    },
                    Action::Detach,
                )
            } else if game.addresses is None {
                self.spec_goto(
                    Phase::Scanning,
                    Action::Read { address: game.main_module_base, len: game.main_module_size },
                )
            } else {
                self.spec_walk()
            },
            None => Autosplitter::spec_panic(),
        }
    }

    /// After the main module was read: the scene pointer is what the bytes
    /// give. With it the scene is read; without it the poll is over, and the
    /// next poll reads the module again.
    pub open spec fn spec_scanned(self, module: Option<Seq<u8>>) -> (Autosplitter, Action) {
        match self.state.game {
            Some(game) => {
                let addresses = match module {
                    Some(bytes) => ProcessInfo::spec_look_for_addresses(bytes),
                    None => None,
                };
                let found = Autosplitter {
                    state: State { game: Some(ProcessInfo { addresses, ..game }), ..self.state },
                    ..self
                };
                if addresses is Some {
                    found.spec_walk()
                } else {
                    found.spec_goto(Phase::Idle, Action::Finish)
                }
            },
            None => Autosplitter::spec_panic(),
        }
    }

    /// The first step on the way to the scene code: the read at the resolved
    /// scene pointer, taken as a 32-bit address.
    pub open spec fn spec_walk(self) -> (Autosplitter, Action) {
        match self.state.game {
            Some(ProcessInfo { addresses: Some(addresses), .. }) => self.spec_goto(
                Phase::Walking { hop: 0 },
                Action::Read {
                    address: spec_scene_address(addresses.base_address as u32, 0) as u64,
                    len: spec_scene_width(0),
                },
            ),
            _ => Autosplitter::spec_panic(),
        }
    }

    /// After the read of step `hop`: a pointer that was read leads to the
    /// next step; the last step gives the scene code, which is observed. A
    /// read that failed or gave the wrong number of bytes ends the way, and
    /// the scene is observed as unreadable.
    pub open spec fn spec_walked(self, hop: usize, bytes: Option<Seq<u8>>) -> (
        Autosplitter,
        Action,
    ) {
        if hop >= SCENE_PATH_LEN {
            Autosplitter::spec_panic()
        } else if hop + 1 == SCENE_PATH_LEN {
            self.spec_observed(
                match bytes {
                    Some(bytes) => spec_u16_le(bytes),
                    None => None,
                },
            )
        } else {
            let pointer = match bytes {
                Some(bytes) => spec_u32_le(bytes),
                None => None,
            };
            match pointer {
                Some(pointer) => self.spec_goto(
                    Phase::Walking { hop: (hop + 1) as usize },
                    Action::Read {
                        address: spec_scene_address(pointer, hop + 1) as u64,
                        len: spec_scene_width(hop + 1),
                    },
                ),
                None => self.spec_observed(None),
            }
        }
    }

    /// After the scene was read: the outcome is taken into the state, and
    /// the timer is asked for its state.
    pub open spec fn spec_observed(self, read: Option<u16>) -> (Autosplitter, Action) {
        (
            Autosplitter { state: self.state.spec_update(read), phase: Phase::TimerRunning },
            Action::QueryTimer,
        )
    }

    /// With the timer's state at hand, for reset and split: during a run,
    /// running or paused, a due reset is commanded, and a due split only
    /// where no reset is due. Otherwise the timer is asked for its state
    /// once more, for the start.
    pub open spec fn spec_in_run(self, timer: TimerState) -> (Autosplitter, Action) {
        if timer.spec_in_run() && self.state.spec_reset() {
            self.spec_goto(Phase::Commanding, Action::Command(TimerCommand::Reset))
        } else if timer.spec_in_run() && self.state.spec_split() {
            self.spec_goto(Phase::Commanding, Action::Command(TimerCommand::Split))
        } else {
            self.spec_goto(Phase::TimerIdle, Action::QueryTimer)
        }
    }

    /// With the timer's state at hand, for the start: a due start is
    /// commanded where no run is under way; otherwise the poll is over.
    pub open spec fn spec_not_running(self, timer: TimerState) -> (Autosplitter, Action) {
        if timer == TimerState::NotRunning && self.state.spec_start() {
            self.spec_goto(Phase::Starting, Action::Command(TimerCommand::Start))
        } else {
            self.spec_goto(Phase::Idle, Action::Finish)
        }
    }

    /// The autosplitter after `event`, and the action it answers with. Each
    /// phase takes the one kind of event it waits for; any other event is a
    /// fault. Once halted, the autosplitter stays as it is and answers every
    /// event with a trap.
    pub open spec fn spec_update(self, event: Event) -> (Autosplitter, Action) {
        match (self.phase, event) {
            (Phase::Halted, _) => (self, Action::Trap),
            (Phase::Idle, Event::Tick(settings)) => self.spec_tick(settings),
            (Phase::Attaching { candidate }, Event::Attached(attached)) => self.spec_attached(
                candidate,
                attached,
            ),
            (Phase::Locating, Event::Module(module)) => self.spec_located(module),
            (Phase::Detaching, Event::Done) => self.spec_goto(Phase::Idle, Action::Finish),
            (Phase::CheckingOpen, Event::Open(open)) => self.spec_open(open),
            (Phase::Scanning, Event::Memory(Some(bytes))) => self.spec_scanned(Some(bytes@)),
            (Phase::Scanning, Event::Memory(None)) => self.spec_scanned(None),
            (Phase::Walking { hop }, Event::Memory(Some(bytes))) => self.spec_walked(
                hop,
                Some(bytes@),
            ),
            (Phase::Walking { hop }, Event::Memory(None)) => self.spec_walked(hop, None),
            (Phase::TimerRunning, Event::Timer(timer)) => self.spec_in_run(timer),
            (Phase::Commanding, Event::Done) => self.spec_goto(
                Phase::TimerIdle,
                Action::QueryTimer,
            ),
            (Phase::TimerIdle, Event::Timer(timer)) => self.spec_not_running(timer),
            (Phase::Starting, Event::Done) => self.spec_goto(Phase::Idle, Action::Finish),
            _ => Autosplitter::spec_panic(),
        }
    }

    /// Whether `event` is of the kind that the phase waits for.
    pub open spec fn spec_awaits(self, event: Event) -> bool {
        match (self.phase, event) {
            (Phase::Idle, Event::Tick(_)) => true,
            (Phase::Attaching { .. }, Event::Attached(_)) => true,
            (Phase::Locating, Event::Module(_)) => true,
            (Phase::Detaching, Event::Done) => true,
            (Phase::CheckingOpen, Event::Open(_)) => true,
            (Phase::Scanning, Event::Memory(_)) => true,
            (Phase::Walking { .. }, Event::Memory(_)) => true,
            (Phase::TimerRunning, Event::Timer(_)) => true,
            (Phase::Commanding, Event::Done) => true,
            (Phase::TimerIdle, Event::Timer(_)) => true,
            (Phase::Starting, Event::Done) => true,
            _ => false,
        }
    }

    /// Whether phase and state fit together, as they do in every autosplitter
    /// that began as a new one: no process is held while one is being
    /// attached, located or let go; a process is held while it is asked
    /// whether it is open; its scene pointer is missing while the module is
    /// read, and resolved from the first read of the scene to the end of the
    /// poll.
    pub open spec fn spec_wf(self) -> bool {
        match self.phase {
            Phase::Idle | Phase::Halted => true,
            Phase::Attaching { candidate } => candidate < PROCESS_COUNT && self.state.game is None,
            Phase::Locating | Phase::Detaching => self.state.game is None,
            Phase::CheckingOpen => self.state.game is Some,
            Phase::Scanning => self.state.game is Some && !self.state.spec_resolved(),
            Phase::Walking { hop } => hop < SCENE_PATH_LEN && self.state.spec_resolved(),
            Phase::TimerRunning | Phase::Commanding | Phase::TimerIdle | Phase::Starting =>
                self.state.spec_resolved(),
        }
    }

    /// The autosplitter after `count` attaches in a row gave no process.
    pub open spec fn spec_after_failed_attaches(self, count: nat) -> Autosplitter
        decreases count,
    {
        if count == 0 {
            self
        } else {
            self.spec_update(Event::Attached(false)).0.spec_after_failed_attaches(
                (count - 1) as nat,
            )
        }
    }

    /// Every step keeps phase and state fitting together.
    pub proof fn lemma_wf_is_kept(self, event: Event)
        requires
            self.spec_wf(),
        ensures
            self.spec_update(event).0.spec_wf(),
    {
    }

    /// A fault comes from the driver alone: an autosplitter whose phase and
    /// state fit together and that is not halted traps exactly on an event
    /// that its phase does not wait for.
    pub proof fn lemma_fault_is_an_event_out_of_turn(self, event: Event)
        requires
            self.spec_wf(),
            self.phase != Phase::Halted,
        ensures
            self.spec_update(event).1 == Action::Trap <==> !self.spec_awaits(event),
            self.spec_update(event).0.phase == Phase::Halted <==> !self.spec_awaits(event),
    {
    }

    /// A resolved scene pointer is kept for as long as the process is: a
    /// step either leaves the process as it is or forgets it altogether.
    pub proof fn lemma_scene_pointer_is_kept(self, event: Event)
        requires
            self.spec_wf(),
            self.state.spec_resolved(),
        ensures
            self.spec_update(event).0.state.game == self.state.game || self.spec_update(
                event,
            ).0.state.game is None,
    {
    }

    /// A process that was attached in this step has no scene pointer yet.
    pub proof fn lemma_new_process_is_unresolved(self, event: Event)
        requires
            self.spec_wf(),
            self.state.game is None,
        ensures
            !self.spec_update(event).0.state.spec_resolved(),
    {
    }

    /// What was observed of the scene outlives the process: short of a
    /// fault, a step leaves the observed pair alone unless it is the read of
    /// a scene, and no step takes an observation away.
    pub proof fn lemma_observation_outlives_process(self, event: Event)
        requires
            self.spec_update(event).1 != Action::Trap,
        ensures
            !(self.phase is Walking) ==> self.spec_update(event).0.state.watchers
                == self.state.watchers,
            self.state.watchers.scene_id.pair is Some ==> self.spec_update(
                event,
            ).0.state.watchers.scene_id.pair is Some,
    {
    }

    /// Once halted, the autosplitter never leaves the halt: it answers every
    /// event with a trap and stays as it is.
    pub proof fn lemma_halted_is_final(self, event: Event)
        requires
            self.phase == Phase::Halted,
        ensures
            self.spec_update(event) == (self, Action::Trap),
    {
    }

    /// An executable that the autosplitter asks to attach or to locate is
    /// one of the search order.
    pub proof fn lemma_candidates_are_known(self, event: Event)
        ensures
            match self.spec_update(event).1 {
                Action::Attach { candidate } => candidate < PROCESS_COUNT,
                Action::LocateModule { candidate } => candidate < PROCESS_COUNT,
                _ => true,
            },
    {
    }

    /// Failed attaches walk down the search order and change nothing else:
    /// after `count` of them the executable `count` places further is being
    /// tried, and once the order is used up the poll is over.
    pub proof fn lemma_failed_attaches(self, candidate: usize, count: nat)
        requires
            self.phase == (Phase::Attaching { candidate }),
            candidate < PROCESS_COUNT,
            candidate + count <= PROCESS_COUNT,
        ensures
            self.spec_after_failed_attaches(count).state == self.state,
            self.spec_after_failed_attaches(count).phase == (if candidate + count < PROCESS_COUNT {
                Phase::Attaching { candidate: (candidate + count) as usize }
            } else {
                Phase::Idle
            }),
        decreases count,
    {
        if count > 0 {
            let next = self.spec_update(Event::Attached(false)).0;
            if candidate + 1 < PROCESS_COUNT {
                next.lemma_failed_attaches((candidate + 1) as usize, (count - 1) as nat);
            } else {
                assert(count == 1);
                assert(next.spec_after_failed_attaches(0) == next);
            }
        }
    }

    /// While no executable of the search order gives a process, a poll
    /// attaches nothing: it takes over the toggles, tries each executable
    /// once, and ends where it began, ready for the next poll to try again.
    pub proof fn lemma_no_process_no_attachment(self, settings: Settings)
        requires
            self.phase == Phase::Idle,
            self.state.game is None,
        ensures
            self.spec_update(Event::Tick(settings)).1 == (Action::Attach { candidate: 0 }),
            self.spec_update(Event::Tick(settings)).0.spec_after_failed_attaches(
                PROCESS_COUNT as nat,
            ) == (Autosplitter {
                state: State { settings: Some(settings), ..self.state },
                phase: Phase::Idle,
            }),
    {
        let begun = self.spec_update(Event::Tick(settings)).0;
        begun.lemma_failed_attaches(0, PROCESS_COUNT as nat);
    }

    /// The timer is commanded only on its own word: a reset or a split only
    /// during a run and only where the state asks for it, a split never
    /// where a reset is due, and a start only where no run is under way.
    pub proof fn lemma_commands_follow_timer(self, event: Event)
        ensures
            match self.spec_update(event).1 {
                Action::Command(TimerCommand::Reset) => {
                    &&& self.phase == Phase::TimerRunning
                    &&& event matches Event::Timer(timer)
                    &&& timer.spec_in_run()
                    &&& self.state.spec_reset()
                },
                Action::Command(TimerCommand::Split) => {
                    &&& self.phase == Phase::TimerRunning
                    &&& event matches Event::Timer(timer)
                    &&& timer.spec_in_run()
                    &&& self.state.spec_split()
                    &&& !self.state.spec_reset()
                },
                Action::Command(TimerCommand::Start) => {
                    &&& self.phase == Phase::TimerIdle
                    &&& event matches Event::Timer(timer)
                    &&& timer == TimerState::NotRunning
                    &&& self.state.spec_start()
                },
                _ => true,
            },
    {
    }

    /// Creates the autosplitter before its first poll.
    pub fn new() -> (autosplitter: Autosplitter)
        ensures
            autosplitter == Autosplitter::spec_new(),
            autosplitter.spec_wf(),
    {
        Autosplitter { state: State::new(), phase: Phase::Idle }
    }

    /// Moves to `phase` and answers with `action`.
    fn goto(&mut self, phase: Phase, action: Action) -> (answer: Action)
        ensures
            (*final(self), answer) == old(self).spec_goto(phase, action),
    {
        self.phase = phase;
        action
    }

    /// Begins attachment and resolution.
    fn init(&mut self) -> (action: Action)
        ensures
            (*final(self), action) == old(self).spec_init(),
    {
        if self.state.game.is_none() {
            self.goto(Phase::Attaching { candidate: 0 }, Action::Attach { candidate: 0 })
        } else {
            self.goto(Phase::CheckingOpen, Action::CheckOpen)
        }
    }

    /// Begins a poll with the toggles that came with it.
    fn tick(&mut self, settings: Settings) -> (action: Action)
        ensures
            (*final(self), action) == old(self).spec_tick(settings),
    {
        self.state.settings = Some(settings);
        self.init()
    }

    /// Takes in whether the executable at `candidate` could be attached.
    fn attached(&mut self, candidate: usize, attached: bool) -> (action: Action)
        ensures
            (*final(self), action) == old(self).spec_attached(candidate, attached),
    {
        if candidate >= PROCESS_COUNT {
            panic(self)
        } else if attached {
            self.goto(Phase::Locating, Action::LocateModule { candidate })
        } else if candidate + 1 < PROCESS_COUNT {
            let next: usize = candidate + 1;
            self.goto(Phase::Attaching { candidate: next }, Action::Attach { candidate: next })
        } else {
            self.goto(Phase::Idle, Action::Finish)
        }
    }

    /// Takes in where the main module of the attached process lies.
    fn located(&mut self, module: Option<(u64, u64)>) -> (action: Action)
        ensures
            (*final(self), action) == old(self).spec_located(module),
    {
        match ProcessInfo::attach_process(module) {
            Some(game) => {
                self.state.game = Some(game);
                self.goto(Phase::CheckingOpen, Action::CheckOpen)
            },
            None => self.goto(Phase::Detaching, Action::Detach),
        }
    }

    /// Takes in whether the attached process is still open.
    fn open(&mut self, open: bool) -> (action: Action)
        ensures
            (*final(self), action) == old(self).spec_open(open),
    {
        match self.state.game {
            Some(game) => {
                if !open {
                    self.state.game = None;
                    self.goto(Phase::Detaching, Action::Detach)
                } else if game.addresses.is_none() {
                    self.goto(
                        Phase::Scanning,
                        Action::Read { address: game.main_module_base, len: game.main_module_size },
                    )
                } else {
                    self.walk()
                }
            },
            None => panic(self),
        }
    }

    /// Takes in the bytes of the main module and resolves the scene pointer.
    fn scanned(&mut self, module: Option<Vec<u8>>) -> (action: Action)
        ensures
            (*final(self), action) == old(self).spec_scanned(
                match module {
                    Some(bytes) => Some(bytes@),
                    None => None,
                },
            ),
    {
        match self.state.game {
            Some(game) => {
                let addresses = match module {
                    Some(bytes) => ProcessInfo::look_for_addresses(bytes.as_slice()),
                    None => None,
                };
                self.state.game = Some(
                    ProcessInfo {
                        main_module_base: game.main_module_base,
                        main_module_size: game.main_module_size,
                        addresses,
                    },
                );
                if addresses.is_some() {
                    self.walk()
                } else {
                    self.goto(Phase::Idle, Action::Finish)
                }
            },
            None => panic(self),
        }
    }

    /// Asks for the first read on the way to the scene code.
    fn walk(&mut self) -> (action: Action)
        ensures
            (*final(self), action) == old(self).spec_walk(),
    {
        match self.state.game {
            Some(ProcessInfo { addresses: Some(addresses), .. }) => {
                let base: u32 = #[verifier::truncate]
                (addresses.base_address as u32);
                self.goto(
                    Phase::Walking { hop: 0 },
                    Action::Read { address: scene_address(base, 0) as u64, len: scene_width(0) },
                )
            },
            _ => panic(self),
        }
    }

    /// Takes in the read of step `hop` on the way to the scene code.
    fn walked(&mut self, hop: usize, bytes: Option<Vec<u8>>) -> (action: Action)
        ensures
            (*final(self), action) == old(self).spec_walked(
                hop,
                match bytes {
                    Some(bytes) => Some(bytes@),
                    None => None,
                },
            ),
    {
        if hop >= SCENE_PATH_LEN {
            panic(self)
        } else if hop + 1 == SCENE_PATH_LEN {
            let read = match bytes {
                Some(bytes) => u16_le(bytes.as_slice()),
                None => None,
            };
            self.observed(read)
        } else {
            let pointer = match bytes {
                Some(bytes) => u32_le(bytes.as_slice()),
                None => None,
            };
            match pointer {
                Some(pointer) => self.goto(
                    Phase::Walking { hop: hop + 1 },
                    Action::Read {
                        address: scene_address(pointer, hop + 1) as u64,
                        len: scene_width(hop + 1),
                    },
                ),
                None => self.observed(None),
            }
        }
    }

    /// Takes in the scene code and turns to the timer.
    fn observed(&mut self, read: Option<u16>) -> (action: Action)
        ensures
            (*final(self), action) == old(self).spec_observed(read),
    {
        self.state.update(read);
        self.goto(Phase::TimerRunning, Action::QueryTimer)
    }

    /// Decides on reset and split with the timer's state at hand.
    fn in_run(&mut self, timer: TimerState) -> (action: Action)
        ensures
            (*final(self), action) == old(self).spec_in_run(timer),
    {
        if timer.in_run() && self.state.reset() {
            self.goto(Phase::Commanding, Action::Command(TimerCommand::Reset))
        } else if timer.in_run() && self.state.split() {
            self.goto(Phase::Commanding, Action::Command(TimerCommand::Split))
        } else {
            self.goto(Phase::TimerIdle, Action::QueryTimer)
        }
    }

    /// Decides on start with the timer's state at hand.
    fn not_running(&mut self, timer: TimerState) -> (action: Action)
        ensures
            (*final(self), action) == old(self).spec_not_running(timer),
    {
        if timer == TimerState::NotRunning && self.state.start() {
            self.goto(Phase::Starting, Action::Command(TimerCommand::Start))
        } else {
            self.goto(Phase::Idle, Action::Finish)
        }
    }
}

/// Takes the fault path: whatever the autosplitter held is dropped, it is
/// halted for good, and the driver is told to trap.
pub fn panic(autosplitter: &mut Autosplitter) -> (action: Action)
    ensures
        (*final(autosplitter), action) == Autosplitter::spec_panic(),
        final(autosplitter).spec_wf(),
{
    autosplitter.state = State::new();
    autosplitter.phase = Phase::Halted;
    Action::Trap
}

/// Advances the poll by one step: takes in `event`, the outcome of the
/// action asked for last, and answers with the action that is due next.
pub fn update(autosplitter: &mut Autosplitter, event: Event) -> (action: Action)
    ensures
        (*final(autosplitter), action) == old(autosplitter).spec_update(event),
        old(autosplitter).spec_wf() ==> final(autosplitter).spec_wf(),
{
    match (autosplitter.phase, event) {
        (Phase::Halted, _) => Action::Trap,
        (Phase::Idle, Event::Tick(settings)) => autosplitter.tick(settings),
        (Phase::Attaching { candidate }, Event::Attached(attached)) => autosplitter.attached(
            candidate,
            attached,
        ),
        (Phase::Locating, Event::Module(module)) => autosplitter.located(module),
        (Phase::Detaching, Event::Done) => autosplitter.goto(Phase::Idle, Action::Finish),
        (Phase::CheckingOpen, Event::Open(open)) => autosplitter.open(open),
        (Phase::Scanning, Event::Memory(module)) => autosplitter.scanned(module),
        (Phase::Walking { hop }, Event::Memory(bytes)) => autosplitter.walked(hop, bytes),
        (Phase::TimerRunning, Event::Timer(timer)) => autosplitter.in_run(timer),
        (Phase::Commanding, Event::Done) => autosplitter.goto(
            Phase::TimerIdle,
            Action::QueryTimer,
        ),
        (Phase::TimerIdle, Event::Timer(timer)) => autosplitter.not_running(timer),
        (Phase::Starting, Event::Done) => autosplitter.goto(Phase::Idle, Action::Finish),
        _ => panic(autosplitter),
    }
}

} // verus!
