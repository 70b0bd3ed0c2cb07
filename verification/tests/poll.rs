use sonic3d_autosplitter::acts::Acts;
use sonic3d_autosplitter::poll::{Action, Autosplitter, Event, Phase};
use sonic3d_autosplitter::process::{MemoryPtr, ProcessInfo};
use sonic3d_autosplitter::settings::Settings;
use sonic3d_autosplitter::state::State;
use sonic3d_autosplitter::timer::{TimerCommand, TimerState};
use sonic3d_autosplitter::update;
use sonic3d_autosplitter::watcher::Pair;

const MODULE_BASE: u64 = 0x40_0000;
const MODULE_SIZE: u64 = 0x200;
const SCENE_POINTER: u32 = 0x0060_0000;
const FIRST: u32 = 0x0070_0000;
const SECOND: u32 = 0x0080_0000;
const THIRD: u32 = 0x0090_0000;

/// A game that lives in a few regions of memory, and a timer beside it.
struct Game {
    running: Option<usize>,
    locatable: bool,
    open: bool,
    regions: Vec<(u64, Vec<u8>)>,
    timer: TimerState,
    attached: bool,
    commands: Vec<TimerCommand>,
}

impl Game {
    fn absent() -> Game {
        Game {
            running: None,
            locatable: true,
            open: true,
            regions: Vec::new(),
            timer: TimerState::NotRunning,
            attached: false,
            commands: Vec::new(),
        }
    }

    fn running(candidate: usize, scene: u16) -> Game {
        let mut module = vec![0x90u8; MODULE_SIZE as usize];
        module[0x40..0x49].copy_from_slice(&[0x8B, 0x3D, 0, 0, 0, 0, 0x8B, 0x0C, 0x87]);
        module[0x42..0x46].copy_from_slice(&SCENE_POINTER.to_le_bytes());
        let mut game = Game::absent();
        game.running = Some(candidate);
        game.regions = vec![
            (MODULE_BASE, module),
            (SCENE_POINTER as u64, FIRST.to_le_bytes().to_vec()),
            (FIRST as u64, SECOND.to_le_bytes().to_vec()),
            (SECOND as u64 + 0x268, THIRD.to_le_bytes().to_vec()),
            (THIRD as u64 + 0x2C8, scene.to_le_bytes().to_vec()),
        ];
        game
    }

    fn set_scene(&mut self, scene: u16) {
        self.regions[4].1 = scene.to_le_bytes().to_vec();
    }

    fn read(&self, address: u64, len: u64) -> Option<Vec<u8>> {
        for (start, bytes) in &self.regions {
            let end = *start + bytes.len() as u64;
            if *start <= address && address + len <= end {
                let from = (address - *start) as usize;
                return Some(bytes[from..from + len as usize].to_vec());
            }
        }
        None
    }

    /// Carries `action` out and gives the event that reports it; nothing for
    /// the two actions that end a poll.
    fn perform(&mut self, action: Action) -> Option<Event> {
        match action {
            Action::Attach { candidate } => {
                self.attached = self.running == Some(candidate);
                Some(Event::Attached(self.attached))
            }
            Action::LocateModule { candidate } => {
                assert_eq!(self.running, Some(candidate));
                Some(Event::Module(if self.locatable {
                    Some((MODULE_BASE, MODULE_SIZE))
                } else {
                    None
                }))
            }
            Action::Detach => {
                self.attached = false;
                Some(Event::Done)
            }
            Action::CheckOpen => Some(Event::Open(self.open && self.running.is_some())),
            Action::Read { address, len } => Some(Event::Memory(self.read(address, len))),
            Action::QueryTimer => Some(Event::Timer(self.timer)),
            Action::Command(command) => {
                self.commands.push(command);
                match command {
                    TimerCommand::Start => self.timer = TimerState::Running,
                    TimerCommand::Reset => self.timer = TimerState::NotRunning,
                    TimerCommand::Split => {}
                }
                Some(Event::Done)
            }
            Action::Finish | Action::Trap => None,
        }
    }
}

/// Runs one poll to its end and gives the actions it took.
fn poll(autosplitter: &mut Autosplitter, game: &mut Game, settings: Settings) -> Vec<Action> {
    let mut actions = Vec::new();
    let mut event = Event::Tick(settings);
    loop {
        let action = update(autosplitter, event);
        actions.push(action);
        assert!(actions.len() < 64, "a poll does not go on for ever");
        match game.perform(action) {
            Some(next) => event = next,
            None => return actions,
        }
    }
}

fn observed(autosplitter: &Autosplitter) -> Option<(Acts, Acts)> {
    autosplitter.state.watchers.scene_id.pair.map(|pair| (pair.old, pair.current))
}

fn walk_actions() -> Vec<Action> {
    vec![
        Action::Read { address: SCENE_POINTER as u64, len: 4 },
        Action::Read { address: FIRST as u64, len: 4 },
        Action::Read { address: SECOND as u64 + 0x268, len: 4 },
        Action::Read { address: THIRD as u64 + 0x2C8, len: 2 },
    ]
}

#[test]
fn new_autosplitter_is_idle_and_empty() {
    let autosplitter = Autosplitter::new();
    assert_eq!(autosplitter.phase, Phase::Idle);
    assert_eq!(autosplitter.state, State::new());
}

#[test]
fn first_poll_attaches_resolves_and_observes() {
    let mut autosplitter = Autosplitter::new();
    let mut game = Game::running(3, 19);
    let actions = poll(&mut autosplitter, &mut game, Settings::default());
    let mut expected = vec![
        Action::Attach { candidate: 0 },
        Action::Attach { candidate: 1 },
        Action::Attach { candidate: 2 },
        Action::Attach { candidate: 3 },
        Action::LocateModule { candidate: 3 },
        Action::CheckOpen,
        Action::Read { address: MODULE_BASE, len: MODULE_SIZE },
    ];
    expected.extend(walk_actions());
    expected.extend([Action::QueryTimer, Action::QueryTimer, Action::Finish]);
    assert_eq!(actions, expected);
    assert_eq!(autosplitter.phase, Phase::Idle);
    assert_eq!(
        autosplitter.state.game,
        Some(ProcessInfo {
            main_module_base: MODULE_BASE,
            main_module_size: MODULE_SIZE,
            addresses: Some(MemoryPtr { base_address: SCENE_POINTER as u64 }),
        })
    );
    assert_eq!(autosplitter.state.settings, Some(Settings::default()));
    assert_eq!(observed(&autosplitter), Some((Acts::NewGameMenu, Acts::NewGameMenu)));
    assert!(game.commands.is_empty());
}

#[test]
fn later_polls_do_not_scan_again() {
    let mut autosplitter = Autosplitter::new();
    let mut game = Game::running(0, 1);
    poll(&mut autosplitter, &mut game, Settings::default());
    let actions = poll(&mut autosplitter, &mut game, Settings::default());
    let mut expected = vec![Action::CheckOpen];
    expected.extend(walk_actions());
    expected.extend([Action::QueryTimer, Action::QueryTimer, Action::Finish]);
    assert_eq!(actions, expected);
}

#[test]
fn every_poll_takes_over_the_toggles() {
    let mut autosplitter = Autosplitter::new();
    let mut game = Game::running(0, 1);
    poll(&mut autosplitter, &mut game, Settings::default());
    let mut settings = Settings::default();
    settings.start = false;
    settings.gene_gadget_1 = false;
    poll(&mut autosplitter, &mut game, settings);
    assert_eq!(autosplitter.state.settings, Some(settings));
}

#[test]
fn unknown_process_is_never_attached() {
    let mut autosplitter = Autosplitter::new();
    let mut game = Game::absent();
    let expected: Vec<Action> = (0..17)
        .map(|candidate| Action::Attach { candidate })
        .chain([Action::Finish])
        .collect();
    for _ in 0..5 {
        let actions = poll(&mut autosplitter, &mut game, Settings::default());
        assert_eq!(actions, expected);
        assert_eq!(autosplitter.phase, Phase::Idle);
        assert_eq!(autosplitter.state.game, None);
        assert_eq!(autosplitter.state.watchers.scene_id.pair, None);
        assert_eq!(autosplitter.state.settings, Some(Settings::default()));
        assert!(!game.attached);
        assert!(game.commands.is_empty());
    }
}

#[test]
fn last_executable_of_the_order_is_still_tried() {
    let mut autosplitter = Autosplitter::new();
    let mut game = Game::running(16, 1);
    let actions = poll(&mut autosplitter, &mut game, Settings::default());
    assert_eq!(actions[16], Action::Attach { candidate: 16 });
    assert_eq!(actions[17], Action::LocateModule { candidate: 16 });
    assert!(autosplitter.state.game.is_some());
}

#[test]
fn process_without_module_is_let_go() {
    let mut autosplitter = Autosplitter::new();
    let mut game = Game::running(1, 19);
    game.locatable = false;
    let actions = poll(&mut autosplitter, &mut game, Settings::default());
    assert_eq!(
        actions,
        vec![
            Action::Attach { candidate: 0 },
            Action::Attach { candidate: 1 },
            Action::LocateModule { candidate: 1 },
            Action::Detach,
            Action::Finish,
        ]
    );
    assert_eq!(autosplitter.state.game, None);
    assert!(!game.attached);
}

#[test]
fn module_without_signature_is_scanned_again_next_poll() {
    let mut autosplitter = Autosplitter::new();
    let mut game = Game::running(0, 19);
    let module = game.regions[0].1.clone();
    game.regions[0].1 = vec![0u8; MODULE_SIZE as usize];
    let expected = vec![
        Action::Attach { candidate: 0 },
        Action::LocateModule { candidate: 0 },
        Action::CheckOpen,
        Action::Read { address: MODULE_BASE, len: MODULE_SIZE },
        Action::Finish,
    ];
    assert_eq!(poll(&mut autosplitter, &mut game, Settings::default()), expected);
    assert_eq!(
        autosplitter.state.game,
        Some(ProcessInfo {
            main_module_base: MODULE_BASE,
            main_module_size: MODULE_SIZE,
            addresses: None,
        })
    );
    assert_eq!(autosplitter.state.watchers.scene_id.pair, None);

    let retry = vec![
        Action::CheckOpen,
        Action::Read { address: MODULE_BASE, len: MODULE_SIZE },
        Action::Finish,
    ];
    assert_eq!(poll(&mut autosplitter, &mut game, Settings::default()), retry);

    game.regions[0].1 = module;
    let actions = poll(&mut autosplitter, &mut game, Settings::default());
    assert_eq!(actions.len(), 2 + 4 + 3);
    assert_eq!(observed(&autosplitter), Some((Acts::NewGameMenu, Acts::NewGameMenu)));
}

#[test]
fn unreadable_module_ends_the_poll() {
    let mut autosplitter = Autosplitter::new();
    let mut game = Game::running(0, 19);
    game.regions.remove(0);
    let actions = poll(&mut autosplitter, &mut game, Settings::default());
    assert_eq!(actions.last(), Some(&Action::Finish));
    assert_eq!(actions.len(), 5);
    assert!(!autosplitter.state.resolved());
}

#[test]
fn closed_process_is_forgotten_and_attached_anew() {
    let mut autosplitter = Autosplitter::new();
    let mut game = Game::running(2, 1);
    poll(&mut autosplitter, &mut game, Settings::default());
    game.set_scene(2);
    poll(&mut autosplitter, &mut game, Settings::default());
    assert_eq!(observed(&autosplitter), Some((Acts::GreenGroveAct1, Acts::GreenGroveAct2)));

    game.running = None;
    let actions = poll(&mut autosplitter, &mut game, Settings::default());
    assert_eq!(actions, vec![Action::CheckOpen, Action::Detach, Action::Finish]);
    assert_eq!(autosplitter.state.game, None);
    assert!(!game.attached);
    assert_eq!(observed(&autosplitter), Some((Acts::GreenGroveAct1, Acts::GreenGroveAct2)));

    game.running = Some(5);
    game.set_scene(3);
    let actions = poll(&mut autosplitter, &mut game, Settings::default());
    assert_eq!(actions[5], Action::Attach { candidate: 5 });
    assert!(actions.contains(&Action::Read { address: MODULE_BASE, len: MODULE_SIZE }));
    assert_eq!(observed(&autosplitter), Some((Acts::GreenGroveAct2, Acts::RustyRuinAct1)));
}

#[test]
fn broken_pointer_chain_reads_as_code_zero() {
    for broken in 1..=4 {
        let mut autosplitter = Autosplitter::new();
        let mut game = Game::running(0, 6);
        poll(&mut autosplitter, &mut game, Settings::default());
        assert_eq!(
            observed(&autosplitter),
            Some((Acts::SpringStadiumAct2, Acts::SpringStadiumAct2))
        );
        game.set_scene(7);
        game.regions.remove(broken);
        let actions = poll(&mut autosplitter, &mut game, Settings::default());
        assert_eq!(actions.len(), 1 + broken + 3);
        assert_eq!(
            observed(&autosplitter),
            Some((Acts::SpringStadiumAct2, Acts::SpringStadiumAct2))
        );
    }
}

#[test]
fn broken_pointer_chain_on_first_poll_is_undefined() {
    let mut autosplitter = Autosplitter::new();
    let mut game = Game::running(0, 6);
    game.regions.remove(2);
    poll(&mut autosplitter, &mut game, Settings::default());
    assert_eq!(observed(&autosplitter), Some((Acts::Undefined, Acts::Undefined)));
}

#[test]
fn pointer_of_wrong_width_ends_the_walk() {
    let mut autosplitter = Autosplitter {
        state: State::new(),
        phase: Phase::Walking { hop: 1 },
    };
    let action = update(&mut autosplitter, Event::Memory(Some(vec![1, 2, 3])));
    assert_eq!(action, Action::QueryTimer);
    assert_eq!(autosplitter.phase, Phase::TimerRunning);

    let mut autosplitter = Autosplitter {
        state: State::new(),
        phase: Phase::Walking { hop: 3 },
    };
    let action = update(&mut autosplitter, Event::Memory(Some(vec![1, 2, 3, 4])));
    assert_eq!(action, Action::QueryTimer);
}

#[test]
fn pointer_arithmetic_wraps_at_32_bits() {
    let mut autosplitter = Autosplitter {
        state: State::new(),
        phase: Phase::Walking { hop: 1 },
    };
    let action = update(&mut autosplitter, Event::Memory(Some(vec![0xFF, 0xFF, 0xFF, 0xFF])));
    assert_eq!(action, Action::Read { address: 0x267, len: 4 });
    assert_eq!(autosplitter.phase, Phase::Walking { hop: 2 });
}

#[test]
fn scene_pointer_is_taken_as_a_32_bit_address() {
    let mut state = State::new();
    state.game = Some(ProcessInfo {
        main_module_base: 0,
        main_module_size: 0,
        addresses: Some(MemoryPtr { base_address: 0x1_2345_6789 }),
    });
    let mut autosplitter = Autosplitter { state, phase: Phase::CheckingOpen };
    let action = update(&mut autosplitter, Event::Open(true));
    assert_eq!(action, Action::Read { address: 0x2345_6789, len: 4 });
}

#[test]
fn start_fires_once_after_boot_menu_and_game_start() {
    let mut autosplitter = Autosplitter::new();
    let mut game = Game::running(0, 0);
    poll(&mut autosplitter, &mut game, Settings::default());
    assert_eq!(observed(&autosplitter), Some((Acts::Undefined, Acts::Undefined)));
    assert!(game.commands.is_empty());

    game.set_scene(19);
    poll(&mut autosplitter, &mut game, Settings::default());
    assert_eq!(observed(&autosplitter).map(|pair| pair.1), Some(Acts::NewGameMenu));
    assert!(game.commands.is_empty());

    game.set_scene(17);
    let actions = poll(&mut autosplitter, &mut game, Settings::default());
    assert_eq!(observed(&autosplitter), Some((Acts::NewGameMenu, Acts::GameStart)));
    assert_eq!(game.commands, vec![TimerCommand::Start]);
    assert_eq!(
        actions[actions.len() - 4..],
        [
            Action::QueryTimer,
            Action::QueryTimer,
            Action::Command(TimerCommand::Start),
            Action::Finish
        ]
    );

    poll(&mut autosplitter, &mut game, Settings::default());
    poll(&mut autosplitter, &mut game, Settings::default());
    assert_eq!(game.commands, vec![TimerCommand::Start]);
}

#[test]
fn start_is_not_commanded_during_a_run() {
    for timer in [TimerState::Running, TimerState::Paused, TimerState::Ended] {
        let mut autosplitter = Autosplitter::new();
        let mut game = Game::running(0, 19);
        game.timer = timer;
        let mut settings = Settings::default();
        settings.reset = false;
        poll(&mut autosplitter, &mut game, settings);
        game.set_scene(17);
        poll(&mut autosplitter, &mut game, settings);
        assert!(game.commands.is_empty());
    }
}

#[test]
fn split_fires_from_green_grove_1_to_2() {
    let mut autosplitter = Autosplitter::new();
    let mut game = Game::running(0, 1);
    game.timer = TimerState::Running;
    poll(&mut autosplitter, &mut game, Settings::default());
    assert!(game.commands.is_empty());
    game.set_scene(2);
    let actions = poll(&mut autosplitter, &mut game, Settings::default());
    assert_eq!(game.commands, vec![TimerCommand::Split]);
    assert_eq!(
        actions[actions.len() - 4..],
        [
            Action::QueryTimer,
            Action::Command(TimerCommand::Split),
            Action::QueryTimer,
            Action::Finish
        ]
    );
    poll(&mut autosplitter, &mut game, Settings::default());
    assert_eq!(game.commands, vec![TimerCommand::Split]);
}

#[test]
fn split_does_not_fire_with_green_grove_1_disabled() {
    let mut settings = Settings::default();
    settings.green_grove_1 = false;
    let mut autosplitter = Autosplitter::new();
    let mut game = Game::running(0, 1);
    game.timer = TimerState::Running;
    poll(&mut autosplitter, &mut game, settings);
    game.set_scene(2);
    poll(&mut autosplitter, &mut game, settings);
    poll(&mut autosplitter, &mut game, settings);
    assert!(game.commands.is_empty());
}

#[test]
fn split_fires_on_both_ways_out_of_panic_puppet_2() {
    for next in [15u16, 18] {
        let mut autosplitter = Autosplitter::new();
        let mut game = Game::running(0, 14);
        game.timer = TimerState::Running;
        poll(&mut autosplitter, &mut game, Settings::default());
        game.set_scene(next);
        poll(&mut autosplitter, &mut game, Settings::default());
        assert_eq!(game.commands, vec![TimerCommand::Split]);
    }
}

#[test]
fn split_fires_while_paused_too() {
    let mut autosplitter = Autosplitter::new();
    let mut game = Game::running(0, 9);
    game.timer = TimerState::Paused;
    poll(&mut autosplitter, &mut game, Settings::default());
    game.set_scene(10);
    poll(&mut autosplitter, &mut game, Settings::default());
    assert_eq!(game.commands, vec![TimerCommand::Split]);
}

#[test]
fn split_is_not_commanded_outside_a_run() {
    for timer in [TimerState::NotRunning, TimerState::Ended] {
        let mut autosplitter = Autosplitter::new();
        let mut game = Game::running(0, 1);
        game.timer = timer;
        poll(&mut autosplitter, &mut game, Settings::default());
        game.set_scene(2);
        poll(&mut autosplitter, &mut game, Settings::default());
        assert!(game.commands.is_empty());
    }
}

#[test]
fn reset_fires_on_return_to_new_game_menu() {
    let mut autosplitter = Autosplitter::new();
    let mut game = Game::running(0, 4);
    game.timer = TimerState::Running;
    poll(&mut autosplitter, &mut game, Settings::default());
    game.set_scene(19);
    let actions = poll(&mut autosplitter, &mut game, Settings::default());
    assert_eq!(game.commands, vec![TimerCommand::Reset]);
    assert_eq!(game.timer, TimerState::NotRunning);
    assert_eq!(
        actions[actions.len() - 4..],
        [
            Action::QueryTimer,
            Action::Command(TimerCommand::Reset),
            Action::QueryTimer,
            Action::Finish
        ]
    );
    poll(&mut autosplitter, &mut game, Settings::default());
    assert_eq!(game.commands, vec![TimerCommand::Reset]);
}

#[test]
fn reset_is_not_commanded_outside_a_run() {
    let mut autosplitter = Autosplitter::new();
    let mut game = Game::running(0, 4);
    poll(&mut autosplitter, &mut game, Settings::default());
    game.set_scene(19);
    poll(&mut autosplitter, &mut game, Settings::default());
    assert!(game.commands.is_empty());
}

#[test]
fn a_whole_run_gives_start_splits_and_reset() {
    let mut autosplitter = Autosplitter::new();
    let mut game = Game::running(7, 19);
    for scene in [19u16, 17, 1, 1, 2, 0, 3, 16, 4, 19, 17] {
        game.set_scene(scene);
        poll(&mut autosplitter, &mut game, Settings::default());
    }
    assert_eq!(
        game.commands,
        vec![
            TimerCommand::Start,
            TimerCommand::Split,
            TimerCommand::Split,
            TimerCommand::Split,
            TimerCommand::Reset,
            TimerCommand::Start,
        ]
    );
}

#[test]
fn event_out_of_turn_is_a_fault() {
    let mut autosplitter = Autosplitter::new();
    let mut game = Game::running(0, 19);
    poll(&mut autosplitter, &mut game, Settings::default());
    assert!(autosplitter.state.resolved());
    let action = update(&mut autosplitter, Event::Open(true));
    assert_eq!(action, Action::Trap);
    assert_eq!(autosplitter.phase, Phase::Halted);
    assert_eq!(autosplitter.state, State::new());
}

#[test]
fn tick_in_the_middle_of_a_poll_is_a_fault() {
    let mut autosplitter = Autosplitter::new();
    assert_eq!(
        update(&mut autosplitter, Event::Tick(Settings::default())),
        Action::Attach { candidate: 0 }
    );
    assert_eq!(update(&mut autosplitter, Event::Tick(Settings::default())), Action::Trap);
    assert_eq!(autosplitter.phase, Phase::Halted);
}

#[test]
fn halted_autosplitter_stays_halted() {
    let mut autosplitter = Autosplitter::new();
    assert_eq!(update(&mut autosplitter, Event::Done), Action::Trap);
    let halted = autosplitter;
    for event in [
        Event::Tick(Settings::default()),
        Event::Attached(true),
        Event::Module(Some((1, 2))),
        Event::Open(true),
        Event::Memory(None),
        Event::Timer(TimerState::Running),
        Event::Done,
    ] {
        assert_eq!(update(&mut autosplitter, event), Action::Trap);
        assert_eq!(autosplitter, halted);
    }
}

#[test]
fn panic_drops_the_state_and_halts() {
    let mut autosplitter = Autosplitter::new();
    let mut game = Game::running(0, 19);
    poll(&mut autosplitter, &mut game, Settings::default());
    let action = sonic3d_autosplitter::poll::panic(&mut autosplitter);
    assert_eq!(action, Action::Trap);
    assert_eq!(
        autosplitter,
        Autosplitter { state: State::new(), phase: Phase::Halted }
    );
}

#[test]
fn impossible_phases_are_faults() {
    let mut autosplitter = Autosplitter {
        state: State::new(),
        phase: Phase::Attaching { candidate: 17 },
    };
    assert_eq!(update(&mut autosplitter, Event::Attached(true)), Action::Trap);

    let mut autosplitter = Autosplitter { state: State::new(), phase: Phase::CheckingOpen };
    assert_eq!(update(&mut autosplitter, Event::Open(true)), Action::Trap);

    let mut autosplitter = Autosplitter { state: State::new(), phase: Phase::Scanning };
    assert_eq!(update(&mut autosplitter, Event::Memory(None)), Action::Trap);

    let mut autosplitter = Autosplitter {
        state: State::new(),
        phase: Phase::Walking { hop: 4 },
    };
    assert_eq!(update(&mut autosplitter, Event::Memory(None)), Action::Trap);
}

#[test]
fn reset_comes_before_split() {
    let mut state = State::new();
    state.settings = Some(Settings::default());
    state.watchers.scene_id.pair =
        Some(Pair { old: Acts::GreenGroveAct1, current: Acts::NewGameMenu });
    let mut autosplitter = Autosplitter { state, phase: Phase::TimerRunning };
    assert_eq!(
        update(&mut autosplitter, Event::Timer(TimerState::Running)),
        Action::Command(TimerCommand::Reset)
    );
    assert_eq!(autosplitter.phase, Phase::Commanding);
    assert_eq!(update(&mut autosplitter, Event::Done), Action::QueryTimer);
    assert_eq!(autosplitter.phase, Phase::TimerIdle);
    assert_eq!(update(&mut autosplitter, Event::Timer(TimerState::NotRunning)), Action::Finish);
    assert_eq!(autosplitter.phase, Phase::Idle);
}
