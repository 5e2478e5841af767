use phystty::controls::{command_for_key, Command, Controls, KeyInput, WorldAction};
use phystty::scene::{spawn_lane_offset, SpawnLanes};

#[test]
fn key_bindings() {
    assert_eq!(command_for_key(KeyInput::Esc), Some(Command::Quit));
    assert_eq!(command_for_key(KeyInput::Char('q')), Some(Command::Quit));
    assert_eq!(command_for_key(KeyInput::Char('Q')), Some(Command::Quit));
    assert_eq!(command_for_key(KeyInput::Char(' ')), Some(Command::Spawn));
    assert_eq!(command_for_key(KeyInput::Char('g')), Some(Command::ToggleGravity));
    assert_eq!(command_for_key(KeyInput::Char('G')), Some(Command::ToggleGravity));
    assert_eq!(command_for_key(KeyInput::Char('p')), Some(Command::TogglePause));
    assert_eq!(command_for_key(KeyInput::Char('P')), Some(Command::TogglePause));
    assert_eq!(command_for_key(KeyInput::Char('r')), Some(Command::Reset));
    assert_eq!(command_for_key(KeyInput::Char('R')), Some(Command::Reset));
    assert_eq!(command_for_key(KeyInput::Char('c')), Some(Command::Clear));
    assert_eq!(command_for_key(KeyInput::Char('C')), Some(Command::Clear));
    assert_eq!(command_for_key(KeyInput::Char('x')), None);
    assert_eq!(command_for_key(KeyInput::Other), None);
}

#[test]
fn new_controls_run() {
    let controls = Controls::new();
    assert!(!controls.paused);
    assert!(!controls.should_quit);
}

#[test]
fn releases_are_ignored() {
    let mut controls = Controls::new();
    assert_eq!(controls.handle_key(KeyInput::Char('q'), false), None);
    assert_eq!(controls.handle_key(KeyInput::Char(' '), false), None);
    assert_eq!(controls, Controls::new());
}

#[test]
fn pause_toggles_and_reset_resumes() {
    let mut controls = Controls::new();
    assert_eq!(controls.handle_key(KeyInput::Char('p'), true), None);
    assert!(controls.paused);
    assert_eq!(controls.handle_key(KeyInput::Char('P'), true), None);
    assert!(!controls.paused);
    controls.handle_key(KeyInput::Char('p'), true);
    assert_eq!(controls.handle_key(KeyInput::Char('r'), true), Some(WorldAction::Reset));
    assert!(!controls.paused);
}

#[test]
fn world_actions() {
    let mut controls = Controls::new();
    assert_eq!(controls.handle_key(KeyInput::Char(' '), true), Some(WorldAction::Spawn));
    assert_eq!(controls.handle_key(KeyInput::Char('g'), true), Some(WorldAction::ToggleGravity));
    assert_eq!(controls.handle_key(KeyInput::Char('c'), true), Some(WorldAction::Clear));
    assert_eq!(controls.handle_key(KeyInput::Other, true), None);
    assert_eq!(controls, Controls::new());
}

#[test]
fn quit_stays() {
    let mut controls = Controls::new();
    assert_eq!(controls.handle_key(KeyInput::Esc, true), None);
    assert!(controls.should_quit);
    controls.handle_key(KeyInput::Char('r'), true);
    controls.handle_key(KeyInput::Char('p'), true);
    assert!(controls.should_quit);
}

#[test]
fn spawn_lanes_cycle() {
    let offsets: Vec<i8> = (0..7).map(spawn_lane_offset).collect();
    assert_eq!(offsets, vec![-2, -1, 0, 1, 2, -2, -1]);
    assert_eq!(spawn_lane_offset(usize::MAX), (usize::MAX % 5) as i8 - 2);
}

#[test]
fn spawn_counter_advances_and_restarts() {
    let mut lanes = SpawnLanes::new();
    let taken: Vec<i8> = (0..6).map(|_| lanes.next_lane()).collect();
    assert_eq!(taken, vec![-2, -1, 0, 1, 2, -2]);
    assert_eq!(lanes.count, 6);
    lanes = SpawnLanes::new();
    assert_eq!(lanes.next_lane(), -2);
    let mut last = SpawnLanes { count: usize::MAX };
    assert_eq!(last.next_lane(), (usize::MAX % 5) as i8 - 2);
    assert_eq!(last.count, 0);
}
