use std::time::Duration;
use std::time::Instant;
use tstopwatch::command::Command;
use tstopwatch::command::Effect;
use tstopwatch::stack::StopwatchStack;
use tstopwatch::state::AppState;
use tstopwatch::state::Config;
use tstopwatch::stopwatch::Stopwatch;

fn showing(millis: u64) -> Stopwatch {
    let t0 = Instant::now();
    let mut sw = Stopwatch::new();
    sw.start_at(t0);
    sw.stop_at(t0 + Duration::from_millis(millis));
    sw
}

fn stack_showing(millis: u64) -> StopwatchStack {
    StopwatchStack::from_parts(Vec::new(), Vec::new(), showing(millis)).unwrap()
}

/// A board whose stacks show `readings`, with the stack at `index` in use.
fn board(readings: &[u64], index: usize) -> AppState {
    let stacks = readings.iter().map(|millis| stack_showing(*millis)).collect();
    AppState::from_parts(stacks, index, Config::default(), Vec::new()).unwrap()
}

fn shown(state: &AppState) -> Vec<u128> {
    state.stacks().iter().map(|stack| stack.current().elapsed().as_millis()).collect()
}

fn deleted(state: &AppState) -> Vec<u128> {
    state.deleted_stacks().iter().map(|stack| stack.current().elapsed().as_millis()).collect()
}

#[test]
fn default_config_values() {
    let config = Config::default();
    assert_eq!(config.update_rate_millis(), 50);
    assert_eq!(config.state_file(), "stopwatch.json");
}

#[test]
fn config_new_keeps_its_values() {
    let config = Config::new(250, String::from("/tmp/watch.json"));
    assert_eq!(config.update_rate_millis(), 250);
    assert_eq!(config.state_file(), "/tmp/watch.json");
}

#[test]
fn default_state_has_one_fresh_stack() {
    let state = AppState::default();
    assert_eq!(state.stacks().len(), 1);
    assert_eq!(state.current_stack_index(), 0);
    assert!(state.deleted_stacks().is_empty());
    assert_eq!(state.config().update_rate_millis(), 50);
    assert_eq!(state.config().state_file(), "stopwatch.json");
    assert_eq!(state.current_stack().current().elapsed(), Duration::ZERO);
    assert!(!state.current_stack().current().is_running());
    assert!(state.current_stack().undo_history().is_empty());
}

#[test]
fn from_parts_needs_the_index_among_the_stacks() {
    assert!(AppState::from_parts(Vec::new(), 0, Config::default(), Vec::new()).is_none());
    assert!(AppState::from_parts(vec![stack_showing(1)], 1, Config::default(), Vec::new()).is_none());
    assert!(AppState::from_parts(
        vec![stack_showing(1), stack_showing(2)],
        usize::MAX,
        Config::default(),
        Vec::new()
    )
    .is_none());
    let state = AppState::from_parts(
        vec![stack_showing(1), stack_showing(2)],
        1,
        Config::new(10, String::from("x.json")),
        vec![stack_showing(3)],
    )
    .unwrap();
    assert_eq!(shown(&state), vec![1, 2]);
    assert_eq!(deleted(&state), vec![3]);
    assert_eq!(state.current_stack_index(), 1);
    assert_eq!(state.config().update_rate_millis(), 10);
    assert_eq!(state.config().state_file(), "x.json");
    assert_eq!(state.current_stack().current().elapsed(), Duration::from_millis(2));
}

#[test]
fn deleting_the_only_stack_is_rejected() {
    let mut state = board(&[7], 0);
    assert!(!state.delete_current_stack());
    assert_eq!(shown(&state), vec![7]);
    assert_eq!(state.current_stack_index(), 0);
    assert!(state.deleted_stacks().is_empty());
    assert_eq!(state.apply(Command::DeleteStack), Effect::Unchanged);
    assert_eq!(shown(&state), vec![7]);
}

#[test]
fn deleting_one_of_two_stacks_succeeds() {
    let mut state = board(&[1, 2], 0);
    assert!(state.delete_current_stack());
    assert_eq!(shown(&state), vec![2]);
    assert_eq!(state.current_stack_index(), 0);
    assert_eq!(deleted(&state), vec![1]);
    assert!(!state.delete_current_stack());
}

#[test]
fn deleting_the_last_stack_clamps_the_index() {
    let mut state = board(&[1, 2, 3], 2);
    assert!(state.delete_current_stack());
    assert_eq!(shown(&state), vec![1, 2]);
    assert_eq!(state.current_stack_index(), 1);
    assert_eq!(state.current_stack().current().elapsed(), Duration::from_millis(2));
    assert!(state.delete_current_stack());
    assert_eq!(shown(&state), vec![1]);
    assert_eq!(state.current_stack_index(), 0);
    assert_eq!(deleted(&state), vec![3, 2]);
}

#[test]
fn deleting_a_middle_stack_keeps_the_index() {
    let mut state = board(&[1, 2, 3, 4], 1);
    assert!(state.delete_current_stack());
    assert_eq!(shown(&state), vec![1, 3, 4]);
    assert_eq!(state.current_stack_index(), 1);
    assert_eq!(state.current_stack().current().elapsed(), Duration::from_millis(3));
}

#[test]
fn restoring_brings_back_the_latest_deleted_stack_at_the_end() {
    let mut state = board(&[1, 2, 3], 0);
    assert!(!state.restore_deleted_stack());
    assert!(state.delete_current_stack());
    assert!(state.delete_current_stack());
    assert_eq!(shown(&state), vec![3]);
    assert_eq!(deleted(&state), vec![1, 2]);
    assert!(state.restore_deleted_stack());
    assert_eq!(shown(&state), vec![3, 2]);
    assert_eq!(state.current_stack_index(), 0);
    assert!(state.restore_deleted_stack());
    assert_eq!(shown(&state), vec![3, 2, 1]);
    assert!(state.deleted_stacks().is_empty());
    assert!(!state.restore_deleted_stack());
    assert_eq!(shown(&state), vec![3, 2, 1]);
}

#[test]
fn a_new_stack_below_is_in_use() {
    let mut state = board(&[1, 2, 3], 1);
    state.insert_stack_below();
    assert_eq!(shown(&state), vec![1, 2, 0, 3]);
    assert_eq!(state.current_stack_index(), 2);
    let mut state = board(&[1], 0);
    state.insert_stack_below();
    assert_eq!(shown(&state), vec![1, 0]);
    assert_eq!(state.current_stack_index(), 1);
}

#[test]
fn a_new_stack_above_takes_the_place_of_the_one_in_use() {
    let mut state = board(&[1, 2, 3], 1);
    state.insert_stack_above();
    assert_eq!(shown(&state), vec![1, 0, 2, 3]);
    assert_eq!(state.current_stack_index(), 1);
    let mut state = board(&[1], 0);
    state.insert_stack_above();
    assert_eq!(shown(&state), vec![0, 1]);
    assert_eq!(state.current_stack_index(), 0);
}

#[test]
fn selection_wraps_around() {
    let mut state = board(&[1, 2, 3], 0);
    state.select_next();
    assert_eq!(state.current_stack_index(), 1);
    state.select_next();
    assert_eq!(state.current_stack_index(), 2);
    state.select_next();
    assert_eq!(state.current_stack_index(), 0);
    state.select_previous();
    assert_eq!(state.current_stack_index(), 2);
    state.select_previous();
    assert_eq!(state.current_stack_index(), 1);
    let mut single = board(&[9], 0);
    single.select_next();
    assert_eq!(single.current_stack_index(), 0);
    single.select_previous();
    assert_eq!(single.current_stack_index(), 0);
}

#[test]
fn toggle_starts_then_stops_and_can_be_undone() {
    let t0 = Instant::now();
    let mut state = board(&[1000, 2000], 1);
    state.toggle_current_at(t0);
    assert!(state.current_stack().current().is_running());
    assert!(!state.stacks()[0].current().is_running());
    state.toggle_current_at(t0 + Duration::from_millis(500));
    assert!(!state.current_stack().current().is_running());
    assert_eq!(shown(&state), vec![1000, 2500]);
    assert_eq!(state.current_stack().undo_history().len(), 2);
    assert!(state.undo());
    assert!(state.current_stack().current().is_running());
    assert!(state.undo());
    assert!(!state.current_stack().current().is_running());
    assert_eq!(shown(&state), vec![1000, 2000]);
    assert!(!state.undo());
    assert!(state.redo());
    assert!(state.redo());
    assert!(!state.redo());
    assert_eq!(shown(&state), vec![1000, 2500]);
}

#[test]
fn reset_sets_the_stack_in_use_to_zero_and_can_be_undone() {
    let mut state = board(&[1000, 2000, 3000], 2);
    state.reset_current();
    assert_eq!(shown(&state), vec![1000, 2000, 0]);
    assert!(state.undo());
    assert_eq!(shown(&state), vec![1000, 2000, 3000]);
    assert!(state.redo());
    assert_eq!(shown(&state), vec![1000, 2000, 0]);
}

#[test]
fn current_stack_mut_reaches_the_stack_in_use() {
    let mut state = board(&[1, 2, 3], 1);
    state.current_stack_mut().push();
    state.current_stack_mut().current_mut().reset();
    assert_eq!(shown(&state), vec![1, 0, 3]);
    assert_eq!(state.stacks()[1].undo_history().len(), 1);
    assert!(state.stacks()[0].undo_history().is_empty());
    assert!(state.stacks()[2].undo_history().is_empty());
}

#[test]
fn apply_carries_out_each_command() {
    let t0 = Instant::now();
    let mut state = board(&[10, 20], 0);
    assert_eq!(state.apply_at(Command::Toggle, t0), Effect::Changed);
    assert!(state.current_stack().current().is_running());
    assert_eq!(state.apply_at(Command::Toggle, t0 + Duration::from_millis(5)), Effect::Changed);
    assert_eq!(shown(&state), vec![15, 20]);
    assert_eq!(state.apply_at(Command::Reset, t0), Effect::Changed);
    assert_eq!(shown(&state), vec![0, 20]);
    assert_eq!(state.apply_at(Command::Undo, t0), Effect::Changed);
    assert_eq!(shown(&state), vec![15, 20]);
    assert_eq!(state.apply_at(Command::Redo, t0), Effect::Changed);
    assert_eq!(shown(&state), vec![0, 20]);
    assert_eq!(state.apply_at(Command::NextStack, t0), Effect::Changed);
    assert_eq!(state.current_stack_index(), 1);
    assert_eq!(state.apply_at(Command::PreviousStack, t0), Effect::Changed);
    assert_eq!(state.current_stack_index(), 0);
    assert_eq!(state.apply_at(Command::NewStackBelow, t0), Effect::Changed);
    assert_eq!(shown(&state), vec![0, 0, 20]);
    assert_eq!(state.current_stack_index(), 1);
    assert_eq!(state.apply_at(Command::NewStackAbove, t0), Effect::Changed);
    assert_eq!(shown(&state), vec![0, 0, 0, 20]);
    assert_eq!(state.current_stack_index(), 1);
    assert_eq!(state.apply_at(Command::RestoreStack, t0), Effect::Unchanged);
    assert_eq!(state.apply_at(Command::DeleteStack, t0), Effect::Changed);
    assert_eq!(shown(&state).len(), 3);
    assert_eq!(state.apply_at(Command::RestoreStack, t0), Effect::Changed);
    assert_eq!(shown(&state).len(), 4);
    assert_eq!(state.apply_at(Command::Quit, t0), Effect::Quit);
    assert_eq!(shown(&state).len(), 4);
}

#[test]
fn undo_and_redo_count_as_changes_with_nothing_to_step_to() {
    let t0 = Instant::now();
    let mut state = board(&[10], 0);
    assert_eq!(state.apply_at(Command::Undo, t0), Effect::Changed);
    assert_eq!(state.apply_at(Command::Redo, t0), Effect::Changed);
    assert_eq!(shown(&state), vec![10]);
    assert_eq!(state.apply(Command::Undo), Effect::Changed);
    assert_eq!(shown(&state), vec![10]);
}

#[test]
fn apply_with_the_real_clock_toggles() {
    let mut state = AppState::default();
    assert_eq!(state.apply(Command::Toggle), Effect::Changed);
    assert!(state.current_stack().current().is_running());
    assert_eq!(state.apply(Command::Toggle), Effect::Changed);
    assert!(!state.current_stack().current().is_running());
    assert_eq!(state.current_stack().undo_history().len(), 2);
    state.toggle_current();
    assert!(state.current_stack().current().is_running());
    assert_eq!(state.apply(Command::Quit), Effect::Quit);
    assert!(state.current_stack().current().is_running());
}
