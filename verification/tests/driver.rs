use gravity_sim::driver::{LoopAction, LoopInput, LoopState};

fn input(is_reset_requested: bool, is_running: bool, second_elapsed: bool, frame_due: bool) -> LoopInput {
    LoopInput { is_reset_requested, is_running, skip: 2, second_elapsed, frame_due }
}

fn running() -> LoopInput {
    input(false, true, false, true)
}

#[test]
fn new_state_waits_for_first_redraw() {
    let mut state = LoopState::new();
    assert!(state.need_redraw);
    assert_eq!(state.skip_redraw, 0);
    assert_eq!((state.frame, state.prev_frame, state.fps), (1, 1, 0));
    assert!(state.can_step());
    let outcome = state.step(input(true, true, true, true));
    assert_eq!(outcome.action, LoopAction::AwaitRedraw);
    assert!(!outcome.fps_measured);
    assert!(state.need_redraw);
    assert_eq!((state.frame, state.prev_frame, state.fps), (1, 1, 0));
}

#[test]
fn actions_in_order_of_precedence() {
    let mut state = LoopState::new();
    state.redraw_done();
    assert!(!state.need_redraw);

    let mut s = state;
    assert_eq!(s.step(input(true, true, false, true)).action, LoopAction::Reset);
    let mut s = state;
    assert_eq!(s.step(input(true, false, false, false)).action, LoopAction::Reset);
    let mut s = state;
    assert_eq!(s.step(input(false, false, false, true)).action, LoopAction::Idle);
    let mut s = state;
    assert_eq!(s.step(input(false, true, false, false)).action, LoopAction::Spin);
    let mut s = state;
    assert_eq!(s.step(input(false, true, false, true)).action, LoopAction::Advance);
}

#[test]
fn reset_restarts_frames_and_countdown() {
    let mut state = LoopState { need_redraw: false, skip_redraw: 7, frame: 120, prev_frame: 100, fps: 60 };
    let outcome = state.step(input(true, true, true, true));
    assert_eq!(outcome.action, LoopAction::Reset);
    assert!(!outcome.fps_measured);
    assert!(state.need_redraw);
    assert_eq!(state.skip_redraw, 2);
    assert_eq!(state.frame, 1);
    assert_eq!(state.prev_frame, 100);
    assert_eq!(state.fps, 60);
}

#[test]
fn tick_counts_frame_and_asks_for_redraw_at_zero() {
    let mut state = LoopState { need_redraw: false, skip_redraw: 0, frame: 5, prev_frame: 1, fps: 0 };
    let outcome = state.step(running());
    assert_eq!(outcome.action, LoopAction::Advance);
    assert!(!outcome.fps_measured);
    assert!(state.need_redraw);
    assert_eq!(state.skip_redraw, 2);
    assert_eq!(state.frame, 6);
}

#[test]
fn redraw_comes_every_third_tick_with_skip_two() {
    let mut state = LoopState::new();
    let mut redraws = Vec::new();
    for tick in 0..9 {
        if state.need_redraw {
            redraws.push(tick);
            state.redraw_done();
        }
        assert_eq!(state.step(running()).action, LoopAction::Advance);
    }
    assert_eq!(redraws, vec![0, 1, 4, 7]);
    assert_eq!(state.frame, 10);
}

#[test]
fn fps_is_measured_once_a_second() {
    let mut state = LoopState { need_redraw: false, skip_redraw: 3, frame: 61, prev_frame: 1, fps: 0 };
    let outcome = state.step(input(false, false, true, false));
    assert_eq!(outcome.action, LoopAction::Idle);
    assert!(outcome.fps_measured);
    assert_eq!(state.fps, 60);
    assert_eq!(state.prev_frame, 61);
    assert_eq!(state.frame, 61);

    let outcome = state.step(input(false, true, true, true));
    assert_eq!(outcome.action, LoopAction::Advance);
    assert!(outcome.fps_measured);
    assert_eq!(state.fps, 0);
    assert_eq!(state.prev_frame, 61);
    assert_eq!(state.frame, 62);
    assert_eq!(state.skip_redraw, 2);
    assert!(!state.need_redraw);
}

#[test]
fn fps_after_reset_is_zero_not_negative() {
    let mut state = LoopState { need_redraw: false, skip_redraw: 0, frame: 1, prev_frame: 500, fps: 60 };
    let outcome = state.step(input(false, true, true, false));
    assert_eq!(outcome.action, LoopAction::Spin);
    assert!(outcome.fps_measured);
    assert_eq!(state.fps, 0);
    assert_eq!(state.prev_frame, 1);
}

#[test]
fn last_frame_number_cannot_step() {
    let state = LoopState { need_redraw: false, skip_redraw: 0, frame: i64::MAX, prev_frame: 1, fps: 0 };
    assert!(!state.can_step());
    let state = LoopState { need_redraw: false, skip_redraw: 0, frame: 0, prev_frame: 1, fps: 0 };
    assert!(!state.can_step());
    let state = LoopState { need_redraw: false, skip_redraw: 0, frame: i64::MAX - 1, prev_frame: 1, fps: 0 };
    assert!(state.can_step());
}
