use kv_downloader::pitch::{
    Direction, PitchAction, PitchAdjust, PitchOutcome, PitchPhase, MAX_PITCH_PRESSES,
};

/// Runs an adjustment against a pitch control that shows `readings` one
/// after the other; returns the outcome, the presses made and whether the
/// tracks were reloaded.
fn converge(target: i8, readings: &[i8], max_presses: u32) -> (PitchOutcome, Vec<Direction>, bool) {
    let mut next = 0;
    let mut adjust = PitchAdjust::start(target, readings[next], max_presses);
    next += 1;
    let mut presses = Vec::new();
    let mut reloaded = false;
    loop {
        match adjust.action() {
            PitchAction::Press(direction) => {
                presses.push(direction);
                let reading = readings[next.min(readings.len() - 1)];
                next += 1;
                adjust.observe(reading);
            }
            PitchAction::Reload => {
                reloaded = true;
                adjust.reload_done();
            }
            PitchAction::Finish(outcome) => return (outcome, presses, reloaded),
        }
    }
}

#[test]
fn ten_presses_at_most() {
    assert_eq!(MAX_PITCH_PRESSES, 10);
}

#[test]
fn converges_within_two_presses() {
    let (outcome, presses, reloaded) = converge(2, &[0, 1, 2, 3, 4], 10);
    assert_eq!(outcome, PitchOutcome::Converged);
    assert_eq!(presses, vec![Direction::Up, Direction::Up]);
    assert!(reloaded);
}

#[test]
fn converges_downwards() {
    let (outcome, presses, reloaded) = converge(-3, &[1, 0, -1, -2, -3], 10);
    assert_eq!(outcome, PitchOutcome::Converged);
    assert_eq!(presses, vec![Direction::Down; 4]);
    assert!(reloaded);
}

#[test]
fn pitch_that_is_right_needs_nothing() {
    let (outcome, presses, reloaded) = converge(0, &[0], 10);
    assert_eq!(outcome, PitchOutcome::AlreadySet);
    assert!(presses.is_empty());
    assert!(!reloaded);
}

#[test]
fn fails_after_ten_presses_without_convergence() {
    let (outcome, presses, reloaded) = converge(2, &[0], 10);
    assert_eq!(outcome, PitchOutcome::Failed);
    assert_eq!(presses, vec![Direction::Up; 10]);
    assert!(!reloaded);
}

#[test]
fn converges_with_the_last_press() {
    let (outcome, presses, _) = converge(4, &[-6, -5, -4, -3, -2, -1, 0, 1, 2, 3, 4], 10);
    assert_eq!(outcome, PitchOutcome::Converged);
    assert_eq!(presses.len(), 10);
}

#[test]
fn direction_is_kept_when_the_pitch_overshoots() {
    let (outcome, presses, _) = converge(1, &[0, 2, 3, 4], 3);
    assert_eq!(outcome, PitchOutcome::Failed);
    assert_eq!(presses, vec![Direction::Up; 3]);
}

#[test]
fn no_press_allowed_fails_at_once() {
    let adjust = PitchAdjust::start(1, 0, 0);
    assert_eq!(adjust.action(), PitchAction::Finish(PitchOutcome::Failed));
    assert_eq!(adjust.presses, 0);
}

#[test]
fn readings_and_reloads_out_of_turn_are_ignored() {
    let mut adjust = PitchAdjust::start(2, 0, 10);
    let before = adjust;
    adjust.reload_done();
    assert_eq!(adjust, before);
    adjust.observe(2);
    assert_eq!(adjust.phase, PitchPhase::Reloading);
    let waiting = adjust;
    adjust.observe(5);
    assert_eq!(adjust, waiting);
    adjust.reload_done();
    assert_eq!(adjust.action(), PitchAction::Finish(PitchOutcome::Converged));
    let done = adjust;
    adjust.observe(0);
    adjust.reload_done();
    assert_eq!(adjust, done);
}

#[test]
fn start_records_target_and_limit() {
    let adjust = PitchAdjust::start(-4, 3, 10);
    assert_eq!(adjust.target, -4);
    assert_eq!(adjust.direction, Direction::Down);
    assert_eq!(adjust.presses, 1);
    assert_eq!(adjust.max_presses, 10);
    assert_eq!(adjust.phase, PitchPhase::Pressing);
    assert_eq!(adjust.action(), PitchAction::Press(Direction::Down));
}

#[test]
fn pitch_settle_times() {
    assert_eq!(kv_downloader::pitch::PITCH_SETTLE_MS, 100);
    assert_eq!(kv_downloader::pitch::PITCH_RELOAD_SECS, 4);
}
