use try_vulkano::sequence::{advance, has_ended, may_read, start, Outcome, Stage};

#[test]
fn steps_come_in_their_order() {
    let mut stage = start();
    assert_eq!(stage, Stage::Allocate);
    let expected = [Stage::Record, Stage::Submit, Stage::Wait, Stage::Verify, Stage::Finished];
    for next in expected {
        assert!(!has_ended(stage));
        stage = advance(stage, Outcome::Succeeded);
        assert_eq!(stage, next);
    }
    assert!(has_ended(stage));
    assert_eq!(advance(stage, Outcome::Succeeded), Stage::Finished);
    assert_eq!(advance(stage, Outcome::Failed), Stage::Finished);
}

#[test]
fn buffers_are_readable_only_after_the_wait() {
    let mut stage = start();
    assert!(!may_read(stage));
    stage = advance(stage, Outcome::Succeeded);
    assert!(!may_read(stage));
    stage = advance(stage, Outcome::Succeeded);
    assert!(!may_read(stage));
    stage = advance(stage, Outcome::Succeeded);
    // Submitted and in flight: the wait is due and has not returned.
    assert_eq!(stage, Stage::Wait);
    assert!(!may_read(stage));
    stage = advance(stage, Outcome::Succeeded);
    assert_eq!(stage, Stage::Verify);
    assert!(may_read(stage));
    stage = advance(stage, Outcome::Succeeded);
    assert!(may_read(stage));
}

#[test]
fn any_failure_aborts_for_good() {
    let steps = [Stage::Allocate, Stage::Record, Stage::Submit, Stage::Wait, Stage::Verify];
    for step in steps {
        let aborted = advance(step, Outcome::Failed);
        assert_eq!(aborted, Stage::Aborted);
        assert!(has_ended(aborted));
        assert!(!may_read(aborted));
        assert_eq!(advance(aborted, Outcome::Succeeded), Stage::Aborted);
        assert_eq!(advance(aborted, Outcome::Failed), Stage::Aborted);
    }
}

#[test]
fn failed_wait_leaves_buffers_unreadable() {
    let mut stage = start();
    for _ in 0..3 {
        stage = advance(stage, Outcome::Succeeded);
    }
    stage = advance(stage, Outcome::Failed);
    assert_eq!(stage, Stage::Aborted);
    assert!(!may_read(stage));
}
