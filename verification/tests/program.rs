use try_vulkano::context::{init, ContextError, DeviceInfo};
use try_vulkano::program::{
    exit_code, first_phase, next_phase, progress_line, Phase, EXIT_FAILURE, EXIT_SUCCESS,
};
use try_vulkano::sequence::Outcome;

#[test]
fn phases_come_in_their_order_with_their_lines() {
    let mut phase = first_phase();
    let mut lines: Vec<&str> = Vec::new();
    while exit_code(phase).is_none() {
        lines.push(progress_line(phase).unwrap());
        phase = next_phase(phase, Outcome::Succeeded);
    }
    lines.push(progress_line(phase).unwrap());
    assert_eq!(lines, vec!["init()", "example_operation()", "example_compute()", "DONE!"]);
    assert_eq!(phase, Phase::Done);
    assert_eq!(exit_code(phase), Some(0));
}

#[test]
fn every_phase_has_its_line() {
    assert_eq!(progress_line(Phase::Init), Some("init()"));
    assert_eq!(progress_line(Phase::CopyDemo), Some("example_operation()"));
    assert_eq!(progress_line(Phase::ComputeDemo), Some("example_compute()"));
    assert_eq!(progress_line(Phase::Done), Some("DONE!"));
    assert_eq!(progress_line(Phase::Aborted), None);
}

#[test]
fn exit_code_is_zero_only_after_full_success() {
    assert_eq!(EXIT_SUCCESS, 0);
    assert_ne!(EXIT_FAILURE, 0);
    assert_eq!(exit_code(Phase::Done), Some(EXIT_SUCCESS));
    assert_eq!(exit_code(Phase::Aborted), Some(EXIT_FAILURE));
    assert_eq!(exit_code(Phase::Init), None);
    assert_eq!(exit_code(Phase::CopyDemo), None);
    assert_eq!(exit_code(Phase::ComputeDemo), None);
}

#[test]
fn missing_device_ends_the_program_before_any_buffer() {
    let devices: Vec<DeviceInfo> = Vec::new();
    let mut phase = first_phase();
    assert_eq!(progress_line(phase), Some("init()"));
    let plan = init(&devices);
    let outcome = match plan {
        Ok(_) => Outcome::Succeeded,
        Err(_) => Outcome::Failed,
    };
    phase = next_phase(phase, outcome);
    assert_eq!(phase, Phase::Aborted);
    assert_eq!(plan.unwrap_err(), ContextError::NoDevice);
    assert_eq!(plan.unwrap_err().message(), "no device available");
    assert_ne!(exit_code(phase), Some(0));
    assert_eq!(exit_code(phase), Some(1));
    // No demonstration becomes due afterwards.
    assert_eq!(next_phase(phase, Outcome::Succeeded), Phase::Aborted);
    assert_eq!(progress_line(phase), None);
}

#[test]
fn failure_in_any_phase_aborts() {
    for phase in [Phase::Init, Phase::CopyDemo, Phase::ComputeDemo] {
        assert_eq!(next_phase(phase, Outcome::Failed), Phase::Aborted);
    }
    assert_eq!(next_phase(Phase::Done, Outcome::Failed), Phase::Done);
    assert_eq!(next_phase(Phase::Done, Outcome::Succeeded), Phase::Done);
    assert_eq!(next_phase(Phase::Aborted, Outcome::Failed), Phase::Aborted);
}
