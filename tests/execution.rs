use clashlib::{Action, Event, Execution, Phase, TestResult, Testcase};

fn testcase(test_in: &str, test_out: &str) -> Testcase {
    Testcase {
        index: 1,
        title: String::from("Test #1"),
        test_in: String::from(test_in),
        test_out: String::from(test_out),
        is_validator: false,
    }
}

fn clean_run(testcase: &Testcase, stdout: &[u8], stderr: &[u8]) -> TestResult {
    let mut run = Execution::new(testcase);
    assert_eq!(run.current_phase(), Phase::Spawning);
    assert_eq!(run.step(Event::Spawned), Action::WriteInput);
    assert_eq!(run.current_phase(), Phase::Feeding);
    assert_eq!(run.step(Event::InputWritten), Action::Wait);
    assert_eq!(run.current_phase(), Phase::Waiting);
    assert_eq!(run.step(Event::Exited { success: true }), Action::Collect);
    let collected = Event::Collected { stdout: stdout.to_vec(), stderr: stderr.to_vec() };
    assert!(run.can_take(&collected));
    match run.step(collected) {
        Action::Report(result) => {
            assert_eq!(run.current_phase(), Phase::Finished);
            result
        }
        other => panic!("expected a verdict, got {:?}", other),
    }
}

#[test]
fn substituted_output_succeeds() {
    let result = clean_run(&testcase("heXy", "heby"), b"heby", b"");
    assert_eq!(result, TestResult::Success);
    assert!(result.is_success());
}

#[test]
fn unsubstituted_expectation_fails_with_actual_output() {
    let result = clean_run(&testcase("heXy", "heXy"), b"heby", b"");
    assert_eq!(result, TestResult::Failed { stdout: b"heby".to_vec(), stderr: Vec::new() });
    assert!(!result.is_success());
}

#[test]
fn two_fresh_runs_both_succeed() {
    let t = testcase("hey", "hey");
    assert!(clean_run(&t, b"hey", b"").is_success());
    assert!(clean_run(&t, b"hey", b"").is_success());
}

#[test]
fn failed_exit_status_is_recorded_but_output_decides() {
    let t = testcase("", "42");
    let mut run = Execution::new(&t);
    run.step(Event::Spawned);
    run.step(Event::InputWritten);
    assert_eq!(run.step(Event::Exited { success: false }), Action::Collect);
    assert_eq!(
        run.current_phase(),
        Phase::Collecting { exit: clashlib::CommandExit::Error }
    );
    let action = run.step(Event::Collected { stdout: b"41".to_vec(), stderr: b"boom".to_vec() });
    assert_eq!(
        action,
        Action::Report(TestResult::Failed { stdout: b"41".to_vec(), stderr: b"boom".to_vec() })
    );
}

#[test]
fn overdue_process_is_killed_and_times_out() {
    let t = testcase("hey", "hey");
    let mut run = Execution::new(&t);
    assert_eq!(run.step(Event::Spawned), Action::WriteInput);
    assert_eq!(run.step(Event::InputWritten), Action::Wait);
    assert_eq!(run.step(Event::DeadlinePassed), Action::Kill);
    assert_eq!(run.current_phase(), Phase::Killing);
    assert!(!run.can_take(&Event::Collected { stdout: Vec::new(), stderr: Vec::new() }));
    assert_eq!(run.step(Event::Killed), Action::Collect);
    assert_eq!(
        run.current_phase(),
        Phase::Collecting { exit: clashlib::CommandExit::Timeout }
    );
    let action = run.step(Event::Collected { stdout: b"hey".to_vec(), stderr: Vec::new() });
    assert_eq!(
        action,
        Action::Report(TestResult::TimedOut { stdout: b"hey".to_vec(), stderr: Vec::new() })
    );
}

#[test]
fn missing_program_is_unable_to_run() {
    let t = testcase("hey", "hey");
    let mut run = Execution::new(&t);
    let event = Event::SpawnFailed {
        program: Some(String::from("/nonexistent/solution")),
        error: String::from("No such file or directory (os error 2)"),
    };
    assert!(run.can_take(&event));
    match run.step(event) {
        Action::Report(TestResult::UnableToRun { error_msg }) => {
            assert!(error_msg.contains("/nonexistent/solution"));
            assert_eq!(error_msg, "/nonexistent/solution: No such file or directory (os error 2)");
        }
        other => panic!("expected UnableToRun, got {:?}", other),
    }
    assert_eq!(run.current_phase(), Phase::Finished);
    assert!(!run.can_take(&Event::Spawned));
}

#[test]
fn events_out_of_order_are_not_taken() {
    let t = testcase("", "");
    let mut run = Execution::new(&t);
    assert!(!run.can_take(&Event::InputWritten));
    assert!(!run.can_take(&Event::Killed));
    assert!(!run.can_take(&Event::Exited { success: true }));
    assert!(run.can_take(&Event::Spawned));
    run.step(Event::Spawned);
    assert!(run.can_take(&Event::InputWritten));
    assert!(!run.can_take(&Event::DeadlinePassed));
    run.step(Event::InputWritten);
    assert!(run.can_take(&Event::DeadlinePassed));
    assert!(run.can_take(&Event::Exited { success: false }));
    assert!(!run.can_take(&Event::Killed));
}
