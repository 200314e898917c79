use std::time::Duration;

use controller::fanout::collect_or_first_error;
use controller::fanout::CommandOutput;
use controller::fanout::RaceOutcome;
use controller::fanout::RaceTimeout;

#[test]
fn collect_keeps_every_success_in_order() {
    let results: Vec<Result<u32, &str>> = vec![Ok(1), Ok(2), Ok(3)];
    assert_eq!(collect_or_first_error(results), Ok(vec![1, 2, 3]));
}

#[test]
fn collect_fails_with_the_first_error() {
    let results: Vec<Result<u32, &str>> = vec![Ok(1), Err("boom"), Ok(3), Err("later")];
    assert_eq!(collect_or_first_error(results), Err("boom"));
}

#[test]
fn command_output_success_means_a_zero_exit_code() {
    let out = CommandOutput { status_code: Some(0), stdout: Vec::new(), stderr: Vec::new() };
    assert!(out.success());
    let out = CommandOutput { status_code: Some(1), stdout: Vec::new(), stderr: Vec::new() };
    assert!(!out.success());
    let out = CommandOutput { status_code: None, stdout: Vec::new(), stderr: Vec::new() };
    assert!(!out.success());
}

#[test]
fn race_outcome_keeps_a_timely_result() {
    let outcome: RaceOutcome<u32> = RaceOutcome::Completed(7);
    assert_eq!(outcome.into_result(), Ok(7));
}

#[test]
fn race_outcome_reports_a_timeout_as_an_error() {
    let outcome: RaceOutcome<u32> = RaceOutcome::TimedOut;
    assert_eq!(outcome.into_result(), Err(RaceTimeout));
}

#[test]
fn hung_server_task_is_killed_and_reported() {
    // A mocked remote server task that never exits, raced against a
    // one-second deadline: the outcome must be an error, never a hang.
    let runtime = tokio::runtime::Builder::new_current_thread()
        .enable_time()
        .build()
        .unwrap();
    let outcome: RaceOutcome<u32> = runtime.block_on(async {
        let server = tokio::spawn(async {
            // The server never finishes on its own.
            tokio::time::sleep(Duration::from_secs(3600)).await;
            1u32
        });
        match tokio::time::timeout(Duration::from_secs(1), server).await {
            Ok(joined) => RaceOutcome::Completed(joined.unwrap()),
            Err(_) => RaceOutcome::TimedOut,
        }
    });
    assert_eq!(outcome.into_result(), Err(RaceTimeout));
}
