use rust_discord_bot::retry::{after_attempt, is_success_status, RetryStep, MAX_ATTEMPTS};
use rust_discord_bot::ChatError;

/// Runs the policy against a scripted transport; returns the result, the
/// number of attempts and the seconds waited.
fn run(script: &[Result<(), ChatError>]) -> (Result<(), ChatError>, u32, u64) {
    let mut attempt = 0u32;
    let mut waited = 0u64;
    loop {
        attempt += 1;
        let outcome = script[(attempt - 1) as usize].clone();
        match after_attempt(attempt, outcome) {
            RetryStep::Deliver => return (Ok(()), attempt, waited),
            RetryStep::Retry { wait_secs } => waited += wait_secs,
            RetryStep::Fail { error } => return (Err(error), attempt, waited),
        }
    }
}

fn transport_error() -> ChatError {
    ChatError::Transport { cause: "connection refused".to_string() }
}

#[test]
fn two_failures_then_success() {
    let script = [Err(transport_error()), Err(transport_error()), Ok(()), Ok(())];
    let (result, attempts, waited) = run(&script);
    assert!(result.is_ok());
    assert_eq!(attempts, 3);
    assert!(waited >= 6);
    assert_eq!(waited, 6);
}

#[test]
fn always_failing_gives_up_after_max_attempts() {
    let remote = || ChatError::Remote { status: 503, body: "busy".to_string() };
    let script = [Err(remote()), Err(remote()), Err(remote()), Err(remote()), Err(remote())];
    let (result, attempts, waited) = run(&script);
    assert_eq!(attempts, MAX_ATTEMPTS);
    assert_eq!(waited, 6);
    match result {
        Err(ChatError::Remote { status, body }) => {
            assert_eq!(status, 503);
            assert_eq!(body, "busy");
        }
        _ => panic!("expected the last remote error"),
    }
}

#[test]
fn transport_errors_are_reported_as_such() {
    let script = [Err(transport_error()), Err(transport_error()), Err(transport_error())];
    let (result, attempts, _) = run(&script);
    assert_eq!(attempts, 3);
    assert!(matches!(result, Err(ChatError::Transport { .. })));
}

#[test]
fn backoff_doubles() {
    assert!(matches!(after_attempt(1, Err(transport_error())), RetryStep::Retry { wait_secs: 2 }));
    assert!(matches!(after_attempt(2, Err(transport_error())), RetryStep::Retry { wait_secs: 4 }));
    assert!(matches!(after_attempt(3, Ok(())), RetryStep::Deliver));
}

#[test]
fn only_2xx_is_success() {
    assert!(is_success_status(200));
    assert!(is_success_status(299));
    assert!(!is_success_status(199));
    assert!(!is_success_status(300));
    assert!(!is_success_status(500));
}
