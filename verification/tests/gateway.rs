use dotweb::deadline::Action;
use dotweb::deadline::Cleanup;
use dotweb::deadline::Event;
use dotweb::deadline::Phase;
use dotweb::deadline::step;
use dotweb::error::Error;
use dotweb::gateway::Graphviz;
use dotweb::gateway::is_rate_limited;
use dotweb::pool::PermitPool;
use dotweb::pool::ProcessCount;

#[test]
fn pool_counts_down_and_back_up() {
    let mut pool = PermitPool::new(ProcessCount::new(2));
    assert!(!pool.is_saturated());
    assert!(pool.try_acquire());
    assert!(!pool.is_saturated());
    assert!(pool.try_acquire());
    assert!(pool.is_saturated());
    assert!(!pool.try_acquire());
    pool.release();
    assert!(!pool.is_saturated());
    assert!(pool.try_acquire());
}

#[test]
fn saturation_probe_has_no_side_effect() {
    let mut pool = PermitPool::new(ProcessCount::new(1));
    let first = pool.is_saturated();
    let second = pool.is_saturated();
    assert_eq!(first, second);
    assert!(!first);
    assert!(pool.try_acquire());
    let third = pool.is_saturated();
    let fourth = pool.is_saturated();
    assert_eq!(third, fourth);
    assert!(third);
    assert!(!pool.try_acquire());
}

#[test]
fn gateway_probe_matches_pool_state() {
    let mut gateway = Graphviz::new(4000, ProcessCount::new(2));
    assert!(!is_rate_limited(&gateway));
    assert!(gateway.try_admit());
    assert!(gateway.try_admit());
    assert!(is_rate_limited(&gateway));
    assert!(is_rate_limited(&gateway));
    assert!(!gateway.try_admit());
    gateway.release_permit();
    assert!(!is_rate_limited(&gateway));
    assert_eq!(gateway.timeout_millis(), 4000);
}

#[test]
fn overload_is_delay_not_failure() {
    // Ceiling one, two simultaneous requests: the second is only delayed.
    let mut gateway = Graphviz::new(4000, ProcessCount::new(1));
    assert!(gateway.try_admit());
    assert!(!gateway.try_admit());
    assert!(!gateway.try_admit());
    gateway.release_permit();
    assert!(gateway.try_admit());
}

#[test]
fn lifecycle_success_path() {
    let (phase, action) = step(Phase::Pending, Event::PermitAcquired);
    assert_eq!(phase, Phase::Admitted);
    assert!(matches!(action, Action::SpawnEngine));

    let (phase, action) = step(phase, Event::SpawnSucceeded);
    assert_eq!(phase, Phase::Running);
    assert!(matches!(action, Action::DriveStreams));

    let (phase, action) = step(phase, Event::EngineExited(true, b"X".to_vec(), Vec::new()));
    assert_eq!(phase, Phase::Completed);
    match action {
        Action::Conclude(cleanup, result) => {
            assert_eq!(cleanup, Cleanup::ReleasePermit);
            match result {
                Ok(bytes) => assert_eq!(bytes, b"X".to_vec()),
                _ => panic!("success run must return the output bytes"),
            }
        }
        _ => panic!("an exited engine concludes the request"),
    }
}

#[test]
fn two_requests_on_ceiling_one_serialize_and_both_succeed() {
    // Ceiling one: the first request runs while the second waits; once the
    // first concludes and its permit returns, the second runs the same way
    // and both answer with the engine's bytes.
    let mut gateway = Graphviz::new(4000, ProcessCount::new(1));

    assert!(gateway.try_admit());
    let mut first = Phase::Pending;
    assert!(!gateway.try_admit());
    let second = Phase::Pending;

    let (phase, _) = step(first, Event::PermitAcquired);
    first = phase;
    let (phase, _) = step(first, Event::SpawnSucceeded);
    first = phase;
    let (phase, action) = step(first, Event::EngineExited(true, b"X".to_vec(), Vec::new()));
    first = phase;
    assert_eq!(first, Phase::Completed);
    match action {
        Action::Conclude(Cleanup::ReleasePermit, Ok(bytes)) => {
            assert_eq!(bytes, b"X".to_vec());
            gateway.release_permit();
        }
        _ => panic!("first request must conclude successfully"),
    }

    assert!(gateway.try_admit());
    let (phase, _) = step(second, Event::PermitAcquired);
    let (phase, _) = step(phase, Event::SpawnSucceeded);
    let (phase, action) = step(phase, Event::EngineExited(true, b"X".to_vec(), Vec::new()));
    assert_eq!(phase, Phase::Completed);
    match action {
        Action::Conclude(Cleanup::ReleasePermit, Ok(bytes)) => {
            assert_eq!(bytes, b"X".to_vec());
            gateway.release_permit();
        }
        _ => panic!("second request must conclude successfully"),
    }
    assert!(!is_rate_limited(&gateway));
}

#[test]
fn deadline_while_running_kills_then_releases() {
    // Ceiling 64, deadline shorter than the engine's run: the request ends
    // deadline-exceeded, the process is killed before the release, and the
    // permit is available again.
    let mut gateway = Graphviz::new(100, ProcessCount::new(64));
    assert!(gateway.try_admit());
    let (phase, _) = step(Phase::Pending, Event::PermitAcquired);
    let (phase, _) = step(phase, Event::SpawnSucceeded);
    assert_eq!(phase, Phase::Running);

    let (phase, action) = step(phase, Event::DeadlineExpired);
    assert_eq!(phase, Phase::Killed);
    match action {
        Action::Conclude(cleanup, result) => {
            assert_eq!(cleanup, Cleanup::KillProcessThenReleasePermit);
            assert!(matches!(result, Err(Error::Timeout)));
            gateway.release_permit();
        }
        _ => panic!("an expired deadline concludes the request"),
    }
    assert!(!is_rate_limited(&gateway));
    for _ in 0..64 {
        assert!(gateway.try_admit());
    }
    assert!(!gateway.try_admit());
}

#[test]
fn deadline_while_waiting_has_nothing_to_clean() {
    let (phase, action) = step(Phase::Pending, Event::DeadlineExpired);
    assert_eq!(phase, Phase::TimedOutWaiting);
    match action {
        Action::Conclude(cleanup, result) => {
            assert_eq!(cleanup, Cleanup::Nothing);
            assert!(matches!(result, Err(Error::Timeout)));
        }
        _ => panic!("an expired deadline concludes the request"),
    }
}

#[test]
fn deadline_while_admitted_releases_without_kill() {
    let (phase, action) = step(Phase::Admitted, Event::DeadlineExpired);
    assert_eq!(phase, Phase::TimedOutWaiting);
    match action {
        Action::Conclude(cleanup, result) => {
            assert_eq!(cleanup, Cleanup::ReleasePermit);
            assert!(matches!(result, Err(Error::Timeout)));
        }
        _ => panic!("an expired deadline concludes the request"),
    }
}

#[test]
fn spawn_failure_releases_and_reports_transport_error() {
    let (phase, action) = step(
        Phase::Admitted,
        Event::SpawnFailed(String::from("No such file or directory")),
    );
    assert_eq!(phase, Phase::Completed);
    match action {
        Action::Conclude(cleanup, result) => {
            assert_eq!(cleanup, Cleanup::ReleasePermit);
            match result {
                Err(Error::Io(text)) => assert_eq!(text, "No such file or directory"),
                _ => panic!("a spawn failure is a transport failure"),
            }
        }
        _ => panic!("a spawn failure concludes the request"),
    }
}

#[test]
fn stream_failure_kills_then_releases() {
    let (phase, action) = step(Phase::Running, Event::StreamsFailed(String::from("broken pipe")));
    assert_eq!(phase, Phase::Completed);
    match action {
        Action::Conclude(cleanup, result) => {
            assert_eq!(cleanup, Cleanup::KillProcessThenReleasePermit);
            match result {
                Err(Error::Io(text)) => assert_eq!(text, "broken pipe"),
                _ => panic!("a stream failure is a transport failure"),
            }
        }
        _ => panic!("a stream failure concludes the request"),
    }
}
