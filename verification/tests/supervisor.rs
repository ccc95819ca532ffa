use rpcedge_relay::client_error::RelayClientError;
use rpcedge_relay::duration::Duration;
use rpcedge_relay::supervisor::{
    quic_readiness, reconnect_backoff, validate_supervisor_config, QuicReadiness,
    QuicSupervisorConfig, SupervisorAction, SupervisorEvent, SupervisorState,
};

#[test]
fn quic_supervisor_config_is_bounded_and_backoff_is_capped() {
    assert!(validate_supervisor_config(QuicSupervisorConfig {
        initial_backoff: Duration::zero(),
        max_backoff: Duration::from_secs(1),
    })
    .is_err());
    assert!(validate_supervisor_config(QuicSupervisorConfig {
        initial_backoff: Duration::from_secs(2),
        max_backoff: Duration::from_secs(1),
    })
    .is_err());

    let config = QuicSupervisorConfig {
        initial_backoff: Duration::from_millis(8),
        max_backoff: Duration::from_millis(64),
    };
    assert!(reconnect_backoff(config, 0) >= Duration::from_millis(7));
    assert!(reconnect_backoff(config, 16) <= config.max_backoff);
}

#[test]
fn supervisor_recovers_after_connect_failure_and_closed_generation() {
    let config = QuicSupervisorConfig {
        initial_backoff: Duration::from_millis(1),
        max_backoff: Duration::from_millis(2),
    };
    let mut connections = vec![None, Some(1), Some(2)].into_iter();
    let mut attempts = 0;
    let mut published = None;
    let mut state = SupervisorState::new();
    let mut seen = Vec::new();

    while state.generation < 2 {
        let event = if state.connected {
            SupervisorEvent::Closed
        } else {
            attempts += 1;
            match connections.next().unwrap() {
                Some(id) => {
                    published = Some(id);
                    SupervisorEvent::Connected
                }
                None => SupervisorEvent::ConnectFailed,
            }
        };
        match state.step(config, event) {
            SupervisorAction::PublishAndWait => seen.push((state.generation, published)),
            SupervisorAction::WithdrawAndRetry(delay) => {
                published = None;
                assert!(delay <= config.max_backoff);
            }
        }
    }

    assert_eq!(seen, [(1, Some(1)), (2, Some(2))]);
    assert_eq!(published, Some(2));
    assert_eq!(attempts, 3);
}

#[test]
fn supervisor_configuration_says_what_is_wrong() {
    let config = QuicSupervisorConfig::default();
    assert_eq!(config.initial_backoff, Duration::from_millis(25));
    assert_eq!(config.max_backoff, Duration::from_secs(2));
    assert!(validate_supervisor_config(config).is_ok());
    assert!(matches!(
        validate_supervisor_config(QuicSupervisorConfig {
            initial_backoff: Duration::zero(),
            max_backoff: Duration::zero(),
        }),
        Err(RelayClientError::InvalidConfig(
            "QUIC supervisor initial_backoff is zero"
        ))
    ));
    assert!(matches!(
        validate_supervisor_config(QuicSupervisorConfig {
            initial_backoff: Duration::from_millis(2),
            max_backoff: Duration::from_millis(1),
        }),
        Err(RelayClientError::InvalidConfig(
            "QUIC supervisor max_backoff is below initial_backoff"
        ))
    ));
}

#[test]
fn waits_double_with_seven_to_nine_eighths_jitter() {
    let config = QuicSupervisorConfig {
        initial_backoff: Duration::from_millis(8),
        max_backoff: Duration::from_secs(100),
    };
    let wait = |failures: u32| reconnect_backoff(config, failures);
    // 1_103_515_245 is a multiple of three, so the jitter moves once the product wraps.
    assert_eq!(wait(0), Duration::from_millis(7));
    assert_eq!(wait(1), Duration::from_millis(14));
    assert_eq!(wait(2), Duration::from_millis(28));
    assert_eq!(wait(3), Duration::from_millis(56));
    assert_eq!(wait(4), Duration::from_millis(144));
    assert_eq!(wait(8), Duration::from_millis(2_048));
    assert_eq!(wait(16), Duration::from_millis(524_288).at_most(config.max_backoff));
    for failures in 0..40u32 {
        let eighths = 7 + failures.wrapping_mul(1_103_515_245) % 3;
        let base = Duration::from_millis(8 << failures.min(16)).at_most(config.max_backoff);
        let expected = base
            .saturating_mul(eighths)
            .divided_by(8)
            .at_most(config.max_backoff);
        assert_eq!(wait(failures), expected);
    }
}

#[test]
fn endless_waits_saturate() {
    let config = QuicSupervisorConfig {
        initial_backoff: Duration::from_secs(u64::MAX),
        max_backoff: Duration::from_secs(u64::MAX),
    };
    let longest = Duration::from_parts(u64::MAX, 999_999_999);
    assert_eq!(reconnect_backoff(config, 0), longest.divided_by(8));
    assert_eq!(reconnect_backoff(config, u32::MAX), longest.divided_by(8));
}

#[test]
fn failures_add_up_until_a_connection_is_made() {
    let config = QuicSupervisorConfig::default();
    let mut state = SupervisorState::new();
    for failures in 0..20u32 {
        assert_eq!(
            state.step(config, SupervisorEvent::ConnectFailed),
            SupervisorAction::WithdrawAndRetry(reconnect_backoff(config, failures))
        );
        assert_eq!(state.failures, failures + 1);
        assert!(!state.connected);
    }
    assert_eq!(
        state.step(config, SupervisorEvent::Connected),
        SupervisorAction::PublishAndWait
    );
    assert_eq!(
        state,
        SupervisorState {
            failures: 0,
            generation: 1,
            connected: true
        }
    );
    assert_eq!(
        state.step(config, SupervisorEvent::Closed),
        SupervisorAction::WithdrawAndRetry(reconnect_backoff(config, 0))
    );
    assert_eq!(
        state.step(config, SupervisorEvent::ConnectFailed),
        SupervisorAction::WithdrawAndRetry(reconnect_backoff(config, 0))
    );
}

#[test]
fn counters_stay_in_range() {
    let config = QuicSupervisorConfig::default();
    let mut state = SupervisorState {
        failures: u32::MAX,
        generation: u64::MAX,
        connected: false,
    };
    state.step(config, SupervisorEvent::ConnectFailed);
    assert_eq!(state.failures, u32::MAX);
    state.step(config, SupervisorEvent::Connected);
    assert_eq!(state.generation, 0);
}

#[test]
fn readiness_needs_an_open_published_connection() {
    assert_eq!(
        quic_readiness(Some(true), Some(3)),
        QuicReadiness {
            ready: true,
            generation: 3
        }
    );
    assert!(!quic_readiness(Some(false), Some(3)).ready);
    assert_eq!(
        quic_readiness(None, None),
        QuicReadiness {
            ready: false,
            generation: 0
        }
    );
}
