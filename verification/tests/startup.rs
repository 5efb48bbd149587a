use user_directory::startup::{
    advance, connection_setting_name, listen_address, readiness_message, Action, Event, Phase,
    StartupError,
};

fn all_events() -> Vec<Event> {
    vec![
        Event::Configuration(None),
        Event::Configuration(Some("postgres://localhost/app".to_string())),
        Event::StorageConnected,
        Event::StorageFailed,
    ]
}

#[test]
fn configured_and_connected_serves() {
    let (phase, action) = advance(
        Phase::Configuring,
        Event::Configuration(Some("postgres://localhost/app".to_string())),
    );
    assert_eq!(phase, Phase::Connecting);
    assert_eq!(
        action,
        Action::Connect { url: "postgres://localhost/app".to_string(), max_connections: 5 }
    );
    let (phase, action) = advance(phase, Event::StorageConnected);
    assert_eq!(phase, Phase::Serving);
    assert_eq!(action, Action::Serve);
}

#[test]
fn missing_configuration_aborts() {
    let (phase, action) = advance(Phase::Configuring, Event::Configuration(None));
    assert_eq!(phase, Phase::Stopped);
    assert_eq!(action, Action::Abort(StartupError::MissingConfiguration));
}

#[test]
fn missing_configuration_never_binds() {
    for second in all_events() {
        for third in all_events() {
            let (mut phase, first_action) = advance(Phase::Configuring, Event::Configuration(None));
            assert_ne!(first_action, Action::Serve);
            for event in [second.clone(), third.clone()] {
                let (next, action) = advance(phase, event);
                assert_eq!(next, Phase::Stopped);
                assert_eq!(action, Action::Abort(StartupError::OutOfOrder));
                phase = next;
            }
        }
    }
}

#[test]
fn storage_failure_aborts() {
    let (phase, _) = advance(Phase::Configuring, Event::Configuration(Some("pg".to_string())));
    let (phase, action) = advance(phase, Event::StorageFailed);
    assert_eq!(phase, Phase::Stopped);
    assert_eq!(action, Action::Abort(StartupError::StorageUnavailable));
}

#[test]
fn events_out_of_order_abort() {
    assert_eq!(
        advance(Phase::Configuring, Event::StorageConnected),
        (Phase::Stopped, Action::Abort(StartupError::OutOfOrder))
    );
    assert_eq!(
        advance(Phase::Configuring, Event::StorageFailed),
        (Phase::Stopped, Action::Abort(StartupError::OutOfOrder))
    );
    for event in [Event::Configuration(None), Event::Configuration(Some("pg".to_string()))] {
        assert_eq!(
            advance(Phase::Connecting, event),
            (Phase::Stopped, Action::Abort(StartupError::OutOfOrder))
        );
    }
    for phase in [Phase::Serving, Phase::Stopped] {
        for event in all_events() {
            assert_eq!(
                advance(phase, event),
                (Phase::Stopped, Action::Abort(StartupError::OutOfOrder))
            );
        }
    }
}

#[test]
fn only_one_run_serves() {
    let mut serving_runs = 0;
    for first in all_events() {
        for second in all_events() {
            let (phase, first_action) = advance(Phase::Configuring, first.clone());
            assert_ne!(first_action, Action::Serve);
            let (_, second_action) = advance(phase, second.clone());
            if second_action == Action::Serve {
                serving_runs += 1;
                assert!(matches!(first, Event::Configuration(Some(_))));
                assert_eq!(second, Event::StorageConnected);
            }
        }
    }
    assert_eq!(serving_runs, 1);
}

#[test]
fn fixed_settings() {
    assert_eq!(connection_setting_name(), "DATABASE_URL");
    assert_eq!(listen_address(), ("127.0.0.1", 8080));
    assert_eq!(readiness_message(), "Server running at http://localhost:8080");
}

#[test]
fn abort_messages() {
    assert_eq!(StartupError::MissingConfiguration.message(), "DATABASE_URL not set in .env");
    assert_eq!(StartupError::StorageUnavailable.message(), "Failed to connect to database");
    assert_eq!(StartupError::OutOfOrder.message(), "Startup steps reported out of order");
}
