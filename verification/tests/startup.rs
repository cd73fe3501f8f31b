//! The order of the start and what is fatal to it.

use stratus::settings::{
    CERTIFICATE_FILE, DEFAULT_LOG_FILTER, FALLBACK_PORT, INHERITED_SLOT, PRIVATE_KEY_FILE,
};
use stratus::{
    fallback_address, first_action, next_action, Action, Failure, Outcome, SocketAddress,
    Transport,
};

fn run(transport: Transport, outcomes: &[Outcome]) -> Vec<Action> {
    let mut actions = vec![first_action()];
    for outcome in outcomes {
        let last = *actions.last().unwrap();
        actions.push(next_action(transport, last, *outcome));
    }
    actions
}

fn touches_listener(action: &Action) -> bool {
    matches!(
        action,
        Action::TakeInherited { .. } | Action::SetNonBlocking | Action::Bind { .. } | Action::Serve
    )
}

const LOOPBACK: SocketAddress = SocketAddress {
    octets: (127, 0, 0, 1),
    port: 3000,
};

#[test]
fn settings_are_the_fixed_values() {
    assert_eq!(INHERITED_SLOT, 0);
    assert_eq!(FALLBACK_PORT, 3000);
    assert_eq!(CERTIFICATE_FILE, "cert.pem");
    assert_eq!(PRIVATE_KEY_FILE, "key.pem");
    assert_eq!(
        DEFAULT_LOG_FILTER,
        "stratus=info,tower_http=debug,axum=debug"
    );
    assert_eq!(fallback_address(), LOOPBACK);
    assert_eq!(fallback_address().octets, (127, 0, 0, 1));
    assert_eq!(fallback_address().port, 3000);
}

#[test]
fn start_begins_with_error_reporting() {
    assert_eq!(first_action(), Action::InstallErrorReporting);
}

#[test]
fn tls_start_with_inherited_listener() {
    let actions = run(Transport::Tls, &[Outcome::Done; 7]);
    assert_eq!(
        actions,
        vec![
            Action::InstallErrorReporting,
            Action::LoadEnvironment,
            Action::InitLogging,
            Action::LoadCertificates,
            Action::TakeInherited { slot: 0 },
            Action::SetNonBlocking,
            Action::Serve,
            Action::Exit,
        ]
    );
}

#[test]
fn tls_start_without_inherited_listener() {
    let actions = run(
        Transport::Tls,
        &[
            Outcome::Done,
            Outcome::Missing,
            Outcome::Done,
            Outcome::Done,
            Outcome::Missing,
            Outcome::Done,
            Outcome::Done,
        ],
    );
    assert_eq!(
        actions,
        vec![
            Action::InstallErrorReporting,
            Action::LoadEnvironment,
            Action::InitLogging,
            Action::LoadCertificates,
            Action::TakeInherited { slot: 0 },
            Action::Bind { address: LOOPBACK },
            Action::Serve,
            Action::Exit,
        ]
    );
}

#[test]
fn plain_start_loads_no_certificates() {
    let actions = run(
        Transport::Plain,
        &[
            Outcome::Done,
            Outcome::Done,
            Outcome::Done,
            Outcome::Missing,
            Outcome::Done,
            Outcome::Done,
        ],
    );
    assert_eq!(
        actions,
        vec![
            Action::InstallErrorReporting,
            Action::LoadEnvironment,
            Action::InitLogging,
            Action::TakeInherited { slot: 0 },
            Action::Bind { address: LOOPBACK },
            Action::Serve,
            Action::Exit,
        ]
    );
    assert!(!actions.contains(&Action::LoadCertificates));
}

#[test]
fn inherited_listener_is_served_and_nothing_is_bound() {
    for transport in [Transport::Plain, Transport::Tls] {
        let next = next_action(
            transport,
            Action::TakeInherited { slot: 0 },
            Outcome::Done,
        );
        assert_eq!(next, Action::SetNonBlocking);
        assert_eq!(
            next_action(transport, Action::SetNonBlocking, Outcome::Done),
            Action::Serve
        );
        let actions = run(transport, &[Outcome::Done; 9]);
        assert!(actions
            .iter()
            .all(|action| !matches!(action, Action::Bind { .. })));
        assert!(actions.contains(&Action::Serve));
    }
}

#[test]
fn absent_listener_binds_the_loopback_port() {
    for transport in [Transport::Plain, Transport::Tls] {
        let next = next_action(
            transport,
            Action::TakeInherited { slot: 0 },
            Outcome::Missing,
        );
        assert_eq!(
            next,
            Action::Bind {
                address: SocketAddress {
                    octets: (127, 0, 0, 1),
                    port: 3000
                }
            }
        );
        assert_eq!(next_action(transport, next, Outcome::Done), Action::Serve);
    }
}

#[test]
fn missing_certificates_abort_before_any_socket() {
    let outcomes = [
        Outcome::Done,
        Outcome::Done,
        Outcome::Done,
        Outcome::Missing,
        Outcome::Done,
        Outcome::Done,
    ];
    let actions = run(Transport::Tls, &outcomes);
    assert_eq!(actions[3], Action::LoadCertificates);
    for action in &actions[4..] {
        assert_eq!(
            *action,
            Action::Abort {
                failure: Failure::Certificates
            }
        );
    }
    assert!(actions.iter().all(|action| !touches_listener(action)));
}

#[test]
fn malformed_certificates_abort_before_any_socket() {
    let outcomes = [
        Outcome::Done,
        Outcome::Failed,
        Outcome::Done,
        Outcome::Failed,
        Outcome::Missing,
    ];
    let actions = run(Transport::Tls, &outcomes);
    assert_eq!(
        actions[4],
        Action::Abort {
            failure: Failure::Certificates
        }
    );
    assert_eq!(actions[5], actions[4]);
    assert!(actions.iter().all(|action| !touches_listener(action)));
}

#[test]
fn environment_file_is_optional() {
    for outcome in [Outcome::Done, Outcome::Missing, Outcome::Failed] {
        for transport in [Transport::Plain, Transport::Tls] {
            assert_eq!(
                next_action(transport, Action::LoadEnvironment, outcome),
                Action::InitLogging
            );
        }
    }
}

#[test]
fn each_failure_has_its_abort() {
    let cases = [
        (Action::InstallErrorReporting, Failure::ErrorReporting),
        (Action::InitLogging, Failure::Logging),
        (Action::LoadCertificates, Failure::Certificates),
        (Action::SetNonBlocking, Failure::NonBlocking),
        (Action::Bind { address: LOOPBACK }, Failure::Bind),
        (Action::Serve, Failure::Server),
    ];
    for transport in [Transport::Plain, Transport::Tls] {
        for (action, failure) in cases {
            assert_eq!(
                next_action(transport, action, Outcome::Failed),
                Action::Abort { failure }
            );
            assert_eq!(
                next_action(transport, action, Outcome::Missing),
                Action::Abort { failure }
            );
        }
        assert_eq!(
            next_action(
                transport,
                Action::TakeInherited { slot: 0 },
                Outcome::Failed
            ),
            Action::Abort {
                failure: Failure::InheritedListener
            }
        );
    }
}

#[test]
fn server_end_is_the_end() {
    assert_eq!(
        next_action(Transport::Tls, Action::Serve, Outcome::Done),
        Action::Exit
    );
    assert_eq!(
        next_action(Transport::Tls, Action::Serve, Outcome::Failed),
        Action::Abort {
            failure: Failure::Server
        }
    );
}

#[test]
fn final_actions_repeat() {
    for outcome in [Outcome::Done, Outcome::Missing, Outcome::Failed] {
        for transport in [Transport::Plain, Transport::Tls] {
            assert_eq!(next_action(transport, Action::Exit, outcome), Action::Exit);
            let abort = Action::Abort {
                failure: Failure::Bind,
            };
            assert_eq!(next_action(transport, abort, outcome), abort);
        }
    }
}

#[test]
fn no_socket_before_certificates_in_any_short_run() {
    let all = [Outcome::Done, Outcome::Missing, Outcome::Failed];
    let mut runs: Vec<Vec<Outcome>> = vec![vec![]];
    for _ in 0..6 {
        let mut longer = Vec::new();
        for run in &runs {
            for outcome in all {
                let mut next = run.clone();
                next.push(outcome);
                longer.push(next);
            }
        }
        runs = longer;
    }
    assert_eq!(runs.len(), 729);
    for outcomes in &runs {
        let actions = run(Transport::Tls, outcomes);
        assert_eq!(actions.len(), outcomes.len() + 1);
        for (j, action) in actions.iter().enumerate() {
            if touches_listener(action) {
                let loaded = (0..j).any(|i| {
                    actions[i] == Action::LoadCertificates && outcomes[i] == Outcome::Done
                });
                assert!(loaded);
            }
        }
        let binds = actions
            .iter()
            .filter(|action| matches!(action, Action::Bind { .. }))
            .count();
        assert!(binds <= 1);
    }
}
