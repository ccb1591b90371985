use std::time::Duration;

use salvo_kit::conn::holding::{Holding, Scheme, SocketAddr, Version};
use salvo_kit::conn::unix::UnixAcceptor;
use salvo_kit::conn::{Acceptor, TransportAcceptor};
use salvo_kit::server::{Action, Event, Lifecycle, Phase, Server, ServerCommand, ServerHandle};

fn graceful(timeout: Option<Duration>) -> Event {
    Event::Command(ServerCommand::StopGraceful(timeout))
}

fn forcible() -> Event {
    Event::Command(ServerCommand::StopForcible)
}

#[test]
fn graceful_stop_without_connections_stops_at_once() {
    let lifecycle = Lifecycle::new();
    let (lifecycle, action) = lifecycle.step(graceful(None));
    assert_eq!(action, Action::StopAccepting { cancel_now: false, cancel_after: None });
    assert_eq!(lifecycle.phase(), Phase::Stopped);
    assert!(lifecycle.is_stopped());
    assert!(!lifecycle.is_cancelled());
}

#[test]
fn graceful_stop_with_timeout_stops_when_the_time_is_up() {
    let timeout = Duration::from_millis(100);
    let lifecycle = Lifecycle::new();
    let (lifecycle, action) = lifecycle.step(Event::Accepted);
    assert_eq!(action, Action::Serve);
    let (lifecycle, action) = lifecycle.step(graceful(Some(timeout)));
    assert_eq!(action, Action::StopAccepting { cancel_now: false, cancel_after: Some(timeout) });
    assert_eq!(lifecycle.phase(), Phase::GracefulDraining);

    // The handler never completes: before the time is up the task goes on.
    let (lifecycle, action) = lifecycle.step(Event::Checkpoint { finished: false });
    assert_eq!(action, Action::KeepServing);
    assert!(!lifecycle.is_stopped());

    let (lifecycle, action) = lifecycle.step(Event::TimeoutElapsed);
    assert_eq!(action, Action::Cancel);
    assert_eq!(lifecycle.phase(), Phase::ForciblyStopped);
    assert!(lifecycle.is_cancelled());

    let (lifecycle, action) = lifecycle.step(Event::Checkpoint { finished: false });
    assert_eq!(action, Action::EndTask { last: true });
    assert!(lifecycle.is_stopped());
    assert_eq!(lifecycle.alive_connections(), 0);
}

#[test]
fn live_count_never_exceeds_accepted_and_returns_to_zero() {
    let mut lifecycle = Lifecycle::new();
    let accepted = 5;
    for n in 1..=accepted {
        let (next, action) = lifecycle.step(Event::Accepted);
        assert_eq!(action, Action::Serve);
        assert_eq!(next.alive_connections(), n);
        assert!(next.alive_connections() <= accepted);
        lifecycle = next;
    }
    let (next, _) = lifecycle.step(Event::AcceptFailed);
    assert_eq!(next.alive_connections(), accepted);
    lifecycle = next;
    for n in (0..accepted).rev() {
        let (next, action) = lifecycle.step(Event::Checkpoint { finished: true });
        assert_eq!(action, Action::EndTask { last: n == 0 });
        assert_eq!(next.alive_connections(), n);
        lifecycle = next;
    }
    assert_eq!(lifecycle.alive_connections(), 0);
    assert_eq!(lifecycle.phase(), Phase::Running);
    let (lifecycle, action) = lifecycle.step(Event::Checkpoint { finished: true });
    assert_eq!(action, Action::Idle);
    assert_eq!(lifecycle.alive_connections(), 0);
}

#[test]
fn second_graceful_stop_changes_nothing() {
    let (lifecycle, _) = Lifecycle::new().step(Event::Accepted);
    let (once, first) = lifecycle.step(graceful(Some(Duration::from_secs(1))));
    assert_eq!(
        first,
        Action::StopAccepting { cancel_now: false, cancel_after: Some(Duration::from_secs(1)) }
    );
    let (twice, second) = once.step(graceful(Some(Duration::from_secs(9))));
    assert_eq!(second, Action::Idle);
    assert_eq!(twice, once);
    let (thrice, third) = twice.step(graceful(None));
    assert_eq!(third, Action::Idle);
    assert_eq!(thrice, once);
}

#[test]
fn forcible_stop_ends_while_unbounded_graceful_stop_waits() {
    let (running, _) = Lifecycle::new().step(Event::Accepted);
    let (running, _) = running.step(Event::Accepted);

    let (forced, action) = running.step(forcible());
    assert_eq!(action, Action::StopAccepting { cancel_now: true, cancel_after: None });
    assert!(forced.is_cancelled());
    assert_eq!(forced.phase(), Phase::ForciblyStopped);
    let (forced, _) = forced.step(Event::Checkpoint { finished: false });
    let (forced, action) = forced.step(Event::Checkpoint { finished: false });
    assert_eq!(action, Action::EndTask { last: true });
    assert!(forced.is_stopped());

    let (waiting, _) = running.step(graceful(None));
    let mut state = waiting;
    for _ in 0..10 {
        let (next, action) = state.step(Event::Checkpoint { finished: false });
        assert_eq!(action, Action::KeepServing);
        state = next;
    }
    let (state, action) = state.step(Event::TimeoutElapsed);
    assert_eq!(action, Action::Idle);
    assert_eq!(state, waiting);
    assert!(!state.is_stopped());
}

#[test]
fn forcible_stop_during_graceful_wait_cancels() {
    let (running, _) = Lifecycle::new().step(Event::Accepted);
    let (draining, _) = running.step(graceful(None));
    let (forced, action) = draining.step(forcible());
    assert_eq!(action, Action::Cancel);
    assert_eq!(forced.phase(), Phase::ForciblyStopped);
    let (again, action) = forced.step(forcible());
    assert_eq!(action, Action::Idle);
    assert_eq!(again, forced);
}

#[test]
fn nothing_is_accepted_after_a_stop() {
    let (running, _) = Lifecycle::new().step(Event::Accepted);
    let (draining, _) = running.step(graceful(None));
    assert!(!draining.is_accepting());
    let (after, action) = draining.step(Event::Accepted);
    assert_eq!(action, Action::Refuse);
    assert_eq!(after, draining);
    let (stopped, _) = Lifecycle::new().step(forcible());
    assert!(stopped.is_stopped());
    let (after, action) = stopped.try_step(Event::Accepted);
    assert_eq!(action, Action::Refuse);
    assert_eq!(after, stopped);
    let (after, action) = stopped.step(graceful(None));
    assert_eq!(action, Action::Idle);
    assert_eq!(after, stopped);
}

#[test]
fn handle_names_the_commands() {
    let handle = ServerHandle;
    assert_eq!(handle.stop_forcible(), ServerCommand::StopForcible);
    assert_eq!(handle.stop_graceful(None), ServerCommand::StopGraceful(None));
    assert_eq!(
        handle.stop_graceful(Some(Duration::from_secs(2))),
        ServerCommand::StopGraceful(Some(Duration::from_secs(2)))
    );
}


#[test]
fn server_steps_through_its_lifecycle() {
    let acceptor = UnixAcceptor::new(SocketAddr::Unix { path: "/tmp/s.sock".to_string() });
    let mut server = Server::new(acceptor).conn_idle_timeout(Duration::from_secs(30));
    assert_eq!(server.idle_timeout(), Some(Duration::from_secs(30)));
    assert_eq!(server.holdings().len(), 1);
    assert_eq!(server.handle(), ServerHandle);
    assert_eq!(server.alt_svc_for(&SocketAddr::Unix { path: "/tmp/s.sock".to_string() }), None);
    assert_eq!(server.step(Event::Accepted), Action::Serve);
    assert_eq!(server.lifecycle().alive_connections(), 1);
    assert_eq!(
        server.stop_graceful(None),
        Action::StopAccepting { cancel_now: false, cancel_after: None }
    );
    assert_eq!(server.stop_graceful(None), Action::Idle);
    assert_eq!(server.stop_forcible(), Action::Cancel);
    assert_eq!(server.step(Event::Checkpoint { finished: false }), Action::EndTask { last: true });
    assert!(server.lifecycle().is_stopped());
}

#[test]
fn server_advertises_http3_on_the_port_that_speaks_it() {
    let held = vec![
        Holding {
            local_addr: SocketAddr::IPv4 { octets: [0, 0, 0, 0], port: 5800 },
            http_versions: vec![Version::Http11],
            http_scheme: Scheme::Http,
        },
        Holding {
            local_addr: SocketAddr::IPv4 { octets: [0, 0, 0, 0], port: 5443 },
            http_versions: vec![Version::Http3],
            http_scheme: Scheme::Https,
        },
    ];
    let server = Server::new(TransportAcceptor::new((), held));
    let at = |port: u16| SocketAddr::IPv4 { octets: [10, 0, 0, 1], port };
    assert_eq!(
        server.alt_svc_for(&at(5443)).as_deref(),
        Some(r#"h3=":5443"; ma=2592000,h3-29=":5443"; ma=2592000"#)
    );
    assert_eq!(server.alt_svc_for(&at(5800)), None);
    assert_eq!(server.alt_svc_for(&at(1)), None);
    assert_eq!(server.alt_svc_for(&SocketAddr::Unknown), None);
    assert_eq!(server.acceptor().holdings().len(), 2);
}
