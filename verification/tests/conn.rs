use std::time::Duration;

use salvo_kit::conn::idle::{IdleAction, IdleEvent, IdleWatch};
use salvo_kit::conn::holding::{
    alt_svc_for, alt_svc_value, has_version, speaks_h3_on, Accepted, Holding, Scheme, SocketAddr,
    Version,
};
use salvo_kit::conn::native_tls::{
    tls_holding, tls_holdings, with_version, AcceptError, NativeTlsAcceptor, NativeTlsListener,
    Reload,
};
use salvo_kit::conn::quinn::{
    request_path, stream_outcome, stream_step, Builder, ConnectionLoop, ErrorLevel, Incoming,
    LoopAction, RequestPath, ServeError, Stage, StreamAction, StreamEvent,
};
use salvo_kit::conn::unix::{BindError, BindStep, UnixAcceptor, UnixListener};
use salvo_kit::conn::{drain_latest, Acceptor, ConfigQueue, ConfigSource, TransportAcceptor};
use salvo_kit::http::Method;

fn tcp(port: u16) -> SocketAddr {
    SocketAddr::IPv4 { octets: [127, 0, 0, 1], port }
}

fn plain(port: u16) -> Holding {
    Holding { local_addr: tcp(port), http_versions: vec![Version::Http11], http_scheme: Scheme::Http }
}

type Tcp = TransportAcceptor<()>;

fn bound(held: Vec<Holding>) -> Tcp {
    TransportAcceptor::new((), held)
}

#[test]
fn alpn_tokens_choose_the_version() {
    assert_eq!(Version::from_alpn(Some(b"h2")), Version::Http2);
    assert_eq!(Version::from_alpn(Some(b"http/1.1")), Version::Http11);
    assert_eq!(Version::from_alpn(Some(b"h3")), Version::Http11);
    assert_eq!(Version::from_alpn(Some(b"")), Version::Http11);
    assert_eq!(Version::from_alpn(None), Version::Http11);
}

#[test]
fn ports_are_known_of_internet_addresses_only() {
    assert_eq!(tcp(80).port(), Some(80));
    assert_eq!(SocketAddr::IPv6 { segments: [0; 8], port: 443 }.port(), Some(443));
    assert_eq!(SocketAddr::Unix { path: "/s".to_string() }.port(), None);
    assert_eq!(SocketAddr::Unknown.port(), None);
    assert_eq!(tcp(80).clone(), tcp(80));
}

#[test]
fn alt_svc_names_the_port_twice() {
    assert_eq!(alt_svc_value(443), r#"h3=":443"; ma=2592000,h3-29=":443"; ma=2592000"#);
    assert_eq!(alt_svc_value(0), r#"h3=":0"; ma=2592000,h3-29=":0"; ma=2592000"#);
    assert_eq!(alt_svc_value(65535), r#"h3=":65535"; ma=2592000,h3-29=":65535"; ma=2592000"#);
}

#[test]
fn alt_svc_is_bound_to_the_port_that_speaks_http3() {
    let h3 = |addr: SocketAddr| Holding {
        local_addr: addr,
        http_versions: vec![Version::Http11, Version::Http3],
        http_scheme: Scheme::Https,
    };
    assert_eq!(alt_svc_for(&[], &tcp(443)), None);
    assert_eq!(alt_svc_for(&[plain(80)], &tcp(80)), None);
    let held = [plain(80), h3(tcp(443))];
    assert_eq!(alt_svc_for(&held, &tcp(443)), Some(alt_svc_value(443)));
    assert_eq!(alt_svc_for(&held, &tcp(80)), None);
    assert_eq!(alt_svc_for(&held, &tcp(8443)), None);
    assert_eq!(alt_svc_for(&held, &SocketAddr::Unknown), None);
    assert_eq!(alt_svc_for(&held, &SocketAddr::Unix { path: "/s".to_string() }), None);
    assert_eq!(
        alt_svc_for(&held, &SocketAddr::IPv6 { segments: [0; 8], port: 443 }),
        Some(alt_svc_value(443))
    );
    let several = [h3(tcp(1)), plain(2), h3(tcp(3)), plain(4)];
    assert_eq!(alt_svc_for(&several, &tcp(1)), Some(alt_svc_value(1)));
    assert_eq!(alt_svc_for(&several, &tcp(2)), None);
    assert_eq!(alt_svc_for(&several, &tcp(3)), Some(alt_svc_value(3)));
    assert_eq!(alt_svc_for(&[h3(SocketAddr::Unix { path: "/s".to_string() })], &tcp(1)), None);
    assert!(speaks_h3_on(&several, 3));
    assert!(!speaks_h3_on(&several, 4));
    assert!(has_version(&vec![Version::Http2, Version::Http3], Version::Http3));
    assert!(!has_version(&vec![Version::Http2], Version::Http3));
}

#[test]
fn tls_adds_versions_and_sets_the_scheme() {
    let outer = tls_holding(&plain(80));
    assert_eq!(outer.local_addr, tcp(80));
    assert_eq!(outer.http_versions, vec![Version::Http11, Version::Http2]);
    assert_eq!(outer.http_scheme, Scheme::Https);

    let inner = Holding {
        local_addr: tcp(1),
        http_versions: vec![Version::Http2, Version::Http3],
        http_scheme: Scheme::Http,
    };
    let outer = tls_holding(&inner);
    assert_eq!(outer.http_versions, vec![Version::Http2, Version::Http3, Version::Http11]);
    assert_eq!(tls_holding(&outer), outer);
    assert_eq!(with_version(vec![], Version::Http3), vec![Version::Http3]);
    assert_eq!(tls_holdings(&[plain(1), plain(2)]).len(), 2);
}

#[test]
fn drain_keeps_the_last_update() {
    let mut queue = ConfigQueue::new();
    assert_eq!(drain_latest(&mut queue), None::<&str>);
    queue.push("A");
    queue.push("B");
    queue.push("C");
    assert_eq!(queue.len(), 3);
    assert_eq!(drain_latest(&mut queue), Some("C"));
    assert_eq!(queue.len(), 0);
    assert_eq!(queue.try_next(), None);
    queue.push("D");
    assert_eq!(queue.try_next(), Some("D"));
}

#[test]
fn identity_is_that_of_the_last_update() {
    let listener = NativeTlsListener::new(ConfigQueue::new(), bound(vec![plain(443)]));
    let (mut config, inner) = listener.into_parts();
    config.push("first");
    config.push("second");
    config.push("third");
    config.push("fourth");
    let mut acceptor: NativeTlsAcceptor<_, _, String> = NativeTlsAcceptor::new(config, inner);
    assert_eq!(acceptor.holdings().len(), 1);
    assert_eq!(acceptor.holdings()[0].http_scheme, Scheme::Https);
    assert_eq!(acceptor.holdings()[0].http_versions, vec![Version::Http11, Version::Http2]);
    assert_eq!(acceptor.inner().holdings()[0].http_scheme, Scheme::Http);
    assert!(!acceptor.is_ready());
    assert_eq!(acceptor.begin_accept(), Err(AcceptError::ConfigNotReady));

    let mut compiled: Vec<&str> = Vec::new();
    let outcome = acceptor.refresh_identity(|update: &'static str| {
        compiled.push(update);
        Ok::<String, ()>(format!("identity of {update}"))
    });
    assert_eq!(outcome, Reload::Loaded);
    assert_eq!(compiled, vec!["fourth"]);
    assert_eq!(acceptor.begin_accept(), Ok(&"identity of fourth".to_string()));

    let outcome = acceptor.refresh_identity(|update: &'static str| Ok::<String, ()>(update.into()));
    assert_eq!(outcome, Reload::NoUpdate);
    assert_eq!(acceptor.begin_accept(), Ok(&"identity of fourth".to_string()));
}

#[test]
fn failed_reload_keeps_the_identity() {
    let mut config = ConfigQueue::new();
    config.push(1u8);
    let mut acceptor: NativeTlsAcceptor<_, _, u8> =
        NativeTlsAcceptor::new(config, bound(vec![]));
    assert_eq!(acceptor.refresh_identity(|_| Err::<u8, &str>("bad")), Reload::Rejected);
    assert!(!acceptor.is_ready());
    assert_eq!(acceptor.refresh_identity(Ok::<u8, &str>), Reload::NoUpdate);

    let mut config = ConfigQueue::new();
    config.push(1u8);
    let mut acceptor: NativeTlsAcceptor<_, _, u8> =
        NativeTlsAcceptor::new(config, bound(vec![]));
    assert_eq!(acceptor.refresh_identity(Ok::<u8, &str>), Reload::Loaded);
    assert_eq!(acceptor.begin_accept(), Ok(&1));
    let (mut config, inner) = NativeTlsListener::new(ConfigQueue::new(), ()).into_parts();
    assert_eq!(inner, ());
    config.push(2u8);
    config.push(3u8);
    let mut acceptor2: NativeTlsAcceptor<_, _, u8> =
        NativeTlsAcceptor::new(config, bound(vec![]));
    assert_eq!(acceptor2.refresh_identity(Ok::<u8, &str>), Reload::Loaded);
    let mut more = ConfigQueue::new();
    more.push(9u8);
    let mut acceptor3: NativeTlsAcceptor<_, _, u8> =
        NativeTlsAcceptor::new(more, bound(vec![]));
    assert_eq!(acceptor3.refresh_identity(Ok::<u8, &str>), Reload::Loaded);
    assert_eq!(acceptor3.begin_accept(), Ok(&9));
    assert_eq!(acceptor2.begin_accept(), Ok(&3));
}

#[test]
fn reload_replaces_or_keeps() {
    let mut config = ConfigQueue::new();
    config.push(1u8);
    let mut acceptor: NativeTlsAcceptor<ConfigQueue<u8>, Tcp, u8> =
        NativeTlsAcceptor::new(config, bound(vec![]));
    assert_eq!(acceptor.refresh_identity(Ok::<u8, &str>), Reload::Loaded);
    assert_eq!(acceptor.begin_accept(), Ok(&1));
    assert_eq!(acceptor.refresh_identity(Ok::<u8, &str>), Reload::NoUpdate);
    assert_eq!(acceptor.begin_accept(), Ok(&1));
}

#[test]
fn accepted_keeps_its_facts_when_wrapped() {
    let accepted = Accepted {
        conn: 1u8,
        local_addr: tcp(1),
        remote_addr: tcp(2),
        http_version: Version::Http11,
        http_scheme: Scheme::Http,
    };
    let wrapped = accepted.map_conn("tls");
    assert_eq!(wrapped.conn, "tls");
    assert_eq!(wrapped.local_addr, tcp(1));
    assert_eq!(wrapped.remote_addr, tcp(2));
    assert_eq!(wrapped.http_version, Version::Http11);
    assert_eq!(wrapped.http_scheme, Scheme::Http);
}

#[test]
fn unix_listener_plans_its_steps() {
    let listener = UnixListener::new("/tmp/test.sock");
    assert_eq!(listener.bind_steps(), vec![BindStep::Bind]);
    let listener = listener.permissions(Some(0o600));
    assert_eq!(listener.bind_steps(), vec![BindStep::Bind, BindStep::SetPermissions(0o600)]);
    let listener = listener.owner(Some(1000), None);
    assert_eq!(
        listener.bind_steps(),
        vec![BindStep::Bind, BindStep::SetPermissions(0o600), BindStep::Chown(Some(1000), None)]
    );
    assert_eq!(*listener.path(), "/tmp/test.sock");
    let listener = listener.permissions(None);
    assert_eq!(listener.bind_steps(), vec![BindStep::Bind, BindStep::Chown(Some(1000), None)]);
}

#[test]
fn unix_bind_fails_with_the_step_that_failed() {
    let addr = SocketAddr::Unix { path: "/tmp/test.sock".to_string() };
    let failed = UnixListener::new("/tmp/test.sock")
        .try_bind(Some((BindStep::Bind, "address in use".to_string())), SocketAddr::Unknown);
    assert_eq!(failed, Err(BindError::Failed(BindStep::Bind, "address in use".to_string())));

    let acceptor = UnixListener::new("/tmp/test.sock").try_bind(None, addr.clone()).unwrap();
    assert_eq!(
        acceptor.holdings(),
        &[Holding {
            local_addr: addr.clone(),
            http_versions: vec![Version::Http11],
            http_scheme: Scheme::Http
        }]
    );
    let accepted = acceptor.accepted(518, SocketAddr::Unknown);
    assert_eq!(accepted.conn, 518);
    assert_eq!(accepted.local_addr, addr);
    assert_eq!(accepted.remote_addr, SocketAddr::Unknown);
    assert_eq!(accepted.http_version, Version::Http11);
    assert_eq!(accepted.http_scheme, Scheme::Http);
    assert_eq!(UnixAcceptor::new(addr.clone()).holdings().len(), 1);
}

#[test]
fn http3_builder_offers_webtransport() {
    let builder = Builder::new();
    assert!(builder.enable_webtransport);
    assert!(builder.enable_connect);
    assert!(builder.enable_datagram);
    assert_eq!(builder.max_webtransport_sessions, 1);
    assert!(builder.send_grease);
    assert_eq!(builder.serve_connection(Ok(())), Ok(ConnectionLoop { open: true, spawned: 0 }));
    assert_eq!(
        builder.serve_connection(Err("reset".to_string())),
        Err(ServeError::InvalidConnection("reset".to_string()))
    );
}

fn run_stream(handler_ok: bool) -> Result<(), ServeError> {
    let events = [
        StreamEvent::Handled(handler_ok),
        StreamEvent::HeadSent(true),
        StreamEvent::Polled(true),
        StreamEvent::DataSent(true),
        StreamEvent::BodyEnded,
        StreamEvent::Finished(true),
    ];
    let mut stage = Stage::Handling;
    for event in events {
        let (next, action) = stream_step(stage, event);
        stage = next;
        if let Some(outcome) = stream_outcome(action, "boom".to_string()) {
            return outcome;
        }
    }
    panic!("the exchange did not end")
}

#[test]
fn failed_stream_leaves_the_other_streams_alone() {
    let mut conn = Builder::new().serve_connection(Ok(())).unwrap();
    let mut outcomes = Vec::new();
    for handler_ok in [true, false, true] {
        let (next, action) = conn.on_incoming(Incoming::Request);
        assert_eq!(action, LoopAction::Spawn);
        conn = next;
        outcomes.push(run_stream(handler_ok));
    }
    assert_eq!(outcomes, vec![Ok(()), Err(ServeError::HandlerFailed("boom".to_string())), Ok(())]);
    assert!(conn.open);
    assert_eq!(conn.spawned, 3);
}

#[test]
fn connection_loop_stops_on_connection_errors_only() {
    let conn = ConnectionLoop { open: true, spawned: 0 };
    let (conn, action) = conn.on_incoming(Incoming::Failed(ErrorLevel::StreamError));
    assert_eq!(action, LoopAction::Continue);
    assert!(conn.open);
    let (closed, action) = conn.on_incoming(Incoming::Failed(ErrorLevel::ConnectionError));
    assert_eq!(action, LoopAction::Stop);
    assert!(!closed.open);
    let (closed, action) = conn.on_incoming(Incoming::Closed);
    assert_eq!(action, LoopAction::Stop);
    assert!(!closed.open);
    let (after, action) = closed.on_incoming(Incoming::Request);
    assert_eq!(action, LoopAction::Stop);
    assert_eq!(after, closed);
}

#[test]
fn write_errors_do_not_end_the_exchange() {
    let (stage, action) = stream_step(Stage::Handling, StreamEvent::Handled(true));
    assert_eq!((stage, action), (Stage::SendingHead, StreamAction::SendHead));
    let (stage, action) = stream_step(stage, StreamEvent::HeadSent(false));
    assert_eq!((stage, action), (Stage::Polling, StreamAction::Poll));
    let (stage, action) = stream_step(stage, StreamEvent::Polled(false));
    assert_eq!((stage, action), (Stage::Polling, StreamAction::Poll));
    let (stage, action) = stream_step(stage, StreamEvent::Polled(true));
    assert_eq!((stage, action), (Stage::SendingData, StreamAction::SendData));
    let (stage, action) = stream_step(stage, StreamEvent::DataSent(false));
    assert_eq!((stage, action), (Stage::Polling, StreamAction::Poll));
    let (stage, action) = stream_step(stage, StreamEvent::BodyEnded);
    assert_eq!((stage, action), (Stage::Finishing, StreamAction::Finish));
    let (stage, action) = stream_step(stage, StreamEvent::Finished(false));
    assert_eq!((stage, action), (Stage::Done, StreamAction::FailFinish));
    assert_eq!(
        stream_outcome(action, "reset".to_string()),
        Some(Err(ServeError::FinishFailed("reset".to_string())))
    );
    assert_eq!(stream_step(stage, StreamEvent::BodyEnded), (Stage::Done, StreamAction::Ignore));
    assert_eq!(stream_outcome(StreamAction::Poll, String::new()), None);
    assert_eq!(stream_outcome(StreamAction::Succeed, String::new()), Some(Ok(())));
}

#[test]
fn connect_with_webtransport_opens_a_session() {
    assert_eq!(request_path(&Method::connect(), Some("webtransport")), RequestPath::WebTransport);
    assert_eq!(request_path(&Method::connect(), Some("connect-udp")), RequestPath::Exchange);
    assert_eq!(request_path(&Method::connect(), None), RequestPath::Exchange);
    assert_eq!(request_path(&Method::get(), Some("webtransport")), RequestPath::Exchange);
}

#[test]
fn accept_needs_an_identity() {
    let mut acceptor: NativeTlsAcceptor<ConfigQueue<u8>, Tcp, u8> =
        NativeTlsAcceptor::new(ConfigQueue::new(), bound(vec![]));
    assert_eq!(acceptor.prepare_accept(Ok::<u8, &str>), Err(AcceptError::ConfigNotReady));
    acceptor.config_stream_mut().push(1);
    assert_eq!(acceptor.prepare_accept(|_| Err::<u8, &str>("bad")), Err(AcceptError::ConfigNotReady));
    acceptor.config_stream_mut().push(2);
    acceptor.config_stream_mut().push(3);
    assert_eq!(acceptor.prepare_accept(Ok::<u8, &str>), Ok(Reload::Loaded));
    assert_eq!(acceptor.begin_accept(), Ok(&3));
    assert_eq!(acceptor.prepare_accept(Ok::<u8, &str>), Ok(Reload::NoUpdate));
    acceptor.config_stream_mut().push(4);
    assert_eq!(acceptor.prepare_accept(|_| Err::<u8, &str>("bad")), Ok(Reload::Rejected));
    assert_eq!(acceptor.begin_accept(), Ok(&3));
    acceptor.config_stream_mut().push(5);
    assert_eq!(acceptor.prepare_accept(Ok::<u8, &str>), Ok(Reload::Changed));
    assert_eq!(acceptor.begin_accept(), Ok(&5));
    *acceptor.inner_mut().transport_mut() = ();
}

#[test]
fn idle_connection_is_closed_when_the_timer_rings() {
    let time = Duration::from_secs(5);
    let (watch, first) = IdleWatch::new(Some(time));
    assert_eq!(first, Some(time));
    let (watch, action) = watch.step(IdleEvent::ExchangeStarted);
    assert_eq!(action, IdleAction::StopTimer);
    let (watch, action) = watch.step(IdleEvent::TimerFired);
    assert_eq!(action, IdleAction::Wait);
    let (watch, action) = watch.step(IdleEvent::ExchangeStarted);
    assert_eq!(action, IdleAction::Wait);
    assert_eq!(watch.in_flight(), 2);
    let (watch, action) = watch.step(IdleEvent::ExchangeEnded);
    assert_eq!(action, IdleAction::Wait);
    let (watch, action) = watch.step(IdleEvent::ExchangeEnded);
    assert_eq!(action, IdleAction::StartTimer(time));
    assert!(!watch.is_closed());
    let (watch, action) = watch.step(IdleEvent::TimerFired);
    assert_eq!(action, IdleAction::Close);
    assert!(watch.is_closed());
    let (after, action) = watch.step(IdleEvent::ExchangeStarted);
    assert_eq!(action, IdleAction::Wait);
    assert_eq!(after, watch);
}

#[test]
fn connection_without_idle_timeout_is_never_closed() {
    let (watch, first) = IdleWatch::new(None);
    assert_eq!(first, None);
    let (watch, action) = watch.step(IdleEvent::TimerFired);
    assert_eq!(action, IdleAction::Wait);
    let (watch, _) = watch.step(IdleEvent::ExchangeStarted);
    let (watch, action) = watch.step(IdleEvent::ExchangeEnded);
    assert_eq!(action, IdleAction::Wait);
    let (watch, action) = watch.step(IdleEvent::ExchangeEnded);
    assert_eq!(action, IdleAction::Wait);
    let (watch, action) = watch.step(IdleEvent::TimerFired);
    assert_eq!(action, IdleAction::Wait);
    assert!(!watch.is_closed());
}

#[test]
fn serve_errors_tell_what_failed_and_why() {
    assert_eq!(
        ServeError::InvalidConnection("reset".to_string()).message(),
        "invalid connection: reset"
    );
    assert_eq!(
        ServeError::HandlerFailed("boom".to_string()).message(),
        "failed to call hyper service : boom"
    );
    assert_eq!(
        ServeError::FinishFailed("closed".to_string()).message(),
        "failed to finish stream : closed"
    );
}

#[test]
fn tls_listener_passes_on_what_binding_the_inner_listener_came_to() {
    let mut config = ConfigQueue::new();
    config.push(7u8);
    let (pending, inner) = NativeTlsListener::new(config, "tcp listener").take_inner();
    assert_eq!(inner, "tcp listener");
    let bound: Result<Tcp, &str> = Ok(bound(vec![plain(443)]));
    let mut acceptor: NativeTlsAcceptor<_, _, u8> = pending.try_bind(bound).ok().unwrap();
    assert_eq!(acceptor.holdings()[0].http_scheme, Scheme::Https);
    assert!(acceptor.holdings()[0].http_versions.len() > 0);
    assert!(!acceptor.is_ready());
    assert_eq!(acceptor.prepare_accept(Ok::<u8, &str>), Ok(Reload::Loaded));
    assert_eq!(acceptor.begin_accept(), Ok(&7));

    let failed: Result<Tcp, &str> = Err("address in use");
    let refused: Result<NativeTlsAcceptor<ConfigQueue<u8>, Tcp, u8>, &str> =
        NativeTlsListener::new(ConfigQueue::new(), ()).try_bind(failed);
    assert_eq!(refused.err(), Some("address in use"));
}
