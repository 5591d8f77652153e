use simple_server::address::{IpAddress, SocketAddress};
use simple_server::cli::{Cli, Verbosity};
use simple_server::notice::Notice;
use simple_server::route::{router, Method, Response};
use simple_server::server::{
    announce, serve, shutdown_signal, start_service, Action, Event, Server, ServerError,
    ServerState, EXIT_FAILURE, EXIT_SUCCESS, GRACE_PERIOD_SECS,
};
use simple_server::tls::{ProvisioningError, TlsIdentity};

fn plain() -> Cli {
    Cli::default()
}

fn secure() -> Cli {
    Cli {
        verbosity: Verbosity::Info,
        bind: IpAddress::V4(0, 0, 0, 0),
        port: 8443,
        open: false,
        data_dir: Some("/var/lib/hello".to_string()),
    }
}

fn identity() -> TlsIdentity {
    TlsIdentity { certificate_chain: vec![1, 2, 3], private_key: vec![4, 5] }
}

fn log(notice: Notice) -> Action {
    Action::Log { notice }
}

fn listening(address: &str, tls: bool) -> Action {
    log(Notice::Listening { address: address.to_string(), tls })
}

fn bound(address: &str) -> Event {
    Event::Bound { address: address.to_string() }
}

/// A server with `config` that has come as far as `state`.
fn server_at(config: Cli, state: ServerState) -> Server {
    Server { config, state }
}

fn every_event() -> Vec<Event> {
    vec![
        Event::Start,
        Event::IdentityReady { identity: identity() },
        Event::ProvisioningFailed { error: ProvisioningError::GenerationFailed },
        bound("127.0.0.1:3000"),
        Event::BindFailed,
        Event::Interrupt,
        Event::SignalFailed { reason: "gone".to_string() },
        Event::DrainStarted,
        Event::DrainComplete,
        Event::GraceElapsed,
        Event::ServerFailed { reason: "boom".to_string() },
    ]
}

#[test]
fn grace_period_is_ten_seconds() {
    assert_eq!(GRACE_PERIOD_SECS, 10);
}

#[test]
fn exit_codes_are_zero_and_one() {
    assert_eq!(EXIT_SUCCESS, 0);
    assert_eq!(EXIT_FAILURE, 1);
}

#[test]
fn new_server_is_idle() {
    let server = Server::new(secure());
    assert_eq!(server.state, ServerState::Idle);
    assert_eq!(server.config, secure());
}

#[test]
fn only_running_accepts_connections() {
    let failed = ServerState::Failed { error: ServerError::Bind };
    assert!(ServerState::Running.accepts_connections());
    for state in [
        ServerState::Idle,
        ServerState::Provisioning,
        ServerState::Binding,
        ServerState::ShutdownRequested,
        ServerState::Draining,
        ServerState::Stopped,
        failed,
    ] {
        assert!(!state.accepts_connections());
    }
}

#[test]
fn stopped_and_failed_are_terminal() {
    assert!(ServerState::Stopped.is_terminal());
    assert!(ServerState::Failed { error: ServerError::ServerTask }.is_terminal());
    for state in [
        ServerState::Idle,
        ServerState::Provisioning,
        ServerState::Binding,
        ServerState::Running,
        ServerState::ShutdownRequested,
        ServerState::Draining,
    ] {
        assert!(!state.is_terminal());
    }
}

#[test]
fn serve_asks_for_the_configured_address() {
    let request = serve(&secure(), Some(identity()));
    assert_eq!(
        request,
        Action::Serve {
            addr: SocketAddress { ip: IpAddress::V4(0, 0, 0, 0), port: 8443 },
            identity: Some(identity()),
            router: router(),
        }
    );
}

#[test]
fn start_service_without_tls_serves_at_once() {
    assert_eq!(
        start_service(&plain()),
        Action::Serve {
            addr: SocketAddress { ip: IpAddress::V4(127, 0, 0, 1), port: 3000 },
            identity: None,
            router: router(),
        }
    );
}

#[test]
fn start_service_with_tls_provisions_first() {
    assert_eq!(
        start_service(&secure()),
        Action::AcquireIdentity { data_dir: "/var/lib/hello".to_string() }
    );
}

#[test]
fn announce_logs_and_waits() {
    assert_eq!(
        announce(&plain(), "127.0.0.1:3000".to_string()),
        vec![listening("127.0.0.1:3000", false), Action::AwaitInterrupt]
    );
}

#[test]
fn announce_opens_the_browser_when_asked() {
    let mut config = secure();
    config.open = true;
    assert_eq!(
        announce(&config, "0.0.0.0:8443".to_string()),
        vec![
            listening("0.0.0.0:8443", true),
            Action::OpenBrowser { url: "https://0.0.0.0:8443".to_string() },
            Action::AwaitInterrupt,
        ]
    );
}

#[test]
fn announce_opens_plain_url_without_tls() {
    let mut config = plain();
    config.open = true;
    let actions = announce(&config, "127.0.0.1:3000".to_string());
    assert_eq!(actions[1], Action::OpenBrowser { url: "http://127.0.0.1:3000".to_string() });
}

#[test]
fn shutdown_signal_after_the_signal() {
    assert_eq!(shutdown_signal(Ok(())), vec![Notice::ReceivedInterrupt, Notice::ShuttingDown]);
}

#[test]
fn shutdown_signal_after_a_failed_wait() {
    assert_eq!(
        shutdown_signal(Err("no signal handler".to_string())),
        vec![
            Notice::SignalFailed { reason: "no signal handler".to_string() },
            Notice::ShuttingDown,
        ]
    );
}

#[test]
fn plain_startup_binds_then_announces() {
    let mut server = Server::new(plain());
    let actions = server.step(Event::Start);
    assert_eq!(server.state, ServerState::Binding);
    assert_eq!(actions, vec![serve(&plain(), None)]);
    let actions = server.step(bound("127.0.0.1:3000"));
    assert_eq!(server.state, ServerState::Running);
    assert_eq!(actions, vec![listening("127.0.0.1:3000", false), Action::AwaitInterrupt]);
    assert!(server.state.accepts_connections());
}

#[test]
fn tls_startup_provisions_binds_then_announces() {
    let mut server = Server::new(secure());
    let actions = server.step(Event::Start);
    assert_eq!(server.state, ServerState::Provisioning);
    assert_eq!(actions, vec![Action::AcquireIdentity { data_dir: "/var/lib/hello".to_string() }]);
    let actions = server.step(Event::IdentityReady { identity: identity() });
    assert_eq!(server.state, ServerState::Binding);
    assert_eq!(
        actions,
        vec![Action::Serve {
            addr: SocketAddress { ip: IpAddress::V4(0, 0, 0, 0), port: 8443 },
            identity: Some(identity()),
            router: router(),
        }]
    );
    let actions = server.step(bound("0.0.0.0:8443"));
    assert_eq!(server.state, ServerState::Running);
    assert_eq!(actions, vec![listening("0.0.0.0:8443", true), Action::AwaitInterrupt]);
}

#[test]
fn port_zero_is_announced_with_the_reported_port() {
    let mut config = plain();
    config.port = 0;
    config.open = true;
    let mut server = Server::new(config);
    let actions = server.step(Event::Start);
    match &actions[0] {
        Action::Serve { addr, .. } => assert_eq!(addr.port, 0),
        other => panic!("expected a serve request, got {:?}", other),
    }
    let actions = server.step(bound("127.0.0.1:49152"));
    assert_eq!(
        actions,
        vec![
            listening("127.0.0.1:49152", false),
            Action::OpenBrowser { url: "http://127.0.0.1:49152".to_string() },
            Action::AwaitInterrupt,
        ]
    );
    match &actions[0] {
        Action::Log { notice } => {
            assert_eq!(notice.text(), "Listening on: http://127.0.0.1:49152")
        }
        other => panic!("expected a notice, got {:?}", other),
    }
}

#[test]
fn served_routes_greet_with_and_without_tls() {
    let hello = Some(Response {
        status: 200,
        content_type: "text/plain; charset=utf-8".to_string(),
        body: "Hello, World!".to_string(),
    });
    for (config, identity) in [(plain(), None), (secure(), Some(identity()))] {
        match serve(&config, identity) {
            Action::Serve { router, .. } => {
                assert_eq!(router.respond(Method::Get, "/"), hello);
            }
            other => panic!("expected a serve request, got {:?}", other),
        }
    }
}

#[test]
fn failed_provisioning_exits_without_binding() {
    let errors = [
        ProvisioningError::DirectoryUnusable,
        ProvisioningError::GenerationFailed,
        ProvisioningError::PersistFailed,
    ];
    for error in errors {
        let mut server = Server::new(secure());
        let mut events = vec![Event::Start, Event::ProvisioningFailed { error }];
        events.extend(every_event());
        let actions = server.run(events);
        assert_eq!(
            server.state,
            ServerState::Failed { error: ServerError::Provisioning(error) }
        );
        assert_eq!(
            actions,
            vec![
                Action::AcquireIdentity { data_dir: "/var/lib/hello".to_string() },
                log(Notice::ProvisioningFailed { error }),
                Action::Exit { code: 1 },
            ]
        );
        assert!(actions.iter().all(|action| !matches!(action, Action::Serve { .. })));
    }
}

#[test]
fn failed_bind_is_fatal() {
    let mut server = Server::new(plain());
    server.step(Event::Start);
    let actions = server.step(Event::BindFailed);
    assert_eq!(server.state, ServerState::Failed { error: ServerError::Bind });
    assert_eq!(actions, vec![log(Notice::StartFailed), Action::Exit { code: 1 }]);
}

#[test]
fn shutdown_that_drains_in_time() {
    let mut server = server_at(plain(), ServerState::Running);
    let actions = server.step(Event::Interrupt);
    assert_eq!(server.state, ServerState::ShutdownRequested);
    assert!(!server.state.accepts_connections());
    assert_eq!(
        actions,
        vec![
            log(Notice::ReceivedInterrupt),
            log(Notice::ShuttingDown),
            Action::BeginDrain { grace_secs: 10 },
        ]
    );
    let actions = server.step(Event::DrainStarted);
    assert_eq!(server.state, ServerState::Draining);
    assert!(!server.state.accepts_connections());
    assert_eq!(actions, vec![Action::AwaitDrain { grace_secs: 10 }]);
    let actions = server.step(Event::DrainComplete);
    assert_eq!(server.state, ServerState::Stopped);
    assert_eq!(actions, vec![Action::Exit { code: 0 }]);
}

#[test]
fn shutdown_that_outlasts_the_grace_period() {
    let mut server = server_at(secure(), ServerState::Running);
    let actions =
        server.run(vec![Event::Interrupt, Event::DrainStarted, Event::GraceElapsed]);
    assert_eq!(server.state, ServerState::Stopped);
    assert_eq!(
        actions,
        vec![
            log(Notice::ReceivedInterrupt),
            log(Notice::ShuttingDown),
            Action::BeginDrain { grace_secs: 10 },
            Action::AwaitDrain { grace_secs: 10 },
            Action::ForceClose,
            Action::Exit { code: 0 },
        ]
    );
}

#[test]
fn failed_signal_wait_still_shuts_down() {
    let mut server = server_at(plain(), ServerState::Running);
    let actions = server.step(Event::SignalFailed { reason: "no handler".to_string() });
    assert_eq!(server.state, ServerState::ShutdownRequested);
    assert_eq!(
        actions,
        vec![
            log(Notice::SignalFailed { reason: "no handler".to_string() }),
            log(Notice::ShuttingDown),
            Action::BeginDrain { grace_secs: 10 },
        ]
    );
}

#[test]
fn no_state_after_the_signal_accepts_connections() {
    for later in every_event() {
        let mut server = server_at(plain(), ServerState::Running);
        server.step(Event::Interrupt);
        server.step(later);
        assert!(!server.state.accepts_connections());
        for last in every_event() {
            let mut again = server_at(plain(), server.state);
            again.step(last);
            assert!(!again.state.accepts_connections());
        }
    }
}

#[test]
fn server_failure_is_fatal_while_serving() {
    for state in [ServerState::Running, ServerState::ShutdownRequested, ServerState::Draining] {
        let mut server = server_at(plain(), state);
        let actions = server.step(Event::ServerFailed { reason: "accept failed".to_string() });
        assert_eq!(server.state, ServerState::Failed { error: ServerError::ServerTask });
        assert_eq!(
            actions,
            vec![
                log(Notice::ServerFailed { reason: "accept failed".to_string() }),
                Action::Exit { code: 1 },
            ]
        );
    }
}

#[test]
fn server_failure_before_serving_is_ignored() {
    for state in [ServerState::Idle, ServerState::Provisioning, ServerState::Binding] {
        let mut server = server_at(secure(), state);
        let actions = server.step(Event::ServerFailed { reason: "early".to_string() });
        assert_eq!(server.state, state);
        assert_eq!(actions, Vec::new());
    }
}

#[test]
fn terminal_states_absorb_every_event() {
    let finals = [
        ServerState::Stopped,
        ServerState::Failed { error: ServerError::Bind },
        ServerState::Failed { error: ServerError::ServerTask },
        ServerState::Failed {
            error: ServerError::Provisioning(ProvisioningError::DirectoryUnusable),
        },
    ];
    for state in finals {
        for event in every_event() {
            let mut server = server_at(secure(), state);
            let actions = server.step(event);
            assert_eq!(server.state, state);
            assert_eq!(actions, Vec::new());
        }
    }
}

#[test]
fn server_events_out_of_turn_change_nothing() {
    let mut server = Server::new(plain());
    for event in every_event().into_iter().skip(1) {
        let actions = server.step(event);
        assert_eq!(server.state, ServerState::Idle);
        assert_eq!(actions, Vec::new());
    }
    let mut server = server_at(plain(), ServerState::Running);
    for event in [Event::Start, bound("x"), Event::DrainStarted, Event::DrainComplete] {
        let actions = server.step(event);
        assert_eq!(server.state, ServerState::Running);
        assert_eq!(actions, Vec::new());
    }
    let mut server = server_at(plain(), ServerState::ShutdownRequested);
    for event in [Event::Interrupt, Event::DrainComplete, Event::GraceElapsed] {
        let actions = server.step(event);
        assert_eq!(server.state, ServerState::ShutdownRequested);
        assert_eq!(actions, Vec::new());
    }
}

#[test]
fn identity_without_tls_is_ignored() {
    let mut server = Server::new(plain());
    server.step(Event::Start);
    let actions = server.step(Event::IdentityReady { identity: identity() });
    assert_eq!(server.state, ServerState::Binding);
    assert_eq!(actions, Vec::new());
}

#[test]
fn step_never_changes_the_configuration() {
    let mut server = Server::new(secure());
    for event in every_event() {
        server.step(event);
        assert_eq!(server.config, secure());
    }
}

#[test]
fn run_of_nothing_does_nothing() {
    let mut server = Server::new(plain());
    assert_eq!(server.run(Vec::new()), Vec::new());
    assert_eq!(server.state, ServerState::Idle);
}

#[test]
fn run_is_step_after_step() {
    let mut stepped = Server::new(secure());
    let mut expected = Vec::new();
    for event in every_event() {
        expected.extend(stepped.step(event));
    }
    let mut ran = Server::new(secure());
    let actions = ran.run(every_event());
    assert_eq!(actions, expected);
    assert_eq!(ran, stepped);
}

#[test]
fn whole_life_with_tls() {
    let mut config = secure();
    config.open = true;
    let mut server = Server::new(config.clone());
    let actions = server.run(vec![
        Event::Start,
        Event::IdentityReady { identity: identity() },
        bound("0.0.0.0:8443"),
        Event::Interrupt,
        Event::DrainStarted,
        Event::DrainComplete,
    ]);
    assert_eq!(server.state, ServerState::Stopped);
    assert_eq!(
        actions,
        vec![
            Action::AcquireIdentity { data_dir: "/var/lib/hello".to_string() },
            serve(&config, Some(identity())),
            listening("0.0.0.0:8443", true),
            Action::OpenBrowser { url: "https://0.0.0.0:8443".to_string() },
            Action::AwaitInterrupt,
            log(Notice::ReceivedInterrupt),
            log(Notice::ShuttingDown),
            Action::BeginDrain { grace_secs: 10 },
            Action::AwaitDrain { grace_secs: 10 },
            Action::Exit { code: 0 },
        ]
    );
}

#[test]
fn at_most_one_listener_whatever_is_reported() {
    for config in [plain(), secure()] {
        let mut events = every_event();
        events.extend(every_event());
        events.extend(vec![Event::Start, Event::IdentityReady { identity: identity() }]);
        let mut server = Server::new(config);
        let actions = server.run(events);
        let listeners =
            actions.iter().filter(|action| matches!(action, Action::Serve { .. })).count();
        assert!(listeners <= 1);
    }
}
