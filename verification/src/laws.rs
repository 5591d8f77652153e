//! What holds of every run of the server.

use vstd::prelude::*;
use crate::cli::CliView;
use crate::notice::{Level, NoticeView};
use crate::route::{Method, ResponseView, lookup, route_table};
use crate::server::{
    ActionView, EventView, ServerError, ServerState, ServerView, announcement, serve_request,
};
use crate::tls::{ProvisioningError, TlsIdentityView};

verus! {

/// Running `first` and then `second` is running the two in one go.
pub proof fn lemma_run_in_parts(server: ServerView, first: Seq<EventView>, second: Seq<EventView>)
    ensures
        ({
            let (midway, earlier) = server.run(first);
            let (end, later) = midway.run(second);
            server.run(first + second) == (end, earlier + later)
        }),
    decreases second.len(),
{
    let (midway, earlier) = server.run(first);
    if second.len() == 0 {
        assert(first + second =~= first);
        assert(earlier + Seq::<ActionView>::empty() =~= earlier);
    } else {
        lemma_run_in_parts(server, first, second.drop_last());
        assert((first + second).drop_last() =~= first + second.drop_last());
        assert((first + second).last() == second.last());
        let (before, sofar) = midway.run(second.drop_last());
        let (after, caused) = before.step(second.last());
        assert(earlier + (sofar + caused) =~= (earlier + sofar) + caused);
    }
}

/// Running a single event is taking one step.
pub proof fn lemma_run_one(server: ServerView, event: EventView)
    ensures
        server.run(seq![event]) == server.step(event),
{
    reveal_with_fuel(ServerView::run, 2);
    let events = seq![event];
    assert(events.drop_last() =~= Seq::<EventView>::empty());
    assert(events.last() == event);
    let (after, caused) = server.step(event);
    assert(Seq::<ActionView>::empty() + caused =~= caused);
}

/// No step changes the configuration, and no step takes the server
/// back: it moves on, or it stays where it is and causes nothing.
pub proof fn lemma_step_moves_forward(server: ServerView, event: EventView)
    ensures
        ({
            let (next, caused) = server.step(event);
            &&& next.config == server.config
            &&& next.state.progress() >= server.state.progress()
            &&& next.state.progress() == server.state.progress() ==> next == server
                && caused.len() == 0
        }),
{
}

/// No run changes the configuration or takes the server back.
pub proof fn lemma_run_moves_forward(server: ServerView, events: Seq<EventView>)
    ensures
        server.run(events).0.config == server.config,
        server.run(events).0.state.progress() >= server.state.progress(),
    decreases events.len(),
{
    if events.len() > 0 {
        lemma_run_moves_forward(server, events.drop_last());
        lemma_step_moves_forward(server.run(events.drop_last()).0, events.last());
    }
}

/// `Stopped` and `Failed` are final: whatever is reported afterwards,
/// the server stays as it is and asks for nothing.
pub proof fn lemma_terminal_is_final(server: ServerView, events: Seq<EventView>)
    requires
        server.state.is_terminal(),
    ensures
        server.run(events) == (server, Seq::<ActionView>::empty()),
    decreases events.len(),
{
    if events.len() > 0 {
        lemma_terminal_is_final(server, events.drop_last());
        assert(Seq::<ActionView>::empty() + Seq::<ActionView>::empty() =~= Seq::<
            ActionView,
        >::empty());
    }
}

/// Whatever the configuration, and with or without TLS, the routes
/// that the server is asked to serve answer `GET /` with status 200
/// and exactly `Hello, World!`, as plain text.
pub proof fn lemma_every_server_greets(config: CliView, identity: Option<TlsIdentityView>)
    ensures
        serve_request(config, identity) matches ActionView::Serve { router, .. } && lookup(
            router,
            Method::Get,
            "/"@,
        ) == Some(
            ResponseView {
                status: 200,
                content_type: "text/plain; charset=utf-8"@,
                body: "Hello, World!"@,
            },
        ),
{
}

/// Without TLS, a server whose bind succeeds is running after two
/// events. It asked for a listener on exactly the configured IP address
/// and port, with no identity, and announced the address that the bind
/// reported.
pub proof fn lemma_plain_startup(config: CliView, address: Seq<char>)
    requires
        !config.uses_tls(),
    ensures
        ({
            let events = seq![EventView::Start, EventView::Bound { address }];
            let (server, actions) = ServerView::new(config).run(events);
            &&& server == ServerView::new(config).at(ServerState::Running)
            &&& actions == seq![serve_request(config, None)] + announcement(config, address)
            &&& actions[0] matches ActionView::Serve { addr, identity, .. } && addr.ip
                == config.bind && addr.port == config.port && identity is None
        }),
{
    let start = ServerView::new(config);
    let binding = start.at(ServerState::Binding);
    lemma_run_one(start, EventView::Start);
    lemma_run_one(binding, EventView::Bound { address });
    lemma_run_in_parts(start, seq![EventView::Start], seq![EventView::Bound { address }]);
    assert(seq![EventView::Start] + seq![EventView::Bound { address }] =~= seq![
        EventView::Start,
        EventView::Bound { address },
    ]);
}

/// With TLS, a server whose provisioning and bind succeed is running
/// after three events. It asked for the identity in the configured
/// data directory first, then for a listener on exactly the configured
/// IP address and port with exactly the identity it was given, and
/// announced the address that the bind reported.
pub proof fn lemma_tls_startup(config: CliView, identity: TlsIdentityView, address: Seq<char>)
    requires
        config.uses_tls(),
    ensures
        ({
            let events = seq![
                EventView::Start,
                EventView::IdentityReady { identity },
                EventView::Bound { address },
            ];
            let (server, actions) = ServerView::new(config).run(events);
            &&& server == ServerView::new(config).at(ServerState::Running)
            &&& actions == seq![
                ActionView::AcquireIdentity { data_dir: config.data_dir->0 },
                serve_request(config, Some(identity)),
            ] + announcement(config, address)
            &&& actions[1] matches ActionView::Serve { addr, identity: bound, .. } && addr.ip
                == config.bind && addr.port == config.port && bound == Some(identity)
        }),
{
    let start = ServerView::new(config);
    let provisioning = start.at(ServerState::Provisioning);
    let binding = start.at(ServerState::Binding);
    let first = seq![EventView::Start];
    let second = seq![EventView::IdentityReady { identity }];
    let third = seq![EventView::Bound { address }];
    lemma_run_one(start, EventView::Start);
    lemma_run_one(provisioning, EventView::IdentityReady { identity });
    lemma_run_one(binding, EventView::Bound { address });
    lemma_run_in_parts(start, first, second);
    lemma_run_in_parts(start, first + second, third);
    assert(first + second + third =~= seq![
        EventView::Start,
        EventView::IdentityReady { identity },
        EventView::Bound { address },
    ]);
    let acquire = ActionView::AcquireIdentity { data_dir: config.data_dir->0 };
    assert(seq![acquire] + seq![serve_request(config, Some(identity))] =~= seq![
        acquire,
        serve_request(config, Some(identity)),
    ]);
}

/// Once the wait for the interrupt signal has ended, by the signal or
/// by a failure, the running server asks the listener to drain within
/// the grace period, and from then on it never accepts a connection
/// again, whatever is reported later.
pub proof fn lemma_shutdown_refuses_connections(
    server: ServerView,
    signal: EventView,
    later: Seq<EventView>,
)
    requires
        server.state is Running,
        signal is Interrupt || signal is SignalFailed,
    ensures
        ({
            let (requested, caused) = server.step(signal);
            &&& requested == server.at(ServerState::ShutdownRequested)
            &&& caused.last() == ActionView::BeginDrain { grace_secs: 10 }
            &&& !requested.state.accepts_connections()
            &&& !requested.run(later).0.state.accepts_connections()
        }),
{
    let (requested, caused) = server.step(signal);
    lemma_run_moves_forward(requested, later);
}

/// A draining server stops either way. If the connections in flight
/// finish in time, the process exits with code 0. If the grace period
/// runs out first, the connections that are left are closed by force,
/// and then the process exits with code 0.
pub proof fn lemma_drain_ends_in_stopped(server: ServerView)
    requires
        server.state is Draining,
    ensures
        server.step(EventView::DrainComplete) == (
            server.at(ServerState::Stopped),
            seq![ActionView::Exit { code: 0 }],
        ),
        server.step(EventView::GraceElapsed) == (
            server.at(ServerState::Stopped),
            seq![ActionView::ForceClose, ActionView::Exit { code: 0 }],
        ),
{
}

/// The whole of a shutdown, from the interrupt signal to the exit: the
/// server goes through `ShutdownRequested` and `Draining` to `Stopped`.
/// It logs the signal and the shutdown, asks the listener to drain
/// within ten seconds, waits for that, and exits with code 0, after
/// closing by force what is still open if `in_time` is false.
pub proof fn lemma_graceful_shutdown(server: ServerView, in_time: bool)
    requires
        server.state is Running,
    ensures
        ({
            let end = if in_time {
                EventView::DrainComplete
            } else {
                EventView::GraceElapsed
            };
            let (stopped, actions) = server.run(
                seq![EventView::Interrupt, EventView::DrainStarted, end],
            );
            let begun = seq![
                ActionView::Log { notice: NoticeView::ReceivedInterrupt },
                ActionView::Log { notice: NoticeView::ShuttingDown },
                ActionView::BeginDrain { grace_secs: 10 },
                ActionView::AwaitDrain { grace_secs: 10 },
            ];
            &&& stopped == server.at(ServerState::Stopped)
            &&& in_time ==> actions == begun.push(ActionView::Exit { code: 0 })
            &&& !in_time ==> actions == begun.push(ActionView::ForceClose).push(
                ActionView::Exit { code: 0 },
            )
        }),
{
    let end = if in_time {
        EventView::DrainComplete
    } else {
        EventView::GraceElapsed
    };
    let first = seq![EventView::Interrupt];
    let second = seq![EventView::DrainStarted];
    let third = seq![end];
    let requested = server.at(ServerState::ShutdownRequested);
    let draining = server.at(ServerState::Draining);
    lemma_run_one(server, EventView::Interrupt);
    lemma_run_one(requested, EventView::DrainStarted);
    lemma_run_one(draining, end);
    lemma_run_in_parts(server, first, second);
    lemma_run_in_parts(server, first + second, third);
    assert(first + second + third =~= seq![EventView::Interrupt, EventView::DrainStarted, end]);
    let (stopped, actions) = server.run(first + second + third);
    let begun = seq![
        ActionView::Log { notice: NoticeView::ReceivedInterrupt },
        ActionView::Log { notice: NoticeView::ShuttingDown },
        ActionView::BeginDrain { grace_secs: 10 },
        ActionView::AwaitDrain { grace_secs: 10 },
    ];
    if in_time {
        assert(actions =~= begun.push(ActionView::Exit { code: 0 }));
    } else {
        assert(actions =~= begun.push(ActionView::ForceClose).push(ActionView::Exit { code: 0 }));
    }
}

/// Where provisioning fails, startup is over at once. The failure is
/// logged as an error, the process is told to exit with a non-zero
/// code, and no listener is ever asked for, whatever is reported after
/// the failure.
pub proof fn lemma_failed_provisioning_binds_nothing(
    config: CliView,
    error: ProvisioningError,
    later: Seq<EventView>,
)
    requires
        config.uses_tls(),
    ensures
        ({
            let events = seq![EventView::Start, EventView::ProvisioningFailed { error }] + later;
            let (server, actions) = ServerView::new(config).run(events);
            &&& server.state == ServerState::Failed { error: ServerError::Provisioning(error) }
            &&& actions == seq![
                ActionView::AcquireIdentity { data_dir: config.data_dir->0 },
                ActionView::Log { notice: NoticeView::ProvisioningFailed { error } },
                ActionView::Exit { code: 1 },
            ]
            &&& forall|i: int| 0 <= i < actions.len() ==> !(#[trigger] actions[i] is Serve)
        }),
{
    let start = ServerView::new(config);
    let provisioning = start.at(ServerState::Provisioning);
    let first = seq![EventView::Start];
    let second = seq![EventView::ProvisioningFailed { error }];
    lemma_run_one(start, EventView::Start);
    lemma_run_one(provisioning, EventView::ProvisioningFailed { error });
    lemma_run_in_parts(start, first, second);
    lemma_run_in_parts(start, first + second, later);
    let (failed, caused) = start.run(first + second);
    lemma_terminal_is_final(failed, later);
    assert(first + second =~= seq![EventView::Start, EventView::ProvisioningFailed { error }]);
    assert(caused + Seq::<ActionView>::empty() =~= caused);
    assert(caused =~= seq![
        ActionView::AcquireIdentity { data_dir: config.data_dir->0 },
        ActionView::Log { notice: NoticeView::ProvisioningFailed { error } },
        ActionView::Exit { code: 1 },
    ]);
}

/// How many of `actions` are of the `wanted` sort.
pub open spec fn occurrences(actions: Seq<ActionView>, wanted: spec_fn(ActionView) -> bool) -> nat
    decreases actions.len(),
{
    if actions.len() == 0 {
        0
    } else {
        occurrences(actions.drop_last(), wanted) + if wanted(actions.last()) {
            1nat
        } else {
            0nat
        }
    }
}

/// How many listeners `actions` ask for.
pub open spec fn listeners(actions: Seq<ActionView>) -> nat {
    occurrences(actions, |action: ActionView| action is Serve)
}

/// How many times `actions` ask the listener to shut down.
pub open spec fn drain_requests(actions: Seq<ActionView>) -> nat {
    occurrences(actions, |action: ActionView| action is BeginDrain)
}

/// The occurrences in two lists of actions add up.
pub proof fn lemma_occurrences_add(
    first: Seq<ActionView>,
    second: Seq<ActionView>,
    wanted: spec_fn(ActionView) -> bool,
)
    ensures
        occurrences(first + second, wanted) == occurrences(first, wanted) + occurrences(
            second,
            wanted,
        ),
    decreases second.len(),
{
    if second.len() == 0 {
        assert(first + second =~= first);
    } else {
        lemma_occurrences_add(first, second.drop_last(), wanted);
        assert((first + second).drop_last() =~= first + second.drop_last());
    }
}

/// A step asks for a listener exactly when it takes the server into
/// `Binding`, and asks the listener to shut down exactly when it takes
/// the server into `ShutdownRequested`; each time, once.
pub proof fn lemma_step_requests(server: ServerView, event: EventView)
    ensures
        ({
            let (next, caused) = server.step(event);
            &&& listeners(caused) == if next.state is Binding && !(server.state is Binding) {
                1nat
            } else {
                0nat
            }
            &&& drain_requests(caused) == if next.state is ShutdownRequested && !(server.state
                is ShutdownRequested) {
                1nat
            } else {
                0nat
            }
        }),
{
    reveal_with_fuel(occurrences, 4);
    let (next, caused) = server.step(event);
    if server.state is Running && (event is Interrupt || event is SignalFailed) {
        assert(caused.len() == 3);
        assert(caused.drop_last().len() == 2);
        assert(caused.drop_last().drop_last().len() == 1);
    }
}

/// At most one listener per process, and one shutdown of it: over a
/// whole run, whatever is reported, the server asks for a listener at
/// most once and asks it to shut down at most once, and never again
/// once it has asked.
pub proof fn lemma_at_most_one_listener(server: ServerView, events: Seq<EventView>)
    ensures
        listeners(server.run(events).1) <= 1,
        drain_requests(server.run(events).1) <= 1,
        server.state.progress() >= ServerState::Binding.progress() ==> listeners(
            server.run(events).1,
        ) == 0,
        server.state.progress() >= ServerState::ShutdownRequested.progress() ==> drain_requests(
            server.run(events).1,
        ) == 0,
        listeners(server.run(events).1) == 1 ==> server.run(events).0.state.progress()
            >= ServerState::Binding.progress(),
        drain_requests(server.run(events).1) == 1 ==> server.run(events).0.state.progress()
            >= ServerState::ShutdownRequested.progress(),
    decreases events.len(),
{
    if events.len() > 0 {
        let (before, earlier) = server.run(events.drop_last());
        let (after, caused) = before.step(events.last());
        lemma_at_most_one_listener(server, events.drop_last());
        lemma_run_moves_forward(server, events.drop_last());
        lemma_step_requests(before, events.last());
        lemma_step_moves_forward(before, events.last());
        lemma_occurrences_add(earlier, caused, |action: ActionView| action is Serve);
        lemma_occurrences_add(earlier, caused, |action: ActionView| action is BeginDrain);
    }
}

/// Whether every request for a listener in `actions` is for the
/// configured address and the server's routes, with an identity exactly
/// when TLS is configured.
pub open spec fn serves_as_configured(config: CliView, actions: Seq<ActionView>) -> bool {
    forall|i: int|
        0 <= i < actions.len() ==> (#[trigger] actions[i] matches ActionView::Serve {
            addr,
            identity,
            router,
        } ==> {
            &&& addr == config.addr()
            &&& router == route_table()
            &&& identity is Some <==> config.uses_tls()
        })
}

/// Whether the server could have got where it is from the start: only
/// a server with TLS configured ever waits for an identity.
pub open spec fn consistent(server: ServerView) -> bool {
    server.state is Provisioning ==> server.config.uses_tls()
}

/// A step keeps a consistent server consistent, and what it asks to be
/// served is as configured.
pub proof fn lemma_step_serves_as_configured(server: ServerView, event: EventView)
    requires
        consistent(server),
    ensures
        consistent(server.step(event).0),
        serves_as_configured(server.config, server.step(event).1),
{
}

/// TLS is all or nothing. In every run from the start, a server with a
/// data directory asks for a listener only with an identity in hand,
/// and a server without one only without; either way the listener is
/// for the configured address and the server's routes.
pub proof fn lemma_run_serves_as_configured(config: CliView, events: Seq<EventView>)
    ensures
        consistent(ServerView::new(config).run(events).0),
        serves_as_configured(config, ServerView::new(config).run(events).1),
    decreases events.len(),
{
    let start = ServerView::new(config);
    if events.len() > 0 {
        let (before, earlier) = start.run(events.drop_last());
        let (after, caused) = before.step(events.last());
        lemma_run_serves_as_configured(config, events.drop_last());
        lemma_run_moves_forward(start, events.drop_last());
        lemma_step_serves_as_configured(before, events.last());
        let actions = earlier + caused;
        assert forall|i: int| 0 <= i < actions.len() implies (#[trigger] actions[i] matches ActionView::Serve {
            addr,
            identity,
            router,
        } ==> {
            &&& addr == config.addr()
            &&& router == route_table()
            &&& identity is Some <==> config.uses_tls()
        }) by {
            if i < earlier.len() {
                assert(actions[i] == earlier[i]);
            } else {
                assert(actions[i] == caused[i - earlier.len()]);
            }
        }
    }
}

/// The process is told to exit only as the last thing in a step, and
/// only when the run is over: with code 0 exactly when the server has
/// stopped, and with a non-zero code exactly when it has failed. A
/// failure is logged as an error right before.
pub proof fn lemma_exit_ends_the_run(server: ServerView, event: EventView)
    ensures
        ({
            let (next, caused) = server.step(event);
            let last = caused.len() - 1;
            &&& forall|i: int|
                0 <= i < caused.len() && #[trigger] caused[i] is Exit ==> i == last
                    && next.state.is_terminal()
            &&& next.state.is_terminal() && !server.state.is_terminal() ==> caused.len() >= 1
                && caused[last] is Exit
            &&& next.state is Stopped && !server.state.is_terminal() ==> caused[last]
                == ActionView::Exit { code: 0 }
            &&& next.state is Failed && !server.state.is_terminal() ==> {
                &&& caused.len() == 2
                &&& caused[0] matches ActionView::Log { notice } && notice.level() == Level::Error
                &&& caused[1] matches ActionView::Exit { code } && code != 0
            }
        }),
{
}

} // verus!
