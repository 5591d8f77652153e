//! The server's life, from start to exit, as a state machine.
//!
//! A [`Server`] takes in events and hands out actions. The
//! program around it carries the actions out (provisioning, binding,
//! logging, waiting for the interrupt signal, draining) and reports
//! what came of them as the next events.

use vstd::prelude::*;
use crate::address::SocketAddress;
use crate::cli::{Cli, CliView};
use crate::notice::{Notice, NoticeView, listening_url, url_of};
use crate::route::{Router, RouteView, route_table, router};
use crate::tls::{ProvisioningError, TlsIdentity, TlsIdentityView};

verus! {

/// How long in-flight connections may take to finish once shutdown has
/// begun, in seconds.
pub const GRACE_PERIOD_SECS: u64 = 10;

/// The exit code of a run that ended as intended.
pub const EXIT_SUCCESS: u8 = 0;

/// The exit code of a run that a fatal error ended.
pub const EXIT_FAILURE: u8 = 1;

/// A fatal error. Each one ends the run with a non-zero exit code, and
/// nothing is retried.
#[derive(Clone, Copy, Debug, PartialEq, Eq, Hash, Structural)]
pub enum ServerError {
    /// No TLS identity could be obtained.
    Provisioning(ProvisioningError),
    /// The address or port could not be bound.
    Bind,
    /// The accept loop ended unexpectedly.
    ServerTask,
}

/// Where the server is in its life.
#[derive(Clone, Copy, Debug, PartialEq, Eq, Hash, Structural)]
pub enum ServerState {
    /// Nothing has happened yet.
    Idle,
    /// Waiting for the TLS identity.
    Provisioning,
    /// Waiting for the listener to be bound.
    Binding,
    /// Accepting connections.
    Running,
    /// The interrupt signal was seen; the listener has yet to be told.
    ShutdownRequested,
    /// New connections are refused; those in flight may finish within
    /// the grace period.
    Draining,
    /// The server has shut down.
    Stopped,
    /// A fatal error ended the run.
    Failed { error: ServerError },
}

impl ServerState {
    /// How far along its life the server is. No step ever lowers it.
    pub open spec fn progress(self) -> nat {
        match self {
            ServerState::Idle => 0,
            ServerState::Provisioning => 1,
            ServerState::Binding => 2,
            ServerState::Running => 3,
            ServerState::ShutdownRequested => 4,
            ServerState::Draining => 5,
            ServerState::Stopped => 6,
            ServerState::Failed { .. } => 6,
        }
    }

    /// Whether the run is over.
    pub open spec fn spec_is_terminal(self) -> bool {
        self is Stopped || self is Failed
    }

    /// Whether new connections are accepted: only while running.
    pub open spec fn spec_accepts_connections(self) -> bool {
        self is Running
    }

    /// Whether the run is over.
    #[verifier::when_used_as_spec(spec_is_terminal)]
    pub fn is_terminal(self) -> (terminal: bool)
        ensures
            terminal == self.spec_is_terminal(),
    {
        match self {
            ServerState::Stopped => true,
            ServerState::Failed { .. } => true,
            _ => false,
        }
    }

    /// Whether new connections are accepted.
    #[verifier::when_used_as_spec(spec_accepts_connections)]
    pub fn accepts_connections(self) -> (accepting: bool)
        ensures
            accepting == self.spec_accepts_connections(),
    {
        match self {
            ServerState::Running => true,
            _ => false,
        }
    }
}

/// What the program around the server reports to it.
#[derive(Debug, PartialEq, Eq)]
pub enum Event {
    /// The program has started.
    Start,
    /// Provisioning yielded `identity`.
    IdentityReady { identity: TlsIdentity },
    /// Provisioning failed with `error`.
    ProvisioningFailed { error: ProvisioningError },
    /// The listener is bound; `address` is its actual address as text,
    /// with the port the operating system chose where port 0 was asked
    /// for.
    Bound { address: String },
    /// The listener could not be bound.
    BindFailed,
    /// The interrupt signal arrived.
    Interrupt,
    /// Waiting for the interrupt signal failed for `reason`.
    SignalFailed { reason: String },
    /// The listener was told to shut down and refuses new connections.
    DrainStarted,
    /// Every connection in flight has finished.
    DrainComplete,
    /// The grace period ran out with connections still open.
    GraceElapsed,
    /// The accept loop ended unexpectedly, for `reason`.
    ServerFailed { reason: String },
}

/// The mathematical value of an [`Event`].
pub enum EventView {
    Start,
    IdentityReady { identity: TlsIdentityView },
    ProvisioningFailed { error: ProvisioningError },
    Bound { address: Seq<char> },
    BindFailed,
    Interrupt,
    SignalFailed { reason: Seq<char> },
    DrainStarted,
    DrainComplete,
    GraceElapsed,
    ServerFailed { reason: Seq<char> },
}

impl View for Event {
    type V = EventView;

    open spec fn view(&self) -> EventView {
        match self {
            Event::Start => EventView::Start,
            Event::IdentityReady { identity } => EventView::IdentityReady { identity: identity@ },
            Event::ProvisioningFailed { error } => EventView::ProvisioningFailed { error: *error },
            Event::Bound { address } => EventView::Bound { address: address@ },
            Event::BindFailed => EventView::BindFailed,
            Event::Interrupt => EventView::Interrupt,
            Event::SignalFailed { reason } => EventView::SignalFailed { reason: reason@ },
            Event::DrainStarted => EventView::DrainStarted,
            Event::DrainComplete => EventView::DrainComplete,
            Event::GraceElapsed => EventView::GraceElapsed,
            Event::ServerFailed { reason } => EventView::ServerFailed { reason: reason@ },
        }
    }
}

/// What the server asks the program around it to do.
#[derive(Debug, PartialEq, Eq)]
pub enum Action {
    /// Obtain the TLS identity kept in `data_dir`.
    AcquireIdentity { data_dir: String },
    /// Bind a listener to `addr`, terminate TLS with `identity` if
    /// there is one, and serve the routes of `router` on it.
    Serve { addr: SocketAddress, identity: Option<TlsIdentity>, router: Router },
    /// Log `notice`.
    Log { notice: Notice },
    /// Try to open `url` in a browser; whether that works is of no
    /// consequence.
    OpenBrowser { url: String },
    /// Wait for the interrupt signal.
    AwaitInterrupt,
    /// Tell the listener to refuse new connections and to let those in
    /// flight finish within `grace_secs` seconds.
    BeginDrain { grace_secs: u64 },
    /// Wait until the connections in flight have finished or the grace
    /// period of `grace_secs` seconds has run out.
    AwaitDrain { grace_secs: u64 },
    /// Close every connection that is still open.
    ForceClose,
    /// End the process with `code`.
    Exit { code: u8 },
}

/// The mathematical value of an [`Action`].
pub enum ActionView {
    AcquireIdentity { data_dir: Seq<char> },
    Serve { addr: SocketAddress, identity: Option<TlsIdentityView>, router: Seq<RouteView> },
    Log { notice: NoticeView },
    OpenBrowser { url: Seq<char> },
    AwaitInterrupt,
    BeginDrain { grace_secs: u64 },
    AwaitDrain { grace_secs: u64 },
    ForceClose,
    Exit { code: u8 },
}

impl View for Action {
    type V = ActionView;

    open spec fn view(&self) -> ActionView {
        match self {
            Action::AcquireIdentity { data_dir } => ActionView::AcquireIdentity {
                data_dir: data_dir@,
            },
            Action::Serve { addr, identity, router } => ActionView::Serve {
                addr: *addr,
                identity: identity_of(*identity),
                router: router@,
            },
            Action::Log { notice } => ActionView::Log { notice: notice@ },
            Action::OpenBrowser { url } => ActionView::OpenBrowser { url: url@ },
            Action::AwaitInterrupt => ActionView::AwaitInterrupt,
            Action::BeginDrain { grace_secs } => ActionView::BeginDrain {
                grace_secs: *grace_secs,
            },
            Action::AwaitDrain { grace_secs } => ActionView::AwaitDrain {
                grace_secs: *grace_secs,
            },
            Action::ForceClose => ActionView::ForceClose,
            Action::Exit { code } => ActionView::Exit { code: *code },
        }
    }
}

/// The values of a list of actions, in order.
pub open spec fn views_of(actions: Seq<Action>) -> Seq<ActionView> {
    actions.map_values(|action: Action| action@)
}

/// The request to bind and serve: on exactly the configured address,
/// with `identity` if there is one, and with the route table, which
/// is the same whether or not TLS is used.
pub open spec fn serve_request(config: CliView, identity: Option<TlsIdentityView>) -> ActionView {
    ActionView::Serve { addr: config.addr(), identity, router: route_table() }
}

/// The first request of a run: the TLS identity where a data directory
/// is configured, and otherwise to bind and serve without TLS.
pub open spec fn start_request(config: CliView) -> ActionView {
    match config.data_dir {
        Some(data_dir) => ActionView::AcquireIdentity { data_dir },
        None => serve_request(config, None),
    }
}

/// What follows a successful bind on `address`: the URL is logged, it is
/// opened in a browser if the configuration asks for that, and the
/// wait for the interrupt signal begins.
pub open spec fn announcement(config: CliView, address: Seq<char>) -> Seq<ActionView> {
    let listening = ActionView::Log {
        notice: NoticeView::Listening { address, tls: config.uses_tls() },
    };
    if config.open {
        seq![
            listening,
            ActionView::OpenBrowser { url: listening_url(config.uses_tls(), address) },
            ActionView::AwaitInterrupt,
        ]
    } else {
        seq![listening, ActionView::AwaitInterrupt]
    }
}

/// What is logged once the wait for the interrupt signal has ended.
/// Shutdown follows whether the signal arrived or the wait failed.
pub open spec fn shutdown_notices(outcome: Result<(), Seq<char>>) -> Seq<NoticeView> {
    match outcome {
        Ok(_) => seq![NoticeView::ReceivedInterrupt, NoticeView::ShuttingDown],
        Err(reason) => seq![NoticeView::SignalFailed { reason }, NoticeView::ShuttingDown],
    }
}

/// One `Log` action for each notice, in order.
pub open spec fn logs(notices: Seq<NoticeView>) -> Seq<ActionView> {
    notices.map_values(|notice: NoticeView| ActionView::Log { notice })
}

/// What a fatal error causes: it is logged, then the process exits with
/// a non-zero code.
pub open spec fn fatal(notice: NoticeView) -> Seq<ActionView> {
    seq![ActionView::Log { notice }, ActionView::Exit { code: EXIT_FAILURE }]
}

/// What a request to shut down causes: the notices for `outcome` are
/// logged, then the listener is told to drain within the grace period.
pub open spec fn shutdown_request(outcome: Result<(), Seq<char>>) -> Seq<ActionView> {
    logs(shutdown_notices(outcome)).push(ActionView::BeginDrain { grace_secs: GRACE_PERIOD_SECS })
}

/// How the wait for the interrupt signal ended, as a mathematical
/// value: `Ok` if the signal arrived, `Err` with the reason if not.
pub open spec fn outcome_of(outcome: Result<(), String>) -> Result<(), Seq<char>> {
    match outcome {
        Ok(_) => Ok(()),
        Err(reason) => Err(reason@),
    }
}

/// The mathematical value of an identity that may be absent.
pub open spec fn identity_of(identity: Option<TlsIdentity>) -> Option<TlsIdentityView> {
    match identity {
        Some(identity) => Some(identity@),
        None => None,
    }
}

/// Builds the request to bind and serve.
pub fn serve(args: &Cli, identity: Option<TlsIdentity>) -> (request: Action)
    ensures
        request@ == serve_request(args@, identity_of(identity)),
{
    Action::Serve { addr: args.addr(), identity, router: router() }
}

/// Builds the first request of a run.
pub fn start_service(args: &Cli) -> (request: Action)
    ensures
        request@ == start_request(args@),
{
    match &args.data_dir {
        Some(data_dir) => Action::AcquireIdentity { data_dir: data_dir.clone() },
        None => serve(args, None),
    }
}

/// Builds what follows a successful bind on `address`.
pub fn announce(args: &Cli, address: String) -> (actions: Vec<Action>)
    ensures
        views_of(actions@) == announcement(args@, address@),
{
    let tls = args.uses_tls();
    let mut actions: Vec<Action> = Vec::new();
    if args.open {
        let url = url_of(tls, address.as_str());
        actions.push(Action::Log { notice: Notice::Listening { address, tls } });
        actions.push(Action::OpenBrowser { url });
    } else {
        actions.push(Action::Log { notice: Notice::Listening { address, tls } });
    }
    actions.push(Action::AwaitInterrupt);
    assert(views_of(actions@) =~= announcement(args@, address@));
    actions
}

/// Says what to log once the wait for the interrupt signal has ended
/// with `outcome`: `Ok` if the signal arrived, `Err` with the reason if
/// the wait failed.
pub fn shutdown_signal(outcome: Result<(), String>) -> (notices: Vec<Notice>)
    ensures
        notices@.map_values(|notice: Notice| notice@) == shutdown_notices(outcome_of(outcome)),
{
    let mut notices: Vec<Notice> = Vec::new();
    match outcome {
        Ok(_) => notices.push(Notice::ReceivedInterrupt),
        Err(reason) => notices.push(Notice::SignalFailed { reason }),
    }
    notices.push(Notice::ShuttingDown);
    assert(notices@.map_values(|notice: Notice| notice@) =~= shutdown_notices(
        outcome_of(outcome),
    ));
    notices
}

/// The server: its configuration, which never changes, and where it is
/// in its life.
#[derive(Debug, PartialEq, Eq)]
pub struct Server {
    pub config: Cli,
    pub state: ServerState,
}

/// The mathematical value of a [`Server`].
pub struct ServerView {
    pub config: CliView,
    pub state: ServerState,
}

impl View for Server {
    type V = ServerView;

    open spec fn view(&self) -> ServerView {
        ServerView { config: self.config@, state: self.state }
    }
}

impl ServerView {
    /// A server with this configuration that has not started.
    pub open spec fn new(config: CliView) -> ServerView {
        ServerView { config, state: ServerState::Idle }
    }

    /// This server in another state.
    pub open spec fn at(self, state: ServerState) -> ServerView {
        ServerView { state, ..self }
    }

    /// The server after `event`, and the actions that the event
    /// causes, in the order in which they are to be carried out.
    ///
    /// Startup provisions first where TLS is configured, then binds,
    /// then announces the address. A failure on the way is fatal.
    /// Shutdown goes from `Running` through `ShutdownRequested` and
    /// `Draining` to `Stopped`, whether the drain completes or the
    /// grace period runs out. An event that the current state does not
    /// expect changes nothing and causes nothing.
    pub open spec fn step(self, event: EventView) -> (ServerView, Seq<ActionView>) {
        match (self.state, event) {
            (ServerState::Idle, EventView::Start) => if self.config.uses_tls() {
                (self.at(ServerState::Provisioning), seq![start_request(self.config)])
            } else {
                (self.at(ServerState::Binding), seq![start_request(self.config)])
            },
            (ServerState::Provisioning, EventView::IdentityReady { identity }) => (
                self.at(ServerState::Binding),
                seq![serve_request(self.config, Some(identity))],
            ),
            (ServerState::Provisioning, EventView::ProvisioningFailed { error }) => (
                self.at(ServerState::Failed { error: ServerError::Provisioning(error) }),
                fatal(NoticeView::ProvisioningFailed { error }),
            ),
            (ServerState::Binding, EventView::Bound { address }) => (
                self.at(ServerState::Running),
                announcement(self.config, address),
            ),
            (ServerState::Binding, EventView::BindFailed) => (
                self.at(ServerState::Failed { error: ServerError::Bind }),
                fatal(NoticeView::StartFailed),
            ),
            (ServerState::Running, EventView::Interrupt) => (
                self.at(ServerState::ShutdownRequested),
                shutdown_request(Ok(())),
            ),
            (ServerState::Running, EventView::SignalFailed { reason }) => (
                self.at(ServerState::ShutdownRequested),
                shutdown_request(Err(reason)),
            ),
            (ServerState::ShutdownRequested, EventView::DrainStarted) => (
                self.at(ServerState::Draining),
                seq![ActionView::AwaitDrain { grace_secs: GRACE_PERIOD_SECS }],
            ),
            (ServerState::Draining, EventView::DrainComplete) => (
                self.at(ServerState::Stopped),
                seq![ActionView::Exit { code: EXIT_SUCCESS }],
            ),
            (ServerState::Draining, EventView::GraceElapsed) => (
                self.at(ServerState::Stopped),
                seq![ActionView::ForceClose, ActionView::Exit { code: EXIT_SUCCESS }],
            ),
            (ServerState::Running, EventView::ServerFailed { reason }) => (
                self.at(ServerState::Failed { error: ServerError::ServerTask }),
                fatal(NoticeView::ServerFailed { reason }),
            ),
            (ServerState::ShutdownRequested, EventView::ServerFailed { reason }) => (
                self.at(ServerState::Failed { error: ServerError::ServerTask }),
                fatal(NoticeView::ServerFailed { reason }),
            ),
            (ServerState::Draining, EventView::ServerFailed { reason }) => (
                self.at(ServerState::Failed { error: ServerError::ServerTask }),
                fatal(NoticeView::ServerFailed { reason }),
            ),
            _ => (self, Seq::empty()),
        }
    }

    /// The server after all of `events`, taken in order, and all the
    /// actions that they cause, in order.
    pub open spec fn run(self, events: Seq<EventView>) -> (ServerView, Seq<ActionView>)
        decreases events.len(),
    {
        if events.len() == 0 {
            (self, Seq::empty())
        } else {
            let (before, earlier) = self.run(events.drop_last());
            let (after, caused) = before.step(events.last());
            (after, earlier + caused)
        }
    }
}

/// Builds what a fatal error causes.
fn fail_with(notice: Notice) -> (actions: Vec<Action>)
    ensures
        views_of(actions@) == fatal(notice@),
{
    let mut actions: Vec<Action> = Vec::new();
    actions.push(Action::Log { notice });
    actions.push(Action::Exit { code: EXIT_FAILURE });
    assert(views_of(actions@) =~= fatal(notice@));
    actions
}

/// Builds what a request to shut down causes.
fn request_shutdown(outcome: Result<(), String>) -> (actions: Vec<Action>)
    ensures
        views_of(actions@) == shutdown_request(outcome_of(outcome)),
{
    let ghost wanted = shutdown_notices(outcome_of(outcome));
    let notices = shutdown_signal(outcome);
    let mut actions: Vec<Action> = Vec::new();
    let mut i: usize = 0;
    while i < notices.len()
        invariant
            i <= notices.len(),
            actions.len() == i,
            wanted.len() == notices.len(),
            notices@.map_values(|notice: Notice| notice@) == wanted,
            views_of(actions@) == logs(wanted.take(i as int)),
        decreases notices.len() - i,
    {
        let notice = notices[i].clone();
        proof {
            let earlier = actions@;
            let later = earlier.push(Action::Log { notice });
            assert(wanted[i as int] == notices@[i as int]@);
            assert forall|j: int| 0 <= j < later.len() implies #[trigger] views_of(later)[j]
                == logs(wanted.take(i + 1))[j] by {
                if j < i {
                    assert(views_of(earlier)[j] == logs(wanted.take(i as int))[j]);
                }
            }
            assert(views_of(later) =~= logs(wanted.take(i + 1)));
        }
        actions.push(Action::Log { notice });
        i += 1;
    }
    proof {
        assert(wanted.take(notices.len() as int) =~= wanted);
        assert(views_of(actions@.push(Action::BeginDrain { grace_secs: GRACE_PERIOD_SECS }))
            =~= logs(wanted).push(ActionView::BeginDrain { grace_secs: GRACE_PERIOD_SECS }));
    }
    actions.push(Action::BeginDrain { grace_secs: GRACE_PERIOD_SECS });
    actions
}

/// A list that holds `action` and nothing else.
fn only(action: Action) -> (actions: Vec<Action>)
    ensures
        views_of(actions@) == seq![action@],
{
    let mut actions: Vec<Action> = Vec::new();
    actions.push(action);
    assert(views_of(actions@) =~= seq![action@]);
    actions
}

impl Server {
    /// A server with this configuration that has not started.
    pub fn new(config: Cli) -> (server: Server)
        ensures
            server@ == ServerView::new(config@),
    {
        Server { config, state: ServerState::Idle }
    }

    /// Takes in one event: moves to the next state and returns the
    /// actions that the event causes, in the order in which they are
    /// to be carried out. The configuration stays as it is.
    pub fn step(&mut self, event: Event) -> (actions: Vec<Action>)
        ensures
            final(self)@ == old(self)@.step(event@).0,
            views_of(actions@) == old(self)@.step(event@).1,
            final(self).config@ == old(self).config@,
    {
        match (self.state, event) {
            (ServerState::Idle, Event::Start) => {
                if self.config.uses_tls() {
                    self.state = ServerState::Provisioning;
                } else {
                    self.state = ServerState::Binding;
                }
                only(start_service(&self.config))
            },
            (ServerState::Provisioning, Event::IdentityReady { identity }) => {
                self.state = ServerState::Binding;
                only(serve(&self.config, Some(identity)))
            },
            (ServerState::Provisioning, Event::ProvisioningFailed { error }) => {
                self.state = ServerState::Failed { error: ServerError::Provisioning(error) };
                fail_with(Notice::ProvisioningFailed { error })
            },
            (ServerState::Binding, Event::Bound { address }) => {
                self.state = ServerState::Running;
                announce(&self.config, address)
            },
            (ServerState::Binding, Event::BindFailed) => {
                self.state = ServerState::Failed { error: ServerError::Bind };
                fail_with(Notice::StartFailed)
            },
            (ServerState::Running, Event::Interrupt) => {
                self.state = ServerState::ShutdownRequested;
                request_shutdown(Ok(()))
            },
            (ServerState::Running, Event::SignalFailed { reason }) => {
                self.state = ServerState::ShutdownRequested;
                request_shutdown(Err(reason))
            },
            (ServerState::ShutdownRequested, Event::DrainStarted) => {
                self.state = ServerState::Draining;
                only(Action::AwaitDrain { grace_secs: GRACE_PERIOD_SECS })
            },
            (ServerState::Draining, Event::DrainComplete) => {
                self.state = ServerState::Stopped;
                only(Action::Exit { code: EXIT_SUCCESS })
            },
            (ServerState::Draining, Event::GraceElapsed) => {
                self.state = ServerState::Stopped;
                let mut actions: Vec<Action> = Vec::new();
                actions.push(Action::ForceClose);
                actions.push(Action::Exit { code: EXIT_SUCCESS });
                assert(views_of(actions@) =~= seq![
                    ActionView::ForceClose,
                    ActionView::Exit { code: EXIT_SUCCESS },
                ]);
                actions
            },
            (ServerState::Running, Event::ServerFailed { reason }) => {
                self.state = ServerState::Failed { error: ServerError::ServerTask };
                fail_with(Notice::ServerFailed { reason })
            },
            (ServerState::ShutdownRequested, Event::ServerFailed { reason }) => {
                self.state = ServerState::Failed { error: ServerError::ServerTask };
                fail_with(Notice::ServerFailed { reason })
            },
            (ServerState::Draining, Event::ServerFailed { reason }) => {
                self.state = ServerState::Failed { error: ServerError::ServerTask };
                fail_with(Notice::ServerFailed { reason })
            },
            _ => {
                let actions: Vec<Action> = Vec::new();
                assert(views_of(actions@) =~= Seq::<ActionView>::empty());
                actions
            },
        }
    }

    /// Takes in `events` one after the other and returns every action
    /// that they cause, in order.
    pub fn run(&mut self, events: Vec<Event>) -> (actions: Vec<Action>)
        ensures
            final(self)@ == old(self)@.run(events_of(events@)).0,
            views_of(actions@) == old(self)@.run(events_of(events@)).1,
            final(self).config@ == old(self).config@,
    {
        let ghost start = self@;
        let ghost all = events_of(events@);
        let mut actions: Vec<Action> = Vec::new();
        assert(views_of(actions@) =~= Seq::<ActionView>::empty());
        assert(all.take(0) =~= Seq::<EventView>::empty());
        for event in it: events
            invariant
                it.seq() == events@,
                all == events_of(events@),
                self.config@ == start.config,
                self@ == start.run(all.take(it.index() as int)).0,
                views_of(actions@) == start.run(all.take(it.index() as int)).1,
        {
            let ghost seen = all.take(it.index() as int);
            let ghost earlier = actions@;
            let mut caused = self.step(event);
            proof {
                let now = all.take(it.index() + 1);
                assert(now.drop_last() =~= seen);
                assert(now.last() == event@);
                assert(views_of(earlier + caused@) =~= views_of(earlier) + views_of(caused@));
            }
            actions.append(&mut caused);
        }
        assert(all.take(events@.len() as int) =~= all);
        actions
    }
}

/// The values of a list of events, in order.
pub open spec fn events_of(events: Seq<Event>) -> Seq<EventView> {
    events.map_values(|event: Event| event@)
}

} // verus!
