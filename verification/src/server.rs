//! The server's accept loop and shutdown, as a state machine.
//!
//! The loop itself waits on sockets, channels and timers, which is the
//! caller's business. Every decision it takes is made here: the caller
//! reports what happened as an [`Event`], [`Lifecycle::step`] answers with the
//! next state and the [`Action`] to perform.

use std::time::Duration;
use vstd::prelude::*;

use crate::conn::holding::{alt_svc_for, spec_alt_svc_for, Holding, SocketAddr};
use crate::conn::quinn::Builder;
use crate::conn::{Acceptor, HttpBuilder};

verus! {

/// A request to stop the server.
#[derive(Clone, Copy, Debug, PartialEq)]
pub enum ServerCommand {
    /// Stop at once and abandon the connections still being served.
    StopForcible,
    /// Stop accepting and let the connections in flight finish, for at most
    /// the given time if there is one.
    StopGraceful(Option<Duration>),
}

/// Where the server stands between start and stop.
#[derive(Clone, Copy, Debug, PartialEq, Eq, Structural)]
pub enum Phase {
    /// Accepting connections.
    Running,
    /// No longer accepting; waiting for the connections in flight to finish.
    GracefulDraining,
    /// No longer accepting; the connections in flight have been told to
    /// abandon their work.
    ForciblyStopped,
    /// No longer accepting and no connection is left.
    Stopped,
}

/// Something that happened to the server.
#[derive(Clone, Copy, Debug, PartialEq)]
pub enum Event {
    /// A command arrived on the control channel.
    Command(ServerCommand),
    /// The acceptor yielded a connection.
    Accepted,
    /// The acceptor failed to yield a connection.
    AcceptFailed,
    /// A connection task reached a point where it can stop. `finished` tells
    /// whether the connection has been served to its end.
    Checkpoint { finished: bool },
    /// The time granted to a graceful stop has run out.
    TimeoutElapsed,
}

/// What the caller has to do in answer to an [`Event`].
#[derive(Clone, Copy, Debug, PartialEq)]
pub enum Action {
    /// Nothing.
    Idle,
    /// Start a task that serves the accepted connection.
    Serve,
    /// Drop the accepted connection.
    Refuse,
    /// Leave the accept loop. With `cancel_now` the cancellation signal is
    /// raised at once; with `cancel_after` it is raised after that time.
    StopAccepting { cancel_now: bool, cancel_after: Option<Duration> },
    /// Raise the cancellation signal.
    Cancel,
    /// The connection task goes on serving.
    KeepServing,
    /// The connection task ends. `last` tells that no connection is left, so
    /// whoever waits for the drain is to be woken.
    EndTask { last: bool },
}

/// The state of the server's lifecycle, as mathematics.
pub struct LifecycleState {
    /// The phase.
    pub phase: Phase,
    /// The number of connection tasks that have started and not ended.
    pub alive: nat,
    /// Whether the cancellation signal has been raised.
    pub cancelled: bool,
    /// The time after which a graceful stop turns forcible, if any.
    pub cutoff: Option<Duration>,
}

/// The state of a server that has just been created.
pub open spec fn initial_state() -> LifecycleState {
    LifecycleState { phase: Phase::Running, alive: 0, cancelled: false, cutoff: None }
}

/// What holds of every state that a server can reach.
pub open spec fn state_wf(s: LifecycleState) -> bool {
    match s.phase {
        Phase::Running => !s.cancelled && s.cutoff is None,
        Phase::GracefulDraining => !s.cancelled && s.alive > 0,
        Phase::ForciblyStopped => s.cancelled && s.alive > 0,
        Phase::Stopped => s.alive == 0,
    }
}

/// The phase of a server that has left the accept loop with `alive`
/// connections in flight, and would be in `draining` if there are any.
pub open spec fn settled(alive: nat, draining: Phase) -> Phase {
    if alive == 0 {
        Phase::Stopped
    } else {
        draining
    }
}

/// The answer to a command.
pub open spec fn spec_on_command(s: LifecycleState, cmd: ServerCommand) -> (LifecycleState, Action) {
    match (s.phase, cmd) {
        (Phase::Running, ServerCommand::StopForcible) => (
            LifecycleState {
                phase: settled(s.alive, Phase::ForciblyStopped),
                cancelled: true,
                ..s
            },
            Action::StopAccepting { cancel_now: true, cancel_after: None },
        ),
        (Phase::Running, ServerCommand::StopGraceful(timeout)) => (
            LifecycleState {
                phase: settled(s.alive, Phase::GracefulDraining),
                cutoff: timeout,
                ..s
            },
            Action::StopAccepting { cancel_now: false, cancel_after: timeout },
        ),
        (Phase::GracefulDraining, ServerCommand::StopForcible) => (
            LifecycleState { phase: Phase::ForciblyStopped, cancelled: true, ..s },
            Action::Cancel,
        ),
        _ => (s, Action::Idle),
    }
}

/// The answer to a connection task that reached a checkpoint.
pub open spec fn spec_on_checkpoint(s: LifecycleState, finished: bool) -> (LifecycleState, Action) {
    if s.alive == 0 {
        (s, Action::Idle)
    } else if finished || s.cancelled {
        let left = (s.alive - 1) as nat;
        (
            LifecycleState {
                phase: if s.phase == Phase::Running {
                    Phase::Running
                } else {
                    settled(left, s.phase)
                },
                alive: left,
                ..s
            },
            Action::EndTask { last: left == 0 },
        )
    } else {
        (s, Action::KeepServing)
    }
}

/// The transition function: the state after `event`, and what to do.
pub open spec fn spec_step(s: LifecycleState, event: Event) -> (LifecycleState, Action) {
    match event {
        Event::Command(cmd) => spec_on_command(s, cmd),
        Event::Accepted => if s.phase == Phase::Running {
            (LifecycleState { alive: s.alive + 1, ..s }, Action::Serve)
        } else {
            (s, Action::Refuse)
        },
        Event::AcceptFailed => (s, Action::Idle),
        Event::Checkpoint { finished } => spec_on_checkpoint(s, finished),
        Event::TimeoutElapsed => if s.phase == Phase::GracefulDraining && s.cutoff is Some {
            (LifecycleState { phase: Phase::ForciblyStopped, cancelled: true, ..s }, Action::Cancel)
        } else {
            (s, Action::Idle)
        },
    }
}

/// The transition function of a server whose counter of connections is
/// bounded: a connection for which the counter has no room is refused, and
/// the state stays.
pub open spec fn spec_try_step(s: LifecycleState, event: Event) -> (LifecycleState, Action) {
    if event is Accepted && s.phase == Phase::Running && s.alive >= usize::MAX {
        (s, Action::Refuse)
    } else {
        spec_step(s, event)
    }
}

/// The state reached from `s` after all of `events`, in order.
pub open spec fn spec_run(s: LifecycleState, events: Seq<Event>) -> LifecycleState
    decreases events.len(),
{
    if events.len() == 0 {
        s
    } else {
        spec_step(spec_run(s, events.drop_last()), events.last()).0
    }
}

/// The answer given to the last of `events` on the way from `s`.
pub open spec fn last_action(s: LifecycleState, events: Seq<Event>) -> Action
    recommends
        events.len() > 0,
{
    spec_step(spec_run(s, events.drop_last()), events.last()).1
}

/// How many of `events` were answered with [`Action::Serve`] on the way from `s`.
pub open spec fn served(s: LifecycleState, events: Seq<Event>) -> nat
    decreases events.len(),
{
    if events.len() == 0 {
        0
    } else {
        served(s, events.drop_last()) + if last_action(s, events) is Serve {
            1nat
        } else {
            0nat
        }
    }
}

/// How many of `events` were answered with [`Action::EndTask`] on the way from `s`.
pub open spec fn ended(s: LifecycleState, events: Seq<Event>) -> nat
    decreases events.len(),
{
    if events.len() == 0 {
        0
    } else {
        ended(s, events.drop_last()) + if last_action(s, events) is EndTask {
            1nat
        } else {
            0nat
        }
    }
}

/// How many of `events` are accepted connections.
pub open spec fn accepted(events: Seq<Event>) -> nat
    decreases events.len(),
{
    if events.len() == 0 {
        0
    } else {
        accepted(events.drop_last()) + if events.last() is Accepted {
            1nat
        } else {
            0nat
        }
    }
}

/// `count` checkpoints in a row of tasks whose connection is not finished.
pub open spec fn unfinished_checkpoints(count: nat) -> Seq<Event> {
    Seq::new(count, |i: int| Event::Checkpoint { finished: false })
}

/// Whether `event` can neither end a task nor raise the cancellation signal
/// on its own account: it is no checkpoint of a finished connection and no
/// forcible stop.
pub open spec fn leaves_work_alone(event: Event) -> bool {
    match event {
        Event::Checkpoint { finished } => !finished,
        Event::Command(ServerCommand::StopForcible) => false,
        _ => true,
    }
}

/// The lifecycle of one server: its phase, the count of live connections and
/// the cancellation signal.
#[derive(Clone, Copy, Debug, PartialEq)]
pub struct Lifecycle {
    phase: Phase,
    alive: usize,
    cancelled: bool,
    cutoff: Option<Duration>,
}

impl View for Lifecycle {
    type V = LifecycleState;

    closed spec fn view(&self) -> LifecycleState {
        LifecycleState {
            phase: self.phase,
            alive: self.alive as nat,
            cancelled: self.cancelled,
            cutoff: self.cutoff,
        }
    }
}

impl Lifecycle {
    /// The lifecycle of a server that has just been created.
    pub fn new() -> (fresh: Self)
        ensures
            fresh@ == initial_state(),
    {
        Lifecycle { phase: Phase::Running, alive: 0, cancelled: false, cutoff: None }
    }

    /// The phase.
    pub fn phase(&self) -> (phase: Phase)
        ensures
            phase == self@.phase,
    {
        self.phase
    }

    /// The number of connections being served.
    pub fn alive_connections(&self) -> (alive: usize)
        ensures
            alive == self@.alive,
    {
        self.alive
    }

    /// Whether the cancellation signal has been raised.
    pub fn is_cancelled(&self) -> (cancelled: bool)
        ensures
            cancelled == self@.cancelled,
    {
        self.cancelled
    }

    /// Whether the server still accepts connections.
    pub fn is_accepting(&self) -> (accepting: bool)
        ensures
            accepting == (self@.phase == Phase::Running),
    {
        match self.phase {
            Phase::Running => true,
            _ => false,
        }
    }

    /// Whether the server has stopped: it accepts nothing and serves nothing.
    pub fn is_stopped(&self) -> (stopped: bool)
        ensures
            stopped == (self@.phase == Phase::Stopped),
    {
        match self.phase {
            Phase::Stopped => true,
            _ => false,
        }
    }

    /// Whether one more connection can be counted.
    pub fn has_room(&self) -> (room: bool)
        ensures
            room == (self@.alive < usize::MAX),
    {
        self.alive < usize::MAX
    }

    /// The phase of a server that has left the accept loop with `alive`
    /// connections in flight.
    fn settle(alive: usize, draining: Phase) -> (phase: Phase)
        ensures
            phase == settled(alive as nat, draining),
    {
        if alive == 0 {
            Phase::Stopped
        } else {
            draining
        }
    }

    /// Answers a command.
    pub fn on_command(self, cmd: ServerCommand) -> (next: (Lifecycle, Action))
        ensures
            (next.0@, next.1) == spec_on_command(self@, cmd),
    {
        match (self.phase, cmd) {
            (Phase::Running, ServerCommand::StopForcible) => (
                Lifecycle {
                    phase: Self::settle(self.alive, Phase::ForciblyStopped),
                    alive: self.alive,
                    cancelled: true,
                    cutoff: self.cutoff,
                },
                Action::StopAccepting { cancel_now: true, cancel_after: None },
            ),
            (Phase::Running, ServerCommand::StopGraceful(timeout)) => (
                Lifecycle {
                    phase: Self::settle(self.alive, Phase::GracefulDraining),
                    alive: self.alive,
                    cancelled: self.cancelled,
                    cutoff: timeout,
                },
                Action::StopAccepting { cancel_now: false, cancel_after: timeout },
            ),
            (Phase::GracefulDraining, ServerCommand::StopForcible) => (
                Lifecycle {
                    phase: Phase::ForciblyStopped,
                    alive: self.alive,
                    cancelled: true,
                    cutoff: self.cutoff,
                },
                Action::Cancel,
            ),
            _ => (self, Action::Idle),
        }
    }

    /// Answers a connection task that reached a checkpoint.
    pub fn on_checkpoint(self, finished: bool) -> (next: (Lifecycle, Action))
        ensures
            (next.0@, next.1) == spec_on_checkpoint(self@, finished),
    {
        if self.alive == 0 {
            (self, Action::Idle)
        } else if finished || self.cancelled {
            let left: usize = self.alive - 1;
            let phase = match self.phase {
                Phase::Running => Phase::Running,
                other => Self::settle(left, other),
            };
            (
                Lifecycle { phase, alive: left, cancelled: self.cancelled, cutoff: self.cutoff },
                Action::EndTask { last: left == 0 },
            )
        } else {
            (self, Action::KeepServing)
        }
    }

    /// The state after `event`, and what the caller has to do.
    ///
    /// The one thing asked of the caller is room in the counter for a
    /// connection that a running server accepts.
    pub fn step(self, event: Event) -> (next: (Lifecycle, Action))
        requires
            event is Accepted && self@.phase == Phase::Running ==> self@.alive < usize::MAX,
        ensures
            (next.0@, next.1) == spec_step(self@, event),
    {
        match event {
            Event::Command(cmd) => self.on_command(cmd),
            Event::Accepted => match self.phase {
                Phase::Running => (
                    Lifecycle {
                        phase: self.phase,
                        alive: self.alive + 1,
                        cancelled: self.cancelled,
                        cutoff: self.cutoff,
                    },
                    Action::Serve,
                ),
                _ => (self, Action::Refuse),
            },
            Event::AcceptFailed => (self, Action::Idle),
            Event::Checkpoint { finished } => self.on_checkpoint(finished),
            Event::TimeoutElapsed => match (self.phase, self.cutoff) {
                (Phase::GracefulDraining, Some(_)) => (
                    Lifecycle {
                        phase: Phase::ForciblyStopped,
                        alive: self.alive,
                        cancelled: true,
                        cutoff: self.cutoff,
                    },
                    Action::Cancel,
                ),
                _ => (self, Action::Idle),
            },
        }
    }

    /// `step`, for a caller that cannot promise room in the counter: a
    /// connection for which there is none is refused and the state stays.
    pub fn try_step(self, event: Event) -> (next: (Lifecycle, Action))
        ensures
            (next.0@, next.1) == spec_try_step(self@, event),
    {
        let full = match (event, self.phase) {
            (Event::Accepted, Phase::Running) => !self.has_room(),
            _ => false,
        };
        if full {
            (self, Action::Refuse)
        } else {
            self.step(event)
        }
    }
}

/// Names the commands that stop a server, for whoever holds it.
#[derive(Clone, Copy, Debug, PartialEq, Eq, Structural)]
pub struct ServerHandle;

impl ServerHandle {
    /// The command that stops the server at once.
    pub fn stop_forcible(&self) -> (cmd: ServerCommand)
        ensures
            cmd == ServerCommand::StopForcible,
    {
        ServerCommand::StopForcible
    }

    /// The command that stops the server once the connections in flight
    /// have finished, or once `timeout` has passed if there is one.
    pub fn stop_graceful(&self, timeout: Option<Duration>) -> (cmd: ServerCommand)
        ensures
            cmd == ServerCommand::StopGraceful(timeout),
    {
        ServerCommand::StopGraceful(timeout)
    }
}

/// A server: an acceptor, and the lifecycle of the loop that serves what
/// the acceptor yields.
pub struct Server<A> {
    acceptor: A,
    builder: HttpBuilder,
    conn_idle_timeout: Option<Duration>,
    lifecycle: Lifecycle,
}

impl<A: Acceptor> Server<A> {
    /// The acceptor.
    pub closed spec fn spec_acceptor(&self) -> A {
        self.acceptor
    }

    /// The engines of the protocols.
    pub closed spec fn spec_builder(&self) -> HttpBuilder {
        self.builder
    }

    /// The time after which an idle connection is closed, if any.
    pub closed spec fn spec_conn_idle_timeout(&self) -> Option<Duration> {
        self.conn_idle_timeout
    }

    /// The state of the lifecycle.
    pub closed spec fn spec_lifecycle(&self) -> LifecycleState {
        self.lifecycle@
    }

    /// A server around `acceptor`: running, with no connection yet, and
    /// without a limit on how long a connection may idle.
    pub fn new(acceptor: A) -> (server: Self)
        ensures
            server.spec_acceptor() == acceptor,
            server.spec_builder().quinn == (Builder {
                enable_webtransport: true,
                enable_connect: true,
                enable_datagram: true,
                max_webtransport_sessions: 1,
                send_grease: true,
            }),
            server.spec_conn_idle_timeout() is None,
            server.spec_lifecycle() == initial_state(),
    {
        Self::with_http_builder(acceptor, HttpBuilder::new())
    }

    /// A server around `acceptor` that serves with the engines of `builder`.
    pub fn with_http_builder(acceptor: A, builder: HttpBuilder) -> (server: Self)
        ensures
            server.spec_acceptor() == acceptor,
            server.spec_builder() == builder,
            server.spec_conn_idle_timeout() is None,
            server.spec_lifecycle() == initial_state(),
    {
        Server { acceptor, builder, conn_idle_timeout: None, lifecycle: Lifecycle::new() }
    }

    /// The engines of the protocols.
    pub fn http_builder(&self) -> (builder: HttpBuilder)
        ensures
            builder == self.spec_builder(),
    {
        self.builder
    }

    /// The settings for HTTP/3, to be changed.
    pub fn quinn_mut(&mut self) -> (quinn: &mut Builder)
        ensures
            *quinn == old(self).spec_builder().quinn,
            final(self).spec_builder().quinn == *final(quinn),
            final(self).spec_acceptor() == old(self).spec_acceptor(),
            final(self).spec_conn_idle_timeout() == old(self).spec_conn_idle_timeout(),
            final(self).spec_lifecycle() == old(self).spec_lifecycle(),
    {
        &mut self.builder.quinn
    }

    /// A handle that names the commands for this server.
    pub fn handle(&self) -> (handle: ServerHandle)
        ensures
            handle == ServerHandle,
    {
        ServerHandle
    }

    /// What the server holds: the holdings of its acceptor.
    pub fn holdings(&self) -> (held: &[Holding])
        ensures
            held@ == self.spec_acceptor().spec_holdings(),
    {
        self.acceptor.holdings()
    }

    /// Sets the time after which a connection without activity is closed.
    pub fn conn_idle_timeout(self, timeout: Duration) -> (server: Self)
        ensures
            server.spec_acceptor() == self.spec_acceptor(),
            server.spec_builder() == self.spec_builder(),
            server.spec_conn_idle_timeout() == Some(timeout),
            server.spec_lifecycle() == self.spec_lifecycle(),
    {
        Server {
            acceptor: self.acceptor,
            builder: self.builder,
            conn_idle_timeout: Some(timeout),
            lifecycle: self.lifecycle,
        }
    }

    /// The time after which a connection without activity is closed, if any.
    pub fn idle_timeout(&self) -> (timeout: Option<Duration>)
        ensures
            timeout == self.spec_conn_idle_timeout(),
    {
        self.conn_idle_timeout
    }

    /// The acceptor.
    pub fn acceptor(&self) -> (acceptor: &A)
        ensures
            *acceptor == self.spec_acceptor(),
    {
        &self.acceptor
    }

    /// The acceptor, to be driven.
    pub fn acceptor_mut(&mut self) -> (acceptor: &mut A)
        ensures
            *acceptor == old(self).spec_acceptor(),
            final(self).spec_acceptor() == *final(acceptor),
            final(self).spec_builder() == old(self).spec_builder(),
            final(self).spec_conn_idle_timeout() == old(self).spec_conn_idle_timeout(),
            final(self).spec_lifecycle() == old(self).spec_lifecycle(),
    {
        &mut self.acceptor
    }

    /// The lifecycle as it stands.
    pub fn lifecycle(&self) -> (lifecycle: Lifecycle)
        ensures
            lifecycle@ == self.spec_lifecycle(),
    {
        self.lifecycle
    }

    /// The `Alt-Svc` value for the responses on a connection that arrived at
    /// `local_addr`: the one that advertises HTTP/3 on the port of that
    /// address, where the server holds an endpoint that speaks HTTP/3 on
    /// that port. Connections to every other port get none.
    pub fn alt_svc_for(&self, local_addr: &SocketAddr) -> (value: Option<String>)
        ensures
            match value {
                Some(text) => spec_alt_svc_for(
                    self.spec_acceptor().spec_holdings(),
                    local_addr.spec_port(),
                ) == Some(text@),
                None => spec_alt_svc_for(
                    self.spec_acceptor().spec_holdings(),
                    local_addr.spec_port(),
                ) is None,
            },
    {
        alt_svc_for(self.acceptor.holdings(), local_addr)
    }

    /// Tells the server what has happened and learns what to do. A
    /// connection for which the counter has no room is refused.
    pub fn step(&mut self, event: Event) -> (action: Action)
        ensures
            final(self).spec_acceptor() == old(self).spec_acceptor(),
            final(self).spec_builder() == old(self).spec_builder(),
            final(self).spec_conn_idle_timeout() == old(self).spec_conn_idle_timeout(),
            (final(self).spec_lifecycle(), action) == spec_try_step(
                old(self).spec_lifecycle(),
                event,
            ),
    {
        let (next, action) = self.lifecycle.try_step(event);
        self.lifecycle = next;
        action
    }

    /// Stops the server at once: the accept loop is left and the
    /// connections in flight are told to abandon their work.
    pub fn stop_forcible(&mut self) -> (action: Action)
        ensures
            final(self).spec_acceptor() == old(self).spec_acceptor(),
            final(self).spec_builder() == old(self).spec_builder(),
            final(self).spec_conn_idle_timeout() == old(self).spec_conn_idle_timeout(),
            (final(self).spec_lifecycle(), action) == spec_step(
                old(self).spec_lifecycle(),
                Event::Command(ServerCommand::StopForcible),
            ),
    {
        self.step(Event::Command(ServerCommand::StopForcible))
    }

    /// Stops the server gracefully: the accept loop is left and the
    /// connections in flight may finish, within `timeout` if there is one.
    pub fn stop_graceful(&mut self, timeout: Option<Duration>) -> (action: Action)
        ensures
            final(self).spec_acceptor() == old(self).spec_acceptor(),
            final(self).spec_builder() == old(self).spec_builder(),
            final(self).spec_conn_idle_timeout() == old(self).spec_conn_idle_timeout(),
            (final(self).spec_lifecycle(), action) == spec_step(
                old(self).spec_lifecycle(),
                Event::Command(ServerCommand::StopGraceful(timeout)),
            ),
    {
        self.step(Event::Command(ServerCommand::StopGraceful(timeout)))
    }
}

/// Every step leads from a well-formed state to a well-formed state.
pub proof fn lemma_step_keeps_wf(s: LifecycleState, event: Event)
    requires
        state_wf(s),
    ensures
        state_wf(spec_step(s, event).0),
{
}

/// Every run leads from a well-formed state to a well-formed state. In
/// particular a server is `Stopped` only with no connection left.
pub proof fn lemma_run_keeps_wf(s: LifecycleState, events: Seq<Event>)
    requires
        state_wf(s),
    ensures
        state_wf(spec_run(s, events)),
    decreases events.len(),
{
    if events.len() > 0 {
        lemma_run_keeps_wf(s, events.drop_last());
        lemma_step_keeps_wf(spec_run(s, events.drop_last()), events.last());
    }
}

/// A server that has stopped stays stopped, whatever happens.
pub proof fn lemma_stopped_is_final(s: LifecycleState, event: Event)
    requires
        state_wf(s),
        s.phase == Phase::Stopped,
    ensures
        spec_step(s, event).0 == s,
        spec_step(s, event).1 == Action::Idle || spec_step(s, event).1 == Action::Refuse,
{
}

/// Once a server has left the accept loop it takes no connection: the count
/// of live connections does not grow, and no event is answered with
/// [`Action::Serve`].
pub proof fn lemma_no_accept_after_stop(s: LifecycleState, event: Event)
    requires
        s.phase != Phase::Running,
    ensures
        spec_step(s, event).0.phase != Phase::Running,
        spec_step(s, event).0.alive <= s.alive,
        spec_step(s, event).1 != Action::Serve,
{
}

/// The cancellation signal, once raised, stays raised.
pub proof fn lemma_cancellation_is_final(s: LifecycleState, event: Event)
    requires
        s.cancelled,
    ensures
        spec_step(s, event).0.cancelled,
{
}

/// The count of live connections is the number of tasks started less the
/// number of tasks ended, whatever happens to the server.
pub proof fn lemma_live_count_balance(s: LifecycleState, events: Seq<Event>)
    ensures
        spec_run(s, events).alive + ended(s, events) == s.alive + served(s, events),
        served(s, events) <= accepted(events),
    decreases events.len(),
{
    if events.len() > 0 {
        lemma_live_count_balance(s, events.drop_last());
    }
}

/// Of any number of accepted connections, the count of live connections
/// never exceeds that number, and it is zero again once every task that was
/// started has ended.
pub proof fn lemma_live_count_bounded(events: Seq<Event>)
    ensures
        spec_run(initial_state(), events).alive <= accepted(events),
        ended(initial_state(), events) == served(initial_state(), events) ==> spec_run(
            initial_state(),
            events,
        ).alive == 0,
{
    lemma_live_count_balance(initial_state(), events);
}

/// A second graceful stop changes nothing and asks for nothing: two in
/// succession have the effect of one.
pub proof fn lemma_graceful_stop_idempotent(
    s: LifecycleState,
    first: Option<Duration>,
    second: Option<Duration>,
)
    ensures
        ({
            let once = spec_step(s, Event::Command(ServerCommand::StopGraceful(first))).0;
            spec_step(once, Event::Command(ServerCommand::StopGraceful(second))) == (
                once,
                Action::Idle,
            )
        }),
{
}

/// A second forcible stop changes nothing and asks for nothing.
pub proof fn lemma_forcible_stop_idempotent(s: LifecycleState)
    ensures
        ({
            let once = spec_step(s, Event::Command(ServerCommand::StopForcible)).0;
            spec_step(once, Event::Command(ServerCommand::StopForcible)) == (once, Action::Idle)
        }),
{
}

/// Once the cancellation signal is raised and the accept loop is left, each
/// checkpoint ends one task, finished or not.
proof fn lemma_cancelled_tasks_end(s: LifecycleState, count: nat)
    requires
        state_wf(s),
        s.cancelled,
        s.phase != Phase::Running,
        count <= s.alive,
    ensures
        spec_run(s, unfinished_checkpoints(count)) == (LifecycleState {
            phase: settled((s.alive - count) as nat, s.phase),
            alive: (s.alive - count) as nat,
            ..s
        }),
    decreases count,
{
    let events = unfinished_checkpoints(count);
    if count > 0 {
        assert(events.drop_last() =~= unfinished_checkpoints((count - 1) as nat));
        lemma_cancelled_tasks_end(s, (count - 1) as nat);
    }
}

/// While nothing raises the cancellation signal and no connection finishes,
/// a graceful stop without a time limit keeps waiting.
pub proof fn lemma_unbounded_graceful_stop_waits(s: LifecycleState, events: Seq<Event>)
    requires
        s.phase == Phase::GracefulDraining,
        !s.cancelled,
        s.cutoff is None,
        s.alive > 0,
        forall|i: int| 0 <= i < events.len() ==> leaves_work_alone(#[trigger] events[i]),
    ensures
        spec_run(s, events) == s,
    decreases events.len(),
{
    if events.len() > 0 {
        let before = events.drop_last();
        assert forall|i: int| 0 <= i < before.len() implies leaves_work_alone(
            #[trigger] before[i],
        ) by {
            assert(before[i] == events[i]);
        }
        lemma_unbounded_graceful_stop_waits(s, before);
        assert(leaves_work_alone(events[events.len() - 1]));
    }
}

/// A forcible stop ends the server after one checkpoint of each connection
/// in flight, whether or not any of them finishes. A graceful stop without a
/// time limit is, after the same checkpoints of unfinished connections, still
/// waiting.
pub proof fn lemma_forcible_stop_outpaces_graceful(s: LifecycleState)
    requires
        state_wf(s),
        s.phase == Phase::Running,
        s.alive > 0,
    ensures
        ({
            let forced = spec_step(s, Event::Command(ServerCommand::StopForcible)).0;
            let graceful = spec_step(s, Event::Command(ServerCommand::StopGraceful(None))).0;
            &&& forced.cancelled
            &&& spec_run(forced, unfinished_checkpoints(s.alive)).phase == Phase::Stopped
            &&& !graceful.cancelled
            &&& spec_run(graceful, unfinished_checkpoints(s.alive)).phase
                == Phase::GracefulDraining
        }),
{
    let forced = spec_step(s, Event::Command(ServerCommand::StopForcible)).0;
    let graceful = spec_step(s, Event::Command(ServerCommand::StopGraceful(None))).0;
    lemma_cancelled_tasks_end(forced, s.alive);
    lemma_unbounded_graceful_stop_waits(graceful, unfinished_checkpoints(s.alive));
}

/// A forcible stop that arrives during a graceful wait raises the
/// cancellation signal, after which the server stops within one checkpoint of
/// each connection in flight.
pub proof fn lemma_forcible_stop_cuts_drain_short(s: LifecycleState)
    requires
        state_wf(s),
        s.phase == Phase::GracefulDraining,
    ensures
        ({
            let (forced, action) = spec_step(s, Event::Command(ServerCommand::StopForcible));
            &&& action == Action::Cancel
            &&& forced.cancelled
            &&& spec_run(forced, unfinished_checkpoints(s.alive)).phase == Phase::Stopped
        }),
{
    let forced = spec_step(s, Event::Command(ServerCommand::StopForcible)).0;
    lemma_cancelled_tasks_end(forced, s.alive);
}

} // verus!
