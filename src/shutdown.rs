use vstd::prelude::*;

verus! {

/// The host signals that ask the service to stop.
#[derive(PartialEq, Eq, Structural, Clone, Copy, Debug)]
pub enum SignalKind {
    /// An interrupt, such as Ctrl+C.
    Interrupt,
    /// A terminate request (POSIX hosts only).
    Terminate,
}

/// The two phases of the service: serving, or draining towards exit.
#[derive(PartialEq, Eq, Structural, Clone, Copy, Debug)]
pub enum Phase {
    Running,
    ShuttingDown,
}

/// What the caller has to do after a signal was handled.
#[derive(PartialEq, Eq, Structural, Clone, Copy, Debug)]
pub enum ShutdownAction {
    /// First signal: log the start of shutdown and cancel the accept loop.
    BeginShutdown,
    /// Shutdown had already begun: nothing further to do.
    AlreadyShuttingDown,
}

/// The abstract state of the coordinator: its phase and the number of
/// connections that were accepted and have not finished yet.
pub struct LifecycleView {
    pub phase: Phase,
    pub in_flight: nat,
}

/// Tracks the cancellation signal of the server and the connections in flight.
/// The phase only ever moves from `Running` to `ShuttingDown`.
///
/// The connection count is a model of the graceful-shutdown hook of the HTTP
/// server: the service itself leaves accepting and draining to that server
/// and drives only the signal handling (`on_signal`) through this type.
pub struct ShutdownCoordinator {
    phase: Phase,
    in_flight: u64,
}

/// The state after a signal arrives: shutting down, with the same connections.
pub open spec fn after_signal(v: LifecycleView) -> LifecycleView {
    LifecycleView { phase: Phase::ShuttingDown, in_flight: v.in_flight }
}

/// The action a signal calls for: shutdown begins only out of `Running`.
pub open spec fn signal_action(v: LifecycleView) -> ShutdownAction {
    if v.phase == Phase::Running {
        ShutdownAction::BeginShutdown
    } else {
        ShutdownAction::AlreadyShuttingDown
    }
}

/// Whether a new connection is admitted: only while running.
pub open spec fn admits(v: LifecycleView) -> bool {
    v.phase == Phase::Running
}

/// The state after a new connection asks to be served.
pub open spec fn after_accept(v: LifecycleView) -> LifecycleView {
    if admits(v) {
        LifecycleView { phase: v.phase, in_flight: v.in_flight + 1 }
    } else {
        v
    }
}

/// The state after an accepted connection has sent its response.
pub open spec fn after_finish(v: LifecycleView) -> LifecycleView
    recommends
        v.in_flight > 0,
{
    LifecycleView { phase: v.phase, in_flight: (v.in_flight - 1) as nat }
}

/// Whether the server may exit: shutdown has begun and nothing is in flight.
pub open spec fn drained(v: LifecycleView) -> bool {
    v.phase == Phase::ShuttingDown && v.in_flight == 0
}

impl View for ShutdownCoordinator {
    type V = LifecycleView;

    closed spec fn view(&self) -> LifecycleView {
        LifecycleView { phase: self.phase, in_flight: self.in_flight as nat }
    }
}

impl ShutdownCoordinator {
    /// A coordinator for a server that has just started: running, nothing in
    /// flight.
    pub fn new() -> (r: ShutdownCoordinator)
        ensures
            r@ == (LifecycleView { phase: Phase::Running, in_flight: 0 }),
    {
        ShutdownCoordinator { phase: Phase::Running, in_flight: 0 }
    }

    pub fn phase(&self) -> (r: Phase)
        ensures
            r == self@.phase,
    {
        self.phase
    }

    pub fn in_flight(&self) -> (r: u64)
        ensures
            r == self@.in_flight,
    {
        self.in_flight
    }

    /// Sets the cancellation signal. Either kind of signal has the same effect,
    /// and only the first one asks for shutdown to begin: setting it again is a
    /// no-op.
    pub fn on_signal(&mut self, kind: SignalKind) -> (a: ShutdownAction)
        ensures
            final(self)@ == after_signal(old(self)@),
            a == signal_action(old(self)@),
    {
        let a = match self.phase {
            Phase::Running => ShutdownAction::BeginShutdown,
            Phase::ShuttingDown => ShutdownAction::AlreadyShuttingDown,
        };
        self.phase = Phase::ShuttingDown;
        a
    }

    /// Whether the cancellation signal has been set.
    pub fn is_cancelled(&self) -> (r: bool)
        ensures
            r == (self@.phase == Phase::ShuttingDown),
    {
        self.phase == Phase::ShuttingDown
    }

    /// A new connection asks to be served; it is admitted, and counted as in
    /// flight, only while the server is running.
    pub fn accept_connection(&mut self) -> (accepted: bool)
        requires
            old(self)@.in_flight < u64::MAX,
        ensures
            accepted == admits(old(self)@),
            final(self)@ == after_accept(old(self)@),
    {
        if self.phase == Phase::Running {
            self.in_flight = self.in_flight + 1;
            true
        } else {
            false
        }
    }

    /// An admitted connection has sent its response, in either phase.
    pub fn finish_connection(&mut self)
        requires
            old(self)@.in_flight > 0,
        ensures
            final(self)@ == after_finish(old(self)@),
    {
        self.in_flight = self.in_flight - 1;
    }

    /// Whether the server may stop: shutdown has begun and every admitted
    /// connection has finished.
    pub fn is_drained(&self) -> (r: bool)
        ensures
            r == drained(self@),
    {
        self.phase == Phase::ShuttingDown && self.in_flight == 0
    }
}

/// Setting the cancellation signal a second time, by either kind of signal,
/// changes nothing and does not begin shutdown again, so the shutdown message
/// is logged once.
pub proof fn lemma_second_signal_is_noop(v: LifecycleView)
    ensures
        after_signal(after_signal(v)) == after_signal(v),
        signal_action(after_signal(v)) == ShutdownAction::AlreadyShuttingDown,
{
}

/// Once the cancellation signal is set, no new connection is admitted and the
/// state is left as it was, while a connection already in flight still
/// finishes; the server is drained once the last of them has. This states the
/// behaviour that the model of the server's graceful-shutdown hook has.
pub proof fn lemma_drain_after_cancel(v: LifecycleView)
    requires
        v.phase == Phase::ShuttingDown,
    ensures
        !admits(v),
        after_accept(v) == v,
        v.in_flight > 0 ==> after_finish(v).phase == Phase::ShuttingDown
            && after_finish(v).in_flight == v.in_flight - 1,
        v.in_flight == 1 ==> drained(after_finish(v)),
{
}

/// The phase never goes back: after any step out of `ShuttingDown`, the state
/// is still shutting down.
pub proof fn lemma_phase_is_monotonic(v: LifecycleView)
    requires
        v.phase == Phase::ShuttingDown,
    ensures
        after_signal(v).phase == Phase::ShuttingDown,
        after_accept(v).phase == Phase::ShuttingDown,
        after_finish(v).phase == Phase::ShuttingDown,
{
}

} // verus!
