//! The data-plane connection lifecycle.
//!
//! Every accepted connection traverses the machine
//! `Accepted -> RoutingResolved -> TunnelEstablished -> Relaying -> Closed`
//! exactly once, with `Failed` an absorbing state reachable from every
//! non-terminal state on any resolution or I/O error. The task that owns the
//! connection performs the I/O and feeds the observed events in; the machine
//! alone decides the next state, so the lifecycle invariants hold however
//! the I/O behaves.

use vstd::prelude::*;

verus! {

/// Where a data-plane connection stands in its lifecycle.
#[derive(Clone, Copy, PartialEq, Eq, Structural, Debug)]
pub enum TunnelState {
    /// The local connection was accepted; routing metadata not yet read.
    Accepted,
    /// A target cluster and service were resolved.
    RoutingResolved,
    /// The secure tunnel to the target cluster's node is open.
    TunnelEstablished,
    /// Bytes are being relayed in both directions.
    Relaying,
    /// Both halves were closed cleanly.
    Closed,
    /// The connection was torn down on an error; absorbing.
    Failed,
}

/// What the owning task observed.
#[derive(Clone, Copy, PartialEq, Eq, Structural, Debug)]
pub enum TunnelEvent {
    /// Routing metadata was extracted and resolved to a target cluster.
    RouteResolved,
    /// The request carried no usable routing metadata, or no cluster
    /// advertises the requested service.
    RouteRejected,
    /// The secure tunnel dial succeeded.
    TunnelOpened,
    /// The secure tunnel dial failed.
    DialFailed,
    /// Bidirectional copying started.
    RelayStarted,
    /// One side closed; the relay drained and both halves were closed.
    PeerClosed,
    /// An I/O error mid-relay; both halves were torn down together.
    RelayError,
    /// No bytes moved for longer than the idle window; forced close.
    IdleTimeout,
    /// Process-level shutdown reached this connection.
    Shutdown,
}

impl TunnelState {
    /// Terminal states: the connection is gone, nothing follows.
    pub open spec fn is_terminal(self) -> bool {
        self == TunnelState::Closed || self == TunnelState::Failed
    }

    /// Progress measure: every transition out of a non-terminal state
    /// strictly increases it, so no state is ever re-entered.
    pub open spec fn rank(self) -> int {
        match self {
            TunnelState::Accepted => 0,
            TunnelState::RoutingResolved => 1,
            TunnelState::TunnelEstablished => 2,
            TunnelState::Relaying => 3,
            TunnelState::Closed => 4,
            TunnelState::Failed => 4,
        }
    }
}

/// The transition relation of the connection lifecycle. Terminal states
/// absorb every event; `Shutdown` closes from everywhere; an event that the
/// current state does not expect is a protocol fault and fails the
/// connection.
pub open spec fn spec_step(s: TunnelState, e: TunnelEvent) -> TunnelState {
    if s.is_terminal() {
        s
    } else {
        match (s, e) {
            (TunnelState::Accepted, TunnelEvent::RouteResolved) => TunnelState::RoutingResolved,
            (TunnelState::RoutingResolved, TunnelEvent::TunnelOpened) => TunnelState::TunnelEstablished,
            (TunnelState::TunnelEstablished, TunnelEvent::RelayStarted) => TunnelState::Relaying,
            (TunnelState::Relaying, TunnelEvent::PeerClosed) => TunnelState::Closed,
            (TunnelState::Relaying, TunnelEvent::Shutdown) => TunnelState::Closed,
            (_, TunnelEvent::Shutdown) => TunnelState::Closed,
            (_, _) => TunnelState::Failed,
        }
    }
}

/// One lifecycle transition.
pub fn step(s: TunnelState, e: TunnelEvent) -> (r: TunnelState)
    ensures
        r == spec_step(s, e),
        s.is_terminal() ==> r == s,
        !s.is_terminal() ==> r.rank() > s.rank(),
{
    if s == TunnelState::Closed || s == TunnelState::Failed {
        s
    } else {
        match (s, e) {
            (TunnelState::Accepted, TunnelEvent::RouteResolved) => TunnelState::RoutingResolved,
            (TunnelState::RoutingResolved, TunnelEvent::TunnelOpened) => TunnelState::TunnelEstablished,
            (TunnelState::TunnelEstablished, TunnelEvent::RelayStarted) => TunnelState::Relaying,
            (TunnelState::Relaying, TunnelEvent::PeerClosed) => TunnelState::Closed,
            (_, TunnelEvent::Shutdown) => TunnelState::Closed,
            (_, _) => TunnelState::Failed,
        }
    }
}

/// Each connection traverses the machine exactly once: no transition
/// re-enters an earlier (or the same) non-terminal state, and terminal
/// states absorb every further event.
pub proof fn lemma_single_traversal(s: TunnelState, e: TunnelEvent)
    ensures
        s.is_terminal() ==> spec_step(s, e) == s,
        !s.is_terminal() ==> spec_step(s, e).rank() > s.rank(),
{
}

/// Shutdown always terminates: whatever state a connection is in when the
/// process-level shutdown reaches it, one transition later it is terminal.
/// No task is left permanently blocked in the machine.
pub proof fn lemma_shutdown_terminates(s: TunnelState)
    ensures
        spec_step(s, TunnelEvent::Shutdown).is_terminal(),
{
}

/// Process-level shutdown reaches every in-flight connection: feeding the
/// shutdown event to each of any number of connections, whatever their
/// states, leaves every one of them terminal.
pub proof fn lemma_shutdown_terminates_all(states: Seq<TunnelState>)
    ensures
        forall|i: int|
            0 <= i < states.len() ==> spec_step(
                #[trigger] states[i],
                TunnelEvent::Shutdown,
            ).is_terminal(),
{
}

/// A tunnel is only ever established after routing was resolved, and
/// routing is only resolved once, from `Accepted`: a connection whose route
/// was rejected can never reach `TunnelEstablished`, so no tunnel is dialed
/// for an unroutable request.
pub proof fn lemma_tunnel_needs_resolution(s: TunnelState, e: TunnelEvent)
    ensures
        spec_step(s, e) == TunnelState::TunnelEstablished ==> s == TunnelState::RoutingResolved
            && e == TunnelEvent::TunnelOpened,
        spec_step(s, e) == TunnelState::RoutingResolved ==> s == TunnelState::Accepted
            && e == TunnelEvent::RouteResolved,
{
}

/// Whether a connection with no bytes since `last_activity_ms` has been idle
/// for at least the configured window at time `now_ms`.
pub open spec fn spec_idle_expired(now_ms: u64, last_activity_ms: u64, idle_window_ms: u64) -> bool {
    now_ms >= last_activity_ms && now_ms - last_activity_ms >= idle_window_ms
}

/// The idle-timeout decision.
pub fn idle_expired(now_ms: u64, last_activity_ms: u64, idle_window_ms: u64) -> (r: bool)
    ensures
        r == spec_idle_expired(now_ms, last_activity_ms, idle_window_ms),
{
    now_ms >= last_activity_ms && now_ms - last_activity_ms >= idle_window_ms
}

/// When the grace period granted at shutdown runs out. Saturates at the
/// largest representable instant.
pub fn grace_deadline(shutdown_at_ms: u64, grace_ms: u64) -> (r: u64)
    ensures
        shutdown_at_ms + grace_ms <= u64::MAX ==> r == shutdown_at_ms + grace_ms,
        shutdown_at_ms + grace_ms > u64::MAX ==> r == u64::MAX,
{
    if shutdown_at_ms <= u64::MAX - grace_ms {
        shutdown_at_ms + grace_ms
    } else {
        u64::MAX
    }
}

/// One tunneled connection: its lifecycle state and when bytes last moved.
/// Owned exclusively by the task relaying that connection; destroyed when
/// either side closes or errors.
pub struct TunnelSession {
    pub state: TunnelState,
    pub last_activity_ms: u64,
}

impl TunnelSession {
    /// A freshly accepted connection.
    pub fn new(now_ms: u64) -> (r: TunnelSession)
        ensures
            r.state == TunnelState::Accepted,
            r.last_activity_ms == now_ms,
    {
        TunnelSession { state: TunnelState::Accepted, last_activity_ms: now_ms }
    }

    /// Feed an observed event through the lifecycle machine.
    pub fn handle_event(&mut self, e: TunnelEvent)
        ensures
            final(self).state == spec_step(old(self).state, e),
            final(self).last_activity_ms == old(self).last_activity_ms,
    {
        self.state = step(self.state, e);
    }

    /// Bytes moved: the idle clock restarts.
    pub fn on_activity(&mut self, now_ms: u64)
        ensures
            final(self).state == old(self).state,
            final(self).last_activity_ms == now_ms,
    {
        self.last_activity_ms = now_ms;
    }

    /// The periodic idle check. Exactly when the connection is mid-relay and
    /// the idle window has elapsed with no bytes, the connection is
    /// force-closed (a timeout failure); otherwise nothing changes.
    pub fn poll_idle(&mut self, now_ms: u64, idle_window_ms: u64) -> (expired: bool)
        ensures
            expired == (old(self).state == TunnelState::Relaying && spec_idle_expired(
                now_ms,
                old(self).last_activity_ms,
                idle_window_ms,
            )),
            expired ==> final(self).state == spec_step(old(self).state, TunnelEvent::IdleTimeout),
            !expired ==> final(self).state == old(self).state,
            final(self).last_activity_ms == old(self).last_activity_ms,
    {
        if self.state == TunnelState::Relaying && idle_expired(
            now_ms,
            self.last_activity_ms,
            idle_window_ms,
        ) {
            self.state = step(self.state, TunnelEvent::IdleTimeout);
            true
        } else {
            false
        }
    }
}

} // verus!
