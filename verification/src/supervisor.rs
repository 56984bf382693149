use vstd::prelude::*;

verus! {

// ---------------------------------------------------------------------------
// Per-connection lifecycle.
// ---------------------------------------------------------------------------

/// Where one connection stands in its life. `Dropped` (handshake never
/// completed) and `Closed` (ended after being established) are terminal.
#[derive(Clone, Copy, PartialEq, Eq, Structural, Debug)]
pub enum ConnState {
    Accepted,
    Handshaking,
    Established,
    Reading,
    Routed,
    Forwarding,
    Responded,
    Dropped,
    Closed,
}

/// What just happened to a connection, as its driver observes it.
#[derive(Clone, Copy, PartialEq, Eq, Structural, Debug)]
pub enum ConnEvent {
    HandshakeBegun,
    HandshakeSucceeded,
    HandshakeFailed,
    ReadBegun,
    HostResolved,
    ForwardBegun,
    UpstreamResponded,
    ForwardFailed,
    ResponseDelivered,
    ReadFailed,
    PeerClosed,
}

/// What the driver does next for a connection in a given state.
#[derive(Clone, Copy, PartialEq, Eq, Structural, Debug)]
pub enum ConnAction {
    BeginHandshake,
    AwaitHandshake,
    ReadRequest,
    ResolveHost,
    ForwardRequest,
    AwaitUpstream,
    DeliverResponse,
    DiscardNoResponse,
    CloseNoResponse,
}

/// The per-connection transition relation. A handshake failure drops the
/// connection before it is established; any failure after that closes it;
/// a delivered response loops back to reading (keep-alive). An event that a
/// state does not expect closes the connection rather than crashing its
/// driver, and the two terminal states absorb everything.
pub open spec fn conn_step_spec(s: ConnState, e: ConnEvent) -> ConnState {
    match (s, e) {
        (ConnState::Accepted, ConnEvent::HandshakeBegun) => ConnState::Handshaking,
        (ConnState::Handshaking, ConnEvent::HandshakeSucceeded) => ConnState::Established,
        (ConnState::Handshaking, ConnEvent::HandshakeFailed) => ConnState::Dropped,
        (ConnState::Established, ConnEvent::ReadBegun) => ConnState::Reading,
        (ConnState::Reading, ConnEvent::HostResolved) => ConnState::Routed,
        (ConnState::Reading, ConnEvent::ReadFailed) => ConnState::Closed,
        (ConnState::Reading, ConnEvent::PeerClosed) => ConnState::Closed,
        (ConnState::Routed, ConnEvent::ForwardBegun) => ConnState::Forwarding,
        (ConnState::Forwarding, ConnEvent::UpstreamResponded) => ConnState::Responded,
        (ConnState::Forwarding, ConnEvent::ForwardFailed) => ConnState::Closed,
        (ConnState::Responded, ConnEvent::ResponseDelivered) => ConnState::Reading,
        (ConnState::Dropped, _) => ConnState::Dropped,
        (ConnState::Closed, _) => ConnState::Closed,
        (_, _) => ConnState::Closed,
    }
}

/// Steps one connection by one observed event.
pub fn conn_step(s: ConnState, e: ConnEvent) -> (r: ConnState)
    ensures
        r == conn_step_spec(s, e),
{
    match (s, e) {
        (ConnState::Accepted, ConnEvent::HandshakeBegun) => ConnState::Handshaking,
        (ConnState::Handshaking, ConnEvent::HandshakeSucceeded) => ConnState::Established,
        (ConnState::Handshaking, ConnEvent::HandshakeFailed) => ConnState::Dropped,
        (ConnState::Established, ConnEvent::ReadBegun) => ConnState::Reading,
        (ConnState::Reading, ConnEvent::HostResolved) => ConnState::Routed,
        (ConnState::Reading, ConnEvent::ReadFailed) => ConnState::Closed,
        (ConnState::Reading, ConnEvent::PeerClosed) => ConnState::Closed,
        (ConnState::Routed, ConnEvent::ForwardBegun) => ConnState::Forwarding,
        (ConnState::Forwarding, ConnEvent::UpstreamResponded) => ConnState::Responded,
        (ConnState::Forwarding, ConnEvent::ForwardFailed) => ConnState::Closed,
        (ConnState::Responded, ConnEvent::ResponseDelivered) => ConnState::Reading,
        (ConnState::Dropped, _) => ConnState::Dropped,
        (ConnState::Closed, _) => ConnState::Closed,
        (_, _) => ConnState::Closed,
    }
}

/// What the driver does for a connection in each state. A dropped connection
/// is discarded and a closed one is shut, in both cases without a synthesized
/// response: the client sees either a proxied upstream response or an abrupt
/// close.
pub open spec fn conn_action_spec(s: ConnState) -> ConnAction {
    match s {
        ConnState::Accepted => ConnAction::BeginHandshake,
        ConnState::Handshaking => ConnAction::AwaitHandshake,
        ConnState::Established => ConnAction::ReadRequest,
        ConnState::Reading => ConnAction::ResolveHost,
        ConnState::Routed => ConnAction::ForwardRequest,
        ConnState::Forwarding => ConnAction::AwaitUpstream,
        ConnState::Responded => ConnAction::DeliverResponse,
        ConnState::Dropped => ConnAction::DiscardNoResponse,
        ConnState::Closed => ConnAction::CloseNoResponse,
    }
}

/// The driver's next action for a connection in state `s`.
pub fn conn_action(s: ConnState) -> (r: ConnAction)
    ensures
        r == conn_action_spec(s),
{
    match s {
        ConnState::Accepted => ConnAction::BeginHandshake,
        ConnState::Handshaking => ConnAction::AwaitHandshake,
        ConnState::Established => ConnAction::ReadRequest,
        ConnState::Reading => ConnAction::ResolveHost,
        ConnState::Routed => ConnAction::ForwardRequest,
        ConnState::Forwarding => ConnAction::AwaitUpstream,
        ConnState::Responded => ConnAction::DeliverResponse,
        ConnState::Dropped => ConnAction::DiscardNoResponse,
        ConnState::Closed => ConnAction::CloseNoResponse,
    }
}

// ---------------------------------------------------------------------------
// Supervision policy.
// ---------------------------------------------------------------------------

/// The three long-lived services the supervisor watches. Losing any of them
/// breaks the external contract: no TLS endpoint, no fallback, or no static
/// assets.
#[derive(Clone, Copy, PartialEq, Eq, Structural, Debug)]
pub enum ServiceKind {
    MainProxy,
    FallbackService,
    StaticFiles,
}

/// Whether the end of a single connection, in whatever terminal state, is
/// fatal to the process. It never is: connections fail alone.
pub open spec fn connection_end_fatal_spec(outcome: ConnState) -> bool {
    false
}

/// The supervisor's verdict on a finished connection: carry on accepting.
pub fn connection_end_fatal(outcome: ConnState) -> (r: bool)
    ensures
        r == connection_end_fatal_spec(outcome),
{
    false
}

/// Whether the termination of a structural service is fatal to the process.
/// It always is.
pub open spec fn service_exit_fatal_spec(service: ServiceKind) -> bool {
    true
}

/// The supervisor's verdict on a terminated structural service: stop the
/// process and report.
pub fn service_exit_fatal(service: ServiceKind) -> (r: bool)
    ensures
        r == service_exit_fatal_spec(service),
{
    true
}

/// Whether the accept loop is still accepting after a sequence of finished
/// connections: it stops only on an outcome whose end is fatal.
pub open spec fn accepting_after(outcomes: Seq<ConnState>) -> bool
    decreases outcomes.len(),
{
    if outcomes.len() == 0 {
        true
    } else {
        accepting_after(outcomes.drop_last()) && !connection_end_fatal_spec(outcomes.last())
    }
}

// ---------------------------------------------------------------------------
// Isolation laws.
// ---------------------------------------------------------------------------

/// Law: a TLS handshake failure concerns its own connection alone. The
/// connection lands in `Dropped`, stays there whatever happens later, is
/// discarded without a response — and after any sequence of finished
/// connections, handshake failures included, the accept loop is still
/// accepting.
pub proof fn lemma_handshake_failure_isolated(outcomes: Seq<ConnState>, later: ConnEvent)
    ensures
        conn_step_spec(ConnState::Handshaking, ConnEvent::HandshakeFailed) == ConnState::Dropped,
        conn_step_spec(ConnState::Dropped, later) == ConnState::Dropped,
        conn_action_spec(ConnState::Dropped) == ConnAction::DiscardNoResponse,
        accepting_after(outcomes),
    decreases outcomes.len(),
{
    if outcomes.len() > 0 {
        lemma_handshake_failure_isolated(outcomes.drop_last(), later);
    }
}

/// Law: when the upstream cannot be reached, the connection is closed without
/// a response — no gateway error is synthesized — and stays closed.
pub proof fn lemma_forward_failure_closes_without_response(later: ConnEvent)
    ensures
        conn_step_spec(ConnState::Forwarding, ConnEvent::ForwardFailed) == ConnState::Closed,
        conn_step_spec(ConnState::Closed, later) == ConnState::Closed,
        conn_action_spec(ConnState::Closed) == ConnAction::CloseNoResponse,
{
}

} // verus!
