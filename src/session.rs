//! The server side of one connection as a state machine: the decisions of the
//! authentication handshake and the control-session lifecycle, from state and
//! event to next state and the action the caller performs.
use vstd::prelude::*;
use crate::protocol::{AuthResponse, HANDSHAKE};
use crate::registry::{auth_outcome, lossy_utf8, IdentityRegistry};
use crate::protocol::strip_padding;
use crate::admission::{admits, Admission};

verus! {

/// Where a connection stands.
#[derive(Clone, Copy, Debug, PartialEq, Eq, Structural)]
pub enum Phase {
    /// Waiting for the credential frame.
    Authenticating,
    /// Authenticated; waiting for the handshake marker or a correlation id.
    Handshaking,
    /// Asked for the handshake; waiting for the admission decision.
    Admitting,
    /// Admitted and holding a slot; waiting for the ephemeral listener.
    Binding,
    /// A control session with a public listener on `port`.
    Active { port: u16 },
    /// Finished; every further event is ignored.
    Terminated,
}

/// What the caller observed.
#[derive(Clone, Copy, Debug, PartialEq, Eq, Structural)]
pub enum SessionEvent {
    /// The credential frame was read and checked.
    Credential(AuthResponse),
    /// The 128-bit value after a successful authentication was read.
    Marker(u128),
    /// The admission controller answered.
    Admitted(bool),
    /// The ephemeral listener is bound on this port.
    ListenerBound(u16),
    /// No ephemeral listener could be bound.
    BindFailed,
    /// An external connection was accepted and registered under this id.
    Accepted(u128),
    /// Writing to the control channel failed.
    NotifyFailed,
    /// The peer closed the connection or a read on it failed.
    PeerClosed,
}

/// What the caller does next.
#[derive(Clone, Copy, Debug, PartialEq, Eq, Structural)]
pub enum SessionAction {
    /// Send this status byte and keep the connection.
    SendStatus(AuthResponse),
    /// Send the failure status byte and close the connection.
    Refuse,
    /// Ask the admission controller for a slot.
    RequestAdmission,
    /// Bind an ephemeral listener.
    BindListener,
    /// Send this port on the control channel; `0` means admission was refused.
    SendPort(u16),
    /// Send this correlation id on the control channel.
    SendId(u128),
    /// Claim the pending stream under this id and relay to it.
    RelayData(u128),
    /// Close the connection.
    Close,
    /// Stop the accept loop, close the listener and give back the slot.
    TearDown,
    /// Nothing to do.
    Ignore,
}

/// The transition table of a connection.
pub open spec fn next(p: Phase, e: SessionEvent) -> (Phase, SessionAction) {
    match (p, e) {
        (Phase::Authenticating, SessionEvent::Credential(AuthResponse::Success)) => (
            Phase::Handshaking,
            SessionAction::SendStatus(AuthResponse::Success),
        ),
        (Phase::Authenticating, SessionEvent::Credential(AuthResponse::Failure)) => (
            Phase::Terminated,
            SessionAction::Refuse,
        ),
        (Phase::Handshaking, SessionEvent::Marker(v)) => if v == HANDSHAKE {
            (Phase::Admitting, SessionAction::RequestAdmission)
        } else {
            (Phase::Terminated, SessionAction::RelayData(v))
        },
        (Phase::Admitting, SessionEvent::Admitted(ok)) => if ok {
            (Phase::Binding, SessionAction::BindListener)
        } else {
            (Phase::Terminated, SessionAction::SendPort(0))
        },
        (Phase::Binding, SessionEvent::ListenerBound(port)) => if port != 0 {
            (Phase::Active { port }, SessionAction::SendPort(port))
        } else {
            (Phase::Terminated, SessionAction::TearDown)
        },
        (Phase::Active { port }, SessionEvent::Accepted(id)) => (
            Phase::Active { port },
            SessionAction::SendId(id),
        ),
        (Phase::Terminated, _) => (Phase::Terminated, SessionAction::Ignore),
        (Phase::Binding, _) => (Phase::Terminated, SessionAction::TearDown),
        (Phase::Active { .. }, _) => (Phase::Terminated, SessionAction::TearDown),
        _ => (Phase::Terminated, SessionAction::Close),
    }
}

/// Whether a connection in phase `p` holds an admission slot.
pub open spec fn holds_slot(p: Phase) -> bool {
    p is Binding || p is Active
}

impl Phase {
    /// The phase of a newly accepted connection.
    pub fn start() -> (r: Phase)
        ensures
            r == Phase::Authenticating,
    {
        Phase::Authenticating
    }

    /// Takes one event: returns the next phase and what to do.
    pub fn step(self, e: SessionEvent) -> (r: (Phase, SessionAction))
        ensures
            r == next(self, e),
    {
        match self {
            Phase::Authenticating => match e {
                SessionEvent::Credential(AuthResponse::Success) => (
                    Phase::Handshaking,
                    SessionAction::SendStatus(AuthResponse::Success),
                ),
                SessionEvent::Credential(AuthResponse::Failure) => (
                    Phase::Terminated,
                    SessionAction::Refuse,
                ),
                _ => (Phase::Terminated, SessionAction::Close),
            },
            Phase::Handshaking => match e {
                SessionEvent::Marker(v) => if v == HANDSHAKE {
                    (Phase::Admitting, SessionAction::RequestAdmission)
                } else {
                    (Phase::Terminated, SessionAction::RelayData(v))
                },
                _ => (Phase::Terminated, SessionAction::Close),
            },
            Phase::Admitting => match e {
                SessionEvent::Admitted(true) => (Phase::Binding, SessionAction::BindListener),
                SessionEvent::Admitted(false) => (Phase::Terminated, SessionAction::SendPort(0)),
                _ => (Phase::Terminated, SessionAction::Close),
            },
            Phase::Binding => match e {
                SessionEvent::ListenerBound(port) if port != 0 => (
                    Phase::Active { port },
                    SessionAction::SendPort(port),
                ),
                _ => (Phase::Terminated, SessionAction::TearDown),
            },
            Phase::Active { port } => match e {
                SessionEvent::Accepted(id) => (Phase::Active { port }, SessionAction::SendId(id)),
                _ => (Phase::Terminated, SessionAction::TearDown),
            },
            Phase::Terminated => (Phase::Terminated, SessionAction::Ignore),
        }
    }

    /// Whether this phase is a live control session.
    pub fn is_active(self) -> (r: bool)
        ensures
            r == self is Active,
    {
        match self {
            Phase::Active { .. } => true,
            _ => false,
        }
    }
}

/// A client with a registered key that sends the handshake marker while a
/// slot is free is told success, admitted, and reaches an active session on
/// the nonzero port it is sent; when no slot is free it is sent port `0`, no
/// listener is bound and the session ends.
pub proof fn lemma_handshake_outcome(
    reg: IdentityRegistry,
    frame: Seq<u8>,
    adm: Admission,
    port: u16,
)
    requires
        reg@.contains(lossy_utf8(strip_padding(frame))),
        port != 0,
    ensures
        ({
            let (p1, a1) = next(Phase::Authenticating, SessionEvent::Credential(auth_outcome(reg@, frame)));
            let (p2, a2) = next(p1, SessionEvent::Marker(HANDSHAKE));
            let (p3, a3) = next(p2, SessionEvent::Admitted(admits(adm.in_use(), adm.limit())));
            &&& a1 == SessionAction::SendStatus(AuthResponse::Success)
            &&& a2 == SessionAction::RequestAdmission
            &&& admits(adm.in_use(), adm.limit()) ==> {
                let (p4, a4) = next(p3, SessionEvent::ListenerBound(port));
                &&& a3 == SessionAction::BindListener
                &&& p4 == Phase::Active { port }
                &&& a4 == SessionAction::SendPort(port)
                &&& holds_slot(p4)
            }
            &&& !admits(adm.in_use(), adm.limit()) ==> {
                &&& a3 == SessionAction::SendPort(0)
                &&& p3 == Phase::Terminated
                &&& forall|e: SessionEvent| #[trigger] next(p3, e) == (Phase::Terminated, SessionAction::Ignore)
            }
        }),
{
}

/// A client whose key is not registered is refused at once: the failure
/// status is sent, the connection closes, and no later event binds a
/// listener, admits it or registers anything.
pub proof fn lemma_unknown_key_refused(reg: IdentityRegistry, frame: Seq<u8>)
    requires
        !reg@.contains(lossy_utf8(strip_padding(frame))),
    ensures
        next(Phase::Authenticating, SessionEvent::Credential(auth_outcome(reg@, frame))) == (
            Phase::Terminated,
            SessionAction::Refuse,
        ),
        forall|e: SessionEvent| #[trigger] next(Phase::Terminated, e) == (
            Phase::Terminated,
            SessionAction::Ignore,
        ),
{
}

/// Once terminated, a connection stays terminated and does nothing more, so
/// its resources are released at most once.
pub proof fn lemma_terminated_absorbs(e: SessionEvent)
    ensures
        next(Phase::Terminated, e) == (Phase::Terminated, SessionAction::Ignore),
{
}

/// Giving back a slot happens only when leaving a phase that holds one.
pub proof fn lemma_teardown_only_with_slot(p: Phase, e: SessionEvent)
    ensures
        next(p, e).1 == SessionAction::TearDown ==> holds_slot(p) && next(p, e).0
            == Phase::Terminated,
        holds_slot(next(p, e).0) ==> holds_slot(p) || (p is Admitting && e == SessionEvent::Admitted(true)),
{
}

} // verus!
