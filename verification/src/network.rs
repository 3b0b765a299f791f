//! The session with one peer, as a state machine without any I/O of its own.
//!
//! A driver owns the byte stream. It asks the session what to do, does it, and
//! reports what happened as an [`Event`]; the session answers with the next
//! [`Action`]. Each phase of the session has its own transition function, and
//! [`Session::step`] picks the one whose turn it is.

use crate::config::{DISCONNECT_CLIENT_QUITTING, KEY_AGREEMENT_TIMEOUT, TIMEOUT};
use crate::errors::{timeout_text, CustomError, ErrorModel};
use std::io;
use vstd::prelude::*;

verus! {

/// Where a session stands.
#[derive(Clone, Copy, Debug, PartialEq, Eq, Structural)]
pub enum SessionState {
    /// Nothing has been attempted yet.
    Disconnected,
    /// The byte stream is being opened.
    Connecting,
    /// The stream is open; keys are being agreed, then the greeting goes out.
    KeyAgreementInProgress,
    /// Our greeting has been handed to the transport.
    GreetingSent,
    /// One inbound frame is awaited.
    AwaitingPeerGreeting,
    /// The peer has answered with a valid frame.
    Established,
    /// Our disconnect notice is on its way.
    Disconnecting,
    /// The session ended in order.
    Closed,
    /// The session ended early; the session holds the reason.
    Failed,
}

/// The deadlines of a session, in seconds.
#[derive(Clone, Copy, Debug, PartialEq, Eq, Structural)]
pub struct Timeouts {
    /// For opening the byte stream.
    pub connect: u64,
    /// For the key agreement.
    pub key_agreement: u64,
    /// For the peer's first frame.
    pub receive: u64,
}

/// What the driver has to do next.
#[derive(Clone, Copy, Debug, PartialEq, Eq, Structural)]
pub enum Action {
    /// Open the byte stream to the peer within `timeout_secs`.
    Connect { timeout_secs: u64 },
    /// Resolve the peer's identity and run the key agreement within `timeout_secs`.
    KeyAgreement { timeout_secs: u64 },
    /// Send our greeting as one frame.
    SendGreeting,
    /// Wait up to `timeout_secs` for one frame and decode it.
    Receive { timeout_secs: u64 },
    /// Send the disconnect notice with the reason code `reason`.
    SendDisconnect { reason: u8 },
    /// Nothing to perform; report [`Event::Advance`].
    Continue,
    /// Close the byte stream and drop the session keys.
    Close,
    /// The session is over.
    Stop,
}

/// What the driver reports back.
#[derive(Debug)]
pub enum Event {
    /// The driver is ready for the next action.
    Advance,
    /// The byte stream is open.
    Connected,
    /// The connect deadline passed.
    ConnectTimedOut,
    /// Opening the byte stream failed.
    ConnectFailed(io::Error),
    /// The node record names no usable peer; the text says why.
    RecordRejected(String),
    /// The key agreement completed and the session keys exist.
    SecretsDerived,
    /// The key agreement deadline passed.
    KeyAgreementTimedOut,
    /// A key agreement payload from the peer was malformed or oversized.
    KeyAgreementMalformed,
    /// The peer's signature or identity did not match the one it was called by.
    KeyAgreementUnauthenticated,
    /// Reading or writing broke during the key agreement.
    KeyAgreementBroken(io::Error),
    /// The key agreement ended without keys for a cause that is none of the above.
    KeyAgreementFailed,
    /// The frame was handed to the transport.
    Sent,
    /// The frame could not be handed to the transport.
    SendFailed,
    /// A frame arrived, passed its integrity checks and decoded to a message.
    MessageReceived,
    /// The receive deadline passed.
    ReceiveTimedOut,
    /// The stream ended before a frame arrived.
    StreamEnded,
    /// Reading the frame failed.
    ReceiveFailed(io::Error),
    /// A frame arrived but failed an integrity check, of its header or its body.
    FrameRejected,
    /// A frame arrived but its payload is no message.
    DecodeFailed(alloy_rlp::Error),
}

/// How far a session has come. Unlike [`SessionState`] it tells the two halves
/// of the key agreement apart and holds the reason of a failure, so that every
/// value of it is a session that can occur.
#[derive(Debug)]
enum Progress {
    Disconnected,
    Connecting,
    AgreeingKeys,
    SendingGreeting,
    GreetingSent,
    AwaitingPeerGreeting,
    Established,
    Disconnecting,
    Closed,
    Failed(CustomError),
}

/// One session with one peer.
#[derive(Debug)]
pub struct Session {
    progress: Progress,
    timeouts: Timeouts,
}

/// The mathematical content of a [`Session`].
pub ghost struct SessionModel {
    /// Where the session stands.
    pub state: SessionState,
    /// Whether the session keys exist.
    pub secrets_derived: bool,
    /// Why the session failed, if it did.
    pub failure: Option<ErrorModel>,
    /// The deadlines it was created with.
    pub timeouts: Timeouts,
}

/// The text a missed connect deadline is reported with.
pub open spec fn connect_timeout_text() -> Seq<char> {
    "Connection timed out"@
}

impl SessionState {
    /// Closed and Failed: nothing follows them.
    pub open spec fn is_terminal(self) -> bool {
        self is Closed || self is Failed
    }

    /// Whether the byte stream is open while the session is in this state.
    pub open spec fn transport_open(self) -> bool {
        self is KeyAgreementInProgress || self is GreetingSent || self is AwaitingPeerGreeting
            || self is Established || self is Disconnecting
    }

    /// Position in the order a session runs through; Failed ranks last.
    pub open spec fn rank(self) -> nat {
        match self {
            SessionState::Disconnected => 0,
            SessionState::Connecting => 1,
            SessionState::KeyAgreementInProgress => 2,
            SessionState::GreetingSent => 3,
            SessionState::AwaitingPeerGreeting => 4,
            SessionState::Established => 5,
            SessionState::Disconnecting => 6,
            SessionState::Closed => 7,
            SessionState::Failed => 8,
        }
    }
}

impl Action {
    /// Whether performing the action puts a frame on the wire or takes one off it.
    pub open spec fn moves_frame(self) -> bool {
        self is SendGreeting || self is Receive || self is SendDisconnect
    }

    /// Whether `event` reports an outcome of performing this action.
    pub open spec fn is_answered_by(self, event: Event) -> bool {
        match self {
            Action::Continue => event is Advance,
            Action::Connect { .. } => event is Connected || event is ConnectTimedOut || event
                is ConnectFailed,
            Action::KeyAgreement { .. } => event is RecordRejected || event is SecretsDerived
                || event is KeyAgreementTimedOut || event is KeyAgreementMalformed || event
                is KeyAgreementUnauthenticated || event is KeyAgreementBroken || event
                is KeyAgreementFailed,
            Action::SendGreeting => event is Sent || event is SendFailed,
            Action::Receive { .. } => event is MessageReceived || event is ReceiveTimedOut
                || event is StreamEnded || event is ReceiveFailed || event is FrameRejected
                || event is DecodeFailed,
            Action::SendDisconnect { .. } => event is Sent || event is SendFailed,
            Action::Close => false,
            Action::Stop => false,
        }
    }
}

impl SessionModel {
    /// A session that has not started.
    pub open spec fn initial(timeouts: Timeouts) -> SessionModel {
        SessionModel {
            state: SessionState::Disconnected,
            secrets_derived: false,
            failure: None,
            timeouts,
        }
    }

    /// What holds of every session: a reason is recorded exactly when it failed,
    /// and the session keys exist from the key agreement until the stream closes.
    pub open spec fn wf(self) -> bool {
        &&& self.state is Failed <==> self.failure is Some
        &&& self.secrets_derived ==> self.state.transport_open()
        &&& self.state.rank() >= 3 && self.state.transport_open() ==> self.secrets_derived
    }

    /// Opening the stream and agreeing on keys.
    pub open spec fn in_connection_phase(self) -> bool {
        self.state is Disconnected || self.state is Connecting || (self.state
            is KeyAgreementInProgress && !self.secrets_derived)
    }

    /// Sending our greeting.
    pub open spec fn in_greeting_phase(self) -> bool {
        self.state is KeyAgreementInProgress && self.secrets_derived
    }

    /// Waiting for the peer's frame.
    pub open spec fn in_receive_phase(self) -> bool {
        self.state is GreetingSent || self.state is AwaitingPeerGreeting
    }

    /// Taking leave.
    pub open spec fn in_disconnect_phase(self) -> bool {
        self.state is Established || self.state is Disconnecting
    }

    /// The action whose outcome the session is waiting for.
    pub open spec fn awaited(self) -> Action {
        match self.state {
            SessionState::Disconnected => Action::Continue,
            SessionState::Connecting => Action::Connect { timeout_secs: self.timeouts.connect },
            SessionState::KeyAgreementInProgress => if self.secrets_derived {
                Action::SendGreeting
            } else {
                Action::KeyAgreement { timeout_secs: self.timeouts.key_agreement }
            },
            SessionState::GreetingSent => Action::Continue,
            SessionState::AwaitingPeerGreeting => Action::Receive {
                timeout_secs: self.timeouts.receive,
            },
            SessionState::Established => Action::Continue,
            SessionState::Disconnecting => Action::SendDisconnect {
                reason: DISCONNECT_CLIENT_QUITTING,
            },
            SessionState::Closed => Action::Stop,
            SessionState::Failed => Action::Stop,
        }
    }

    /// The session moved on to `state`, keeping its keys, and asks for `action`.
    pub open spec fn moved(self, state: SessionState, action: Action) -> (SessionModel, Action) {
        (SessionModel { state, ..self }, action)
    }

    /// The event answers nothing the session waits for: nothing changes, and
    /// the awaited action is asked for again.
    pub open spec fn ignored(self) -> (SessionModel, Action) {
        (self, self.awaited())
    }

    /// The session failed for `reason`: the keys are dropped, and the stream is
    /// closed if it was open.
    pub open spec fn failed(self, reason: ErrorModel) -> (SessionModel, Action) {
        (
            SessionModel {
                state: SessionState::Failed,
                secrets_derived: false,
                failure: Some(reason),
                ..self
            },
            if self.state.transport_open() {
                Action::Close
            } else {
                Action::Stop
            },
        )
    }

    /// The session closed in order: the keys are dropped and the stream is closed.
    pub open spec fn closed(self) -> (SessionModel, Action) {
        (SessionModel { state: SessionState::Closed, secrets_derived: false, ..self }, Action::Close)
    }

    /// Transitions of the connection phase: opening the stream, then the key agreement.
    pub open spec fn connection_transition(self, event: Event) -> (SessionModel, Action) {
        if self.state is Disconnected {
            match event {
                Event::Advance => self.moved(
                    SessionState::Connecting,
                    Action::Connect { timeout_secs: self.timeouts.connect },
                ),
                _ => self.ignored(),
            }
        } else if self.state is Connecting {
            match event {
                Event::Connected => self.moved(
                    SessionState::KeyAgreementInProgress,
                    Action::KeyAgreement { timeout_secs: self.timeouts.key_agreement },
                ),
                Event::ConnectTimedOut => self.failed(
                    ErrorModel::TcpConnectTimeOut(connect_timeout_text()),
                ),
                Event::ConnectFailed(cause) => self.failed(ErrorModel::TcpConnect(cause)),
                _ => self.ignored(),
            }
        } else if self.state is KeyAgreementInProgress && !self.secrets_derived {
            match event {
                Event::RecordRejected(text) => self.failed(ErrorModel::NodeRecordCreation(text@)),
                Event::SecretsDerived => (
                    SessionModel { secrets_derived: true, ..self },
                    Action::SendGreeting,
                ),
                Event::KeyAgreementTimedOut => self.failed(
                    ErrorModel::TcpConnectTimeOut(timeout_text()),
                ),
                Event::KeyAgreementMalformed => self.failed(ErrorModel::HandshakeMalformed),
                Event::KeyAgreementUnauthenticated => self.failed(
                    ErrorModel::HandshakeAuthentication,
                ),
                Event::KeyAgreementBroken(cause) => self.failed(ErrorModel::TcpConnect(cause)),
                Event::KeyAgreementFailed => self.failed(ErrorModel::ECIESStreamCreation),
                _ => self.ignored(),
            }
        } else {
            self.ignored()
        }
    }

    /// Transitions of the greeting phase: our greeting goes out.
    pub open spec fn greeting_transition(self, event: Event) -> (SessionModel, Action) {
        if self.in_greeting_phase() {
            match send_outcome(event) {
                Some(Ok(())) => self.moved(SessionState::GreetingSent, Action::Continue),
                Some(Err(reason)) => self.failed(reason),
                None => self.ignored(),
            }
        } else {
            self.ignored()
        }
    }

    /// Transitions of the receive phase: exactly one frame is awaited, and any
    /// message in it is welcome.
    pub open spec fn receive_transition(self, event: Event) -> (SessionModel, Action) {
        if self.state is GreetingSent {
            match event {
                Event::Advance => self.moved(
                    SessionState::AwaitingPeerGreeting,
                    Action::Receive { timeout_secs: self.timeouts.receive },
                ),
                _ => self.ignored(),
            }
        } else if self.state is AwaitingPeerGreeting {
            match event {
                Event::MessageReceived => self.moved(SessionState::Established, Action::Continue),
                Event::ReceiveTimedOut => self.failed(ErrorModel::TcpConnectTimeOut(timeout_text())),
                Event::StreamEnded => self.failed(ErrorModel::ReceiveMessage),
                Event::ReceiveFailed(cause) => self.failed(ErrorModel::TcpConnect(cause)),
                Event::FrameRejected => self.failed(ErrorModel::FrameAuthentication),
                Event::DecodeFailed(cause) => self.failed(ErrorModel::MessageDecode(cause)),
                _ => self.ignored(),
            }
        } else {
            self.ignored()
        }
    }

    /// Transitions of the disconnect phase: the notice is sent on a best-effort
    /// basis, and the session closes whether or not it went out.
    pub open spec fn disconnect_transition(self, event: Event) -> (SessionModel, Action) {
        if self.state is Established {
            match event {
                Event::Advance => self.moved(
                    SessionState::Disconnecting,
                    Action::SendDisconnect { reason: DISCONNECT_CLIENT_QUITTING },
                ),
                _ => self.ignored(),
            }
        } else if self.state is Disconnecting {
            match send_outcome(event) {
                Some(_) => self.closed(),
                None => self.ignored(),
            }
        } else {
            self.ignored()
        }
    }

    /// Transitions from the sent greeting to the close: receive, then disconnect.
    pub open spec fn handshake_transition(self, event: Event) -> (SessionModel, Action) {
        if self.in_greeting_phase() {
            self.greeting_transition(event)
        } else if self.in_receive_phase() {
            self.receive_transition(event)
        } else if self.in_disconnect_phase() {
            self.disconnect_transition(event)
        } else {
            self.ignored()
        }
    }

    /// The whole machine: each state with the transitions of its phase.
    pub open spec fn transition(self, event: Event) -> (SessionModel, Action) {
        if self.in_connection_phase() {
            self.connection_transition(event)
        } else {
            self.handshake_transition(event)
        }
    }
}

/// What an event says about a frame that was to be sent: `None` if it says nothing.
pub open spec fn send_outcome(event: Event) -> Option<Result<(), ErrorModel>> {
    match event {
        Event::Sent => Some(Ok(())),
        Event::SendFailed => Some(Err(ErrorModel::SendMessage)),
        _ => None,
    }
}

impl Default for Timeouts {
    fn default() -> (timeouts: Timeouts)
        ensures
            timeouts == (Timeouts {
                connect: TIMEOUT,
                key_agreement: KEY_AGREEMENT_TIMEOUT,
                receive: TIMEOUT,
            }),
    {
        Timeouts { connect: TIMEOUT, key_agreement: KEY_AGREEMENT_TIMEOUT, receive: TIMEOUT }
    }
}

impl Progress {
    /// The state that this much progress shows as.
    spec fn state(self) -> SessionState {
        match self {
            Progress::Disconnected => SessionState::Disconnected,
            Progress::Connecting => SessionState::Connecting,
            Progress::AgreeingKeys => SessionState::KeyAgreementInProgress,
            Progress::SendingGreeting => SessionState::KeyAgreementInProgress,
            Progress::GreetingSent => SessionState::GreetingSent,
            Progress::AwaitingPeerGreeting => SessionState::AwaitingPeerGreeting,
            Progress::Established => SessionState::Established,
            Progress::Disconnecting => SessionState::Disconnecting,
            Progress::Closed => SessionState::Closed,
            Progress::Failed(_) => SessionState::Failed,
        }
    }

    /// Whether the session keys exist at this point.
    spec fn secrets_derived(self) -> bool {
        self is SendingGreeting || self is GreetingSent || self is AwaitingPeerGreeting || self
            is Established || self is Disconnecting
    }

    /// Why the session failed, if it did.
    spec fn failure(self) -> Option<ErrorModel> {
        match self {
            Progress::Failed(reason) => Some(reason@),
            _ => None,
        }
    }
}

impl View for Session {
    type V = SessionModel;

    closed spec fn view(&self) -> SessionModel {
        SessionModel {
            state: self.progress.state(),
            secrets_derived: self.progress.secrets_derived(),
            failure: self.progress.failure(),
            timeouts: self.timeouts,
        }
    }
}

impl Session {
    /// A session that has not started, with the given deadlines.
    pub fn new(timeouts: Timeouts) -> (session: Session)
        ensures
            session@ == SessionModel::initial(timeouts),
    {
        Session { progress: Progress::Disconnected, timeouts }
    }

    /// Every session is well formed.
    pub proof fn lemma_well_formed(&self)
        ensures
            self@.wf(),
    {
    }

    /// Where the session stands.
    pub fn state(&self) -> (state: SessionState)
        ensures
            state == self@.state,
    {
        match self.progress {
            Progress::Disconnected => SessionState::Disconnected,
            Progress::Connecting => SessionState::Connecting,
            Progress::AgreeingKeys => SessionState::KeyAgreementInProgress,
            Progress::SendingGreeting => SessionState::KeyAgreementInProgress,
            Progress::GreetingSent => SessionState::GreetingSent,
            Progress::AwaitingPeerGreeting => SessionState::AwaitingPeerGreeting,
            Progress::Established => SessionState::Established,
            Progress::Disconnecting => SessionState::Disconnecting,
            Progress::Closed => SessionState::Closed,
            Progress::Failed(_) => SessionState::Failed,
        }
    }

    /// Whether the session keys exist.
    pub fn secrets_derived(&self) -> (derived: bool)
        ensures
            derived == self@.secrets_derived,
    {
        match self.progress {
            Progress::SendingGreeting => true,
            Progress::GreetingSent => true,
            Progress::AwaitingPeerGreeting => true,
            Progress::Established => true,
            Progress::Disconnecting => true,
            _ => false,
        }
    }

    /// Whether the byte stream is open.
    pub fn transport_open(&self) -> (open: bool)
        ensures
            open == self@.state.transport_open(),
    {
        match self.progress {
            Progress::AgreeingKeys => true,
            Progress::SendingGreeting => true,
            Progress::GreetingSent => true,
            Progress::AwaitingPeerGreeting => true,
            Progress::Established => true,
            Progress::Disconnecting => true,
            _ => false,
        }
    }

    /// The deadlines the session was created with.
    pub fn timeouts(&self) -> (timeouts: Timeouts)
        ensures
            timeouts == self@.timeouts,
    {
        self.timeouts
    }

    /// Why the session failed, if it did.
    pub fn failure(&self) -> (failure: Option<&CustomError>)
        ensures
            match failure {
                Some(reason) => self@.failure == Some(reason@),
                None => self@.failure is None,
            },
    {
        match &self.progress {
            Progress::Failed(reason) => Some(reason),
            _ => None,
        }
    }

    /// The action whose outcome the session is waiting for.
    pub fn awaited(&self) -> (action: Action)
        ensures
            action == self@.awaited(),
    {
        match self.progress {
            Progress::Disconnected => Action::Continue,
            Progress::Connecting => Action::Connect { timeout_secs: self.timeouts.connect },
            Progress::AgreeingKeys => Action::KeyAgreement {
                timeout_secs: self.timeouts.key_agreement,
            },
            Progress::SendingGreeting => Action::SendGreeting,
            Progress::GreetingSent => Action::Continue,
            Progress::AwaitingPeerGreeting => Action::Receive {
                timeout_secs: self.timeouts.receive,
            },
            Progress::Established => Action::Continue,
            Progress::Disconnecting => Action::SendDisconnect { reason: DISCONNECT_CLIENT_QUITTING },
            Progress::Closed => Action::Stop,
            Progress::Failed(_) => Action::Stop,
        }
    }

    /// Ends the session early for `reason`.
    fn fail(&mut self, reason: CustomError) -> (action: Action)
        ensures
            (final(self)@, action) == old(self)@.failed(reason@),
    {
        let action = if self.transport_open() {
            Action::Close
        } else {
            Action::Stop
        };
        self.progress = Progress::Failed(reason);
        action
    }

    /// Feeds one event to the session and returns what the driver is to do
    /// next: the action of the transition that the event causes.
    pub fn step(&mut self, event: Event) -> (action: Action)
        ensures
            (final(self)@, action) == old(self)@.transition(event),
    {
        match self.progress {
            Progress::Disconnected | Progress::Connecting | Progress::AgreeingKeys => {
                create_client_stream(self, event)
            },
            _ => handshake(self, event),
        }
    }

    /// How the session ended: `None` while it is still running, `Ok` after a
    /// clean close, the reason after a failure.
    pub fn finish(self) -> (outcome: Option<Result<(), CustomError>>)
        ensures
            match outcome {
                None => !self@.state.is_terminal(),
                Some(Ok(_)) => self@.state is Closed,
                Some(Err(reason)) => self@.state is Failed && self@.failure == Some(reason@),
            },
    {
        match self.progress {
            Progress::Closed => Some(Ok(())),
            Progress::Failed(reason) => Some(Err(reason)),
            _ => None,
        }
    }
}

/// The connection phase: opens the byte stream within the connect deadline,
/// then runs the key agreement within its own. A passed deadline, a refused
/// connection, an unusable node record, a malformed payload, a failed
/// authentication and a broken stream each end the session with their own reason. Outside this phase the event is ignored.
pub fn create_client_stream(session: &mut Session, event: Event) -> (action: Action)
    ensures
        (final(session)@, action) == old(session)@.connection_transition(event),
{
    match session.progress {
        Progress::Disconnected => match event {
            Event::Advance => {
                session.progress = Progress::Connecting;
                Action::Connect { timeout_secs: session.timeouts.connect }
            },
            _ => session.awaited(),
        },
        Progress::Connecting => match event {
            Event::Connected => {
                session.progress = Progress::AgreeingKeys;
                Action::KeyAgreement { timeout_secs: session.timeouts.key_agreement }
            },
            Event::ConnectTimedOut => session.fail(
                CustomError::TcpConnectTimeOut("Connection timed out".to_string()),
            ),
            Event::ConnectFailed(cause) => session.fail(CustomError::from(cause)),
            _ => session.awaited(),
        },
        Progress::AgreeingKeys => match event {
            Event::RecordRejected(text) => session.fail(CustomError::NodeRecordCreation(text)),
            Event::SecretsDerived => {
                session.progress = Progress::SendingGreeting;
                Action::SendGreeting
            },
            Event::KeyAgreementTimedOut => session.fail(
                CustomError::TcpConnectTimeOut("Timeout".to_string()),
            ),
            Event::KeyAgreementMalformed => session.fail(CustomError::HandshakeMalformed),
            Event::KeyAgreementUnauthenticated => session.fail(
                CustomError::HandshakeAuthentication,
            ),
            Event::KeyAgreementBroken(cause) => session.fail(CustomError::from(cause)),
            Event::KeyAgreementFailed => session.fail(CustomError::ECIESStreamCreation),
            _ => session.awaited(),
        },
        _ => session.awaited(),
    }
}

/// Reads an event as the outcome of handing a frame to the transport: `Ok` if
/// it went out, the send failure if it did not, `None` if the event is about
/// something else.
pub fn send_message(event: &Event) -> (outcome: Option<Result<(), CustomError>>)
    ensures
        match outcome {
            Some(Ok(_)) => send_outcome(*event) == Some(Ok::<(), ErrorModel>(())),
            Some(Err(reason)) => send_outcome(*event) == Some(Err::<(), ErrorModel>(reason@)),
            None => send_outcome(*event) is None,
        },
{
    match event {
        Event::Sent => Some(Ok(())),
        Event::SendFailed => Some(Err(CustomError::SendMessage)),
        _ => None,
    }
}

/// The greeting phase: once our greeting is out the session has sent it; if it
/// could not be sent the session fails. Outside this phase the event is ignored.
pub fn send_hello_message(session: &mut Session, event: Event) -> (action: Action)
    ensures
        (final(session)@, action) == old(session)@.greeting_transition(event),
{
    match session.progress {
        Progress::SendingGreeting => match send_message(&event) {
            Some(Ok(())) => {
                session.progress = Progress::GreetingSent;
                Action::Continue
            },
            Some(Err(reason)) => session.fail(reason),
            None => session.awaited(),
        },
        _ => session.awaited(),
    }
}

/// The disconnect phase: the notice is sent on a best-effort basis, and the
/// session closes whether or not it went out. Outside this phase the event is
/// ignored.
pub fn send_disconnect_message(session: &mut Session, event: Event) -> (action: Action)
    ensures
        (final(session)@, action) == old(session)@.disconnect_transition(event),
{
    match session.progress {
        Progress::Established => match event {
            Event::Advance => {
                session.progress = Progress::Disconnecting;
                Action::SendDisconnect { reason: DISCONNECT_CLIENT_QUITTING }
            },
            _ => session.awaited(),
        },
        Progress::Disconnecting => match send_message(&event) {
            Some(_) => {
                session.progress = Progress::Closed;
                Action::Close
            },
            None => session.awaited(),
        },
        _ => session.awaited(),
    }
}

/// The receive phase: exactly one frame is awaited within the receive
/// deadline. Any message in it establishes the session; a passed deadline, an
/// ended stream, a failed read, a failed integrity check and an undecodable
/// payload each end the session with their own reason. Outside this phase the event is ignored.
pub fn receive_p2p_message(session: &mut Session, event: Event) -> (action: Action)
    ensures
        (final(session)@, action) == old(session)@.receive_transition(event),
{
    match session.progress {
        Progress::GreetingSent => match event {
            Event::Advance => {
                session.progress = Progress::AwaitingPeerGreeting;
                Action::Receive { timeout_secs: session.timeouts.receive }
            },
            _ => session.awaited(),
        },
        Progress::AwaitingPeerGreeting => match event {
            Event::MessageReceived => {
                session.progress = Progress::Established;
                Action::Continue
            },
            Event::ReceiveTimedOut => session.fail(
                CustomError::TcpConnectTimeOut("Timeout".to_string()),
            ),
            Event::StreamEnded => session.fail(CustomError::ReceiveMessage),
            Event::ReceiveFailed(cause) => session.fail(CustomError::from(cause)),
            Event::FrameRejected => session.fail(CustomError::FrameAuthentication),
            Event::DecodeFailed(cause) => session.fail(CustomError::from(cause)),
            _ => session.awaited(),
        },
        _ => session.awaited(),
    }
}

/// From the derived keys to the close: our greeting goes out, one frame is
/// awaited, and the disconnect notice follows. Outside these phases the event
/// is ignored.
pub fn handshake(session: &mut Session, event: Event) -> (action: Action)
    ensures
        (final(session)@, action) == old(session)@.handshake_transition(event),
{
    match session.progress {
        Progress::SendingGreeting => send_hello_message(session, event),
        Progress::GreetingSent | Progress::AwaitingPeerGreeting => receive_p2p_message(
            session,
            event,
        ),
        Progress::Established | Progress::Disconnecting => send_disconnect_message(
            session,
            event,
        ),
        _ => session.awaited(),
    }
}

} // verus!
