//! The failures a session can end in, and how they are classified and compared.

use std::io;
use tokio::time::error::Elapsed;
use vstd::prelude::*;
use vstd::std_specs::cmp::PartialEqSpecImpl;
use vstd::std_specs::convert::FromSpecImpl;

verus! {

/// `std::io::Error`, carried through unread.
#[verifier::external_type_specification]
#[verifier::external_body]
pub struct ExIoError(io::Error);

/// `alloy_rlp::Error`, carried through unread.
#[verifier::external_type_specification]
#[verifier::external_body]
pub struct ExRlpError(alloy_rlp::Error);

/// `tokio::time::error::Elapsed`, the token of an expired deadline.
#[verifier::external_type_specification]
#[verifier::external_body]
pub struct ExElapsed(Elapsed);

/// Everything that can end a session short of a clean close.
#[derive(Debug)]
pub enum CustomError {
    /// The node record does not split into an identifier, an address and a port.
    AddressPortParse,
    /// A deadline passed; the text says which.
    TcpConnectTimeOut(String),
    /// The byte stream could not be opened or broke while in use.
    TcpConnect(io::Error),
    /// The node record names no usable peer; the text says why.
    NodeRecordCreation(String),
    /// The key agreement with the peer did not complete, for a cause that is
    /// none of the others listed here.
    ECIESStreamCreation,
    /// A frame could not be handed to the transport.
    SendMessage,
    /// The stream ended before a frame arrived.
    ReceiveMessage,
    /// A received payload is not a well-formed message.
    MessageDecode(alloy_rlp::Error),
    /// A key agreement payload from the peer is malformed or oversized.
    HandshakeMalformed,
    /// The peer did not prove the identity it was called by.
    HandshakeAuthentication,
    /// A received frame failed its integrity check.
    FrameAuthentication,
}

/// The mathematical content of a [`CustomError`]: texts as character sequences.
pub ghost enum ErrorModel {
    AddressPortParse,
    TcpConnectTimeOut(Seq<char>),
    TcpConnect(io::Error),
    NodeRecordCreation(Seq<char>),
    ECIESStreamCreation,
    SendMessage,
    ReceiveMessage,
    MessageDecode(alloy_rlp::Error),
    HandshakeMalformed,
    HandshakeAuthentication,
    FrameAuthentication,
}

/// The classes failures fall into, by what an operator can do about them.
#[derive(Clone, Copy, Debug, PartialEq, Eq, Structural)]
pub enum ErrorClass {
    /// The identity string handed in is malformed.
    Input,
    /// Connecting, reading or writing failed.
    Transport,
    /// The peer stayed silent past a deadline.
    Timeout,
    /// The key agreement was refused or garbled.
    Handshake,
    /// A frame arrived but was tampered with on the way.
    Frame,
    /// A frame arrived intact but its payload does not decode.
    Message,
}

impl View for CustomError {
    type V = ErrorModel;

    open spec fn view(&self) -> ErrorModel {
        match *self {
            CustomError::AddressPortParse => ErrorModel::AddressPortParse,
            CustomError::TcpConnectTimeOut(text) => ErrorModel::TcpConnectTimeOut(text@),
            CustomError::TcpConnect(cause) => ErrorModel::TcpConnect(cause),
            CustomError::NodeRecordCreation(text) => ErrorModel::NodeRecordCreation(text@),
            CustomError::ECIESStreamCreation => ErrorModel::ECIESStreamCreation,
            CustomError::SendMessage => ErrorModel::SendMessage,
            CustomError::ReceiveMessage => ErrorModel::ReceiveMessage,
            CustomError::MessageDecode(cause) => ErrorModel::MessageDecode(cause),
            CustomError::HandshakeMalformed => ErrorModel::HandshakeMalformed,
            CustomError::HandshakeAuthentication => ErrorModel::HandshakeAuthentication,
            CustomError::FrameAuthentication => ErrorModel::FrameAuthentication,
        }
    }
}

impl ErrorModel {
    /// The class of a failure.
    pub open spec fn class(self) -> ErrorClass {
        match self {
            ErrorModel::AddressPortParse => ErrorClass::Input,
            ErrorModel::NodeRecordCreation(_) => ErrorClass::Input,
            ErrorModel::TcpConnectTimeOut(_) => ErrorClass::Timeout,
            ErrorModel::TcpConnect(_) => ErrorClass::Transport,
            ErrorModel::SendMessage => ErrorClass::Transport,
            ErrorModel::ReceiveMessage => ErrorClass::Transport,
            ErrorModel::ECIESStreamCreation => ErrorClass::Handshake,
            ErrorModel::HandshakeMalformed => ErrorClass::Handshake,
            ErrorModel::HandshakeAuthentication => ErrorClass::Handshake,
            ErrorModel::FrameAuthentication => ErrorClass::Frame,
            ErrorModel::MessageDecode(_) => ErrorClass::Message,
        }
    }

    /// Position of the variant in the declaration, payloads ignored.
    pub open spec fn tag(self) -> nat {
        match self {
            ErrorModel::AddressPortParse => 0,
            ErrorModel::TcpConnectTimeOut(_) => 1,
            ErrorModel::TcpConnect(_) => 2,
            ErrorModel::NodeRecordCreation(_) => 3,
            ErrorModel::ECIESStreamCreation => 4,
            ErrorModel::SendMessage => 5,
            ErrorModel::ReceiveMessage => 6,
            ErrorModel::MessageDecode(_) => 7,
            ErrorModel::HandshakeMalformed => 8,
            ErrorModel::HandshakeAuthentication => 9,
            ErrorModel::FrameAuthentication => 10,
        }
    }

    /// What `==` on errors means: the same variant, whatever it carries, with
    /// one exception: an expired deadline equals nothing, itself included.
    pub open spec fn same_failure(self, other: ErrorModel) -> bool {
        self.tag() == other.tag() && !(self is TcpConnectTimeOut)
    }
}

impl CustomError {
    /// The class this failure falls into.
    pub fn class(&self) -> (class: ErrorClass)
        ensures
            class == self@.class(),
    {
        match self {
            CustomError::AddressPortParse => ErrorClass::Input,
            CustomError::NodeRecordCreation(_) => ErrorClass::Input,
            CustomError::TcpConnectTimeOut(_) => ErrorClass::Timeout,
            CustomError::TcpConnect(_) => ErrorClass::Transport,
            CustomError::SendMessage => ErrorClass::Transport,
            CustomError::ReceiveMessage => ErrorClass::Transport,
            CustomError::ECIESStreamCreation => ErrorClass::Handshake,
            CustomError::HandshakeMalformed => ErrorClass::Handshake,
            CustomError::HandshakeAuthentication => ErrorClass::Handshake,
            CustomError::FrameAuthentication => ErrorClass::Frame,
            CustomError::MessageDecode(_) => ErrorClass::Message,
        }
    }
}

impl PartialEq for CustomError {
    fn eq(&self, other: &Self) -> (equal: bool) {
        match (self, other) {
            (CustomError::AddressPortParse, CustomError::AddressPortParse) => true,
            (CustomError::TcpConnect(_), CustomError::TcpConnect(_)) => true,
            (CustomError::NodeRecordCreation(_), CustomError::NodeRecordCreation(_)) => true,
            (CustomError::ECIESStreamCreation, CustomError::ECIESStreamCreation) => true,
            (CustomError::SendMessage, CustomError::SendMessage) => true,
            (CustomError::ReceiveMessage, CustomError::ReceiveMessage) => true,
            (CustomError::MessageDecode(_), CustomError::MessageDecode(_)) => true,
            (CustomError::HandshakeMalformed, CustomError::HandshakeMalformed) => true,
            (CustomError::HandshakeAuthentication, CustomError::HandshakeAuthentication) => true,
            (CustomError::FrameAuthentication, CustomError::FrameAuthentication) => true,
            _ => false,
        }
    }
}

impl PartialEqSpecImpl for CustomError {
    open spec fn obeys_eq_spec() -> bool {
        true
    }

    open spec fn eq_spec(&self, other: &Self) -> bool {
        self@.same_failure(other@)
    }
}

impl From<io::Error> for CustomError {
    fn from(cause: io::Error) -> (error: CustomError) {
        CustomError::TcpConnect(cause)
    }
}

impl FromSpecImpl<io::Error> for CustomError {
    open spec fn obeys_from_spec() -> bool {
        true
    }

    open spec fn from_spec(cause: io::Error) -> CustomError {
        CustomError::TcpConnect(cause)
    }
}

impl From<alloy_rlp::Error> for CustomError {
    fn from(cause: alloy_rlp::Error) -> (error: CustomError) {
        CustomError::MessageDecode(cause)
    }
}

impl FromSpecImpl<alloy_rlp::Error> for CustomError {
    open spec fn obeys_from_spec() -> bool {
        true
    }

    open spec fn from_spec(cause: alloy_rlp::Error) -> CustomError {
        CustomError::MessageDecode(cause)
    }
}

/// The text an expired deadline is reported with when nothing more is known.
pub open spec fn timeout_text() -> Seq<char> {
    "Timeout"@
}

impl From<Elapsed> for CustomError {
    fn from(expired: Elapsed) -> (error: CustomError)
        ensures
            error@ == ErrorModel::TcpConnectTimeOut(timeout_text()),
    {
        CustomError::TcpConnectTimeOut("Timeout".to_string())
    }
}

impl FromSpecImpl<Elapsed> for CustomError {
    open spec fn obeys_from_spec() -> bool {
        false
    }

    open spec fn from_spec(expired: Elapsed) -> CustomError {
        arbitrary()
    }
}

/// Comparison of errors is symmetric, and reflexive on every failure but an
/// expired deadline.
pub proof fn lemma_same_failure_properties(a: ErrorModel, b: ErrorModel)
    ensures
        a.same_failure(b) == b.same_failure(a),
        a.same_failure(a) <==> !(a is TcpConnectTimeOut),
        a.same_failure(b) ==> a.class() == b.class(),
{
}

} // verus!
