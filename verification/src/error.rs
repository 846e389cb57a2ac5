//! Errors of the codec and of the session.

use vstd::prelude::*;
use crate::messages::{Abort, AbortView, Messages, MessagesView};

verus! {

/// A position of a message layout.
#[derive(Clone, Copy, Debug, PartialEq, Eq, Structural)]
pub enum Field {
    MessageId,
    Event,
    RequestId,
    Session,
    Subscription,
    Publication,
    Registration,
    Options,
    Details,
    Realm,
    Reason,
    AuthMethod,
    Signature,
    Topic,
    Procedure,
    ErrorUri,
    Args,
    Kwargs,
}

/// What can go wrong.
#[derive(Debug, PartialEq, Eq)]
pub enum Error {
    /// A text is no JSON text, or a sequence has no text; in the words of the
    /// reader or writer of the text.
    SerdeJsonError(String),
    /// The text of a frame holds a value that is no array.
    NotASequence,
    /// A sequence is empty or does not start with an unsigned tag.
    InvalidMessageEnumMember,
    /// A sequence starts with the tag of another message type.
    InvalidId { expected: u64, actual: u64 },
    /// A sequence ends before a field that the layout requires.
    MissingField(Field),
    /// A field does not have the shape that the layout requires.
    InvalidField(Field),
    /// A sequence goes on after the last field of the layout.
    TrailingElements,
    /// An error names a kind of request that is none of the eight kinds that
    /// an error can answer; the message is kept as it came.
    NoSuchWampErrorType(Messages),
    /// A frame holds a payload in an encoding that is not text.
    UnsupportedEncoding,
    /// A message arrived that a client never receives.
    InvalidFrameReceived(Messages),
    /// The peer ended the session with this message.
    Abort(Abort),
    /// The transport was closed.
    Close,
}

/// The mathematical model of an [`Error`].
pub enum ErrorView {
    SerdeJsonError(Seq<char>),
    NotASequence,
    InvalidMessageEnumMember,
    InvalidId { expected: u64, actual: u64 },
    MissingField(Field),
    InvalidField(Field),
    TrailingElements,
    NoSuchWampErrorType(MessagesView),
    UnsupportedEncoding,
    InvalidFrameReceived(MessagesView),
    Abort(AbortView),
    Close,
}

impl View for Error {
    type V = ErrorView;

    open spec fn view(&self) -> ErrorView {
        match self {
            Error::SerdeJsonError(text) => ErrorView::SerdeJsonError(text@),
            Error::NotASequence => ErrorView::NotASequence,
            Error::InvalidMessageEnumMember => ErrorView::InvalidMessageEnumMember,
            Error::InvalidId { expected, actual } => ErrorView::InvalidId {
                expected: *expected,
                actual: *actual,
            },
            Error::MissingField(field) => ErrorView::MissingField(*field),
            Error::InvalidField(field) => ErrorView::InvalidField(*field),
            Error::TrailingElements => ErrorView::TrailingElements,
            Error::NoSuchWampErrorType(message) => ErrorView::NoSuchWampErrorType(message@),
            Error::UnsupportedEncoding => ErrorView::UnsupportedEncoding,
            Error::InvalidFrameReceived(message) => ErrorView::InvalidFrameReceived(message@),
            Error::Abort(abort) => ErrorView::Abort(abort@),
            Error::Close => ErrorView::Close,
        }
    }
}

/// The reasons that the protocol itself names for the failure of a request.
#[derive(Clone, Copy, Debug, PartialEq, Eq)]
pub enum WampErrorUri {
    NotAuthorized,
    ProcedureAlreadyExists,
    NoSuchRealm,
    ProtocolViolation,
    NoSuchSubscription,
    NoSuchRegistration,
    InvalidUri,
    NoSuchProcedure,
    InvalidArgument,
    Canceled,
    PayloadSizeExceeded,
    FeatureNotSupported,
    Timeout,
    Unavailable,
    NoAvailableCallee,
    DiscloseMeNotAllowed,
    OptionDisallowedDiscloseMe,
    NoMatchingAuthMethod,
    NoSuchRole,
    NoSuchPrincipal,
    AuthenticationDenied,
    AuthenticationFailed,
    AuthenticationRequired,
    AuthorizationDenied,
    AuthorizationFailed,
    AuthorizationRequired,
    NetworkFailure,
    OptionNotAllowed,
}

/// The reasons that the protocol itself names for the end of a session.
#[derive(Clone, Copy, Debug, PartialEq, Eq)]
pub enum CloseUri {
    SystemShutdown,
    CloseRealm,
    GoodbyeAndOut,
    Killed,
}

} // verus!
