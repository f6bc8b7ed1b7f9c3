//! Error types shared by the protocol codecs and the app framework.

use vstd::prelude::*;

use crate::manifest::ObjectType;

verus! {

/// Errors that can occur while parsing a wire-format message.
#[derive(Clone, Debug, PartialEq, Eq)]
pub enum ProtocolError {
    /// Message is too short to contain the required header or fields.
    TooShort,
    /// Protocol version byte is not recognized.
    UnknownVersion(u8),
    /// Payload length in the header exceeds the available data.
    PayloadOverflow { declared: usize, available: usize },
    /// String length prefix exceeds the available data.
    StringOverflow { declared: usize, available: usize },
    /// String data is not valid UTF-8.
    InvalidUtf8,
    /// Payload is empty when data was expected.
    EmptyPayload,
    /// Type tag does not match the expected type.
    UnexpectedType { expected: u8, got: u8 },
    /// Message type tag is not recognized.
    UnknownMessageType(u8),
    /// Enum discriminant is not a valid variant.
    InvalidEnumValue { field: &'static str, value: u8 },
}

/// Errors that can occur in app execution.
#[derive(Clone, Debug)]
pub enum AppError {
    /// Initialization failed with the given reason.
    InitFailed(String),
    /// A required capability was not granted to this process.
    MissingCapability(ObjectType),
    /// IPC communication failed.
    IpcError(String),
    /// Protocol parsing or encoding failed.
    ProtocolError(ProtocolError),
    /// An internal application error occurred.
    Internal(String),
}

impl From<ProtocolError> for AppError {
    fn from(e: ProtocolError) -> (r: Self) {
        AppError::ProtocolError(e)
    }
}

impl vstd::std_specs::convert::FromSpecImpl<ProtocolError> for AppError {
    open spec fn obeys_from_spec() -> bool {
        true
    }

    open spec fn from_spec(e: ProtocolError) -> AppError {
        AppError::ProtocolError(e)
    }
}

} // verus!
