//! Errors reported by the client.
use vstd::prelude::*;

verus! {

#[derive(Debug, Clone)]
pub enum ErrorCode {
    /// The player rejected the request; the player's own message.
    MpvError(String),
    /// A line of the IPC stream was not valid JSON.
    JsonParseError(String),
    /// The IPC socket could not be opened.
    ConnectError(String),
    /// The stream ended: no further reply will arrive.
    ConnectionClosed,
    JsonContainsUnexptectedType,
    /// A known property arrived with a payload of another shape; the property's name.
    UnrecognizedEventPayload(String),
    UnexpectedResult,
    UnexpectedValue,
    UnsupportedType,
    ValueDoesNotContainBool,
    ValueDoesNotContainF64,
    ValueDoesNotContainHashMap,
    ValueDoesNotContainPlaylist,
    ValueDoesNotContainString,
    ValueDoesNotContainUsize,
}

#[derive(Debug, Clone)]
pub struct Error(pub ErrorCode);

impl ErrorCode {
    /// The human-readable text of the error.
    pub open spec fn message_text(&self) -> Seq<char> {
        match self {
            ErrorCode::MpvError(m) => "MpvError: "@ + m@,
            ErrorCode::JsonParseError(m) => "JsonParseError: "@ + m@,
            ErrorCode::ConnectError(m) => "ConnectError: "@ + m@,
            ErrorCode::ConnectionClosed => "The connection to mpv is closed"@,
            ErrorCode::JsonContainsUnexptectedType => "Mpv sent a value with an unexpected type"@,
            ErrorCode::UnrecognizedEventPayload(name) => "Unexpected payload for property "@ + name@,
            ErrorCode::UnexpectedResult => "Unexpected result received"@,
            ErrorCode::UnexpectedValue => "Unexpected value received"@,
            ErrorCode::UnsupportedType => "Unsupported type received"@,
            ErrorCode::ValueDoesNotContainBool => "The received value is not of type 'std::bool'"@,
            ErrorCode::ValueDoesNotContainF64 => "The received value is not of type 'std::f64'"@,
            ErrorCode::ValueDoesNotContainHashMap => "The received value is not of type 'std::collections::HashMap'"@,
            ErrorCode::ValueDoesNotContainPlaylist => "The received value is not of type 'mpvipc::Playlist'"@,
            ErrorCode::ValueDoesNotContainString => "The received value is not of type 'std::string::String'"@,
            ErrorCode::ValueDoesNotContainUsize => "The received value is not of type 'std::usize'"@,
        }
    }

    /// Renders the error as text.
    pub fn message(&self) -> (r: String)
        ensures
            r@ == self.message_text(),
    {
        match self {
            ErrorCode::MpvError(m) => String::from_str("MpvError: ").concat(m.as_str()),
            ErrorCode::JsonParseError(m) => String::from_str("JsonParseError: ").concat(m.as_str()),
            ErrorCode::ConnectError(m) => String::from_str("ConnectError: ").concat(m.as_str()),
            ErrorCode::ConnectionClosed => String::from_str("The connection to mpv is closed"),
            ErrorCode::JsonContainsUnexptectedType => String::from_str(
                "Mpv sent a value with an unexpected type",
            ),
            ErrorCode::UnrecognizedEventPayload(name) => String::from_str(
                "Unexpected payload for property ",
            ).concat(name.as_str()),
            ErrorCode::UnexpectedResult => String::from_str("Unexpected result received"),
            ErrorCode::UnexpectedValue => String::from_str("Unexpected value received"),
            ErrorCode::UnsupportedType => String::from_str("Unsupported type received"),
            ErrorCode::ValueDoesNotContainBool => String::from_str(
                "The received value is not of type 'std::bool'",
            ),
            ErrorCode::ValueDoesNotContainF64 => String::from_str(
                "The received value is not of type 'std::f64'",
            ),
            ErrorCode::ValueDoesNotContainHashMap => String::from_str(
                "The received value is not of type 'std::collections::HashMap'",
            ),
            ErrorCode::ValueDoesNotContainPlaylist => String::from_str(
                "The received value is not of type 'mpvipc::Playlist'",
            ),
            ErrorCode::ValueDoesNotContainString => String::from_str(
                "The received value is not of type 'std::string::String'",
            ),
            ErrorCode::ValueDoesNotContainUsize => String::from_str(
                "The received value is not of type 'std::usize'",
            ),
        }
    }
}

impl Error {
    /// Renders the error as text.
    pub fn message(&self) -> (r: String)
        ensures
            r@ == self.0.message_text(),
    {
        self.0.message()
    }
}

} // verus!
