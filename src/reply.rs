//! Replies to commands, and their conversion into typed values.
use vstd::prelude::*;
use crate::data::{decodes_to, is_playlist_of, json_array_to_playlist, json_to_data, Float, MpvDataType, PlaylistEntry};
use crate::error::{Error, ErrorCode};
use crate::json::{parse_usize, str_eq, uint_value, Json};

verus! {

/// A reply envelope: the payload, the request it answers, and the player's verdict.
#[derive(Debug)]
pub struct Data {
    /// The payload; `Null` for a command that returns nothing.
    pub data: Json,
    pub request_id: Option<u64>,
    /// `"success"`, or the player's reason for rejecting the request.
    pub error: String,
}

/// A reply that carries no payload.
#[derive(Debug, Clone)]
pub struct Response {
    pub request_id: Option<u64>,
    pub error: String,
}

impl From<Response> for Data {
    /// A reply without payload, as one whose payload is `null`.
    fn from(r: Response) -> (d: Data)
        ensures
            d == (Data { data: Json::Null, request_id: r.request_id, error: r.error }),
    {
        Data { data: Json::Null, request_id: r.request_id, error: r.error }
    }
}

impl vstd::std_specs::convert::FromSpecImpl<Response> for Data {
    open spec fn obeys_from_spec() -> bool {
        true
    }

    open spec fn from_spec(r: Response) -> Data {
        Data { data: Json::Null, request_id: r.request_id, error: r.error }
    }
}

/// The verdict that the player gives for a request it carried out.
pub open spec fn is_success(error: Seq<char>) -> bool {
    error == "success"@
}

/// The payload of a reply the player accepted, or the player's error.
pub fn check_reply(reply: &Data) -> (r: Result<&Json, Error>)
    ensures
        is_success(reply.error@) ==> r == Ok::<&Json, Error>(&reply.data),
        !is_success(reply.error@) ==> r == Err::<&Json, Error>(Error(ErrorCode::MpvError(reply.error))),
{
    if str_eq(reply.error.as_str(), "success") {
        Ok(&reply.data)
    } else {
        Err(Error(ErrorCode::MpvError(reply.error.clone())))
    }
}

/// A type that a reply's payload can be read as.
pub trait TypeHandler: Sized {
    /// The payload has the shape of this type.
    spec fn has_shape(data: Json) -> bool;

    /// `v` is the value that the payload `data` holds.
    spec fn holds(data: Json, v: Self) -> bool;

    /// The error for a payload of another shape.
    spec fn mismatch() -> ErrorCode;

    /// Reads the payload of `reply` as a value of this type.
    fn get_value(reply: &Data) -> (r: Result<Self, Error>)
        ensures
            !is_success(reply.error@) ==> r == Err::<Self, Error>(Error(ErrorCode::MpvError(reply.error))),
            is_success(reply.error@) ==> match r {
                Ok(v) => Self::has_shape(reply.data) && Self::holds(reply.data, v),
                Err(e) => !Self::has_shape(reply.data) && e == Error(Self::mismatch()),
            },
    ;
}

impl TypeHandler for bool {
    open spec fn has_shape(data: Json) -> bool {
        data is Bool
    }

    open spec fn holds(data: Json, v: bool) -> bool {
        data == Json::Bool(v)
    }

    open spec fn mismatch() -> ErrorCode {
        ErrorCode::ValueDoesNotContainBool
    }

    fn get_value(reply: &Data) -> (r: Result<bool, Error>) {
        match check_reply(reply)? {
            Json::Bool(b) => Ok(*b),
            _ => Err(Error(ErrorCode::ValueDoesNotContainBool)),
        }
    }
}

impl TypeHandler for String {
    open spec fn has_shape(data: Json) -> bool {
        data is String
    }

    open spec fn holds(data: Json, v: String) -> bool {
        data == Json::String(v)
    }

    open spec fn mismatch() -> ErrorCode {
        ErrorCode::ValueDoesNotContainString
    }

    fn get_value(reply: &Data) -> (r: Result<String, Error>) {
        match check_reply(reply)? {
            Json::String(s) => Ok(s.clone()),
            _ => Err(Error(ErrorCode::ValueDoesNotContainString)),
        }
    }
}

impl TypeHandler for usize {
    open spec fn has_shape(data: Json) -> bool {
        data is Number && match uint_value(data->Number_0@) {
            Some(v) => v <= usize::MAX,
            None => false,
        }
    }

    open spec fn holds(data: Json, v: usize) -> bool {
        data is Number && uint_value(data->Number_0@) == Some(v as nat)
    }

    open spec fn mismatch() -> ErrorCode {
        ErrorCode::ValueDoesNotContainUsize
    }

    fn get_value(reply: &Data) -> (r: Result<usize, Error>) {
        match check_reply(reply)? {
            Json::Number(t) => match parse_usize(t.as_str()) {
                Some(v) => Ok(v),
                None => Err(Error(ErrorCode::ValueDoesNotContainUsize)),
            },
            _ => Err(Error(ErrorCode::ValueDoesNotContainUsize)),
        }
    }
}

impl TypeHandler for Float {
    open spec fn has_shape(data: Json) -> bool {
        data is Number && decodes_to(data, MpvDataType::Double(Float(data->Number_0)))
    }

    open spec fn holds(data: Json, v: Float) -> bool {
        data == Json::Number(v.0)
    }

    open spec fn mismatch() -> ErrorCode {
        ErrorCode::ValueDoesNotContainF64
    }

    fn get_value(reply: &Data) -> (r: Result<Float, Error>) {
        match check_reply(reply)? {
            Json::Number(t) => match parse_usize(t.as_str()) {
                Some(_) => Err(Error(ErrorCode::ValueDoesNotContainF64)),
                None => Ok(Float(t.clone())),
            },
            _ => Err(Error(ErrorCode::ValueDoesNotContainF64)),
        }
    }
}

impl TypeHandler for Vec<(String, MpvDataType)> {
    open spec fn has_shape(data: Json) -> bool {
        data is Object
    }

    open spec fn holds(data: Json, v: Vec<(String, MpvDataType)>) -> bool {
        decodes_to(data, MpvDataType::HashMap(v))
    }

    open spec fn mismatch() -> ErrorCode {
        ErrorCode::ValueDoesNotContainHashMap
    }

    fn get_value(reply: &Data) -> (r: Result<Vec<(String, MpvDataType)>, Error>) {
        let data = check_reply(reply)?;
        match data {
            Json::Object(_) => match json_to_data(data) {
                MpvDataType::HashMap(m) => Ok(m),
                _ => Err(Error(ErrorCode::ValueDoesNotContainHashMap)),
            },
            _ => Err(Error(ErrorCode::ValueDoesNotContainHashMap)),
        }
    }
}

impl TypeHandler for Vec<PlaylistEntry> {
    open spec fn has_shape(data: Json) -> bool {
        data is Array
    }

    open spec fn holds(data: Json, v: Vec<PlaylistEntry>) -> bool {
        data is Array && is_playlist_of(data->Array_0@, v@)
    }

    open spec fn mismatch() -> ErrorCode {
        ErrorCode::ValueDoesNotContainPlaylist
    }

    fn get_value(reply: &Data) -> (r: Result<Vec<PlaylistEntry>, Error>) {
        match check_reply(reply)? {
            Json::Array(items) => Ok(json_array_to_playlist(items)),
            _ => Err(Error(ErrorCode::ValueDoesNotContainPlaylist)),
        }
    }
}

} // verus!
