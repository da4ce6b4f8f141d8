//! Classification of incoming messages and their routing to replies or events.
use vstd::prelude::*;
use crate::error::Error;
use crate::event::{handle_event, is_event_result, Event};
use crate::json::{parse_u64, position, uint_value, Json};
use crate::reply::{Data, Response};

verus! {

/// An incoming message, by its shape.
#[derive(Debug)]
pub enum MpvMessage {
    /// A notice the player sent on its own; the whole notice.
    Event(Json),
    /// A reply with a payload.
    Data(Data),
    /// A reply without payload.
    GenericResponse(Response),
    /// Anything else.
    Other(Json),
}

/// The `request_id` of a message, when it is an integer that fits in `u64`.
pub open spec fn request_id_of(msg: Json) -> Option<u64> {
    match msg.field("request_id"@) {
        Some(Json::Number(t)) => match uint_value(t@) {
            Some(v) => if v <= u64::MAX {
                Some(v as u64)
            } else {
                None
            },
            None => None,
        },
        _ => None,
    }
}

/// The kind of a message: a notice when it has an `event` string; else a reply
/// with payload when it has `data` and an `error` string; else a reply without
/// payload when it has an `error` string and a request id; else other.
pub open spec fn message_kind(msg: Json) -> MpvMessage {
    match msg.field("event"@) {
        Some(Json::String(_)) => MpvMessage::Event(msg),
        _ => match msg.field("error"@) {
            Some(Json::String(error)) => match msg.field("data"@) {
                Some(data) => MpvMessage::Data(Data { data, request_id: request_id_of(msg), error }),
                None => match request_id_of(msg) {
                    Some(id) => MpvMessage::GenericResponse(
                        Response { request_id: Some(id), error },
                    ),
                    None => MpvMessage::Other(msg),
                },
            },
            _ => MpvMessage::Other(msg),
        },
    }
}

fn request_id(msg: &Json) -> (r: Option<u64>)
    ensures
        r == request_id_of(*msg),
{
    match msg.get("request_id") {
        Some(Json::Number(t)) => parse_u64(t.as_str()),
        _ => None,
    }
}

/// Takes the member `key` out of an object.
fn take_member(msg: Json, key: &str) -> (r: Json)
    requires
        msg.field(key@) is Some,
    ensures
        r == msg.field(key@)->Some_0,
{
    match msg {
        Json::Object(mut entries) => match position(&entries, key) {
            Some(i) => entries.remove(i).1,
            None => Json::Null,
        },
        _ => Json::Null,
    }
}

/// Sorts a decoded message by its shape.
pub fn classify(msg: Json) -> (r: MpvMessage)
    ensures
        r == message_kind(msg),
{
    let is_event = match msg.get("event") {
        Some(Json::String(_)) => true,
        _ => false,
    };
    if is_event {
        return MpvMessage::Event(msg);
    }
    let error = match msg.get("error") {
        Some(Json::String(e)) => e.clone(),
        _ => return MpvMessage::Other(msg),
    };
    let request_id = request_id(&msg);
    if msg.get("data").is_some() {
        let data = take_member(msg, "data");
        MpvMessage::Data(Data { data, request_id, error })
    } else if request_id.is_some() {
        MpvMessage::GenericResponse(Response { request_id, error })
    } else {
        MpvMessage::Other(msg)
    }
}

/// Where an incoming message goes.
#[derive(Debug)]
pub enum Routed {
    /// To the command waiting for a reply.
    Reply(Data),
    /// To the event consumer: the typed event, or why the notice could not be read.
    Event(Result<Event, Error>),
    /// Nowhere: a message of no interest to the client.
    Dropped(Json),
}

/// Routes a decoded message: replies, with or without payload, go to the reply
/// path (a reply without payload as one whose payload is `null`), notices to the
/// event path, anything else is dropped.
pub fn route(msg: Json) -> (r: Routed)
    ensures
        match message_kind(msg) {
            MpvMessage::Event(notice) => r matches Routed::Event(e) && is_event_result(notice, e),
            MpvMessage::Data(d) => r == Routed::Reply(d),
            MpvMessage::GenericResponse(g) => r == Routed::Reply(
                Data { data: Json::Null, request_id: g.request_id, error: g.error },
            ),
            MpvMessage::Other(m) => r == Routed::Dropped(m),
        },
{
    match classify(msg) {
        MpvMessage::Event(notice) => Routed::Event(handle_event(&notice)),
        MpvMessage::Data(d) => Routed::Reply(d),
        MpvMessage::GenericResponse(g) => Routed::Reply(Data::from(g)),
        MpvMessage::Other(m) => Routed::Dropped(m),
    }
}

} // verus!
