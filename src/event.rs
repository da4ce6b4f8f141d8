//! Notifications that the player sends on its own, and their typed form.
use vstd::prelude::*;
use crate::data::{decodes_to, is_playlist_of, json_array_to_playlist, json_to_data, Float, MpvDataType, Playlist};
use crate::error::{Error, ErrorCode};
use crate::json::{int_value, parse_isize, str_eq, Json};

verus! {

#[derive(Debug)]
pub enum Event {
    Shutdown,
    StartFile,
    EndFile,
    FileLoaded,
    TracksChanged,
    TrackSwitched,
    Idle,
    Pause,
    Unpause,
    Tick,
    VideoReconfig,
    AudioReconfig,
    MetadataUpdate,
    Seek,
    PlaybackRestart,
    PropertyChange { id: isize, property: Property },
    ChapterChange,
    Unimplemented,
}

/// The new value of an observed property.
#[derive(Debug)]
pub enum Property {
    Path(Option<String>),
    Pause(bool),
    PlaybackTime(Option<Float>),
    Duration(Option<Float>),
    Metadata(Option<Vec<(String, MpvDataType)>>),
    Unknown { name: String, data: MpvDataType },
}

/// The event that a notice name stands for, other than a property change.
pub open spec fn event_of_name(n: Seq<char>) -> Event {
    if n == "shutdown"@ {
        Event::Shutdown
    } else if n == "start-file"@ {
        Event::StartFile
    } else if n == "end-file"@ {
        Event::EndFile
    } else if n == "file-loaded"@ {
        Event::FileLoaded
    } else if n == "tracks-changed"@ {
        Event::TracksChanged
    } else if n == "track-switched"@ {
        Event::TrackSwitched
    } else if n == "idle"@ {
        Event::Idle
    } else if n == "pause"@ {
        Event::Pause
    } else if n == "unpause"@ {
        Event::Unpause
    } else if n == "tick"@ {
        Event::Tick
    } else if n == "video-reconfig"@ {
        Event::VideoReconfig
    } else if n == "audio-reconfig"@ {
        Event::AudioReconfig
    } else if n == "metadata-update"@ {
        Event::MetadataUpdate
    } else if n == "seek"@ {
        Event::Seek
    } else if n == "playback-restart"@ {
        Event::PlaybackRestart
    } else if n == "chapter-change"@ {
        Event::ChapterChange
    } else {
        Event::Unimplemented
    }
}

/// Maps a notice name onto its event; a name it does not know gives `Unimplemented`.
pub fn event_from_name(n: &str) -> (r: Event)
    ensures
        r == event_of_name(n@),
{
    if str_eq(n, "shutdown") {
        Event::Shutdown
    } else if str_eq(n, "start-file") {
        Event::StartFile
    } else if str_eq(n, "end-file") {
        Event::EndFile
    } else if str_eq(n, "file-loaded") {
        Event::FileLoaded
    } else if str_eq(n, "tracks-changed") {
        Event::TracksChanged
    } else if str_eq(n, "track-switched") {
        Event::TrackSwitched
    } else if str_eq(n, "idle") {
        Event::Idle
    } else if str_eq(n, "pause") {
        Event::Pause
    } else if str_eq(n, "unpause") {
        Event::Unpause
    } else if str_eq(n, "tick") {
        Event::Tick
    } else if str_eq(n, "video-reconfig") {
        Event::VideoReconfig
    } else if str_eq(n, "audio-reconfig") {
        Event::AudioReconfig
    } else if str_eq(n, "metadata-update") {
        Event::MetadataUpdate
    } else if str_eq(n, "seek") {
        Event::Seek
    } else if str_eq(n, "playback-restart") {
        Event::PlaybackRestart
    } else if str_eq(n, "chapter-change") {
        Event::ChapterChange
    } else {
        Event::Unimplemented
    }
}

/// The typed property for the payload `data` of the property `name`, or the
/// error for a payload whose shape that property never has.
pub open spec fn property_of(name: String, data: MpvDataType) -> Result<Property, Error> {
    let bad = Err(Error(ErrorCode::UnrecognizedEventPayload(name)));
    if name@ == "path"@ {
        match data {
            MpvDataType::String(s) => Ok(Property::Path(Some(s))),
            MpvDataType::Null => Ok(Property::Path(None)),
            _ => bad,
        }
    } else if name@ == "pause"@ {
        match data {
            MpvDataType::Bool(b) => Ok(Property::Pause(b)),
            _ => bad,
        }
    } else if name@ == "playback-time"@ {
        match data {
            MpvDataType::Double(f) => Ok(Property::PlaybackTime(Some(f))),
            MpvDataType::Null => Ok(Property::PlaybackTime(None)),
            _ => bad,
        }
    } else if name@ == "duration"@ {
        match data {
            MpvDataType::Double(f) => Ok(Property::Duration(Some(f))),
            MpvDataType::Null => Ok(Property::Duration(None)),
            _ => bad,
        }
    } else if name@ == "metadata"@ {
        match data {
            MpvDataType::HashMap(m) => Ok(Property::Metadata(Some(m))),
            MpvDataType::Null => Ok(Property::Metadata(None)),
            _ => bad,
        }
    } else {
        Ok(Property::Unknown { name, data })
    }
}

/// The event for a change of the property `name`, observed under `id`.
pub open spec fn change_event(name: String, id: isize, data: MpvDataType) -> Result<Event, Error> {
    match property_of(name, data) {
        Ok(property) => Ok(Event::PropertyChange { id, property }),
        Err(e) => Err(e),
    }
}

/// The event for a change of the property `name`, observed under `id`, with the
/// payload `data`; an error when a known property arrives with another shape.
pub fn try_convert_property(name: String, id: isize, data: MpvDataType) -> (r: Result<Event, Error>)
    ensures
        r == change_event(name, id, data),
{
    let unexpected = Err(Error(ErrorCode::UnrecognizedEventPayload(name.clone())));
    let property = if str_eq(name.as_str(), "path") {
        match data {
            MpvDataType::String(s) => Property::Path(Some(s)),
            MpvDataType::Null => Property::Path(None),
            _ => return unexpected,
        }
    } else if str_eq(name.as_str(), "pause") {
        match data {
            MpvDataType::Bool(b) => Property::Pause(b),
            _ => return unexpected,
        }
    } else if str_eq(name.as_str(), "playback-time") {
        match data {
            MpvDataType::Double(f) => Property::PlaybackTime(Some(f)),
            MpvDataType::Null => Property::PlaybackTime(None),
            _ => return unexpected,
        }
    } else if str_eq(name.as_str(), "duration") {
        match data {
            MpvDataType::Double(f) => Property::Duration(Some(f)),
            MpvDataType::Null => Property::Duration(None),
            _ => return unexpected,
        }
    } else if str_eq(name.as_str(), "metadata") {
        match data {
            MpvDataType::HashMap(m) => Property::Metadata(Some(m)),
            MpvDataType::Null => Property::Metadata(None),
            _ => return unexpected,
        }
    } else {
        Property::Unknown { name, data }
    };
    Ok(Event::PropertyChange { id, property })
}

/// A property name outside the known set is never rejected: whatever its
/// payload, the change gives `Unknown` with that name and payload.
pub proof fn lemma_unknown_property_accepted(name: String, id: isize, data: MpvDataType)
    requires
        name@ != "path"@,
        name@ != "pause"@,
        name@ != "playback-time"@,
        name@ != "duration"@,
        name@ != "metadata"@,
    ensures
        change_event(name, id, data) == Ok::<Event, Error>(
            Event::PropertyChange { id, property: Property::Unknown { name, data } },
        ),
{
}

/// The observer id of a property-change notice: its `id` member read as an
/// integer, 0 when that member is missing or not a number, `None` when it is a
/// number that is not an integer in the range of `isize`.
pub open spec fn observer_id(notice: Json) -> Option<isize> {
    match notice.field("id"@) {
        Some(Json::Number(t)) => match int_value(t@) {
            Some(v) => if isize::MIN <= v <= isize::MAX {
                Some(v as isize)
            } else {
                None
            },
            None => None,
        },
        _ => Some(0),
    }
}

/// The `data` member of a notice; `null` when it is missing.
pub open spec fn data_member(notice: Json) -> Json {
    match notice.field("data"@) {
        Some(d) => d,
        None => Json::Null,
    }
}

/// `d` is the payload of a change of the property `name` that carries `data`:
/// the playlist for an array sent for `playlist`, else the total decoding.
pub open spec fn payload_decodes_to(name: Seq<char>, data: Json, d: MpvDataType) -> bool {
    if name == "playlist"@ && data is Array {
        d is Playlist && is_playlist_of(data->Array_0@, d->Playlist_0.0@)
    } else {
        decodes_to(data, d)
    }
}

/// `r` is the outcome of a `property-change` notice.
pub open spec fn is_property_change_result(notice: Json, r: Result<Event, Error>) -> bool {
    match notice.field("name"@) {
        Some(Json::String(name)) => match observer_id(notice) {
            Some(id) => exists|d: MpvDataType|
                payload_decodes_to(name@, data_member(notice), d) && r == #[trigger] change_event(
                    name,
                    id,
                    d,
                ),
            None => r == Err::<Event, Error>(Error(ErrorCode::JsonContainsUnexptectedType)),
        },
        _ => r == Err::<Event, Error>(Error(ErrorCode::JsonContainsUnexptectedType)),
    }
}

/// `r` is the outcome of classifying the event notice `notice`.
pub open spec fn is_event_result(notice: Json, r: Result<Event, Error>) -> bool {
    match notice.field("event"@) {
        Some(Json::String(n)) => if n@ == "property-change"@ {
            is_property_change_result(notice, r)
        } else {
            r == Ok::<Event, Error>(event_of_name(n@))
        },
        _ => r == Ok::<Event, Error>(Event::Unimplemented),
    }
}

fn property_payload(name: &str, data: &Json) -> (r: MpvDataType)
    ensures
        payload_decodes_to(name@, *data, r),
{
    if str_eq(name, "playlist") {
        if let Json::Array(items) = data {
            return MpvDataType::Playlist(Playlist(json_array_to_playlist(items)));
        }
    }
    json_to_data(data)
}

fn property_change(notice: &Json) -> (r: Result<Event, Error>)
    ensures
        is_property_change_result(*notice, r),
{
    let name = match notice.get("name") {
        Some(Json::String(n)) => n.clone(),
        _ => return Err(Error(ErrorCode::JsonContainsUnexptectedType)),
    };
    let id: isize = match notice.get("id") {
        Some(Json::Number(t)) => match parse_isize(t.as_str()) {
            Some(v) => v,
            None => return Err(Error(ErrorCode::JsonContainsUnexptectedType)),
        },
        _ => 0,
    };
    let null = Json::Null;
    let data = match notice.get("data") {
        Some(d) => d,
        None => &null,
    };
    let payload = property_payload(name.as_str(), data);
    let ghost d = payload;
    let r = try_convert_property(name, id, payload);
    assert(payload_decodes_to(name@, data_member(*notice), d) && r == change_event(name, id, d));
    r
}

/// Reads an event notice: a known notice name gives its event, a
/// `property-change` notice gives the typed property, and any other name gives
/// `Unimplemented`.
pub fn handle_event(notice: &Json) -> (r: Result<Event, Error>)
    ensures
        is_event_result(*notice, r),
{
    match notice.get("event") {
        Some(Json::String(n)) => if str_eq(n.as_str(), "property-change") {
            property_change(notice)
        } else {
            Ok(event_from_name(n.as_str()))
        },
        _ => Ok(Event::Unimplemented),
    }
}

} // verus!
