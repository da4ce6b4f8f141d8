//! Client core for driving an mpv player over its line-delimited JSON IPC protocol.
//!
//! The library classifies the messages that arrive on the IPC stream, hands
//! replies to waiting commands in arrival order, converts reply payloads into
//! typed values, maps property-change notices onto typed properties, and renders
//! outbound request lines.
pub mod correlator;
pub mod data;
pub mod error;
pub mod event;
pub mod json;
pub mod message;
pub mod options;
pub mod reply;
pub mod request;
pub mod text;

pub use correlator::ReplyQueue;
pub use data::{json_array_to_playlist, json_to_data, Float, MpvDataType, Playlist, PlaylistEntry};
pub use error::{Error, ErrorCode};
pub use event::{handle_event, Event, Property};
pub use json::Json;
pub use message::{classify, route, MpvMessage, Routed};
pub use options::{MpvCommand, NumberChangeOptions, PlaylistAddOptions, PlaylistAddTypeOptions, SeekOptions, Switch};
pub use reply::{Data, Response, TypeHandler};
pub use text::get_value_as_string;
