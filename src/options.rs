//! Options of the player's commands, and the words that name them on the wire.
use vstd::prelude::*;
use crate::data::Float;
use crate::json::str_eq;
use crate::request::{decimal_text, int_text, json_string_text, request_line, run_command_request};

verus! {

/// How a numeric property changes.
pub enum NumberChangeOptions {
    Absolute,
    Increase,
    Decrease,
}

/// Whether a loaded file or list replaces the playlist or joins its end.
pub enum PlaylistAddOptions {
    Replace,
    Append,
}

/// Whether a path names a media file or a playlist file.
pub enum PlaylistAddTypeOptions {
    File,
    Playlist,
}

/// How a seek target is measured.
pub enum SeekOptions {
    Relative,
    Absolute,
    RelativePercent,
    AbsolutePercent,
}

/// A command of the player that the client issues by name.
pub enum MpvCommand {
    LoadFile { file: String, option: PlaylistAddOptions },
    LoadList { file: String, option: PlaylistAddOptions },
    PlaylistClear,
    PlaylistMove { from: usize, to: usize },
    PlaylistNext,
    PlaylistPrev,
    PlaylistRemove(usize),
    PlaylistShuffle,
    Quit,
    /// A seek by `seconds`, a JSON number text.
    Seek { seconds: Float, option: SeekOptions },
    Stop,
}

/// A requested state for an on/off property.
pub enum Switch {
    On,
    Off,
    Toggle,
}

impl PlaylistAddOptions {
    pub open spec fn word(&self) -> Seq<char> {
        match self {
            PlaylistAddOptions::Replace => "replace"@,
            PlaylistAddOptions::Append => "append"@,
        }
    }

    /// The flag that the `loadfile` and `loadlist` commands take for this option.
    pub fn as_arg(&self) -> (r: &'static str)
        ensures
            r@ == self.word(),
    {
        match self {
            PlaylistAddOptions::Replace => "replace",
            PlaylistAddOptions::Append => "append",
        }
    }
}

impl SeekOptions {
    pub open spec fn word(&self) -> Seq<char> {
        match self {
            SeekOptions::Relative => "relative"@,
            SeekOptions::Absolute => "absolute"@,
            SeekOptions::RelativePercent => "relative-percent"@,
            SeekOptions::AbsolutePercent => "absolute-percent"@,
        }
    }

    /// The flag that the `seek` command takes for this option.
    pub fn as_arg(&self) -> (r: &'static str)
        ensures
            r@ == self.word(),
    {
        match self {
            SeekOptions::Relative => "relative",
            SeekOptions::Absolute => "absolute",
            SeekOptions::RelativePercent => "relative-percent",
            SeekOptions::AbsolutePercent => "absolute-percent",
        }
    }
}

impl Switch {
    /// Whether the property ends up on, given whether it is on now.
    pub fn resolve(&self, current: bool) -> (r: bool)
        ensures
            r == match self {
                Switch::On => true,
                Switch::Off => false,
                Switch::Toggle => !current,
            },
    {
        match self {
            Switch::On => true,
            Switch::Off => false,
            Switch::Toggle => !current,
        }
    }

    /// Whether the property ends up on, given its current value as text: a
    /// toggle turns it on exactly when that text is `false`.
    pub fn resolve_text(&self, current: &str) -> (r: bool)
        ensures
            r == match self {
                Switch::On => true,
                Switch::Off => false,
                Switch::Toggle => current@ == "false"@,
            },
    {
        match self {
            Switch::On => true,
            Switch::Off => false,
            Switch::Toggle => str_eq(current, "false"),
        }
    }
}

impl MpvCommand {
    /// The command that moves the entry at `id` to just after the entry now
    /// playing, at `current`; `None` when no position can follow `current`.
    pub fn play_next(id: usize, current: usize) -> (r: Option<MpvCommand>)
        ensures
            r == if current < usize::MAX {
                Some(MpvCommand::PlaylistMove { from: id, to: (current + 1) as usize })
            } else {
                None::<MpvCommand>
            },
    {
        if current < usize::MAX {
            Some(MpvCommand::PlaylistMove { from: id, to: current + 1 })
        } else {
            None
        }
    }

    /// The command that adds `file` to the playlist: `LoadFile` for a media
    /// file, `LoadList` for a playlist file.
    pub fn load(file: String, file_type: PlaylistAddTypeOptions, option: PlaylistAddOptions) -> (r:
        MpvCommand)
        ensures
            r == match file_type {
                PlaylistAddTypeOptions::File => MpvCommand::LoadFile { file, option },
                PlaylistAddTypeOptions::Playlist => MpvCommand::LoadList { file, option },
            },
    {
        match file_type {
            PlaylistAddTypeOptions::File => MpvCommand::LoadFile { file, option },
            PlaylistAddTypeOptions::Playlist => MpvCommand::LoadList { file, option },
        }
    }

    /// The command's name followed by its arguments, each as plain text.
    pub open spec fn words(&self) -> Seq<Seq<char>> {
        match self {
            MpvCommand::LoadFile { file, option } => seq!["loadfile"@, file@, option.word()],
            MpvCommand::LoadList { file, option } => seq!["loadlist"@, file@, option.word()],
            MpvCommand::PlaylistClear => seq!["playlist-clear"@],
            MpvCommand::PlaylistMove { from, to } => seq![
                "playlist-move"@,
                decimal_text(*from as int),
                decimal_text(*to as int),
            ],
            MpvCommand::PlaylistNext => seq!["playlist-next"@],
            MpvCommand::PlaylistPrev => seq!["playlist-prev"@],
            MpvCommand::PlaylistRemove(id) => seq!["playlist-remove"@, decimal_text(*id as int)],
            MpvCommand::PlaylistShuffle => seq!["playlist-shuffle"@],
            MpvCommand::Quit => seq!["quit"@],
            MpvCommand::Seek { seconds, option } => seq!["seek"@, seconds.0@, option.word()],
            MpvCommand::Stop => seq!["stop"@],
        }
    }

    /// The request line that issues the command, every word a JSON string.
    pub fn to_request(&self) -> (r: String)
        ensures
            r@ == request_line(self.words().map_values(|w: Seq<char>| json_string_text(w))),
    {
        let numbers: (String, String) = match self {
            MpvCommand::PlaylistMove { from, to } => (int_text(*from as i128), int_text(*to as i128)),
            MpvCommand::PlaylistRemove(id) => (int_text(*id as i128), String::new()),
            _ => (String::new(), String::new()),
        };
        let mut args: Vec<&str> = Vec::new();
        let name = match self {
            MpvCommand::LoadFile { file, option } => {
                args.push(file.as_str());
                args.push(option.as_arg());
                "loadfile"
            },
            MpvCommand::LoadList { file, option } => {
                args.push(file.as_str());
                args.push(option.as_arg());
                "loadlist"
            },
            MpvCommand::PlaylistClear => "playlist-clear",
            MpvCommand::PlaylistMove { from, to } => {
                args.push(numbers.0.as_str());
                args.push(numbers.1.as_str());
                "playlist-move"
            },
            MpvCommand::PlaylistNext => "playlist-next",
            MpvCommand::PlaylistPrev => "playlist-prev",
            MpvCommand::PlaylistRemove(id) => {
                args.push(numbers.0.as_str());
                "playlist-remove"
            },
            MpvCommand::PlaylistShuffle => "playlist-shuffle",
            MpvCommand::Quit => "quit",
            MpvCommand::Seek { seconds, option } => {
                args.push(seconds.0.as_str());
                args.push(option.as_arg());
                "seek"
            },
            MpvCommand::Stop => "stop",
        };
        assert(seq![name@] + args@.map_values(|a: &str| a@) =~= self.words());
        issue(name, args.as_slice())
    }
}

fn issue(name: &str, args: &[&str]) -> (r: String)
    ensures
        r@ == request_line(
            (seq![name@] + args@.map_values(|a: &str| a@)).map_values(
                |w: Seq<char>| json_string_text(w),
            ),
        ),
{
    let r = run_command_request(name, args);
    assert((seq![name@] + args@.map_values(|a: &str| a@)).map_values(
        |w: Seq<char>| json_string_text(w),
    ) =~= seq![json_string_text(name@)] + args@.map_values(|a: &str| json_string_text(a@)));
    r
}

} // verus!
