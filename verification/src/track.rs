//! The record of what is playing.

use crate::text::{optional_view, MpvStr};
use vstd::prelude::*;
use vstd::string::*;

verus! {

/// The last known value of every tracked property of the player, and the
/// time at which playback will end.
#[derive(Debug, Clone, PartialEq, Eq)]
pub struct TrackState {
    /// The media title.
    pub title: String,
    /// The artist, where the media names one.
    pub artist: Option<MpvStr>,
    /// The album, where the media names one.
    pub album: Option<MpvStr>,
    /// Where the media comes from: a file path or a URL.
    pub source_path: Option<MpvStr>,
    /// When playback reaches the end of the media, in seconds since the
    /// epoch. Always a point in time, never a duration.
    pub end_timestamp: i64,
    /// Whether playback is paused.
    pub paused: bool,
    /// Whether the current file repeats.
    pub looping_file: bool,
    /// Whether the playlist repeats.
    pub looping_playlist: bool,
}

/// The record as plain values.
pub struct TrackView {
    pub title: Seq<char>,
    pub artist: Option<Seq<char>>,
    pub album: Option<Seq<char>>,
    pub source_path: Option<Seq<char>>,
    pub end_timestamp: int,
    pub paused: bool,
    pub looping_file: bool,
    pub looping_playlist: bool,
}

impl View for TrackState {
    type V = TrackView;

    open spec fn view(&self) -> TrackView {
        TrackView {
            title: self.title@,
            artist: optional_view(self.artist),
            album: optional_view(self.album),
            source_path: optional_view(self.source_path),
            end_timestamp: self.end_timestamp as int,
            paused: self.paused,
            looping_file: self.looping_file,
            looping_playlist: self.looping_playlist,
        }
    }
}

/// The record of a session that has seen no notification yet.
pub open spec fn initial_track() -> TrackView {
    TrackView {
        title: "Unknown Title"@,
        artist: None,
        album: None,
        source_path: None,
        end_timestamp: 0,
        paused: false,
        looping_file: false,
        looping_playlist: false,
    }
}

impl Default for TrackState {
    fn default() -> (track: TrackState)
        ensures
            track@ == initial_track(),
    {
        TrackState {
            title: "Unknown Title".to_owned(),
            artist: None,
            album: None,
            source_path: None,
            end_timestamp: 0,
            paused: false,
            looping_file: false,
            looping_playlist: false,
        }
    }
}

} // verus!
