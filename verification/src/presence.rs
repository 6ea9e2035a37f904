//! Rendering the record into what the presence display shows.

use crate::text::starts_with;
use crate::track::{TrackState, TrackView};
use vstd::prelude::*;
use vstd::string::*;

verus! {

/// The small icon, which tells how the media is being played.
#[derive(Debug, Clone, Copy, PartialEq, Eq, Structural)]
pub enum Icon {
    Pause,
    Loop,
    LoopPlaylist,
    Play,
}

/// The icon for a playback state. The first match wins: a pause hides both
/// repeat modes, and repeating the file hides repeating the playlist.
pub open spec fn icon_for(paused: bool, looping_file: bool, looping_playlist: bool) -> Icon {
    if paused {
        Icon::Pause
    } else if looping_file {
        Icon::Loop
    } else if looping_playlist {
        Icon::LoopPlaylist
    } else {
        Icon::Play
    }
}

impl Icon {
    /// The key under which the display knows the icon.
    pub open spec fn key_text(self) -> Seq<char> {
        match self {
            Icon::Pause => "pause"@,
            Icon::Loop => "loop"@,
            Icon::LoopPlaylist => "loop-playlist"@,
            Icon::Play => "play"@,
        }
    }

    /// The text shown when the pointer rests on the icon.
    pub open spec fn label_text(self) -> Seq<char> {
        match self {
            Icon::Pause => "Paused"@,
            Icon::Loop => "Repeat Song"@,
            Icon::LoopPlaylist => "Repeat"@,
            Icon::Play => "Playing"@,
        }
    }

    /// Picks the icon for a playback state.
    pub fn select(paused: bool, looping_file: bool, looping_playlist: bool) -> (icon: Icon)
        ensures
            icon == icon_for(paused, looping_file, looping_playlist),
    {
        if paused {
            Icon::Pause
        } else if looping_file {
            Icon::Loop
        } else if looping_playlist {
            Icon::LoopPlaylist
        } else {
            Icon::Play
        }
    }

    /// The key under which the display knows the icon.
    pub fn key(&self) -> (key: &'static str)
        ensures
            key@ == self.key_text(),
    {
        match self {
            Icon::Pause => "pause",
            Icon::Loop => "loop",
            Icon::LoopPlaylist => "loop-playlist",
            Icon::Play => "play",
        }
    }

    /// The text shown when the pointer rests on the icon.
    pub fn label(&self) -> (label: &'static str)
        ensures
            label@ == self.label_text(),
    {
        match self {
            Icon::Pause => "Paused",
            Icon::Loop => "Repeat Song",
            Icon::LoopPlaylist => "Repeat",
            Icon::Play => "Playing",
        }
    }
}

/// A button that opens a link.
#[derive(Debug, Clone, PartialEq, Eq)]
pub struct Button {
    pub label: String,
    pub url: String,
}

/// A button as plain values.
pub struct ButtonView {
    pub label: Seq<char>,
    pub url: Seq<char>,
}

impl View for Button {
    type V = ButtonView;

    open spec fn view(&self) -> ButtonView {
        ButtonView { label: self.label@, url: self.url@ }
    }
}

/// What the presence display shows for one state of the record. It is made
/// anew on each render and holds nothing that the record does not.
#[derive(Debug, Clone, PartialEq, Eq)]
pub struct PresencePayload {
    /// The first line: the media title.
    pub title: String,
    /// The second line: the artist.
    pub subtitle: String,
    /// The key of the large icon.
    pub large_image: String,
    /// The text shown when the pointer rests on the large icon: the album.
    pub large_text: String,
    /// The key of the small icon.
    pub small_image: String,
    /// The text shown when the pointer rests on the small icon.
    pub small_text: String,
    /// When playback ends, in seconds since the epoch.
    pub end_timestamp: i64,
    /// A link to the media, where it comes from the network.
    pub button: Option<Button>,
}

/// A payload as plain values.
pub struct PayloadView {
    pub title: Seq<char>,
    pub subtitle: Seq<char>,
    pub large_image: Seq<char>,
    pub large_text: Seq<char>,
    pub small_image: Seq<char>,
    pub small_text: Seq<char>,
    pub end_timestamp: int,
    pub button: Option<ButtonView>,
}

impl View for PresencePayload {
    type V = PayloadView;

    open spec fn view(&self) -> PayloadView {
        PayloadView {
            title: self.title@,
            subtitle: self.subtitle@,
            large_image: self.large_image@,
            large_text: self.large_text@,
            small_image: self.small_image@,
            small_text: self.small_text@,
            end_timestamp: self.end_timestamp as int,
            button: match self.button {
                Some(b) => Some(b@),
                None => None,
            },
        }
    }
}

/// Whether a source path is a link into the network.
pub open spec fn is_link(path: Seq<char>) -> bool {
    "http"@.is_prefix_of(path)
}

/// The button for a source path: present exactly for a link, which it then
/// opens unchanged.
pub open spec fn button_for(source_path: Option<Seq<char>>) -> Option<ButtonView> {
    match source_path {
        Some(path) => if is_link(path) {
            Some(ButtonView { label: "Watch Together"@, url: path })
        } else {
            None
        },
        None => None,
    }
}

/// What the display shows for a record.
pub open spec fn rendered(track: TrackView) -> PayloadView {
    let icon = icon_for(track.paused, track.looping_file, track.looping_playlist);
    PayloadView {
        title: track.title,
        subtitle: match track.artist {
            Some(artist) => artist,
            None => "Unknown Artist"@,
        },
        large_image: "mpv"@,
        large_text: match track.album {
            Some(album) => album,
            None => "Unknown Album"@,
        },
        small_image: icon.key_text(),
        small_text: icon.label_text(),
        end_timestamp: track.end_timestamp,
        button: button_for(track.source_path),
    }
}

/// Renders the record. Nothing is changed and nothing can fail: where the
/// artist or the album is unknown, a fixed text stands in.
pub fn render(track: &TrackState) -> (payload: PresencePayload)
    ensures
        payload@ == rendered(track@),
{
    let icon = Icon::select(track.paused, track.looping_file, track.looping_playlist);
    let subtitle = match &track.artist {
        Some(artist) => artist.as_str().to_owned(),
        None => "Unknown Artist".to_owned(),
    };
    let large_text = match &track.album {
        Some(album) => album.as_str().to_owned(),
        None => "Unknown Album".to_owned(),
    };
    let button = match &track.source_path {
        Some(path) => if starts_with(path.as_str(), "http") {
            Some(Button { label: "Watch Together".to_owned(), url: path.as_str().to_owned() })
        } else {
            None
        },
        None => None,
    };
    PresencePayload {
        title: track.title.clone(),
        subtitle,
        large_image: "mpv".to_owned(),
        large_text,
        small_image: icon.key().to_owned(),
        small_text: icon.label().to_owned(),
        end_timestamp: track.end_timestamp,
        button,
    }
}

/// A pause always shows: whatever the repeat modes are, a paused record is
/// rendered with the pause icon.
pub proof fn lemma_pause_hides_repeat(track: TrackView)
    requires
        track.paused,
    ensures
        rendered(track).small_image == "pause"@,
        rendered(track).small_text == "Paused"@,
{
}

/// Repeating the file wins over repeating the playlist: a record that is not
/// paused and repeats the file is rendered with the icon of the file's
/// repeat, whether or not the playlist repeats too.
pub proof fn lemma_file_repeat_hides_playlist_repeat(track: TrackView)
    requires
        !track.paused,
        track.looping_file,
    ensures
        rendered(track).small_image == "loop"@,
        rendered(track).small_text == "Repeat Song"@,
{
}

/// Every playback state has exactly one icon, and the four icons have four
/// different keys.
pub proof fn lemma_icon_keys_differ(a: Icon, b: Icon)
    ensures
        a.key_text() == b.key_text() <==> a == b,
{
    reveal_strlit("pause");
    reveal_strlit("loop");
    reveal_strlit("loop-playlist");
    reveal_strlit("play");
    if a != b {
        assert(a.key_text().len() != b.key_text().len() || a.key_text()[0] != b.key_text()[0]);
    }
}

/// The button is there if and only if the source path is present and starts
/// with "http"; it then carries the fixed label and the path as it is.
pub proof fn lemma_button_iff_link(track: TrackView)
    ensures
        rendered(track).button is Some <==> (track.source_path is Some && "http"@.is_prefix_of(
            track.source_path->0,
        )),
        rendered(track).button matches Some(button) ==> button.label == "Watch Together"@
            && button.url == track.source_path->0,
{
}

} // verus!
