//! What the player reports, and what each report means for the record.

use crate::text::{decode_text, lemma_text_of_its_bytes, read_text, same_text, text_of};
use vstd::utf8::encode_utf8;
use vstd::prelude::*;
use vstd::string::*;

verus! {

/// The form in which the player delivers the value of a property.
#[derive(Debug, Clone, Copy, PartialEq, Eq, Structural)]
pub enum Format {
    Flag,
    Int64,
    Text,
}

/// The properties whose changes the library asks to be told of.
#[derive(Debug, Clone, Copy, PartialEq, Eq, Structural)]
pub enum Property {
    Pause,
    MediaTitle,
    Duration,
    LoopFile,
    LoopPlaylist,
}

impl Property {
    /// The name by which the player knows the property.
    pub open spec fn name_text(self) -> Seq<char> {
        match self {
            Property::Pause => "pause"@,
            Property::MediaTitle => "media-title"@,
            Property::Duration => "duration"@,
            Property::LoopFile => "loop-file"@,
            Property::LoopPlaylist => "loop-playlist"@,
        }
    }

    /// The form in which the property's value is asked for.
    pub open spec fn value_format(self) -> Format {
        match self {
            Property::Pause => Format::Flag,
            Property::MediaTitle => Format::Text,
            Property::Duration => Format::Int64,
            Property::LoopFile => Format::Text,
            Property::LoopPlaylist => Format::Text,
        }
    }

    /// The name by which the player knows the property.
    pub fn name(&self) -> (name: &'static str)
        ensures
            name@ == self.name_text(),
    {
        match self {
            Property::Pause => "pause",
            Property::MediaTitle => "media-title",
            Property::Duration => "duration",
            Property::LoopFile => "loop-file",
            Property::LoopPlaylist => "loop-playlist",
        }
    }

    /// The form in which the property's value is asked for.
    pub fn format(&self) -> (format: Format)
        ensures
            format == self.value_format(),
    {
        match self {
            Property::Pause => Format::Flag,
            Property::MediaTitle => Format::Text,
            Property::Duration => Format::Int64,
            Property::LoopFile => Format::Text,
            Property::LoopPlaylist => Format::Text,
        }
    }

    /// Finds the tracked property of a given name.
    pub fn find(name: &str) -> (found: Option<Property>)
        ensures
            found == property_named(name@),
    {
        if same_text(name, Property::Pause.name()) {
            Some(Property::Pause)
        } else if same_text(name, Property::MediaTitle.name()) {
            Some(Property::MediaTitle)
        } else if same_text(name, Property::Duration.name()) {
            Some(Property::Duration)
        } else if same_text(name, Property::LoopFile.name()) {
            Some(Property::LoopFile)
        } else if same_text(name, Property::LoopPlaylist.name()) {
            Some(Property::LoopPlaylist)
        } else {
            None
        }
    }
}

/// The tracked property of a given name, if there is one.
pub open spec fn property_named(name: Seq<char>) -> Option<Property> {
    if name == Property::Pause.name_text() {
        Some(Property::Pause)
    } else if name == Property::MediaTitle.name_text() {
        Some(Property::MediaTitle)
    } else if name == Property::Duration.name_text() {
        Some(Property::Duration)
    } else if name == Property::LoopFile.name_text() {
        Some(Property::LoopFile)
    } else if name == Property::LoopPlaylist.name_text() {
        Some(Property::LoopPlaylist)
    } else {
        None
    }
}

/// The properties to register with the player, in the order of registration.
pub open spec fn observed() -> Seq<Property> {
    seq![
        Property::Pause,
        Property::MediaTitle,
        Property::Duration,
        Property::LoopFile,
        Property::LoopPlaylist,
    ]
}

/// The properties to register with the player before the first event is
/// waited for. A registration that fails goes unnoticed: the property then
/// simply never changes.
pub fn observed_properties() -> (list: Vec<Property>)
    ensures
        list@ == observed(),
{
    let mut list: Vec<Property> = Vec::new();
    list.push(Property::Pause);
    list.push(Property::MediaTitle);
    list.push(Property::Duration);
    list.push(Property::LoopFile);
    list.push(Property::LoopPlaylist);
    assert(list@ =~= observed());
    list
}

/// No two tracked properties share a name, so a name finds the property it
/// belongs to and no other.
pub proof fn lemma_names_identify_properties(property: Property, name: Seq<char>)
    ensures
        property_named(property.name_text()) == Some(property),
        property_named(name) == Some(property) ==> name == property.name_text(),
{
    reveal_strlit("pause");
    reveal_strlit("media-title");
    reveal_strlit("duration");
    reveal_strlit("loop-file");
    reveal_strlit("loop-playlist");
    assert("pause"@.len() == 5);
    assert("media-title"@.len() == 11);
    assert("duration"@.len() == 8);
    assert("loop-file"@.len() == 9);
    assert("loop-playlist"@.len() == 13);
}

/// Every property that is registered is one that a notification can name.
pub proof fn lemma_observed_are_tracked(i: int)
    requires
        0 <= i < observed().len(),
    ensures
        property_named(observed()[i].name_text()) == Some(observed()[i]),
{
    lemma_names_identify_properties(observed()[i], observed()[i].name_text());
}

/// The value of a property as the player delivered it.
#[derive(Debug, Clone, PartialEq, Eq)]
pub enum PropertyValue {
    /// No value: the property is unavailable.
    Empty,
    /// A flag.
    Flag(bool),
    /// A signed integer.
    Int64(i64),
    /// The bytes of a string, which are meant to be UTF-8.
    Text(Vec<u8>),
    /// A value in a form that the library does not read.
    Other,
}

/// A delivered value as plain values.
pub enum ValueView {
    Empty,
    Flag(bool),
    Int64(int),
    Text(Seq<u8>),
    Other,
}

impl View for PropertyValue {
    type V = ValueView;

    open spec fn view(&self) -> ValueView {
        match self {
            PropertyValue::Empty => ValueView::Empty,
            PropertyValue::Flag(flag) => ValueView::Flag(*flag),
            PropertyValue::Int64(n) => ValueView::Int64(*n as int),
            PropertyValue::Text(bytes) => ValueView::Text(bytes@),
            PropertyValue::Other => ValueView::Other,
        }
    }
}

/// One event of the player.
#[derive(Debug, Clone, PartialEq, Eq)]
pub enum Event {
    /// The player shuts down.
    Shutdown,
    /// A property has a new value. The name comes as the player's bytes.
    PropertyChange { name: Vec<u8>, value: PropertyValue },
    /// Playback starts again after a seek or a change of track.
    PlaybackRestart,
    /// Any other event, and a wait that ended without one.
    Other,
}

/// An event as plain values.
pub enum EventView {
    Shutdown,
    PropertyChange { name: Seq<u8>, value: ValueView },
    PlaybackRestart,
    Other,
}

impl View for Event {
    type V = EventView;

    open spec fn view(&self) -> EventView {
        match self {
            Event::Shutdown => EventView::Shutdown,
            Event::PropertyChange { name, value } => EventView::PropertyChange {
                name: name@,
                value: value@,
            },
            Event::PlaybackRestart => EventView::PlaybackRestart,
            Event::Other => EventView::Other,
        }
    }
}

/// What an event means for the session, once its kind, the name of its
/// property and the encoding of its value have been looked at.
#[derive(Debug, Clone, PartialEq, Eq)]
pub enum Notice {
    /// The player shuts down.
    Shutdown,
    /// Playback is paused.
    Paused,
    /// Playback is no longer paused.
    Resumed,
    /// The media has this title.
    Title(String),
    /// The media lasts this many seconds.
    Duration(i64),
    /// The current file repeats, or does not.
    LoopFile(bool),
    /// The playlist repeats, or does not.
    LoopPlaylist(bool),
    /// Playback starts again after a seek or a change of track.
    Restarted,
    /// Nothing that concerns the session.
    Ignored,
}

/// A notice as plain values.
pub enum NoticeView {
    Shutdown,
    Paused,
    Resumed,
    Title(Seq<char>),
    Duration(int),
    LoopFile(bool),
    LoopPlaylist(bool),
    Restarted,
    Ignored,
}

impl View for Notice {
    type V = NoticeView;

    open spec fn view(&self) -> NoticeView {
        match self {
            Notice::Shutdown => NoticeView::Shutdown,
            Notice::Paused => NoticeView::Paused,
            Notice::Resumed => NoticeView::Resumed,
            Notice::Title(title) => NoticeView::Title(title@),
            Notice::Duration(seconds) => NoticeView::Duration(*seconds as int),
            Notice::LoopFile(on) => NoticeView::LoopFile(*on),
            Notice::LoopPlaylist(on) => NoticeView::LoopPlaylist(*on),
            Notice::Restarted => NoticeView::Restarted,
            Notice::Ignored => NoticeView::Ignored,
        }
    }
}

/// Whether a reported value of `loop-file` means that the file repeats.
pub open spec fn file_repeats(value: Seq<char>) -> bool {
    value == "yes"@ || value == "infinite"@
}

/// Whether a reported value of `loop-playlist` means that the playlist repeats.
pub open spec fn playlist_repeats(value: Seq<char>) -> bool {
    value == "yes"@
}

/// What a new value of a tracked property means. A value that is empty, or
/// that does not come in the form the property was registered with, or whose
/// text is not well-formed UTF-8, means nothing: the notification is dropped.
pub open spec fn value_notice(property: Property, value: ValueView) -> NoticeView {
    match (property, value) {
        (Property::Pause, ValueView::Flag(paused)) => if paused {
            NoticeView::Paused
        } else {
            NoticeView::Resumed
        },
        (Property::MediaTitle, ValueView::Text(bytes)) => match text_of(bytes) {
            Some(title) => NoticeView::Title(title),
            None => NoticeView::Ignored,
        },
        (Property::Duration, ValueView::Int64(seconds)) => NoticeView::Duration(seconds),
        (Property::LoopFile, ValueView::Text(bytes)) => match text_of(bytes) {
            Some(value) => NoticeView::LoopFile(file_repeats(value)),
            None => NoticeView::Ignored,
        },
        (Property::LoopPlaylist, ValueView::Text(bytes)) => match text_of(bytes) {
            Some(value) => NoticeView::LoopPlaylist(playlist_repeats(value)),
            None => NoticeView::Ignored,
        },
        _ => NoticeView::Ignored,
    }
}

/// The tracked property that the bytes of a name spell, if they spell one.
pub open spec fn property_spelled(name: Seq<u8>) -> Option<Property> {
    match text_of(name) {
        Some(text) => property_named(text),
        None => None,
    }
}

/// What an event means: by its kind first, then by the name of its property.
/// A property that is not tracked means nothing.
pub open spec fn classified(event: EventView) -> NoticeView {
    match event {
        EventView::Shutdown => NoticeView::Shutdown,
        EventView::PropertyChange { name, value } => match property_spelled(name) {
            Some(property) => value_notice(property, value),
            None => NoticeView::Ignored,
        },
        EventView::PlaybackRestart => NoticeView::Restarted,
        EventView::Other => NoticeView::Ignored,
    }
}

/// The event that a tracked property has a new value.
pub open spec fn change_of(property: Property, value: ValueView) -> EventView {
    EventView::PropertyChange { name: encode_utf8(property.name_text()), value }
}

/// A change of a tracked property means what its value means.
pub proof fn lemma_change_is_read_by_its_property(property: Property, value: ValueView)
    ensures
        classified(change_of(property, value)) == value_notice(property, value),
{
    lemma_text_of_its_bytes(property.name_text());
    lemma_names_identify_properties(property, property.name_text());
}

/// The form of a delivered value, where it is one that the library reads.
pub open spec fn format_of(value: ValueView) -> Option<Format> {
    match value {
        ValueView::Flag(_) => Some(Format::Flag),
        ValueView::Int64(_) => Some(Format::Int64),
        ValueView::Text(_) => Some(Format::Text),
        _ => None,
    }
}

/// A value is read only in the form that its property was registered with:
/// in any other form, and where there is no value, the notification is
/// dropped.
pub proof fn lemma_value_is_read_in_its_format(property: Property, value: ValueView)
    ensures
        !(value_notice(property, value) is Ignored) ==> format_of(value) == Some(
            property.value_format(),
        ),
        !(value_notice(property, value) is Ignored) && format_of(value) == Some(Format::Text)
            ==> text_of(value->Text_0) is Some,
{
}

/// Reads the new value of a tracked property.
fn read_value(property: Property, value: &PropertyValue) -> (notice: Notice)
    ensures
        notice@ == value_notice(property, value@),
{
    match (property, value) {
        (Property::Pause, PropertyValue::Flag(paused)) => if *paused {
            Notice::Paused
        } else {
            Notice::Resumed
        },
        (Property::MediaTitle, PropertyValue::Text(bytes)) => match decode_text(bytes.as_slice()) {
            Some(title) => Notice::Title(title),
            None => Notice::Ignored,
        },
        (Property::Duration, PropertyValue::Int64(seconds)) => Notice::Duration(*seconds),
        (Property::LoopFile, PropertyValue::Text(bytes)) => match decode_text(bytes.as_slice()) {
            Some(value) => Notice::LoopFile(
                same_text(value.as_str(), "yes") || same_text(value.as_str(), "infinite"),
            ),
            None => Notice::Ignored,
        },
        (Property::LoopPlaylist, PropertyValue::Text(bytes)) => match decode_text(
            bytes.as_slice(),
        ) {
            Some(value) => Notice::LoopPlaylist(same_text(value.as_str(), "yes")),
            None => Notice::Ignored,
        },
        _ => Notice::Ignored,
    }
}

/// Sorts an event by its kind and by the name of its property, and checks
/// the encoding of its value.
pub fn classify(event: &Event) -> (notice: Notice)
    ensures
        notice@ == classified(event@),
{
    match event {
        Event::Shutdown => Notice::Shutdown,
        Event::PropertyChange { name, value } => match read_text(name.as_slice()) {
            Some(text) => match Property::find(text) {
                Some(property) => read_value(property, value),
                None => Notice::Ignored,
            },
            None => Notice::Ignored,
        },
        Event::PlaybackRestart => Notice::Restarted,
        Event::Other => Notice::Ignored,
    }
}

/// What has to be read from the player before a notice can be acted on.
#[derive(Debug, Clone, Copy, PartialEq, Eq, Structural)]
pub enum Query {
    /// Nothing.
    Nothing,
    /// The wall-clock time.
    Clock,
    /// The wall-clock time and the seconds of playback that are left.
    TimeRemaining,
    /// The artist, the album and the source path of the media.
    Metadata,
}

/// The player's property of the seconds of playback that are left.
pub const TIME_REMAINING: &'static str = "time-remaining";

/// The player's property of the artist.
pub const ARTIST: &'static str = "metadata/by-key/Artist";

/// The player's property of the album.
pub const ALBUM: &'static str = "metadata/by-key/Album";

/// The player's property of the source path.
pub const SOURCE_PATH: &'static str = "path";

/// What was read from the player for a notice.
#[derive(Debug, Clone, PartialEq, Eq)]
pub enum Answer {
    /// Nothing was read.
    Nothing,
    /// The wall-clock time, in seconds since the epoch.
    Clock { now: i64 },
    /// The wall-clock time, and the seconds of playback that are left.
    TimeRemaining { now: i64, remaining: i64 },
    /// The bytes of the artist, the album and the source path, each absent
    /// where the player has no such value.
    Metadata { artist: Option<Vec<u8>>, album: Option<Vec<u8>>, source_path: Option<Vec<u8>> },
}

/// An answer as plain values.
pub enum AnswerView {
    Nothing,
    Clock { now: int },
    TimeRemaining { now: int, remaining: int },
    Metadata { artist: Option<Seq<u8>>, album: Option<Seq<u8>>, source_path: Option<Seq<u8>> },
}

/// The bytes of a value that may be absent.
pub open spec fn optional_bytes(value: Option<Vec<u8>>) -> Option<Seq<u8>> {
    match value {
        Some(bytes) => Some(bytes@),
        None => None,
    }
}

impl View for Answer {
    type V = AnswerView;

    open spec fn view(&self) -> AnswerView {
        match self {
            Answer::Nothing => AnswerView::Nothing,
            Answer::Clock { now } => AnswerView::Clock { now: *now as int },
            Answer::TimeRemaining { now, remaining } => AnswerView::TimeRemaining {
                now: *now as int,
                remaining: *remaining as int,
            },
            Answer::Metadata { artist, album, source_path } => AnswerView::Metadata {
                artist: optional_bytes(*artist),
                album: optional_bytes(*album),
                source_path: optional_bytes(*source_path),
            },
        }
    }
}

/// What a notice needs from the player: the time that is left where playback
/// goes on from a new position, the clock where a duration came in, the
/// media's other metadata where its title changed.
pub open spec fn query_for(notice: NoticeView) -> Query {
    match notice {
        NoticeView::Resumed => Query::TimeRemaining,
        NoticeView::Restarted => Query::TimeRemaining,
        NoticeView::Duration(_) => Query::Clock,
        NoticeView::Title(_) => Query::Metadata,
        _ => Query::Nothing,
    }
}

/// Whether an answer holds what a query asked for.
pub open spec fn answers(query: Query, answer: AnswerView) -> bool {
    match query {
        Query::Nothing => true,
        Query::Clock => answer is Clock,
        Query::TimeRemaining => answer is TimeRemaining,
        Query::Metadata => answer is Metadata,
    }
}

impl Notice {
    /// What has to be read from the player before the notice is acted on.
    pub fn query(&self) -> (query: Query)
        ensures
            query == query_for(self@),
    {
        match self {
            Notice::Resumed => Query::TimeRemaining,
            Notice::Restarted => Query::TimeRemaining,
            Notice::Duration(_) => Query::Clock,
            Notice::Title(_) => Query::Metadata,
            _ => Query::Nothing,
        }
    }
}

} // verus!
