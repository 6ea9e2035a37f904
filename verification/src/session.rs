//! The session: the record, and what each notice does to it.

use crate::event::{
    answers, change_of, classified, lemma_change_is_read_by_its_property, optional_bytes,
    query_for, Answer, AnswerView, EventView, Notice, NoticeView, Property, ValueView,
};
use crate::presence::{render, rendered, PayloadView, PresencePayload};
use crate::text::{optional_text_of, optional_view, MpvStr};
use crate::timing::compute_end_timestamp;
use crate::track::{initial_track, TrackState, TrackView};
use vstd::prelude::*;
use vstd::utf8::{decode_utf8, valid_utf8};

verus! {

/// What one step tells of the record, field by field: the new value of each
/// field that the step tells of, and `None` for each that it is silent on.
pub struct Report {
    pub title: Option<Seq<char>>,
    pub artist: Option<Option<Seq<char>>>,
    pub album: Option<Option<Seq<char>>>,
    pub source_path: Option<Option<Seq<char>>>,
    pub end_timestamp: Option<int>,
    pub paused: Option<bool>,
    pub looping_file: Option<bool>,
    pub looping_playlist: Option<bool>,
}

/// The report that tells of nothing.
pub open spec fn silent() -> Report {
    Report {
        title: None,
        artist: None,
        album: None,
        source_path: None,
        end_timestamp: None,
        paused: None,
        looping_file: None,
        looping_playlist: None,
    }
}

/// What a notice tells of the record, given the answer that was read from the
/// player for it.
///
/// A pause tells that playback is paused. The end of a pause tells that it
/// is not, and with it the end of playback: the clock plus the time that is
/// left. A restart of playback tells that end alone, and a duration tells the
/// clock plus the duration. A title brings with it the player's current
/// artist, album and source path, each absent where the player has none or
/// where its bytes are not well-formed UTF-8. A change of a repeat mode tells
/// the new mode. A notice whose answer does not hold what the notice needs
/// tells nothing, and neither does any other notice.
pub open spec fn report(notice: NoticeView, answer: AnswerView) -> Report {
    match (notice, answer) {
        (NoticeView::Paused, _) => Report { paused: Some(true), ..silent() },
        (NoticeView::Resumed, AnswerView::TimeRemaining { now, remaining }) => Report {
            paused: Some(false),
            end_timestamp: Some(now + remaining),
            ..silent()
        },
        (NoticeView::Restarted, AnswerView::TimeRemaining { now, remaining }) => Report {
            end_timestamp: Some(now + remaining),
            ..silent()
        },
        (NoticeView::Duration(seconds), AnswerView::Clock { now }) => Report {
            end_timestamp: Some(now + seconds),
            ..silent()
        },
        (NoticeView::Title(title), AnswerView::Metadata { artist, album, source_path }) => Report {
            title: Some(title),
            artist: Some(optional_text_of(artist)),
            album: Some(optional_text_of(album)),
            source_path: Some(optional_text_of(source_path)),
            ..silent()
        },
        (NoticeView::LoopFile(on), _) => Report { looping_file: Some(on), ..silent() },
        (NoticeView::LoopPlaylist(on), _) => Report { looping_playlist: Some(on), ..silent() },
        _ => silent(),
    }
}

/// The value of a field after a step: what the step tells of it, or else
/// what it was.
pub open spec fn latest<A>(told: Option<A>, before: A) -> A {
    match told {
        Some(value) => value,
        None => before,
    }
}

/// The record after a notice and its answer. Each field takes what the step
/// tells of it and is otherwise left alone.
pub open spec fn advanced(track: TrackView, notice: NoticeView, answer: AnswerView) -> TrackView {
    let told = report(notice, answer);
    TrackView {
        title: latest(told.title, track.title),
        artist: latest(told.artist, track.artist),
        album: latest(told.album, track.album),
        source_path: latest(told.source_path, track.source_path),
        end_timestamp: latest(told.end_timestamp, track.end_timestamp),
        paused: latest(told.paused, track.paused),
        looping_file: latest(told.looping_file, track.looping_file),
        looping_playlist: latest(told.looping_playlist, track.looping_playlist),
    }
}

/// Whether the record is rendered and pushed after a step: after a pause and
/// after its end, after a change of either repeat mode, and after a restart
/// of playback. A new title or duration alone is not pushed.
pub open spec fn pushes(notice: NoticeView, answer: AnswerView) -> bool {
    match (notice, answer) {
        (NoticeView::Paused, _) => true,
        (NoticeView::Resumed, AnswerView::TimeRemaining { .. }) => true,
        (NoticeView::Restarted, AnswerView::TimeRemaining { .. }) => true,
        (NoticeView::LoopFile(_), _) => true,
        (NoticeView::LoopPlaylist(_), _) => true,
        _ => false,
    }
}

/// Whether the end of playback that a step tells fits the record.
pub open spec fn in_range(notice: NoticeView, answer: AnswerView) -> bool {
    match report(notice, answer).end_timestamp {
        Some(end) => i64::MIN <= end <= i64::MAX,
        None => true,
    }
}

/// What the host loop does after a step of the session.
#[derive(Debug, Clone, PartialEq, Eq)]
pub enum Action {
    /// Wait for the next event.
    Wait,
    /// Push this payload to the presence display, then wait for the next event.
    Push(PresencePayload),
    /// Close the connection to the presence display and leave the loop.
    Close,
}

/// An action as plain values.
pub enum ActionView {
    Wait,
    Push(PayloadView),
    Close,
}

impl View for Action {
    type V = ActionView;

    open spec fn view(&self) -> ActionView {
        match self {
            Action::Wait => ActionView::Wait,
            Action::Push(payload) => ActionView::Push(payload@),
            Action::Close => ActionView::Close,
        }
    }
}

/// One session with the player: its record, and whether the session still
/// runs. It runs from its start until the player shuts down, and then never
/// again.
#[derive(Debug, Clone, PartialEq, Eq)]
pub struct Session {
    /// The record of what is playing.
    pub track: TrackState,
    /// Whether the player has not shut down yet.
    pub running: bool,
}

/// A session as plain values.
pub struct SessionView {
    pub track: TrackView,
    pub running: bool,
}

impl View for Session {
    type V = SessionView;

    open spec fn view(&self) -> SessionView {
        SessionView { track: self.track@, running: self.running }
    }
}

/// The session at its start.
pub open spec fn initial_session() -> SessionView {
    SessionView { track: initial_track(), running: true }
}

/// The session after a step. A session that has ended stays as it is. A
/// running one ends on the player's shutdown, and otherwise its record
/// advances.
pub open spec fn stepped(
    session: SessionView,
    notice: NoticeView,
    answer: AnswerView,
) -> SessionView {
    if !session.running {
        session
    } else if notice is Shutdown {
        SessionView { track: session.track, running: false }
    } else {
        SessionView { track: advanced(session.track, notice, answer), running: true }
    }
}

/// What the host loop is to do after a step: close on the shutdown of a
/// running session, push the freshly rendered record where the step calls
/// for it, and wait otherwise.
pub open spec fn action_of(
    session: SessionView,
    notice: NoticeView,
    answer: AnswerView,
) -> ActionView {
    if !session.running {
        ActionView::Wait
    } else if notice is Shutdown {
        ActionView::Close
    } else if pushes(notice, answer) {
        ActionView::Push(rendered(advanced(session.track, notice, answer)))
    } else {
        ActionView::Wait
    }
}

/// Decodes a value that the player may not have.
fn decode_optional(bytes: Option<Vec<u8>>) -> (text: Option<MpvStr>)
    ensures
        optional_view(text) == optional_text_of(optional_bytes(bytes)),
{
    match bytes {
        Some(bytes) => MpvStr::decode(bytes.as_slice()),
        None => None,
    }
}

/// Whether the end of playback that a step tells fits the record, so that
/// the step can be taken.
pub fn fits(notice: &Notice, answer: &Answer) -> (ok: bool)
    ensures
        ok == in_range(notice@, answer@),
{
    match (notice, answer) {
        (Notice::Resumed, Answer::TimeRemaining { now, remaining }) => now.checked_add(
            *remaining,
        ).is_some(),
        (Notice::Restarted, Answer::TimeRemaining { now, remaining }) => now.checked_add(
            *remaining,
        ).is_some(),
        (Notice::Duration(seconds), Answer::Clock { now }) => now.checked_add(*seconds).is_some(),
        _ => true,
    }
}

impl Session {
    /// A session at its start: a running one, with the record at its defaults.
    pub fn new() -> (session: Session)
        ensures
            session@ == initial_session(),
    {
        Session { track: TrackState::default(), running: true }
    }

    /// Takes one step: acts on a notice with the answer that was read from
    /// the player for it, and says what the host loop is to do next.
    ///
    /// The end of playback that the step tells has to fit the record, which
    /// [`fits`] tests.
    pub fn step(&mut self, notice: Notice, answer: Answer) -> (action: Action)
        requires
            in_range(notice@, answer@),
        ensures
            final(self)@ == stepped(old(self)@, notice@, answer@),
            action@ == action_of(old(self)@, notice@, answer@),
    {
        if !self.running {
            return Action::Wait;
        }
        match notice {
            Notice::Shutdown => {
                self.running = false;
                Action::Close
            },
            Notice::Paused => {
                self.track.paused = true;
                Action::Push(render(&self.track))
            },
            Notice::Resumed => match answer {
                Answer::TimeRemaining { now, remaining } => {
                    self.track.paused = false;
                    self.track.end_timestamp = compute_end_timestamp(now, remaining);
                    Action::Push(render(&self.track))
                },
                _ => Action::Wait,
            },
            Notice::Title(title) => match answer {
                Answer::Metadata { artist, album, source_path } => {
                    self.track.title = title;
                    self.track.artist = decode_optional(artist);
                    self.track.album = decode_optional(album);
                    self.track.source_path = decode_optional(source_path);
                    Action::Wait
                },
                _ => Action::Wait,
            },
            Notice::Duration(seconds) => match answer {
                Answer::Clock { now } => {
                    self.track.end_timestamp = compute_end_timestamp(now, seconds);
                    Action::Wait
                },
                _ => Action::Wait,
            },
            Notice::LoopFile(on) => {
                self.track.looping_file = on;
                Action::Push(render(&self.track))
            },
            Notice::LoopPlaylist(on) => {
                self.track.looping_playlist = on;
                Action::Push(render(&self.track))
            },
            Notice::Restarted => match answer {
                Answer::TimeRemaining { now, remaining } => {
                    self.track.end_timestamp = compute_end_timestamp(now, remaining);
                    Action::Push(render(&self.track))
                },
                _ => Action::Wait,
            },
            Notice::Ignored => Action::Wait,
        }
    }
}

/// What each event tells of the record, event by event. A change of a
/// tracked property tells the value that it carries, a restart of playback
/// tells the new end of playback, and what is told of the end of playback is
/// always the clock plus the seconds that the player named.
pub proof fn lemma_each_event_tells_its_value(
    now: int,
    seconds: int,
    text: Seq<u8>,
    artist: Option<Seq<u8>>,
    album: Option<Seq<u8>>,
    source_path: Option<Seq<u8>>,
    answer: AnswerView,
)
    requires
        valid_utf8(text),
    ensures
        report(classified(change_of(Property::Pause, ValueView::Flag(true))), answer) == (Report {
            paused: Some(true),
            ..silent()
        }),
        report(
            classified(change_of(Property::Pause, ValueView::Flag(false))),
            AnswerView::TimeRemaining { now, remaining: seconds },
        ) == (Report { paused: Some(false), end_timestamp: Some(now + seconds), ..silent() }),
        report(
            classified(EventView::PlaybackRestart),
            AnswerView::TimeRemaining { now, remaining: seconds },
        ) == (Report { end_timestamp: Some(now + seconds), ..silent() }),
        report(
            classified(change_of(Property::Duration, ValueView::Int64(seconds))),
            AnswerView::Clock { now },
        ) == (Report { end_timestamp: Some(now + seconds), ..silent() }),
        report(
            classified(change_of(Property::MediaTitle, ValueView::Text(text))),
            AnswerView::Metadata { artist, album, source_path },
        ) == (Report {
            title: Some(decode_utf8(text)),
            artist: Some(optional_text_of(artist)),
            album: Some(optional_text_of(album)),
            source_path: Some(optional_text_of(source_path)),
            ..silent()
        }),
        report(classified(change_of(Property::LoopFile, ValueView::Text(text))), answer)
            == (Report {
            looping_file: Some(decode_utf8(text) == "yes"@ || decode_utf8(text) == "infinite"@),
            ..silent()
        }),
        report(classified(change_of(Property::LoopPlaylist, ValueView::Text(text))), answer)
            == (Report { looping_playlist: Some(decode_utf8(text) == "yes"@), ..silent() }),
{
    lemma_change_is_read_by_its_property(Property::Pause, ValueView::Flag(true));
    lemma_change_is_read_by_its_property(Property::Pause, ValueView::Flag(false));
    lemma_change_is_read_by_its_property(Property::Duration, ValueView::Int64(seconds));
    lemma_change_is_read_by_its_property(Property::MediaTitle, ValueView::Text(text));
    lemma_change_is_read_by_its_property(Property::LoopFile, ValueView::Text(text));
    lemma_change_is_read_by_its_property(Property::LoopPlaylist, ValueView::Text(text));
}

/// A media title that is not well-formed UTF-8 is dropped, and does no harm.
/// Whatever answer comes with it, the session is left as it was and nothing
/// is pushed; a well-formed title that follows is taken as any other.
pub proof fn lemma_malformed_title_is_dropped(
    session: SessionView,
    malformed: Seq<u8>,
    answer: AnswerView,
    next: Seq<u8>,
    next_answer: AnswerView,
)
    requires
        session.running,
        !valid_utf8(malformed),
        valid_utf8(next),
        next_answer is Metadata,
    ensures
        ({
            let dropped = classified(change_of(Property::MediaTitle, ValueView::Text(malformed)));
            let taken = classified(change_of(Property::MediaTitle, ValueView::Text(next)));
            &&& stepped(session, dropped, answer) == session
            &&& action_of(session, dropped, answer) == ActionView::Wait
            &&& stepped(stepped(session, dropped, answer), taken, next_answer).track.title
                == decode_utf8(next)
        }),
{
    lemma_change_is_read_by_its_property(Property::MediaTitle, ValueView::Text(malformed));
    lemma_change_is_read_by_its_property(Property::MediaTitle, ValueView::Text(next));
}

/// A notice that is ignored, and one whose answer does not hold what the
/// notice needs, leave the session as it was and push nothing.
pub proof fn lemma_unanswered_notice_is_dropped(
    session: SessionView,
    notice: NoticeView,
    answer: AnswerView,
)
    requires
        notice is Ignored || !answers(query_for(notice), answer),
    ensures
        stepped(session, notice, answer) == session,
        action_of(session, notice, answer) == ActionView::Wait,
{
}

/// Only the player's shutdown ends a session, and an ended session never runs
/// again. The connection is asked to be closed at the step that ends the
/// session and at no other; a session that has ended stays as it is.
pub proof fn lemma_shutdown_alone_ends_session(
    session: SessionView,
    notice: NoticeView,
    answer: AnswerView,
)
    ensures
        stepped(session, notice, answer).running <==> session.running && !(notice is Shutdown),
        action_of(session, notice, answer) is Close <==> session.running && !stepped(
            session,
            notice,
            answer,
        ).running,
        !session.running ==> stepped(session, notice, answer) == session,
{
}

/// What is pushed is the record as the step has left it, and it is pushed by
/// a running session exactly where the step calls for it.
pub proof fn lemma_push_shows_new_record(
    session: SessionView,
    notice: NoticeView,
    answer: AnswerView,
)
    ensures
        action_of(session, notice, answer) is Push <==> session.running && pushes(notice, answer),
        action_of(session, notice, answer) matches ActionView::Push(payload) ==> payload
            == rendered(stepped(session, notice, answer).track),
{
}

} // verus!
