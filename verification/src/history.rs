//! What a whole sequence of events leaves behind.

use crate::event::{classified, AnswerView, EventView, NoticeView};
use crate::session::{advanced, latest, report, stepped, Report, SessionView};
use crate::track::TrackView;
use vstd::prelude::*;

verus! {

/// One event together with the answer that was read from the player for it.
pub struct Step {
    pub event: EventView,
    pub answer: AnswerView,
}

impl Step {
    /// What the event means.
    pub open spec fn notice(self) -> NoticeView {
        classified(self.event)
    }

    /// What the step tells of the record.
    pub open spec fn report(self) -> Report {
        report(self.notice(), self.answer)
    }
}

/// The record after a sequence of steps, taken in order.
pub open spec fn run(track: TrackView, steps: Seq<Step>) -> TrackView
    decreases steps.len(),
{
    if steps.len() == 0 {
        track
    } else {
        advanced(run(track, steps.drop_last()), steps.last().notice(), steps.last().answer)
    }
}

/// The session after a sequence of steps, taken in order.
pub open spec fn run_session(session: SessionView, steps: Seq<Step>) -> SessionView
    decreases steps.len(),
{
    if steps.len() == 0 {
        session
    } else {
        stepped(
            run_session(session, steps.drop_last()),
            steps.last().notice(),
            steps.last().answer,
        )
    }
}

/// The value that the last of the steps to tell of a field tells of it, or
/// else the value that the field had before them. `told` picks the field out
/// of a step's report.
pub open spec fn last_told<A>(before: A, steps: Seq<Step>, told: spec_fn(Step) -> Option<A>) -> A
    decreases steps.len(),
{
    if steps.len() == 0 {
        before
    } else {
        latest(told(steps.last()), last_told(before, steps.drop_last(), told))
    }
}

/// The steps that tell of a field, in their order.
pub open spec fn telling<A>(steps: Seq<Step>, told: spec_fn(Step) -> Option<A>) -> Seq<Step> {
    steps.filter(|s: Step| told(s) is Some)
}

/// Whether two sequences of steps hold, field by field, the same steps that
/// tell of the field, in the same order. How the steps that tell of one field
/// are placed among those that tell of another is left open.
pub open spec fn same_told(a: Seq<Step>, b: Seq<Step>) -> bool {
    &&& telling(a, |s: Step| s.report().title) == telling(b, |s: Step| s.report().title)
    &&& telling(a, |s: Step| s.report().artist) == telling(b, |s: Step| s.report().artist)
    &&& telling(a, |s: Step| s.report().album) == telling(b, |s: Step| s.report().album)
    &&& telling(a, |s: Step| s.report().source_path) == telling(
        b,
        |s: Step| s.report().source_path,
    )
    &&& telling(a, |s: Step| s.report().end_timestamp) == telling(
        b,
        |s: Step| s.report().end_timestamp,
    )
    &&& telling(a, |s: Step| s.report().paused) == telling(b, |s: Step| s.report().paused)
    &&& telling(a, |s: Step| s.report().looping_file) == telling(
        b,
        |s: Step| s.report().looping_file,
    )
    &&& telling(a, |s: Step| s.report().looping_playlist) == telling(
        b,
        |s: Step| s.report().looping_playlist,
    )
}

/// The last word wins, field by field. After any sequence of steps each field
/// of the record holds what the last step that tells of this field tells of
/// it, and its old value if none does. What the steps in between tell of
/// other fields has no part in it: no property loses to another.
pub proof fn lemma_last_told_wins(track: TrackView, steps: Seq<Step>)
    ensures
        run(track, steps) == (TrackView {
            title: last_told(track.title, steps, |s: Step| s.report().title),
            artist: last_told(track.artist, steps, |s: Step| s.report().artist),
            album: last_told(track.album, steps, |s: Step| s.report().album),
            source_path: last_told(track.source_path, steps, |s: Step| s.report().source_path),
            end_timestamp: last_told(
                track.end_timestamp,
                steps,
                |s: Step| s.report().end_timestamp,
            ),
            paused: last_told(track.paused, steps, |s: Step| s.report().paused),
            looping_file: last_told(track.looping_file, steps, |s: Step| s.report().looping_file),
            looping_playlist: last_told(
                track.looping_playlist,
                steps,
                |s: Step| s.report().looping_playlist,
            ),
        }),
    decreases steps.len(),
{
    if steps.len() > 0 {
        lemma_last_told_wins(track, steps.drop_last());
    }
}

/// What a field comes to hold rests on the steps that tell of this field and
/// on no others: with all other steps taken away, the field ends the same.
pub proof fn lemma_other_steps_do_not_matter<A>(
    before: A,
    steps: Seq<Step>,
    told: spec_fn(Step) -> Option<A>,
)
    ensures
        last_told(before, steps, told) == last_told(before, telling(steps, told), told),
    decreases steps.len(),
{
    reveal(Seq::filter);
    if steps.len() > 0 {
        let earlier = telling(steps.drop_last(), told);
        lemma_other_steps_do_not_matter(before, steps.drop_last(), told);
        if told(steps.last()) is Some {
            assert(telling(steps, told) == earlier.push(steps.last()));
            assert(earlier.push(steps.last()).drop_last() =~= earlier);
        } else {
            assert(telling(steps, told) == earlier);
        }
    }
}

/// The order in which events of different properties are interleaved has no
/// part in the outcome: two sequences of steps that tell the same of each
/// field, in the same order, leave the record the same.
pub proof fn lemma_interleaving_does_not_matter(track: TrackView, a: Seq<Step>, b: Seq<Step>)
    requires
        same_told(a, b),
    ensures
        run(track, a) == run(track, b),
{
    lemma_last_told_wins(track, a);
    lemma_last_told_wins(track, b);
    lemma_other_steps_do_not_matter(track.title, a, |s: Step| s.report().title);
    lemma_other_steps_do_not_matter(track.title, b, |s: Step| s.report().title);
    lemma_other_steps_do_not_matter(track.artist, a, |s: Step| s.report().artist);
    lemma_other_steps_do_not_matter(track.artist, b, |s: Step| s.report().artist);
    lemma_other_steps_do_not_matter(track.album, a, |s: Step| s.report().album);
    lemma_other_steps_do_not_matter(track.album, b, |s: Step| s.report().album);
    lemma_other_steps_do_not_matter(track.source_path, a, |s: Step| s.report().source_path);
    lemma_other_steps_do_not_matter(track.source_path, b, |s: Step| s.report().source_path);
    lemma_other_steps_do_not_matter(track.end_timestamp, a, |s: Step| s.report().end_timestamp);
    lemma_other_steps_do_not_matter(track.end_timestamp, b, |s: Step| s.report().end_timestamp);
    lemma_other_steps_do_not_matter(track.paused, a, |s: Step| s.report().paused);
    lemma_other_steps_do_not_matter(track.paused, b, |s: Step| s.report().paused);
    lemma_other_steps_do_not_matter(track.looping_file, a, |s: Step| s.report().looping_file);
    lemma_other_steps_do_not_matter(track.looping_file, b, |s: Step| s.report().looping_file);
    lemma_other_steps_do_not_matter(
        track.looping_playlist,
        a,
        |s: Step| s.report().looping_playlist,
    );
    lemma_other_steps_do_not_matter(
        track.looping_playlist,
        b,
        |s: Step| s.report().looping_playlist,
    );
}

/// As long as the player does not shut down, a running session keeps running
/// and its record is the one that the steps lead to.
pub proof fn lemma_session_follows_its_record(session: SessionView, steps: Seq<Step>)
    requires
        session.running,
        forall|i: int| 0 <= i < steps.len() ==> !(#[trigger] steps[i].event is Shutdown),
    ensures
        run_session(session, steps) == (SessionView {
            track: run(session.track, steps),
            running: true,
        }),
    decreases steps.len(),
{
    if steps.len() > 0 {
        lemma_session_follows_its_record(session, steps.drop_last());
    }
}

} // verus!
