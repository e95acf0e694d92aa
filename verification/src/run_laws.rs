//! What holds of every run of the synchroniser.

use vstd::prelude::*;

use crate::lyric::Caption;
use crate::sync::{
    fallback_text, fixed_dwell, tolerance, Drift, EndReason, Report, Request, RunState, Stage,
};
use crate::text::{is_blank, is_space};

verus! {

/// A run starts in a well-formed state.
pub proof fn lemma_initial_well_formed(
    timeline: Option<Seq<Caption>>,
    label: Seq<char>,
    track_duration: Option<nat>,
    initial_offset: Option<nat>,
)
    ensures
        RunState::initial(timeline, label, track_duration, initial_offset).well_formed(),
{
}

/// Whatever the caller reports, a well-formed state is followed by a
/// well-formed state.
pub proof fn lemma_next_well_formed(state: RunState, report: Report)
    requires
        state.well_formed(),
    ensures
        state.next(report).well_formed(),
{
}

/// Every state that a run reaches is well-formed.
pub proof fn lemma_run_well_formed(state: RunState, reports: Seq<Report>)
    requires
        state.well_formed(),
    ensures
        state.after(reports).well_formed(),
    decreases reports.len(),
{
    if reports.len() > 0 {
        lemma_run_well_formed(state, reports.drop_last());
        lemma_next_well_formed(state.after(reports.drop_last()), reports.last());
    }
}

/// No blank caption reaches the sink, and none is slept for: at any point of
/// any run, a sleep before a caption or a write to the sink is for a caption
/// whose text is not blank, and what is written is that caption's text with
/// the run's track label.
pub proof fn lemma_blank_caption_never_shown(
    timeline: Option<Seq<Caption>>,
    label: Seq<char>,
    track_duration: Option<nat>,
    initial_offset: Option<nat>,
    reports: Seq<Report>,
)
    ensures
        ({
            let state = RunState::initial(timeline, label, track_duration, initial_offset).after(
                reports,
            );
            &&& state.stage is Dwell ==> !is_blank(state.caption().text())
            &&& state.pending() matches Request::Emit { text, tooltip } ==> {
                &&& !is_blank(text)
                &&& text == state.caption().text()
                &&& tooltip == label
            }
        }),
{
    let start = RunState::initial(timeline, label, track_duration, initial_offset);
    lemma_initial_well_formed(timeline, label, track_duration, initial_offset);
    lemma_run_well_formed(start, reports);
    lemma_run_keeps_its_track(start, reports);
}

/// A blank caption is passed over: when the track is still the same at the
/// liveness check of a blank caption, the run turns to the next caption (or
/// winds down after the last one) with its clock untouched, asking for
/// neither a sleep before the caption nor a write.
pub proof fn lemma_blank_caption_skipped(state: RunState, track: Seq<char>)
    requires
        state.well_formed(),
        state.stage is Liveness,
        !state.changed_to(track),
        is_blank(state.caption().text()),
    ensures
        ({
            let then = state.next(Report::Identity(Some(track)));
            &&& then.baseline == Some(track)
            &&& then.current == state.current
            &&& then.index == state.index + 1
            &&& !(then.stage is Dwell)
            &&& !(then.pending() is Emit)
        }),
{
}

/// A run never changes its timeline, its track label, its fidelity or the
/// track length it was given.
pub proof fn lemma_run_keeps_its_track(state: RunState, reports: Seq<Report>)
    ensures
        state.after(reports).captions == state.captions,
        state.after(reports).label == state.label,
        state.after(reports).low_fidelity == state.low_fidelity,
        state.after(reports).track_duration == state.track_duration,
    decreases reports.len(),
{
    if reports.len() > 0 {
        lemma_run_keeps_its_track(state, reports.drop_last());
    }
}

/// A run walks its timeline forward: once the first identity has been
/// reported, the caption at hand never moves back, and a caption that has
/// been written is left for the one behind it.
pub proof fn lemma_run_moves_forward(state: RunState, reports: Seq<Report>)
    requires
        !(state.stage is Baseline),
    ensures
        state.after(reports).index >= state.index,
        state.stage is Emit ==> state.next(Report::Written).index == state.index + 1,
    decreases reports.len(),
{
    if reports.len() > 0 {
        lemma_run_moves_forward(state, reports.drop_last());
        lemma_baseline_kept(state, reports.drop_last());
    }
}

/// How many of the captions from position `from` on are not blank.
pub open spec fn shown_from(captions: Seq<Caption>, from: nat) -> nat
    decreases captions.len() - from,
{
    if from >= captions.len() {
        0
    } else if is_blank(captions[from as int].text()) {
        shown_from(captions, from + 1)
    } else {
        1 + shown_from(captions, from + 1)
    }
}

/// How many of the states that a run reaches while `reports` come in ask
/// for a write to the sink.
pub open spec fn writes(state: RunState, reports: Seq<Report>) -> nat
    decreases reports.len(),
{
    if reports.len() == 0 {
        0
    } else if state.after(reports).stage is Emit {
        1 + writes(state, reports.drop_last())
    } else {
        writes(state, reports.drop_last())
    }
}

/// How many writes a run in this state may still ask for.
spec fn writes_left(state: RunState) -> nat {
    match state.stage {
        Stage::Baseline => shown_from(state.captions, 0),
        Stage::Emit => shown_from(state.captions, state.index + 1),
        Stage::Pacing => 0,
        Stage::Ended(_) => 0,
        _ => shown_from(state.captions, state.index),
    }
}

/// A step that asks for a write takes one from the writes that are left,
/// and no step adds to them.
proof fn lemma_step_spends_writes(state: RunState, report: Report)
    requires
        state.well_formed(),
    ensures
        state.next(report).captions == state.captions,
        writes_left(state.next(report)) + (if state.next(report).stage is Emit {
            1nat
        } else {
            0nat
        }) <= writes_left(state),
{
}

/// The writes that a run has asked for and those that are left never
/// outnumber the captions that are not blank.
proof fn lemma_writes_and_rest_bounded(state: RunState, reports: Seq<Report>)
    requires
        state.well_formed(),
    ensures
        writes(state, reports) + writes_left(state.after(reports)) <= writes_left(state),
    decreases reports.len(),
{
    if reports.len() > 0 {
        let before = state.after(reports.drop_last());
        lemma_writes_and_rest_bounded(state, reports.drop_last());
        lemma_run_well_formed(state, reports.drop_last());
        lemma_step_spends_writes(before, reports.last());
    }
}

/// A run never asks for more writes than its timeline has captions that are
/// not blank.
pub proof fn lemma_writes_bounded(
    timeline: Option<Seq<Caption>>,
    label: Seq<char>,
    track_duration: Option<nat>,
    initial_offset: Option<nat>,
    reports: Seq<Report>,
)
    ensures
        ({
            let start = RunState::initial(timeline, label, track_duration, initial_offset);
            writes(start, reports) <= shown_from(start.captions, 0)
        }),
{
    let start = RunState::initial(timeline, label, track_duration, initial_offset);
    lemma_writes_and_rest_bounded(start, reports);
}

/// A run that is over stays over, whatever is reported to it: it asks for
/// nothing but its end, so nothing more is written to the sink.
pub proof fn lemma_ended_run_stays_ended(state: RunState, reports: Seq<Report>)
    requires
        state.stage is Ended,
    ensures
        state.after(reports) == state,
        state.after(reports).pending() is End,
    decreases reports.len(),
{
    if reports.len() > 0 {
        lemma_ended_run_stays_ended(state, reports.drop_last());
    }
}

/// A run that is ahead of the player by more than the tolerance ends at the
/// drift check, before the caption at hand is written, and nothing is
/// written afterwards.
pub proof fn lemma_running_fast_ends(state: RunState, observed: nat, reports: Seq<Report>)
    requires
        state.stage is DriftCheck,
        observed + tolerance() < state.current,
    ensures
        state.next(Report::Offset(Some(observed))).stage == Stage::Ended(EndReason::RunningFast),
        state.next(Report::Offset(Some(observed))).after(reports).pending() == Request::End(
            EndReason::RunningFast,
        ),
{
    lemma_ended_run_stays_ended(state.next(Report::Offset(Some(observed))), reports);
}

/// A run that is behind the player by more than the tolerance is flagged as
/// slow and goes on: it takes the player's position for its own and writes
/// the caption at hand. So does a run that is within the tolerance, unflagged.
pub proof fn lemma_running_slow_resyncs(state: RunState, observed: nat)
    requires
        state.stage is DriftCheck,
        !(observed + tolerance() < state.current),
    ensures
        ({
            let then = state.next(Report::Offset(Some(observed)));
            &&& then.stage is Emit
            &&& then.current == observed
            &&& then.index == state.index
            &&& then.drift == Some(
                if observed > state.current + tolerance() {
                    Drift::Slow
                } else {
                    Drift::InSync
                },
            )
        }),
{
}

/// A player that gives no position leaves the run to its timeline: the run
/// takes the start of the caption at hand for its position and writes the
/// caption.
pub proof fn lemma_missing_position_trusts_timeline(state: RunState)
    requires
        state.stage is DriftCheck,
    ensures
        ({
            let then = state.next(Report::Offset(None));
            &&& then.stage is Emit
            &&& then.current == state.caption().at()
            &&& then.index == state.index
        }),
{
}

/// A player that is no longer active ends the run before the caption at
/// hand is written.
pub proof fn lemma_stopped_player_ends(state: RunState, reports: Seq<Report>)
    requires
        state.stage is ActiveCheck,
    ensures
        state.next(Report::Active(false)).after(reports).pending() == Request::End(
            EndReason::Stopped,
        ),
{
    lemma_ended_run_stays_ended(state.next(Report::Active(false)), reports);
}

/// Once the player has answered for the first time, the run never waits
/// for a first answer again; and once the player has given an identity, the
/// identity that later ones are held against never changes.
pub proof fn lemma_baseline_kept(state: RunState, reports: Seq<Report>)
    requires
        !(state.stage is Baseline),
    ensures
        !(state.after(reports).stage is Baseline),
        state.baseline is Some ==> state.after(reports).baseline == state.baseline,
    decreases reports.len(),
{
    if reports.len() > 0 {
        lemma_baseline_kept(state, reports.drop_last());
    }
}

/// The first identity that the player gives tells which track the run is
/// for, also where the player gave none when it was first asked: the run
/// then goes on exactly as if the player had given that identity at once. It
/// does not end as for a changed track; where its first caption is not
/// blank it sleeps for it, and with a player that stays active and gives no
/// position it writes that caption with the track label. A player that
/// gives no identity at the second check either ends the run.
pub proof fn lemma_first_identity_is_baseline(state: RunState, track: Seq<char>)
    requires
        state.well_formed(),
        state.stage is Baseline,
        state.captions.len() > 0,
    ensures
        ({
            let unanswered = state.next(Report::Identity(None));
            let named = unanswered.next(Report::Identity(Some(track)));
            &&& unanswered.stage is Liveness
            &&& unanswered.baseline is None
            &&& named == state.next(Report::Identity(Some(track))).next(
                Report::Identity(Some(track)),
            )
            &&& named.baseline == Some(track)
            &&& named.stage != Stage::Ended(EndReason::TrackChanged)
            &&& !is_blank(state.captions[0].text()) ==> {
                &&& named.stage is Dwell
                &&& named.next(Report::Slept).next(Report::Active(true)).next(
                    Report::Offset(None),
                ).pending() == Request::Emit { text: state.captions[0].text(), tooltip: state.label }
            }
            &&& unanswered.next(Report::Identity(None)).stage == Stage::Ended(
                EndReason::TrackChanged,
            )
        }),
{
}

/// A change of track ends the run: where one identity check saw the track
/// `first` and the run went on to another identity check, anything else than
/// `first` at that check ends the run at once, and nothing is written
/// afterwards. The first of the two checks may be the one that opens the run.
pub proof fn lemma_track_change_ends(
    state: RunState,
    first: Seq<char>,
    between: Seq<Report>,
    second: Option<Seq<char>>,
    reports: Seq<Report>,
)
    requires
        state.stage is Baseline || state.stage is Liveness,
        state.next(Report::Identity(Some(first))).after(between).stage is Liveness,
        second != Some(first),
    ensures
        state.next(Report::Identity(Some(first))).after(between).next(
            Report::Identity(second),
        ).after(reports).pending() == Request::End(EndReason::TrackChanged),
{
    let checked = state.next(Report::Identity(Some(first)));
    if checked.stage is Ended {
        lemma_ended_run_stays_ended(checked, between);
    }
    assert(checked.baseline == Some(first));
    lemma_baseline_kept(checked, between);
    let changed = checked.after(between).next(Report::Identity(second));
    lemma_ended_run_stays_ended(changed, reports);
}

/// A run without a timeline: with a player that stays on its track, stays
/// active and is not behind the run's clock by more than the tolerance, the
/// run asks for one sleep of the fixed dwell, writes the one caption
/// "No lyrics" with the track label, and then only waits for the rest of the
/// track, if any, before it ends as completed.
pub proof fn lemma_fallback_run(
    label: Seq<char>,
    track_duration: Option<nat>,
    initial_offset: Option<nat>,
    track: Seq<char>,
    position: Option<nat>,
)
    requires
        position matches Some(observed) ==> !(observed + tolerance() < match initial_offset {
            Some(offset) => offset,
            None => 0,
        }),
    ensures
        ({
            let start = RunState::initial(None, label, track_duration, initial_offset);
            let named = start.next(Report::Identity(Some(track)));
            let alive = named.next(Report::Identity(Some(track)));
            let slept = alive.next(Report::Slept);
            let active = slept.next(Report::Active(true));
            let placed = active.next(Report::Offset(position));
            let written = placed.next(Report::Written);
            &&& start.pending() == Request::QueryIdentity
            &&& named.pending() == Request::QueryIdentity
            &&& alive.pending() == Request::Sleep(fixed_dwell())
            &&& slept.pending() == Request::QueryActive
            &&& active.pending() == Request::QueryOffset
            &&& placed.pending() == Request::Emit { text: fallback_text(), tooltip: label }
            &&& (written.stage is Pacing || written.stage == Stage::Ended(EndReason::Completed))
            &&& written.next(Report::Slept).stage == Stage::Ended(EndReason::Completed)
        }),
{
    reveal_strlit("No lyrics");
    assert(fallback_text()[0] == 'N');
    assert(!is_space('N'));
    assert(!is_blank(fallback_text()));
}

} // verus!
