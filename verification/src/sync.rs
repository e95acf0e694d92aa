//! The playback synchroniser.
//!
//! One run shows the captions of one track in step with the player. The run
//! is a state machine: `Synchronizer::pending` names the next thing to do
//! (ask the player something, sleep, write a caption), the caller does it and
//! hands what came of it to `Synchronizer::step`. The machine itself never
//! waits and never touches the player or the sink.

use vstd::prelude::*;

use crate::lyric::{caption_views, Caption, Lyric, LyricsFailure, LyricsType};
use crate::text::{blank, is_blank};
use crate::time::TimeSpan;

verus! {

/// How far the player's position may lie from the run's own clock before the
/// run counts as out of step, in nanoseconds (125 ms).
pub open spec fn tolerance() -> nat {
    125_000_000
}

/// How long each caption dwells in a low-fidelity run, in nanoseconds (1 s).
pub open spec fn fixed_dwell() -> nat {
    1_000_000_000
}

/// The text of the one caption that stands in for a missing timeline.
pub open spec fn fallback_text() -> Seq<char> {
    "No lyrics"@
}

/// How the run's clock stands against the position that the player reports.
#[derive(Clone, Copy, Debug, PartialEq, Eq, Structural)]
pub enum Drift {
    /// The two are within the tolerance of each other.
    InSync,
    /// The player is ahead by more than the tolerance: the run is slow.
    Slow,
    /// The player is behind by more than the tolerance: the run is fast.
    Fast,
}

/// Why a run ended.
#[derive(Clone, Copy, Debug, PartialEq, Eq, Structural)]
pub enum EndReason {
    /// Every caption was handled and the track's end was waited for.
    Completed,
    /// The player plays another track, or could not say which one it plays.
    TrackChanged,
    /// The player is no longer active.
    Stopped,
    /// The run is ahead of the player by more than the tolerance.
    RunningFast,
    /// The caller reported something that the pending action cannot yield.
    OutOfTurn,
}

/// Where a run stands: what it waits for.
#[derive(Clone, Copy, Debug, PartialEq, Eq, Structural)]
pub enum Stage {
    /// For the player's first answer to the question which track it plays.
    Baseline,
    /// For the track's identity, before the caption at `index` is handled.
    Liveness,
    /// For the end of the sleep before the caption at `index`.
    Dwell,
    /// For word whether the player is still active.
    ActiveCheck,
    /// For the player's position.
    DriftCheck,
    /// For the caption at `index` to be written to the sink.
    Emit,
    /// For the end of the sleep that fills the rest of the track.
    Pacing,
    /// For nothing: the run is over.
    Ended(EndReason),
}

/// What the caller reports to the machine, as contracts see it.
pub enum Report {
    /// The track's identity, or `None` where the player gave none.
    Identity(Option<Seq<char>>),
    /// The sleep that was asked for is over.
    Slept,
    /// Whether the player is active.
    Active(bool),
    /// The player's position in nanoseconds, or `None` where it gave none.
    Offset(Option<nat>),
    /// The caption was written to the sink.
    Written,
}

/// What the machine asks of the caller, as contracts see it.
pub enum Request {
    /// Ask the player for the identity of its track.
    QueryIdentity,
    /// Sleep for so many nanoseconds.
    Sleep(nat),
    /// Ask the player whether it is active.
    QueryActive,
    /// Ask the player for its position.
    QueryOffset,
    /// Replace what the sink holds by this caption and this track label.
    Emit { text: Seq<char>, tooltip: Seq<char> },
    /// Nothing more: the run is over.
    End(EndReason),
}

/// A run, as contracts see it. Times are in nanoseconds.
pub struct RunState {
    /// The timeline that is shown.
    pub captions: Seq<Caption>,
    /// Whether each caption dwells for `fixed_dwell()` rather than until its
    /// own start time.
    pub low_fidelity: bool,
    /// The track label that goes out with every caption.
    pub label: Seq<char>,
    /// The length of the track, where the player told it.
    pub track_duration: Option<nat>,
    /// The run's own idea of the position in the track.
    pub current: nat,
    /// The identity of the track the run is for: the first identity that
    /// the player gave, `None` as long as it has given none.
    pub baseline: Option<Seq<char>>,
    /// The caption that is handled next.
    pub index: nat,
    /// What the run waits for.
    pub stage: Stage,
    /// What the last drift check found, where the player gave a position.
    pub drift: Option<Drift>,
}

/// Where the run's clock `current` stands against the position `observed`.
pub open spec fn drift_of(current: nat, observed: nat) -> Drift {
    if observed > current + tolerance() {
        Drift::Slow
    } else if observed + tolerance() < current {
        Drift::Fast
    } else {
        Drift::InSync
    }
}

/// `later - earlier`, or 0 where that would be negative.
pub open spec fn span_between(earlier: nat, later: nat) -> nat {
    if later >= earlier {
        (later - earlier) as nat
    } else {
        0
    }
}

impl RunState {
    /// The state in which a run starts. `timeline` is `None` where no
    /// timeline could be had: the run then shows the fallback caption, in
    /// low fidelity.
    pub open spec fn initial(
        timeline: Option<Seq<Caption>>,
        label: Seq<char>,
        track_duration: Option<nat>,
        initial_offset: Option<nat>,
    ) -> RunState {
        RunState {
            captions: match timeline {
                Some(captions) => captions,
                None => seq![Caption::Standard { at: 0, text: fallback_text() }],
            },
            low_fidelity: timeline is None,
            label,
            track_duration,
            current: match initial_offset {
                Some(offset) => offset,
                None => 0,
            },
            baseline: None,
            index: 0,
            stage: Stage::Baseline,
            drift: None,
        }
    }

    /// The caption that is being handled.
    pub open spec fn caption(self) -> Caption {
        self.captions[self.index as int]
    }

    /// What holds of every state that a run can reach: while a caption is
    /// being handled there is such a caption, and past the liveness check it
    /// is not blank.
    pub open spec fn well_formed(self) -> bool {
        &&& self.index <= self.captions.len()
        &&& (self.stage is Liveness || self.stage is Dwell || self.stage is ActiveCheck
            || self.stage is DriftCheck || self.stage is Emit) ==> self.index < self.captions.len()
        &&& (self.stage is Dwell || self.stage is ActiveCheck || self.stage is DriftCheck
            || self.stage is Emit) ==> !is_blank(self.caption().text())
    }

    /// The run with stage `stage`, all else as it is.
    pub open spec fn at_stage(self, stage: Stage) -> RunState {
        RunState { stage, ..self }
    }

    /// The state after the last caption: the rest of the track is waited for
    /// where the track's length is known and lies ahead, else the run is over.
    pub open spec fn wind_down(self) -> RunState {
        if self.track_duration matches Some(end) && end > self.current {
            self.at_stage(Stage::Pacing)
        } else {
            self.at_stage(Stage::Ended(EndReason::Completed))
        }
    }

    /// The state in which caption `index` is up for its liveness check, or
    /// the run winds down where the timeline has no such caption.
    pub open spec fn turn_to(self, index: nat) -> RunState {
        let moved = RunState { index, ..self };
        if index < self.captions.len() {
            moved.at_stage(Stage::Liveness)
        } else {
            moved.wind_down()
        }
    }

    /// Whether the player, by giving the identity `name`, says that it plays
    /// another track than the one the run is for. The first identity that the
    /// player gives says no such thing: it tells which track the run is for.
    pub open spec fn changed_to(self, name: Seq<char>) -> bool {
        self.baseline matches Some(known) && known != name
    }

    /// The state that follows when the caller reports `report`.
    ///
    /// The first answer of the player, given or not, never ends the run. At
    /// every later check a missing answer ends it, and so does an identity
    /// other than the first one that the player gave.
    pub open spec fn next(self, report: Report) -> RunState {
        match (self.stage, report) {
            (Stage::Ended(_), _) => self,
            (Stage::Baseline, Report::Identity(identity)) => {
                (RunState { baseline: identity, ..self }).turn_to(0)
            },
            (Stage::Liveness, Report::Identity(Some(name))) => {
                let named = RunState { baseline: Some(name), ..self };
                if self.changed_to(name) {
                    self.at_stage(Stage::Ended(EndReason::TrackChanged))
                } else if is_blank(self.caption().text()) {
                    named.turn_to(self.index + 1)
                } else {
                    named.at_stage(Stage::Dwell)
                }
            },
            (Stage::Liveness, Report::Identity(None)) => {
                self.at_stage(Stage::Ended(EndReason::TrackChanged))
            },
            (Stage::Dwell, Report::Slept) => self.at_stage(Stage::ActiveCheck),
            (Stage::ActiveCheck, Report::Active(active)) => {
                if active {
                    self.at_stage(Stage::DriftCheck)
                } else {
                    self.at_stage(Stage::Ended(EndReason::Stopped))
                }
            },
            (Stage::DriftCheck, Report::Offset(Some(observed))) => {
                let drift = drift_of(self.current, observed);
                if drift is Fast {
                    (RunState { drift: Some(drift), ..self }).at_stage(
                        Stage::Ended(EndReason::RunningFast),
                    )
                } else {
                    (RunState { current: observed, drift: Some(drift), ..self }).at_stage(
                        Stage::Emit,
                    )
                }
            },
            (Stage::DriftCheck, Report::Offset(None)) => {
                (RunState { current: self.caption().at(), drift: None, ..self }).at_stage(
                    Stage::Emit,
                )
            },
            (Stage::Emit, Report::Written) => self.turn_to(self.index + 1),
            (Stage::Pacing, Report::Slept) => self.at_stage(Stage::Ended(EndReason::Completed)),
            _ => self.at_stage(Stage::Ended(EndReason::OutOfTurn)),
        }
    }

    /// What the run asks of the caller in this state.
    pub open spec fn pending(self) -> Request {
        match self.stage {
            Stage::Baseline => Request::QueryIdentity,
            Stage::Liveness => Request::QueryIdentity,
            Stage::Dwell => Request::Sleep(
                if self.low_fidelity {
                    fixed_dwell()
                } else {
                    span_between(self.current, self.caption().at())
                },
            ),
            Stage::ActiveCheck => Request::QueryActive,
            Stage::DriftCheck => Request::QueryOffset,
            Stage::Emit => Request::Emit { text: self.caption().text(), tooltip: self.label },
            Stage::Pacing => Request::Sleep(
                match self.track_duration {
                    Some(end) => span_between(self.current, end),
                    None => 0,
                },
            ),
            Stage::Ended(reason) => Request::End(reason),
        }
    }

    /// The state after the caller has reported `reports` one after the other.
    pub open spec fn after(self, reports: Seq<Report>) -> RunState
        decreases reports.len(),
    {
        if reports.len() == 0 {
            self
        } else {
            self.after(reports.drop_last()).next(reports.last())
        }
    }
}

/// What the caller reports to the machine.
#[derive(Clone, Debug, PartialEq, Eq)]
pub enum Event {
    /// The track's identity, or `None` where the player gave none.
    Identity(Option<String>),
    /// The sleep that was asked for is over.
    Slept,
    /// Whether the player is active.
    Active(bool),
    /// The player's position, or `None` where it gave none.
    Offset(Option<TimeSpan>),
    /// The caption was written to the sink.
    Written,
}

impl View for Event {
    type V = Report;

    open spec fn view(&self) -> Report {
        match *self {
            Event::Identity(Some(name)) => Report::Identity(Some(name@)),
            Event::Identity(None) => Report::Identity(None),
            Event::Slept => Report::Slept,
            Event::Active(active) => Report::Active(active),
            Event::Offset(Some(offset)) => Report::Offset(Some(offset@)),
            Event::Offset(None) => Report::Offset(None),
            Event::Written => Report::Written,
        }
    }
}

/// What the machine asks of the caller.
#[derive(Clone, Debug, PartialEq, Eq)]
pub enum Action {
    /// Ask the player for the identity of its track.
    QueryIdentity,
    /// Sleep for this long.
    Sleep(TimeSpan),
    /// Ask the player whether it is active.
    QueryActive,
    /// Ask the player for its position.
    QueryOffset,
    /// Replace what the sink holds by this caption and this track label.
    Emit { text: String, tooltip: String },
    /// Nothing more: the run is over.
    End(EndReason),
}

impl View for Action {
    type V = Request;

    open spec fn view(&self) -> Request {
        match *self {
            Action::QueryIdentity => Request::QueryIdentity,
            Action::Sleep(span) => Request::Sleep(span@),
            Action::QueryActive => Request::QueryActive,
            Action::QueryOffset => Request::QueryOffset,
            Action::Emit { text, tooltip } => Request::Emit { text: text@, tooltip: tooltip@ },
            Action::End(reason) => Request::End(reason),
        }
    }
}

/// What contracts see of an identity that may be missing.
pub open spec fn identity_view(identity: Option<String>) -> Option<Seq<char>> {
    match identity {
        Some(name) => Some(name@),
        None => None,
    }
}

/// What contracts see of a span that may be missing.
pub open spec fn span_view(span: Option<TimeSpan>) -> Option<nat> {
    match span {
        Some(span) => Some(span@),
        None => None,
    }
}

/// What contracts see of the timeline that a run is started with.
pub open spec fn timeline_view(lyrics: Result<Lyric, LyricsFailure>) -> Option<Seq<Caption>> {
    match lyrics {
        Ok(lyric) => Some(lyric@),
        Err(_) => None,
    }
}

/// Where the run's clock `current` stands against the position `observed`.
pub fn drift(current: &TimeSpan, observed: &TimeSpan) -> (r: Drift)
    ensures
        r == drift_of(current@, observed@),
{
    let margin = TimeSpan::from_millis(125);
    if observed.exceeds_by(current, &margin) {
        Drift::Slow
    } else if current.exceeds_by(observed, &margin) {
        Drift::Fast
    } else {
        Drift::InSync
    }
}

/// One run of the synchroniser. Its view is the `RunState` it is in.
pub struct Synchronizer {
    captions: Vec<LyricsType>,
    low_fidelity: bool,
    label: String,
    track_duration: Option<TimeSpan>,
    current: TimeSpan,
    baseline: Option<String>,
    index: usize,
    stage: Stage,
    drift: Option<Drift>,
}

impl View for Synchronizer {
    type V = RunState;

    closed spec fn view(&self) -> RunState {
        RunState {
            captions: caption_views(self.captions@),
            low_fidelity: self.low_fidelity,
            label: self.label@,
            track_duration: span_view(self.track_duration),
            current: self.current@,
            baseline: identity_view(self.baseline),
            index: self.index as nat,
            stage: self.stage,
            drift: self.drift,
        }
    }
}

impl Synchronizer {
    #[verifier::type_invariant]
    spec fn reachable(self) -> bool {
        self@.well_formed()
    }

    /// A run for one track. Where `lyrics` is an error the run shows the one
    /// caption "No lyrics", in low fidelity. The run's clock starts at
    /// `initial_offset`, or at zero where there is none.
    pub fn new(
        lyrics: Result<Lyric, LyricsFailure>,
        label: String,
        track_duration: Option<TimeSpan>,
        initial_offset: Option<TimeSpan>,
    ) -> (r: Synchronizer)
        ensures
            r@ == RunState::initial(
                timeline_view(lyrics),
                label@,
                span_view(track_duration),
                span_view(initial_offset),
            ),
    {
        let current = match initial_offset {
            Some(offset) => offset,
            None => TimeSpan::zero(),
        };
        let (captions, low_fidelity) = match lyrics {
            Ok(lyric) => (lyric.content, false),
            Err(_) => {
                let mut captions: Vec<LyricsType> = Vec::new();
                captions.push(LyricsType::Standard(TimeSpan::zero(), "No lyrics".to_owned()));
                (captions, true)
            },
        };
        let r = Synchronizer {
            captions,
            low_fidelity,
            label,
            track_duration,
            current,
            baseline: None,
            index: 0,
            stage: Stage::Baseline,
            drift: None,
        };
        proof {
            let start = RunState::initial(
                timeline_view(lyrics),
                label@,
                span_view(track_duration),
                span_view(initial_offset),
            );
            assert(r@.captions == start.captions);
        }
        r
    }

    /// Where the run stands.
    pub fn stage(&self) -> (r: Stage)
        ensures
            r == self@.stage,
    {
        self.stage
    }

    /// The run's own idea of the position in the track.
    pub fn current_duration(&self) -> (r: TimeSpan)
        ensures
            r@ == self@.current,
    {
        self.current
    }

    /// What the last drift check found: `None` before the first one, and
    /// where the player gave no position.
    pub fn last_drift(&self) -> (r: Option<Drift>)
        ensures
            r == self@.drift,
    {
        self.drift
    }

    /// What the run asks of the caller now.
    pub fn pending(&self) -> (r: Action)
        ensures
            r@ == self@.pending(),
    {
        proof {
            use_type_invariant(self);
        }
        match self.stage {
            Stage::Baseline => Action::QueryIdentity,
            Stage::Liveness => Action::QueryIdentity,
            Stage::Dwell => {
                if self.low_fidelity {
                    Action::Sleep(TimeSpan::from_secs(1))
                } else {
                    let at = self.captions[self.index].timestamp();
                    Action::Sleep(at.saturating_sub(&self.current))
                }
            },
            Stage::ActiveCheck => Action::QueryActive,
            Stage::DriftCheck => Action::QueryOffset,
            Stage::Emit => Action::Emit {
                text: self.captions[self.index].text(),
                tooltip: self.label.clone(),
            },
            Stage::Pacing => match self.track_duration {
                Some(end) => Action::Sleep(end.saturating_sub(&self.current)),
                None => Action::Sleep(TimeSpan::zero()),
            },
            Stage::Ended(reason) => Action::End(reason),
        }
    }

    /// The run after the caller has reported `event`.
    pub fn step(self, event: Event) -> (r: Synchronizer)
        ensures
            r@ == self@.next(event@),
    {
        proof {
            use_type_invariant(&self);
            assert(self.captions.len() == self@.captions.len());
        }
        match self.stage {
            Stage::Ended(_) => self,
            Stage::Baseline => match event {
                Event::Identity(identity) => {
                    let named = Synchronizer {
                        captions: self.captions,
                        low_fidelity: self.low_fidelity,
                        label: self.label,
                        track_duration: self.track_duration,
                        current: self.current,
                        baseline: identity,
                        index: 0,
                        stage: Stage::Baseline,
                        drift: self.drift,
                    };
                    named.turn_to(0)
                },
                _ => self.at_stage(Stage::Ended(EndReason::OutOfTurn)),
            },
            Stage::Liveness => match event {
                Event::Identity(Some(name)) => {
                    let changed = match &self.baseline {
                        Some(known) => *known != name,
                        None => false,
                    };
                    if changed {
                        self.at_stage(Stage::Ended(EndReason::TrackChanged))
                    } else {
                        let text = self.captions[self.index].text();
                        let index = self.index + 1;
                        let named = self.named(name);
                        if blank(text.as_str()) {
                            named.turn_to(index)
                        } else {
                            named.at_stage(Stage::Dwell)
                        }
                    }
                },
                Event::Identity(None) => self.at_stage(Stage::Ended(EndReason::TrackChanged)),
                _ => self.at_stage(Stage::Ended(EndReason::OutOfTurn)),
            },
            Stage::Dwell => match event {
                Event::Slept => self.at_stage(Stage::ActiveCheck),
                _ => self.at_stage(Stage::Ended(EndReason::OutOfTurn)),
            },
            Stage::ActiveCheck => match event {
                Event::Active(true) => self.at_stage(Stage::DriftCheck),
                Event::Active(false) => self.at_stage(Stage::Ended(EndReason::Stopped)),
                _ => self.at_stage(Stage::Ended(EndReason::OutOfTurn)),
            },
            Stage::DriftCheck => match event {
                Event::Offset(Some(observed)) => {
                    let found = drift(&self.current, &observed);
                    match found {
                        Drift::Fast => {
                            let current = self.current;
                            self.placed(current, Some(found)).at_stage(
                                Stage::Ended(EndReason::RunningFast),
                            )
                        },
                        _ => self.placed(observed, Some(found)).at_stage(Stage::Emit),
                    }
                },
                Event::Offset(None) => {
                    let at = self.captions[self.index].timestamp();
                    self.placed(at, None).at_stage(Stage::Emit)
                },
                _ => self.at_stage(Stage::Ended(EndReason::OutOfTurn)),
            },
            Stage::Emit => match event {
                Event::Written => {
                    let index = self.index + 1;
                    self.turn_to(index)
                },
                _ => self.at_stage(Stage::Ended(EndReason::OutOfTurn)),
            },
            Stage::Pacing => match event {
                Event::Slept => self.at_stage(Stage::Ended(EndReason::Completed)),
                _ => self.at_stage(Stage::Ended(EndReason::OutOfTurn)),
            },
        }
    }

    /// The run at stage `stage`, all else as it is.
    fn at_stage(self, stage: Stage) -> (r: Synchronizer)
        requires
            self@.at_stage(stage).well_formed(),
        ensures
            r@ == self@.at_stage(stage),
    {
        Synchronizer {
            captions: self.captions,
            low_fidelity: self.low_fidelity,
            label: self.label,
            track_duration: self.track_duration,
            current: self.current,
            baseline: self.baseline,
            index: self.index,
            stage,
            drift: self.drift,
        }
    }

    /// The run for the track `name`.
    fn named(self, name: String) -> (r: Synchronizer)
        requires
            self@.stage is Liveness,
        ensures
            r@ == (RunState { baseline: Some(name@), ..self@ }),
    {
        proof {
            use_type_invariant(&self);
        }
        Synchronizer {
            captions: self.captions,
            low_fidelity: self.low_fidelity,
            label: self.label,
            track_duration: self.track_duration,
            current: self.current,
            baseline: Some(name),
            index: self.index,
            stage: self.stage,
            drift: self.drift,
        }
    }

    /// The run with its clock at `current` and the finding `drift` of the
    /// drift check.
    fn placed(self, current: TimeSpan, drift: Option<Drift>) -> (r: Synchronizer)
        requires
            self@.stage is DriftCheck,
        ensures
            r@ == (RunState { current: current@, drift, ..self@ }),
    {
        proof {
            use_type_invariant(&self);
        }
        Synchronizer {
            captions: self.captions,
            low_fidelity: self.low_fidelity,
            label: self.label,
            track_duration: self.track_duration,
            current,
            baseline: self.baseline,
            index: self.index,
            stage: self.stage,
            drift,
        }
    }

    /// The run turned to the caption at `index`, or winding down where the
    /// timeline has no such caption.
    fn turn_to(self, index: usize) -> (r: Synchronizer)
        requires
            index <= self@.captions.len(),
        ensures
            r@ == self@.turn_to(index as nat),
    {
        let stage = if index < self.captions.len() {
            Stage::Liveness
        } else {
            match self.track_duration {
                Some(end) => {
                    if end.exceeds(&self.current) {
                        Stage::Pacing
                    } else {
                        Stage::Ended(EndReason::Completed)
                    }
                },
                None => Stage::Ended(EndReason::Completed),
            }
        };
        Synchronizer {
            captions: self.captions,
            low_fidelity: self.low_fidelity,
            label: self.label,
            track_duration: self.track_duration,
            current: self.current,
            baseline: self.baseline,
            index,
            stage,
            drift: self.drift,
        }
    }
}

} // verus!
