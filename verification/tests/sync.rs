use lyricer::lyric::{Lyric, LyricsFailure, LyricsType};
use lyricer::sink::output;
use lyricer::sync::{drift, Action, Drift, EndReason, Event, Stage, Synchronizer};
use lyricer::time::TimeSpan;

/// What a player answers, one list for each question. Once a list
/// is used up the player stays on its last track, stays active and gives no
/// position.
struct Player {
    identities: Vec<Option<String>>,
    actives: Vec<bool>,
    offsets: Vec<Option<TimeSpan>>,
}

fn steady(track: &str) -> Player {
    Player { identities: vec![Some(track.to_string())], actives: vec![], offsets: vec![] }
}

fn ms(millis: u64) -> TimeSpan {
    TimeSpan::from_millis(millis)
}

fn standard(millis: u64, text: &str) -> LyricsType {
    LyricsType::Standard(ms(millis), text.to_string())
}

fn timeline(captions: Vec<LyricsType>) -> Result<Lyric, LyricsFailure> {
    Ok(Lyric { content: captions })
}

fn emit(text: &str, tooltip: &str) -> Action {
    Action::Emit { text: text.to_string(), tooltip: tooltip.to_string() }
}

/// Drives a run to its end and returns everything it asked for.
fn drive(mut sync: Synchronizer, mut player: Player) -> Vec<Action> {
    let mut asked = Vec::new();
    let mut track = None;
    for _ in 0..1000 {
        let action = sync.pending();
        asked.push(action.clone());
        let event = match action {
            Action::QueryIdentity => {
                if !player.identities.is_empty() {
                    track = player.identities.remove(0);
                }
                Event::Identity(track.clone())
            }
            Action::Sleep(_) => Event::Slept,
            Action::QueryActive => {
                Event::Active(if player.actives.is_empty() { true } else { player.actives.remove(0) })
            }
            Action::QueryOffset => {
                Event::Offset(if player.offsets.is_empty() { None } else { player.offsets.remove(0) })
            }
            Action::Emit { .. } => Event::Written,
            Action::End(_) => return asked,
        };
        sync = sync.step(event);
    }
    panic!("the run did not end");
}

fn emitted(asked: &[Action]) -> Vec<String> {
    let mut texts = Vec::new();
    for action in asked {
        if let Action::Emit { text, .. } = action {
            texts.push(text.clone());
        }
    }
    texts
}

fn slept(asked: &[Action]) -> Vec<TimeSpan> {
    let mut spans = Vec::new();
    for action in asked {
        if let Action::Sleep(span) = action {
            spans.push(*span);
        }
    }
    spans
}

#[test]
fn fallback_shows_no_lyrics_once() {
    for failure in [LyricsFailure::LookupFailed, LyricsFailure::ParseFailed] {
        let sync = Synchronizer::new(Err(failure), "Song (3s)by A".to_string(), None, None);
        let asked = drive(sync, steady("file:///a.mp3Song"));
        assert_eq!(
            asked,
            vec![
                Action::QueryIdentity,
                Action::QueryIdentity,
                Action::Sleep(TimeSpan::from_secs(1)),
                Action::QueryActive,
                Action::QueryOffset,
                emit("No lyrics", "Song (3s)by A"),
                Action::End(EndReason::Completed),
            ]
        );
    }
}

#[test]
fn fallback_dwell_ignores_the_clock() {
    let sync = Synchronizer::new(
        Err(LyricsFailure::LookupFailed),
        "L".to_string(),
        Some(ms(10_000)),
        Some(ms(4_000)),
    );
    let asked = drive(sync, steady("t"));
    assert_eq!(slept(&asked), vec![TimeSpan::from_secs(1), ms(10_000)]);
    assert_eq!(emitted(&asked), vec!["No lyrics".to_string()]);
}

#[test]
fn blank_captions_are_passed_over() {
    let captions = vec![
        standard(1_000, "   "),
        LyricsType::Enhanced(ms(2_000), vec![]),
        standard(3_000, ""),
        standard(4_000, "\t\u{3000}"),
        standard(5_000, "words"),
        standard(9_000, " "),
    ];
    let sync = Synchronizer::new(timeline(captions), "L".to_string(), None, None);
    let asked = drive(sync, steady("t"));
    assert_eq!(
        asked,
        vec![
            Action::QueryIdentity,
            Action::QueryIdentity,
            Action::QueryIdentity,
            Action::QueryIdentity,
            Action::QueryIdentity,
            Action::QueryIdentity,
            Action::Sleep(ms(5_000)),
            Action::QueryActive,
            Action::QueryOffset,
            emit("words", "L"),
            Action::QueryIdentity,
            Action::End(EndReason::Completed),
        ]
    );
}

#[test]
fn blank_caption_leaves_the_clock() {
    let captions = vec![standard(7_000, " "), standard(8_000, "x")];
    let sync = Synchronizer::new(timeline(captions), "L".to_string(), None, Some(ms(2_000)));
    let sync = sync.step(Event::Identity(Some("t".to_string())));
    assert_eq!(sync.stage(), Stage::Liveness);
    let sync = sync.step(Event::Identity(Some("t".to_string())));
    assert_eq!(sync.stage(), Stage::Liveness);
    assert_eq!(sync.pending(), Action::QueryIdentity);
    assert_eq!(sync.current_duration(), ms(2_000));
    let sync = sync.step(Event::Identity(Some("t".to_string())));
    assert_eq!(sync.pending(), Action::Sleep(ms(6_000)));
}

#[test]
fn running_fast_ends_before_the_caption() {
    let captions = vec![standard(1_000, "one"), standard(2_000, "two"), standard(3_000, "three")];
    let sync = Synchronizer::new(timeline(captions), "L".to_string(), Some(ms(9_000)), None);
    let player = Player {
        identities: vec![Some("t".to_string())],
        actives: vec![],
        offsets: vec![Some(ms(1_000)), Some(ms(800))],
    };
    let asked = drive(sync, player);
    assert_eq!(
        asked,
        vec![
            Action::QueryIdentity,
            Action::QueryIdentity,
            Action::Sleep(ms(1_000)),
            Action::QueryActive,
            Action::QueryOffset,
            emit("one", "L"),
            Action::QueryIdentity,
            Action::Sleep(ms(1_000)),
            Action::QueryActive,
            Action::QueryOffset,
            Action::End(EndReason::RunningFast),
        ]
    );
}

#[test]
fn ended_run_stays_ended() {
    let sync = Synchronizer::new(timeline(vec![standard(0, "x")]), "L".to_string(), None, None);
    let mut sync = sync.step(Event::Slept);
    assert_eq!(sync.stage(), Stage::Ended(EndReason::OutOfTurn));
    for event in [
        Event::Identity(Some("t".to_string())),
        Event::Identity(None),
        Event::Slept,
        Event::Active(true),
        Event::Offset(Some(ms(5))),
        Event::Offset(None),
        Event::Written,
    ] {
        sync = sync.step(event);
        assert_eq!(sync.pending(), Action::End(EndReason::OutOfTurn));
    }
}

#[test]
fn drift_tolerance_is_strict() {
    let current = ms(1_000);
    assert_eq!(drift(&current, &ms(800)), Drift::Fast);
    assert_eq!(drift(&current, &TimeSpan::from_micros(874_999)), Drift::Fast);
    assert_eq!(drift(&current, &ms(875)), Drift::InSync);
    assert_eq!(drift(&current, &ms(1_000)), Drift::InSync);
    assert_eq!(drift(&current, &ms(1_125)), Drift::InSync);
    assert_eq!(drift(&current, &TimeSpan::from_micros(1_125_001)), Drift::Slow);
    assert_eq!(drift(&ms(0), &ms(0)), Drift::InSync);
    assert_eq!(drift(&ms(100), &ms(0)), Drift::InSync);
}

#[test]
fn running_slow_resyncs_and_goes_on() {
    let captions = vec![standard(1_000, "one"), standard(6_000, "two")];
    let sync = Synchronizer::new(timeline(captions), "L".to_string(), None, None);
    let player = Player {
        identities: vec![Some("t".to_string())],
        actives: vec![],
        offsets: vec![Some(ms(4_000)), Some(ms(6_125))],
    };
    let asked = drive(sync, player);
    assert_eq!(emitted(&asked), vec!["one".to_string(), "two".to_string()]);
    assert_eq!(slept(&asked), vec![ms(1_000), ms(2_000)]);
    assert_eq!(asked.last(), Some(&Action::End(EndReason::Completed)));
}

#[test]
fn drift_is_flagged() {
    let captions = vec![standard(1_000, "one"), standard(2_000, "two"), standard(3_000, "three")];
    let identity = || Event::Identity(Some("t".to_string()));
    let run = Synchronizer::new(timeline(captions), "L".to_string(), None, None);
    assert_eq!(run.last_drift(), None);
    let run = run.step(identity()).step(identity()).step(Event::Slept).step(Event::Active(true));
    assert_eq!(run.stage(), Stage::DriftCheck);
    let run = run.step(Event::Offset(Some(ms(126))));
    assert_eq!(run.last_drift(), Some(Drift::Slow));
    assert_eq!(run.stage(), Stage::Emit);
    assert_eq!(run.current_duration(), ms(126));
    let run = run.step(Event::Written).step(identity()).step(Event::Slept).step(Event::Active(true));
    let run = run.step(Event::Offset(None));
    assert_eq!(run.last_drift(), None);
    assert_eq!(run.current_duration(), ms(2_000));
    let run = run.step(Event::Written).step(identity()).step(Event::Slept).step(Event::Active(true));
    let fast = run.step(Event::Offset(Some(ms(1_874))));
    assert_eq!(fast.last_drift(), Some(Drift::Fast));
    assert_eq!(fast.stage(), Stage::Ended(EndReason::RunningFast));
    assert_eq!(fast.current_duration(), ms(2_000));
}

#[test]
fn position_within_tolerance_is_taken_over() {
    let captions = vec![standard(1_000, "one"), standard(2_000, "two")];
    let sync = Synchronizer::new(timeline(captions), "L".to_string(), None, Some(ms(500)));
    let player = Player {
        identities: vec![Some("t".to_string())],
        actives: vec![],
        offsets: vec![Some(ms(375))],
    };
    let asked = drive(sync, player);
    assert_eq!(slept(&asked), vec![ms(500), ms(1_625)]);
    assert_eq!(emitted(&asked), vec!["one".to_string(), "two".to_string()]);
}

#[test]
fn missing_position_trusts_the_timeline() {
    let captions = vec![standard(1_000, "one"), standard(3_500, "two")];
    let sync = Synchronizer::new(timeline(captions), "L".to_string(), None, None);
    let sync = sync.step(Event::Identity(Some("t".to_string())));
    let sync = sync.step(Event::Identity(Some("t".to_string())));
    let sync = sync.step(Event::Slept).step(Event::Active(true)).step(Event::Offset(None));
    assert_eq!(sync.current_duration(), ms(1_000));
    assert_eq!(sync.pending(), emit("one", "L"));
    let sync = sync.step(Event::Written).step(Event::Identity(Some("t".to_string())));
    assert_eq!(sync.pending(), Action::Sleep(ms(2_500)));
}

#[test]
fn caption_in_the_past_sleeps_zero() {
    let captions = vec![standard(1_000, "one")];
    let sync = Synchronizer::new(timeline(captions), "L".to_string(), None, Some(ms(5_000)));
    let sync = sync
        .step(Event::Identity(Some("t".to_string())))
        .step(Event::Identity(Some("t".to_string())));
    assert_eq!(sync.stage(), Stage::Dwell);
    assert_eq!(sync.pending(), Action::Sleep(TimeSpan::zero()));
}

#[test]
fn track_change_ends_the_run() {
    let captions = vec![standard(1_000, "one"), standard(2_000, "two")];
    let sync = Synchronizer::new(timeline(captions.clone()), "L".to_string(), None, None);
    let player = Player {
        identities: vec![Some("a".to_string()), Some("b".to_string())],
        actives: vec![],
        offsets: vec![],
    };
    assert_eq!(
        drive(sync, player),
        vec![Action::QueryIdentity, Action::QueryIdentity, Action::End(EndReason::TrackChanged)]
    );

    let sync = Synchronizer::new(timeline(captions), "L".to_string(), None, None);
    let player = Player {
        identities: vec![Some("a".to_string()), Some("a".to_string()), Some("b".to_string())],
        actives: vec![],
        offsets: vec![],
    };
    let asked = drive(sync, player);
    assert_eq!(emitted(&asked), vec!["one".to_string()]);
    assert_eq!(
        &asked[asked.len() - 3..],
        &[emit("one", "L"), Action::QueryIdentity, Action::End(EndReason::TrackChanged)]
    );
}

#[test]
fn silent_player_ends_the_run_at_a_later_check() {
    let captions = vec![standard(1_000, "one"), standard(2_000, "two")];
    let sync = Synchronizer::new(timeline(captions.clone()), "L".to_string(), None, None);
    let player =
        Player { identities: vec![Some("a".to_string()), None], actives: vec![], offsets: vec![] };
    assert_eq!(
        drive(sync, player),
        vec![Action::QueryIdentity, Action::QueryIdentity, Action::End(EndReason::TrackChanged)]
    );

    let sync = Synchronizer::new(timeline(captions.clone()), "L".to_string(), None, None);
    let player = Player {
        identities: vec![Some("a".to_string()), Some("a".to_string()), None],
        actives: vec![],
        offsets: vec![],
    };
    let asked = drive(sync, player);
    assert_eq!(emitted(&asked), vec!["one".to_string()]);
    assert_eq!(asked.last(), Some(&Action::End(EndReason::TrackChanged)));

    let sync = Synchronizer::new(timeline(captions), "L".to_string(), None, None);
    let player = Player { identities: vec![None, None], actives: vec![], offsets: vec![] };
    assert_eq!(
        drive(sync, player),
        vec![Action::QueryIdentity, Action::QueryIdentity, Action::End(EndReason::TrackChanged)]
    );
}

#[test]
fn first_identity_read_becomes_the_baseline() {
    let captions = vec![LyricsType::Standard(TimeSpan::zero(), "a".to_string())];
    let sync = Synchronizer::new(timeline(captions), "T".to_string(), None, Some(TimeSpan::zero()));
    let player =
        Player { identities: vec![None, Some("u".to_string())], actives: vec![], offsets: vec![] };
    let asked = drive(sync, player);
    assert_eq!(
        asked,
        vec![
            Action::QueryIdentity,
            Action::QueryIdentity,
            Action::Sleep(TimeSpan::zero()),
            Action::QueryActive,
            Action::QueryOffset,
            emit("a", "T"),
            Action::End(EndReason::Completed),
        ]
    );
    let mut records = Vec::new();
    for action in &asked {
        if let Action::Emit { text, tooltip } = action {
            records.push(output(text, tooltip));
        }
    }
    assert_eq!(records, vec![output("a", "T")]);
    assert_eq!(records, vec!["{\"text\": \"a\", \"tooltip\": \"T\"}".to_string()]);
}

#[test]
fn first_identity_read_is_held_against_later_ones() {
    let captions = vec![standard(1_000, "one"), standard(2_000, "two"), standard(3_000, "three")];
    let sync = Synchronizer::new(timeline(captions.clone()), "L".to_string(), None, None);
    let player = Player {
        identities: vec![None, Some("a".to_string()), Some("a".to_string()), Some("b".to_string())],
        actives: vec![],
        offsets: vec![],
    };
    let asked = drive(sync, player);
    assert_eq!(emitted(&asked), vec!["one".to_string(), "two".to_string()]);
    assert_eq!(asked.last(), Some(&Action::End(EndReason::TrackChanged)));

    let sync = Synchronizer::new(timeline(captions), "L".to_string(), None, None);
    let player = Player {
        identities: vec![None, Some("a".to_string()), Some("b".to_string())],
        actives: vec![],
        offsets: vec![],
    };
    let asked = drive(sync, player);
    assert_eq!(emitted(&asked), vec!["one".to_string()]);
    assert_eq!(asked.last(), Some(&Action::End(EndReason::TrackChanged)));
}

#[test]
fn empty_identity_is_an_identity() {
    let captions = vec![standard(1_000, "one"), standard(2_000, "two")];
    let sync = Synchronizer::new(timeline(captions.clone()), "L".to_string(), None, None);
    let player = Player {
        identities: vec![Some(String::new()), Some("a".to_string())],
        actives: vec![],
        offsets: vec![],
    };
    assert_eq!(
        drive(sync, player),
        vec![Action::QueryIdentity, Action::QueryIdentity, Action::End(EndReason::TrackChanged)]
    );

    let sync = Synchronizer::new(timeline(captions.clone()), "L".to_string(), None, None);
    let player = Player {
        identities: vec![Some("a".to_string()), Some(String::new())],
        actives: vec![],
        offsets: vec![],
    };
    assert_eq!(
        drive(sync, player),
        vec![Action::QueryIdentity, Action::QueryIdentity, Action::End(EndReason::TrackChanged)]
    );

    let sync = Synchronizer::new(timeline(captions.clone()), "L".to_string(), None, None);
    let asked = drive(sync, steady(""));
    assert_eq!(emitted(&asked), vec!["one".to_string(), "two".to_string()]);

    let sync = Synchronizer::new(timeline(captions), "L".to_string(), None, None);
    let player = Player {
        identities: vec![None, Some(String::new()), Some("a".to_string())],
        actives: vec![],
        offsets: vec![],
    };
    let asked = drive(sync, player);
    assert_eq!(emitted(&asked), vec!["one".to_string()]);
    assert_eq!(asked.last(), Some(&Action::End(EndReason::TrackChanged)));
}

#[test]
fn writes_never_outnumber_captions_that_are_not_blank() {
    let captions = vec![standard(0, " "), standard(1_000, "one"), standard(2_000, ""), standard(3_000, "two")];
    let sync = Synchronizer::new(timeline(captions), "L".to_string(), None, None);
    let asked = drive(sync, steady("t"));
    assert_eq!(emitted(&asked), vec!["one".to_string(), "two".to_string()]);
}

#[test]
fn stopped_player_ends_the_run() {
    let captions = vec![standard(1_000, "one"), standard(2_000, "two")];
    let sync = Synchronizer::new(timeline(captions), "L".to_string(), Some(ms(9_000)), None);
    let player =
        Player { identities: vec![Some("a".to_string())], actives: vec![true, false], offsets: vec![] };
    let asked = drive(sync, player);
    assert_eq!(emitted(&asked), vec!["one".to_string()]);
    assert_eq!(
        &asked[asked.len() - 3..],
        &[Action::Sleep(ms(1_000)), Action::QueryActive, Action::End(EndReason::Stopped)]
    );
}

#[test]
fn rest_of_the_track_is_waited_for() {
    let captions = vec![standard(1_000, "one")];
    let sync = Synchronizer::new(timeline(captions.clone()), "L".to_string(), Some(ms(10_000)), None);
    let asked = drive(sync, steady("t"));
    assert_eq!(
        &asked[asked.len() - 3..],
        &[emit("one", "L"), Action::Sleep(ms(9_000)), Action::End(EndReason::Completed)]
    );

    for length in [ms(1_000), ms(999)] {
        let sync = Synchronizer::new(timeline(captions.clone()), "L".to_string(), Some(length), None);
        let asked = drive(sync, steady("t"));
        assert_eq!(
            &asked[asked.len() - 2..],
            &[emit("one", "L"), Action::End(EndReason::Completed)]
        );
    }
}

#[test]
fn empty_timeline_winds_down_at_once() {
    let sync = Synchronizer::new(timeline(vec![]), "L".to_string(), Some(ms(3_000)), Some(ms(1_000)));
    assert_eq!(
        drive(sync, steady("t")),
        vec![Action::QueryIdentity, Action::Sleep(ms(2_000)), Action::End(EndReason::Completed)]
    );
}

#[test]
fn report_out_of_turn_ends_the_run() {
    let captions = vec![standard(1_000, "one")];
    let start = Synchronizer::new(timeline(captions), "L".to_string(), None, None);
    assert_eq!(start.stage(), Stage::Baseline);
    assert_eq!(start.current_duration(), TimeSpan::zero());
    let sync = start.step(Event::Written);
    assert_eq!(sync.pending(), Action::End(EndReason::OutOfTurn));

    let captions = vec![standard(1_000, "one")];
    let sync = Synchronizer::new(timeline(captions), "L".to_string(), None, None)
        .step(Event::Identity(Some("t".to_string())))
        .step(Event::Identity(Some("t".to_string())))
        .step(Event::Slept);
    assert_eq!(sync.stage(), Stage::ActiveCheck);
    assert_eq!(sync.step(Event::Offset(None)).stage(), Stage::Ended(EndReason::OutOfTurn));
}

#[test]
fn enhanced_caption_is_shown_as_one_line() {
    let captions = vec![LyricsType::Enhanced(
        ms(1_000),
        vec![(ms(1_000), "Hello".to_string()), (ms(1_500), "world".to_string())],
    )];
    let sync = Synchronizer::new(timeline(captions), "Song".to_string(), None, None);
    let asked = drive(sync, steady("t"));
    assert_eq!(emitted(&asked), vec!["Hello world".to_string()]);
    assert_eq!(slept(&asked), vec![ms(1_000)]);
}
