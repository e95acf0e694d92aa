use lyricer::error::FormatError;
use lyricer::time::TimeSpan;
use lyricer::track::{
    audio_path, format_label, format_metadata, main_logic, strip_scheme, track_identity, TrackInfo,
    TrackPlan,
};

fn info(title: Option<&str>, artists: Option<Vec<&str>>, length: Option<TimeSpan>, url: Option<&str>) -> TrackInfo {
    TrackInfo {
        title: title.map(|text| text.to_string()),
        artists: artists.map(|list| list.iter().map(|text| text.to_string()).collect()),
        length,
        url: url.map(|text| text.to_string()),
    }
}

#[test]
fn identity_is_locator_then_title() {
    assert_eq!(track_identity(&info(Some("Song"), None, None, Some("file:///a.mp3"))), "file:///a.mp3Song");
    assert_eq!(track_identity(&info(Some("Song"), None, None, None)), "Song");
    assert_eq!(track_identity(&info(None, None, None, Some("file:///a.mp3"))), "file:///a.mp3");
    assert_eq!(track_identity(&info(None, Some(vec!["A"]), Some(TimeSpan::from_secs(1)), None)), "");
}

#[test]
fn label_parts() {
    assert_eq!(format_label(None, None, None), "[Unknown]");
    assert_eq!(format_label(Some("Song"), None, None), "Song");
    assert_eq!(format_label(Some("Song"), Some("3s"), None), "Song (3s)");
    assert_eq!(format_label(Some("Song"), None, Some(&vec![])), "Song");
    assert_eq!(
        format_label(Some("Song"), Some("3s"), Some(&vec!["A".to_string(), "B".to_string()])),
        "Song (3s)by A, B"
    );
    assert_eq!(format_label(None, None, Some(&vec!["A".to_string()])), "[Unknown]by A");
}

#[test]
fn label_shows_the_length_as_a_duration() {
    let length = TimeSpan::from_millis(215_320);
    assert_eq!(
        format_metadata(&info(Some("Song"), Some(vec!["A", "B"]), Some(length), None)),
        "Song (215.32s)by A, B"
    );
    assert_eq!(
        format_metadata(&info(None, None, Some(TimeSpan::from_millis(500)), None)),
        "[Unknown] (500ms)"
    );
    assert_eq!(format_metadata(&info(Some("S"), None, Some(TimeSpan::from_secs(3)), None)), "S (3s)");
    assert_eq!(format_metadata(&info(Some("S"), Some(vec![]), None, None)), "S");
    let length = std::time::Duration::from_micros(183_000_125);
    let span = TimeSpan::new(length.as_secs(), length.subsec_nanos());
    assert_eq!(
        format_metadata(&info(Some("S"), None, Some(span), None)),
        format!("S ({:#?})", length)
    );
}

#[test]
fn scheme_is_cut_off() {
    assert_eq!(strip_scheme("file:///home/a.mp3"), "/home/a.mp3");
    assert_eq!(strip_scheme("/home/a.mp3"), "/home/a.mp3");
    assert_eq!(strip_scheme("a://b://c"), "c");
    assert_eq!(strip_scheme("https://"), "");
    assert_eq!(strip_scheme("://"), "");
    assert_eq!(strip_scheme(""), "");
    assert_eq!(strip_scheme(":/"), ":/");
    assert_eq!(strip_scheme("a:///b"), "/b");
    assert_eq!(strip_scheme("a:/://b:/"), "b:/");
    assert_eq!(strip_scheme("caf\u{e9}://\u{1F47E}"), "\u{1F47E}");
}

#[test]
fn scheme_is_cut_as_split_does() {
    for url in ["file:///home/a.mp3", "a://b://c", "://", "x", "", "a:///b", "::////", "a://://"] {
        assert_eq!(strip_scheme(url), url.split("://").last().unwrap(), "{:?}", url);
    }
}

#[test]
fn audio_path_resolves_escapes() {
    assert_eq!(audio_path(Some("file:///home/My%20Song.mp3")), Ok("/home/My Song.mp3".to_string()));
    assert_eq!(
        audio_path(Some("file:///%F0%9F%91%BE%20Exterminate%21")),
        Ok("/\u{1F47E} Exterminate!".to_string())
    );
    assert_eq!(audio_path(Some("file:///plain/a+b.mp3")), Ok("/plain/a+b.mp3".to_string()));
    assert_eq!(audio_path(Some("file:///odd%2")), Ok("/odd%2".to_string()));
    assert_eq!(audio_path(Some("file:///odd%zz")), Ok("/odd%zz".to_string()));
    assert_eq!(audio_path(Some("%3A%2F%2Fx")), Ok("://x".to_string()));
    assert_eq!(audio_path(None), Ok("/".to_string()));
}

#[test]
fn audio_path_that_is_not_utf8_is_an_error() {
    let error = audio_path(Some("file:///%FF")).unwrap_err();
    assert!(matches!(error, FormatError::AudioNotFoundError(_)));
    assert!(error.message().starts_with("Failed to find audio path: "));
    assert!(error.message().len() > "Failed to find audio path: ".len());
}

#[test]
fn stopped_player_comes_first() {
    assert_eq!(main_logic(false, Err("gone".to_string())), Err(FormatError::PlayerStopped));
    assert_eq!(
        main_logic(false, Ok(info(Some("Song"), None, None, Some("file:///a.mp3")))),
        Err(FormatError::PlayerStopped)
    );
}

#[test]
fn missing_metadata_is_an_error() {
    assert_eq!(
        main_logic(true, Err("no reply".to_string())),
        Err(FormatError::MetadataError("no reply".to_string()))
    );
}

#[test]
fn bad_locator_is_an_error() {
    let result = main_logic(true, Ok(info(Some("Song"), None, None, Some("file:///%C3%28"))));
    assert!(matches!(result, Err(FormatError::AudioNotFoundError(_))));
}

#[test]
fn plan_holds_label_path_and_length() {
    let length = TimeSpan::from_millis(2_500);
    let track = info(Some("Song"), Some(vec!["A"]), Some(length), Some("file:///music/My%20Song.mp3"));
    assert_eq!(
        main_logic(true, Ok(track)),
        Ok(TrackPlan {
            label: "Song (2.5s)by A".to_string(),
            audio_path: "/music/My Song.mp3".to_string(),
            audio_ending: Some(length),
        })
    );
    assert_eq!(
        main_logic(true, Ok(info(None, None, None, None))),
        Ok(TrackPlan { label: "[Unknown]".to_string(), audio_path: "/".to_string(), audio_ending: None })
    );
}
