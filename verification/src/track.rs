//! What the player tells of its track, and what a run is set up with: the
//! track's label, its identity, and the path of its audio file.

use std::string::FromUtf8Error;
use vstd::prelude::*;
use vstd::string::{StrSliceExecFns, StringExecFns};

use crate::error::FormatError;
use crate::text::{chars_of, join, joined, string_views};
use crate::time::TimeSpan;
use crate::trusted::{duration_text, format_duration, percent_decode, percent_decoded, utf8_error_text};

verus! {

/// What the player tells of the track it plays.
#[derive(Clone, Debug, PartialEq, Eq)]
pub struct TrackInfo {
    /// The track's title.
    pub title: Option<String>,
    /// The track's artists.
    pub artists: Option<Vec<String>>,
    /// How long the track is.
    pub length: Option<TimeSpan>,
    /// Where the track's audio is.
    pub url: Option<String>,
}

/// What contracts see of a string that may be missing.
pub open spec fn text_view(text: Option<String>) -> Option<Seq<char>> {
    match text {
        Some(text) => Some(text@),
        None => None,
    }
}

/// What contracts see of a borrowed string that may be missing.
pub open spec fn str_view(text: Option<&str>) -> Option<Seq<char>> {
    match text {
        Some(text) => Some(text@),
        None => None,
    }
}

/// What contracts see of a list of strings that may be missing.
pub open spec fn list_view(list: Option<Vec<String>>) -> Option<Seq<Seq<char>>> {
    match list {
        Some(list) => Some(string_views(list@)),
        None => None,
    }
}

/// The text that stands for a track's length in its label.
pub open spec fn length_text(length: Option<TimeSpan>) -> Option<Seq<char>> {
    match length {
        Some(length) => Some(
            duration_text((length@ / 1_000_000_000) as u64, (length@ % 1_000_000_000) as u32),
        ),
        None => None,
    }
}

/// The identity of a track: its locator and its title in a row, each left
/// out where the player gave none. Two tracks count as the same where their
/// identities are the same text.
pub open spec fn identity_of(url: Option<Seq<char>>, title: Option<Seq<char>>) -> Seq<char> {
    (match url {
        Some(url) => url,
        None => Seq::empty(),
    }) + (match title {
        Some(title) => title,
        None => Seq::empty(),
    })
}

/// The label of a track: its title, or `[Unknown]`; then its length in
/// round brackets after a space, where it is known; then `by ` and its
/// artists with `, ` between them, where it has any.
pub open spec fn label_of(
    title: Option<Seq<char>>,
    length: Option<Seq<char>>,
    artists: Option<Seq<Seq<char>>>,
) -> Seq<char> {
    (match title {
        Some(title) => title,
        None => "[Unknown]"@,
    }) + (match length {
        Some(length) => " ("@ + length + ")"@,
        None => Seq::empty(),
    }) + (match artists {
        Some(artists) => if artists.len() > 0 {
            "by "@ + joined(artists, ", "@)
        } else {
            Seq::empty()
        },
        None => Seq::empty(),
    })
}

/// Where the last `://` of `url` ends, looking at the first `upto`
/// characters; 0 where they hold none.
pub open spec fn scheme_end(url: Seq<char>, upto: int) -> int
    decreases upto,
{
    if upto < 3 || upto > url.len() {
        0
    } else if url[upto - 3] == ':' && url[upto - 2] == '/' && url[upto - 1] == '/' {
        upto
    } else {
        scheme_end(url, upto - 1)
    }
}

/// What stands behind the last `://` of `url`; all of `url` where it holds
/// none.
pub open spec fn after_scheme(url: Seq<char>) -> Seq<char> {
    url.subrange(scheme_end(url, url.len() as int), url.len() as int)
}

/// The locator that stands in for a missing one.
pub open spec fn locator_of(url: Option<Seq<char>>) -> Seq<char> {
    match url {
        Some(url) => url,
        None => "/"@,
    }
}

/// The identity of the track that `info` describes.
pub fn track_identity(info: &TrackInfo) -> (r: String)
    ensures
        r@ == identity_of(text_view(info.url), text_view(info.title)),
{
    let mut identity = String::new();
    if let Some(url) = &info.url {
        identity.append(url.as_str());
    }
    if let Some(title) = &info.title {
        identity.append(title.as_str());
    }
    identity
}

/// The label of a track with the title `title`, the length that reads
/// `length`, and the artists `artists`.
pub fn format_label(title: Option<&str>, length: Option<&str>, artists: Option<&Vec<String>>) -> (r:
    String)
    ensures
        r@ == label_of(
            str_view(title),
            str_view(length),
            match artists {
                Some(artists) => Some(string_views(artists@)),
                None => None,
            },
        ),
{
    let mut label = match title {
        Some(title) => String::from_str(title),
        None => String::from_str("[Unknown]"),
    };
    let ghost named = label@;
    if let Some(length) = length {
        label.append(" (");
        label.append(length);
        label.append(")");
        proof {
            assert(label@ == named + (" ("@ + length@ + ")"@));
        }
    }
    let ghost timed = label@;
    if let Some(artists) = artists {
        if artists.len() > 0 {
            let names = join(artists, ", ");
            label.append("by ");
            label.append(names.as_str());
            proof {
                assert(label@ == timed + ("by "@ + names@));
            }
        }
    }
    proof {
        assert(timed == timed + Seq::<char>::empty());
        assert(named == named + Seq::<char>::empty());
    }
    label
}

/// The label of the track that `info` describes. Its length reads as a
/// `std::time::Duration` of that length does when it is formatted for
/// debugging.
pub fn format_metadata(info: &TrackInfo) -> (r: String)
    ensures
        r@ == label_of(text_view(info.title), length_text(info.length), list_view(info.artists)),
{
    let title: Option<&str> = match &info.title {
        Some(title) => Some(title.as_str()),
        None => None,
    };
    let artists: Option<&Vec<String>> = match &info.artists {
        Some(artists) => Some(artists),
        None => None,
    };
    match info.length {
        Some(length) => {
            let text = format_duration(length.secs(), length.subsec_nanos());
            format_label(title, Some(text.as_str()), artists)
        },
        None => format_label(title, None, artists),
    }
}

/// What stands behind the last `://` of `url`.
pub fn strip_scheme(url: &str) -> (r: String)
    ensures
        r@ == after_scheme(url@),
{
    let chars = chars_of(url);
    let mut end: usize = chars.len();
    while end >= 3 && !(chars[end - 3] == ':' && chars[end - 2] == '/' && chars[end - 1] == '/')
        invariant
            end <= chars@.len(),
            scheme_end(chars@, end as int) == scheme_end(chars@, chars@.len() as int),
        decreases end,
    {
        end = end - 1;
    }
    let cut: usize = if end >= 3 {
        end
    } else {
        0
    };
    url.substring_char(cut, chars.len()).to_owned()
}

/// The path of the audio file, given what came of resolving the escapes of
/// the locator's path: the path itself, or `AudioNotFoundError` where the
/// resolved bytes were not UTF-8.
pub fn located(decoded: Result<String, FromUtf8Error>) -> (r: Result<String, FormatError>)
    ensures
        match decoded {
            Ok(path) => r == Ok::<String, FormatError>(path),
            Err(_) => r is Err && r->Err_0 is AudioNotFoundError,
        },
{
    match decoded {
        Ok(path) => Ok(path),
        Err(error) => Err(FormatError::AudioNotFoundError(utf8_error_text(&error))),
    }
}

/// The path of the audio file of a track with the locator `url`: what stands
/// behind the locator's last `://`, with its percent escapes resolved. A
/// missing locator counts as `/`. The error is `AudioNotFoundError`, where
/// the resolved bytes are not UTF-8.
pub fn audio_path(url: Option<&str>) -> (r: Result<String, FormatError>)
    ensures
        match percent_decoded(after_scheme(locator_of(str_view(url)))) {
            Some(path) => r is Ok && r->Ok_0@ == path,
            None => r is Err && r->Err_0 is AudioNotFoundError,
        },
        !after_scheme(locator_of(str_view(url))).contains('%') ==> r is Ok && r->Ok_0@
            == after_scheme(locator_of(str_view(url))),
{
    let locator = match url {
        Some(url) => url,
        None => "/",
    };
    let path = strip_scheme(locator);
    located(percent_decode(path.as_str()))
}

/// What a run for a track is set up with.
#[derive(Clone, Debug, PartialEq, Eq)]
pub struct TrackPlan {
    /// The track's label.
    pub label: String,
    /// The path of the track's audio file.
    pub audio_path: String,
    /// How long the track is.
    pub audio_ending: Option<TimeSpan>,
}

/// Sets up a run for the player's track from what the player told:
/// `running`, whether it is still there, and `metadata`, the track's
/// metadata or the reason why the player gave none.
///
/// The errors, in this order: `PlayerStopped` where the player is gone;
/// `MetadataError` with the player's reason where it gave no metadata;
/// `AudioNotFoundError` where the locator's path is not UTF-8 once its
/// escapes are resolved. Otherwise the plan holds the track's label, the path
/// of its audio file and its length.
pub fn main_logic(running: bool, metadata: Result<TrackInfo, String>) -> (r: Result<
    TrackPlan,
    FormatError,
>)
    ensures
        !running ==> r is Err && r->Err_0 is PlayerStopped,
        running ==> match metadata {
            Err(reason) => r is Err && r->Err_0 == FormatError::MetadataError(reason),
            Ok(info) => match percent_decoded(after_scheme(locator_of(text_view(info.url)))) {
                None => r is Err && r->Err_0 is AudioNotFoundError,
                Some(path) => {
                    &&& r is Ok
                    &&& r->Ok_0.label@ == label_of(
                        text_view(info.title),
                        length_text(info.length),
                        list_view(info.artists),
                    )
                    &&& r->Ok_0.audio_path@ == path
                    &&& r->Ok_0.audio_ending == info.length
                },
            },
        },
        running && metadata is Ok && !after_scheme(
            locator_of(text_view(metadata->Ok_0.url)),
        ).contains('%') ==> r is Ok && r->Ok_0.audio_path@ == after_scheme(
            locator_of(text_view(metadata->Ok_0.url)),
        ),
{
    if !running {
        return Err(FormatError::PlayerStopped);
    }
    let info = match metadata {
        Ok(info) => info,
        Err(reason) => {
            return Err(FormatError::MetadataError(reason));
        },
    };
    let label = format_metadata(&info);
    let url: Option<&str> = match &info.url {
        Some(url) => Some(url.as_str()),
        None => None,
    };
    match audio_path(url) {
        Ok(path) => Ok(TrackPlan { label, audio_path: path, audio_ending: info.length }),
        Err(error) => Err(error),
    }
}

} // verus!
