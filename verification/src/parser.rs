//! The timeline parser: caption file text to captions.

use vstd::prelude::*;
use vstd::string::StrSliceExecFns;
use vstd::utf8::{decode_utf8, valid_utf8};

use crate::grammar::{
    captions_from, captions_of, digit_value, is_digit, lemma_captions_well_formed, line_caption,
    line_len, stamp_at,
    stamp_free, trim_end, trim_start, trimmed, two_digits, with_caption, with_word,
    without_return, word_stamp_at, words_from,
};
use crate::lyric::{caption_views, word_views, Caption, Lyric, LyricsFailure, LyricsType};
use crate::text::{chars_of, is_whitespace};
use crate::time::TimeSpan;
use crate::trusted::{decode_lossy, lossy_text};

verus! {

/// What contracts see of a stamp that was read: its time in nanoseconds and
/// the position behind it.
pub open spec fn stamp_view(stamp: Option<(TimeSpan, usize)>) -> Option<(nat, int)> {
    match stamp {
        Some((at, end)) => Some((at@, end as int)),
        None => None,
    }
}

/// What contracts see of a caption that may be missing.
pub open spec fn caption_view(caption: Option<LyricsType>) -> Option<Caption> {
    match caption {
        Some(caption) => Some(caption@),
        None => None,
    }
}

/// The number that `c` stands for, if it is a digit.
fn digit(c: char) -> (r: Option<u64>)
    ensures
        r is Some <==> is_digit(c),
        r matches Some(value) ==> value == digit_value(c) && value <= 9,
{
    let code: u32 = c as u32;
    if 0x30 <= code && code <= 0x39 {
        Some((code - 0x30) as u64)
    } else {
        None
    }
}

/// The number that the characters at `i` and `i + 1` stand for, if both are
/// digits.
fn digit_pair(line: &[char], i: usize) -> (r: Option<u64>)
    requires
        i + 2 <= line@.len(),
    ensures
        r is Some <==> is_digit(line@[i as int]) && is_digit(line@[i + 1]),
        r matches Some(value) ==> value == two_digits(line@, i as int) && value <= 99,
{
    match digit(line[i]) {
        Some(tens) => match digit(line[i + 1]) {
            Some(units) => Some(tens * 10 + units),
            None => None,
        },
        None => None,
    }
}

/// The time stamp at position `i` of `line` between the brackets `open` and
/// `close`, with the position behind it.
pub fn read_stamp(line: &[char], i: usize, open: char, close: char) -> (r: Option<
    (TimeSpan, usize),
>)
    ensures
        stamp_view(r) == stamp_at(line@, i as int, open, close),
{
    let n: usize = line.len();
    if n < 10 || i > n - 10 {
        return None;
    }
    if line[i] != open || line[i + 3] != ':' || line[i + 6] != '.' {
        return None;
    }
    let minutes: u64 = match digit_pair(line, i + 1) {
        Some(value) => value,
        None => {
            return None;
        },
    };
    let seconds: u64 = match digit_pair(line, i + 4) {
        Some(value) => value,
        None => {
            return None;
        },
    };
    let hundredths: u64 = match digit_pair(line, i + 7) {
        Some(value) => value,
        None => {
            return None;
        },
    };
    if seconds >= 60 {
        return None;
    }
    let whole: u64 = minutes * 60 + seconds;
    if line[i + 9] == close {
        let fraction: u32 = (hundredths * 10_000_000) as u32;
        Some((TimeSpan::new(whole, fraction), i + 10))
    } else if i < n - 10 && line[i + 10] == close {
        match digit(line[i + 9]) {
            Some(last) => {
                let fraction: u32 = ((hundredths * 10 + last) * 1_000_000) as u32;
                Some((TimeSpan::new(whole, fraction), i + 11))
            },
            None => None,
        }
    } else {
        None
    }
}

/// The word stamp at position `i` of `line`, with the position behind it.
fn read_word_stamp(line: &[char], i: usize) -> (r: Option<(TimeSpan, usize)>)
    ensures
        stamp_view(r) == word_stamp_at(line@, i as int),
{
    match read_stamp(line, i, '<', '>') {
        Some(stamp) => Some(stamp),
        None => read_stamp(line, i, '[', ']'),
    }
}

/// Whether a word stamp stands at position `i` of `line`.
fn opens_word(line: &[char], i: usize) -> (r: bool)
    ensures
        r == word_stamp_at(line@, i as int) is Some,
{
    read_word_stamp(line, i).is_some()
}

/// The position of the first word stamp at or behind `from`, or the end of
/// `line` where there is none.
fn next_word_stamp(line: &[char], from: usize) -> (r: usize)
    requires
        from <= line@.len(),
    ensures
        r == from + stamp_free(line@, from as int),
        from <= r <= line@.len(),
{
    let mut i: usize = from;
    while i < line.len() && !opens_word(line, i)
        invariant
            from <= i <= line@.len(),
            i + stamp_free(line@, i as int) == from + stamp_free(line@, from as int),
        decreases line@.len() - i,
    {
        i = i + 1;
    }
    i
}

/// Where the text between `from` and `to` starts and ends once the white
/// space around it is taken off.
fn trim_bounds(line: &[char], from: usize, to: usize) -> (r: (usize, usize))
    requires
        from <= to <= line@.len(),
    ensures
        from <= r.0 <= r.1 <= to,
        line@.subrange(r.0 as int, r.1 as int) == trimmed(line@.subrange(from as int, to as int)),
{
    let mut a: usize = from;
    while a < to && is_whitespace(line[a])
        invariant
            from <= a <= to <= line@.len(),
            trim_start(line@.subrange(a as int, to as int)) == trim_start(
                line@.subrange(from as int, to as int),
            ),
        decreases to - a,
    {
        proof {
            assert(line@.subrange(a as int, to as int).drop_first() == line@.subrange(
                a + 1,
                to as int,
            ));
        }
        a = a + 1;
    }
    let mut b: usize = to;
    while b > a && is_whitespace(line[b - 1])
        invariant
            a <= b <= to <= line@.len(),
            trim_end(line@.subrange(a as int, b as int)) == trim_end(
                line@.subrange(a as int, to as int),
            ),
        decreases b,
    {
        proof {
            assert(line@.subrange(a as int, b as int).drop_last() == line@.subrange(
                a as int,
                b - 1,
            ));
        }
        b = b - 1;
    }
    (a, b)
}

/// Adds the word that stands between `from` and `to` to `words`, unless
/// there is nothing but white space.
fn push_word(
    words: &mut Vec<(TimeSpan, String)>,
    at: TimeSpan,
    line: &str,
    chars: &[char],
    from: usize,
    to: usize,
)
    requires
        chars@ == line@,
        from <= to <= chars@.len(),
    ensures
        word_views(final(words)@) == word_views(old(words)@) + with_word(
            at@,
            trimmed(chars@.subrange(from as int, to as int)),
            Seq::empty(),
        ),
{
    let (a, b) = trim_bounds(chars, from, to);
    if a < b {
        let text = line.substring_char(a, b).to_owned();
        words.push((at, text));
    }
}

/// The words that the word stamps of `line` open, from position `from` on.
fn read_words(line: &str, chars: &[char], from: usize) -> (r: Vec<(TimeSpan, String)>)
    requires
        chars@ == line@,
        from <= chars@.len(),
    ensures
        word_views(r@) == words_from(chars@, from as int),
{
    let mut words: Vec<(TimeSpan, String)> = Vec::new();
    let mut i: usize = from;
    loop
        invariant
            chars@ == line@,
            from <= i <= chars@.len(),
            word_views(words@) + words_from(chars@, i as int) == words_from(chars@, from as int),
        ensures
            word_views(words@) == words_from(chars@, from as int),
        decreases chars@.len() - i,
    {
        match read_word_stamp(chars, i) {
            None => {
                break ;
            },
            Some((at, end)) => {
                let stop = next_word_stamp(chars, end);
                let ghost before = word_views(words@);
                let ghost word = trimmed(chars@.subrange(end as int, stop as int));
                push_word(&mut words, at, line, chars, end, stop);
                proof {
                    let rest = words_from(chars@, stop as int);
                    assert(with_word(at@, word, Seq::empty()) + rest == with_word(at@, word, rest));
                    assert(word_views(words@) + rest == before + with_word(at@, word, rest));
                }
                i = stop;
            },
        }
    }
    words
}

/// Whether none of `words` starts before `at`.
fn starts_with_caption(at: &TimeSpan, words: &Vec<(TimeSpan, String)>) -> (r: bool)
    ensures
        r == (Caption::Enhanced { at: at@, words: word_views(words@) }).well_formed(),
{
    let mut i: usize = 0;
    while i < words.len()
        invariant
            i <= words@.len(),
            forall|j: int| 0 <= j < i ==> (#[trigger] word_views(words@)[j]).0 >= at@,
        decreases words@.len() - i,
    {
        if at.exceeds(&words[i].0) {
            proof {
                let views = word_views(words@);
                let shown = Caption::Enhanced { at: at@, words: views };
                assert(0 <= i < views.len());
                if shown.well_formed() {
                    assert(shown->words[i as int].0 >= at@);
                }
            }
            return false;
        }
        i = i + 1;
    }
    true
}

/// The caption that the line `line` defines, if it defines one.
pub fn parse_line(line: &str) -> (r: Option<LyricsType>)
    ensures
        caption_view(r) == line_caption(line@),
{
    proof {
        reveal(line_caption);
    }
    let held = chars_of(line);
    let chars: &[char] = held.as_slice();
    match read_stamp(chars, 0, '[', ']') {
        None => None,
        Some((at, end)) => {
            let stop = next_word_stamp(chars, end);
            if stop >= chars.len() {
                let text = line.substring_char(end, chars.len()).to_owned();
                Some(LyricsType::Standard(at, text))
            } else {
                let mut words: Vec<(TimeSpan, String)> = Vec::new();
                push_word(&mut words, at, line, chars, end, stop);
                let ghost lead = word_views(words@);
                let mut rest = read_words(line, chars, stop);
                let ghost tail = word_views(rest@);
                words.append(&mut rest);
                proof {
                    assert(word_views(words@) == lead + tail);
                    let word = trimmed(chars@.subrange(end as int, stop as int));
                    assert(with_word(at@, word, Seq::empty()) + tail == with_word(at@, word, tail));
                }
                if starts_with_caption(&at, &words) {
                    Some(LyricsType::Enhanced(at, words))
                } else {
                    None
                }
            }
        },
    }
}

/// Where the line that starts at `from` ends.
fn line_end(chars: &[char], from: usize) -> (r: usize)
    requires
        from <= chars@.len(),
    ensures
        r == from + line_len(chars@, from as int),
        from <= r <= chars@.len(),
{
    let mut i: usize = from;
    while i < chars.len() && chars[i] != '\n'
        invariant
            from <= i <= chars@.len(),
            i + line_len(chars@, i as int) == from + line_len(chars@, from as int),
        decreases chars@.len() - i,
    {
        i = i + 1;
    }
    i
}

/// The caption of the line that starts at `from`, and where that line ends.
fn read_line(text: &str, chars: &[char], from: usize) -> (r: (Option<LyricsType>, usize))
    requires
        chars@ == text@,
        from <= chars@.len(),
    ensures
        r.1 == from + line_len(chars@, from as int),
        r.1 <= chars@.len(),
        caption_view(r.0) == line_caption(
            without_return(chars@.subrange(from as int, r.1 as int)),
        ),
{
    let end = line_end(chars, from);
    let stop = if end > from && chars[end - 1] == '\r' {
        end - 1
    } else {
        end
    };
    proof {
        let line = chars@.subrange(from as int, end as int);
        assert(chars@.subrange(from as int, stop as int) == without_return(line));
    }
    (parse_line(text.substring_char(from, stop)), end)
}

impl Lyric {
    /// The timeline that the caption file `text` defines: the captions of its
    /// lines, in the order of the lines. Lines that define no caption are
    /// passed over; a text without any caption is a failure.
    pub fn parse(text: &str) -> (r: Result<Lyric, LyricsFailure>)
        ensures
            match r {
                Ok(lyric) => lyric@ == captions_of(text@) && lyric@.len() > 0
                    && lyric.well_formed(),
                Err(failure) => failure == LyricsFailure::ParseFailed && captions_of(text@).len()
                    == 0,
            },
    {
        let held = chars_of(text);
        let chars: &[char] = held.as_slice();
        let mut content: Vec<LyricsType> = Vec::new();
        let mut from: usize = 0;
        while from < chars.len()
            invariant
                chars@ == text@,
                from <= chars@.len(),
                caption_views(content@) + captions_from(chars@, from as int) == captions_from(
                    chars@,
                    0,
                ),
            decreases chars@.len() - from,
        {
            let (caption, end) = read_line(text, chars, from);
            let next: usize = if end < chars.len() {
                end + 1
            } else {
                end
            };
            let ghost before = caption_views(content@);
            let ghost rest = captions_from(chars@, next as int);
            proof {
                assert(captions_from(chars@, end + 1) == rest);
                assert(captions_from(chars@, from as int) == with_caption(
                    caption_view(caption),
                    rest,
                ));
            }
            match caption {
                Some(caption) => {
                    content.push(caption);
                    proof {
                        assert(caption_views(content@) == before.push(caption@));
                        assert(before.push(caption@) + rest == before + (seq![caption@] + rest));
                    }
                },
                None => {},
            }
            from = next;
        }
        proof {
            assert(caption_views(content@) + Seq::<Caption>::empty() == caption_views(content@));
        }
        if content.len() == 0 {
            Err(LyricsFailure::ParseFailed)
        } else {
            let lyric = Lyric { content };
            proof {
                assert forall|i: int| 0 <= i < lyric@.len() implies (#[trigger] lyric@[i]).well_formed() by {
                    lemma_captions_well_formed(text@, i);
                }
            }
            Ok(lyric)
        }
    }
}

/// The text of a caption file with the bytes `bytes`: the text that they
/// encode where they are UTF-8, else the text that is made of them with
/// U+FFFD in place of what is not UTF-8.
pub open spec fn file_text(bytes: Seq<u8>) -> Seq<char> {
    if valid_utf8(bytes) {
        decode_utf8(bytes)
    } else {
        lossy_text(bytes)
    }
}

/// The timeline of a track, given what the lookup of its caption file
/// gave: the bytes of the file, or `None` where there is no such file or it
/// cannot be read. The bytes are read as UTF-8, with U+FFFD in place of what
/// is not, and parsed.
pub fn get_lyrics(file: Option<&[u8]>) -> (r: Result<Lyric, LyricsFailure>)
    ensures
        match file {
            None => r is Err && r->Err_0 == LyricsFailure::LookupFailed,
            Some(bytes) => match r {
                Ok(lyric) => lyric@ == captions_of(file_text(bytes@)) && lyric@.len() > 0
                    && lyric.well_formed(),
                Err(failure) => failure == LyricsFailure::ParseFailed && captions_of(
                    file_text(bytes@),
                ).len() == 0,
            },
        },
{
    match file {
        None => Err(LyricsFailure::LookupFailed),
        Some(bytes) => {
            let text = decode_lossy(bytes);
            Lyric::parse(text.as_str())
        },
    }
}

} // verus!
