//! The caption file format.
//!
//! A caption file is read line by line. A line that starts with a time stamp
//! in square brackets, `[mm:ss.xx]`, defines a caption; every other line is
//! passed over. Behind the leading stamp a line may hold further stamps, in
//! angle or square brackets, each of which opens a word: such a line is an
//! enhanced caption, a line without them a standard one.

use vstd::prelude::*;

use crate::lyric::Caption;
use crate::text::is_space;

verus! {

/// Whether `c` is one of the digits `0` to `9`.
pub open spec fn is_digit(c: char) -> bool {
    0x30 <= c as u32 <= 0x39
}

/// The number that the digit `c` stands for.
pub open spec fn digit_value(c: char) -> nat {
    (c as u32 - 0x30) as nat
}

/// The number that the two digits at `i` and `i + 1` stand for.
pub open spec fn two_digits(s: Seq<char>, i: int) -> nat {
    digit_value(s[i]) * 10 + digit_value(s[i + 1])
}

/// The time stamp that stands at position `i` of `s` between the brackets
/// `open` and `close`: its time in nanoseconds and the position behind it.
///
/// A stamp is two digits of minutes, a colon, two digits of seconds (below
/// 60), a full stop and two digits of hundredths or three of thousandths.
pub open spec fn stamp_at(s: Seq<char>, i: int, open: char, close: char) -> Option<(nat, int)> {
    if 0 <= i && i + 10 <= s.len() && s[i] == open && is_digit(s[i + 1]) && is_digit(s[i + 2])
        && s[i + 3] == ':' && is_digit(s[i + 4]) && is_digit(s[i + 5]) && s[i + 6] == '.'
        && is_digit(s[i + 7]) && is_digit(s[i + 8]) && two_digits(s, i + 4) < 60 {
        let whole = (two_digits(s, i + 1) * 60 + two_digits(s, i + 4)) * 1_000_000_000;
        if s[i + 9] == close {
            Some((whole + two_digits(s, i + 7) * 10_000_000, i + 10))
        } else if i + 11 <= s.len() && is_digit(s[i + 9]) && s[i + 10] == close {
            Some((whole + (two_digits(s, i + 7) * 10 + digit_value(s[i + 9])) * 1_000_000, i + 11))
        } else {
            None
        }
    } else {
        None
    }
}

/// The stamp that opens a line at position `i`: one in square brackets.
pub open spec fn line_stamp_at(s: Seq<char>, i: int) -> Option<(nat, int)> {
    stamp_at(s, i, '[', ']')
}

/// The stamp that opens a word at position `i`: one in angle brackets or in
/// square brackets.
pub open spec fn word_stamp_at(s: Seq<char>, i: int) -> Option<(nat, int)> {
    match stamp_at(s, i, '<', '>') {
        Some(stamp) => Some(stamp),
        None => stamp_at(s, i, '[', ']'),
    }
}

/// How many characters stand between position `from` and the next word
/// stamp, or the end of `s` where none follows.
pub open spec fn stamp_free(s: Seq<char>, from: int) -> nat
    decreases s.len() - from,
{
    if from < 0 || from >= s.len() || word_stamp_at(s, from) is Some {
        0
    } else {
        1 + stamp_free(s, from + 1)
    }
}

/// The stamp-free stretch from `from` ends within `s`.
pub proof fn lemma_stamp_free_within(s: Seq<char>, from: int)
    requires
        0 <= from <= s.len(),
    ensures
        from + stamp_free(s, from) <= s.len(),
    decreases s.len() - from,
{
    if from < s.len() && word_stamp_at(s, from) is None {
        lemma_stamp_free_within(s, from + 1);
    }
}

/// `s` without the white space at its start.
pub open spec fn trim_start(s: Seq<char>) -> Seq<char>
    decreases s.len(),
{
    if s.len() > 0 && is_space(s[0]) {
        trim_start(s.drop_first())
    } else {
        s
    }
}

/// `s` without the white space at its end.
pub open spec fn trim_end(s: Seq<char>) -> Seq<char>
    decreases s.len(),
{
    if s.len() > 0 && is_space(s.last()) {
        trim_end(s.drop_last())
    } else {
        s
    }
}

/// `s` without the white space at its start and at its end.
pub open spec fn trimmed(s: Seq<char>) -> Seq<char> {
    trim_end(trim_start(s))
}

/// `words` with the word `(at, text)` in front, unless `text` is empty.
pub open spec fn with_word(at: nat, text: Seq<char>, words: Seq<(nat, Seq<char>)>) -> Seq<
    (nat, Seq<char>),
> {
    if text.len() == 0 {
        words
    } else {
        seq![(at, text)] + words
    }
}

/// The words that the word stamps of `s` open, from the stamp at position
/// `from` on. The text of a word runs from its stamp to the next one, or to
/// the end of `s`, without the white space around it; a stamp that is
/// followed by white space alone opens no word.
pub open spec fn words_from(s: Seq<char>, from: int) -> Seq<(nat, Seq<char>)>
    decreases s.len() - from,
    via words_from_ends
{
    match word_stamp_at(s, from) {
        None => Seq::empty(),
        Some((at, end)) => {
            let stop = end + stamp_free(s, end);
            with_word(at, trimmed(s.subrange(end, stop)), words_from(s, stop))
        },
    }
}

/// The next word stamp is looked for within `s`.
#[via_fn]
proof fn words_from_ends(s: Seq<char>, from: int) {
    if let Some((_, end)) = word_stamp_at(s, from) {
        lemma_stamp_free_within(s, end);
    }
}

/// The caption that the line `line` defines, if it defines one.
///
/// The line has to start with a stamp in square brackets, which gives the
/// caption's time. Where no word stamp follows, the rest of the line is the
/// text of a standard caption, which is kept as it stands. Otherwise the line
/// is an enhanced caption: what stands before the first word stamp is a word
/// that starts with the caption, and each word stamp opens a word. Such a
/// line defines no caption where one of its words starts before the caption.
#[verifier::opaque]
pub open spec fn line_caption(line: Seq<char>) -> Option<Caption> {
    match line_stamp_at(line, 0) {
        None => None,
        Some((at, end)) => {
            let stop = end + stamp_free(line, end);
            if stop >= line.len() {
                Some(Caption::Standard { at, text: line.subrange(end, line.len() as int) })
            } else {
                let caption = Caption::Enhanced {
                    at,
                    words: with_word(
                        at,
                        trimmed(line.subrange(end, stop)),
                        words_from(line, stop),
                    ),
                };
                if caption.well_formed() {
                    Some(caption)
                } else {
                    None
                }
            }
        },
    }
}

/// How many characters the line that starts at position `from` of `text`
/// holds: those before the next line feed, or before the end of `text`.
pub open spec fn line_len(text: Seq<char>, from: int) -> nat
    decreases text.len() - from,
{
    if from < 0 || from >= text.len() || text[from] == '\n' {
        0
    } else {
        1 + line_len(text, from + 1)
    }
}

/// The line that starts at `from` ends within `text`.
pub proof fn lemma_line_within(text: Seq<char>, from: int)
    requires
        0 <= from <= text.len(),
    ensures
        from + line_len(text, from) <= text.len(),
    decreases text.len() - from,
{
    if from < text.len() && text[from] != '\n' {
        lemma_line_within(text, from + 1);
    }
}

/// `line` without the carriage return at its end, if it has one.
pub open spec fn without_return(line: Seq<char>) -> Seq<char> {
    if line.len() > 0 && line.last() == '\r' {
        line.drop_last()
    } else {
        line
    }
}

/// `captions` with `caption` in front, if there is one.
pub open spec fn with_caption(caption: Option<Caption>, captions: Seq<Caption>) -> Seq<Caption> {
    match caption {
        Some(caption) => seq![caption] + captions,
        None => captions,
    }
}

/// The captions that the lines of `text` define, from the line that starts
/// at position `from` on, in the order of the lines.
pub open spec fn captions_from(text: Seq<char>, from: int) -> Seq<Caption>
    decreases text.len() - from + 1,
    via captions_from_ends
{
    if from < 0 || from >= text.len() {
        Seq::empty()
    } else {
        let end = from + line_len(text, from);
        with_caption(
            line_caption(without_return(text.subrange(from, end))),
            captions_from(text, end + 1),
        )
    }
}

/// The next line starts at most one position behind the end of `text`.
#[via_fn]
proof fn captions_from_ends(text: Seq<char>, from: int) {
    if 0 <= from < text.len() {
        lemma_line_within(text, from);
    }
}

/// The captions that the caption file `text` defines, in the order of its
/// lines. Lines are parted by line feeds; a carriage return before a line
/// feed, or at the end of the last line, belongs to no line.
pub open spec fn captions_of(text: Seq<char>) -> Seq<Caption> {
    captions_from(text, 0)
}

/// Every caption that a text defines is well-formed: no word of an enhanced
/// caption starts before the caption does.
pub proof fn lemma_captions_well_formed(text: Seq<char>, i: int)
    requires
        0 <= i < captions_of(text).len(),
    ensures
        captions_of(text)[i].well_formed(),
{
    lemma_captions_well_formed_from(text, 0, i);
}

/// Every caption from the line at `from` on is well-formed.
proof fn lemma_captions_well_formed_from(text: Seq<char>, from: int, i: int)
    requires
        0 <= from,
        0 <= i < captions_from(text, from).len(),
    ensures
        captions_from(text, from)[i].well_formed(),
    decreases text.len() - from + 1,
{
    reveal(line_caption);
    if from < text.len() {
        lemma_line_within(text, from);
        let end = from + line_len(text, from);
        let first = line_caption(without_return(text.subrange(from, end)));
        let rest = captions_from(text, end + 1);
        if first is Some {
            if i > 0 {
                lemma_captions_well_formed_from(text, end + 1, i - 1);
                assert((seq![first->0] + rest)[i] == rest[i - 1]);
            }
        } else {
            lemma_captions_well_formed_from(text, end + 1, i);
        }
    }
}

} // verus!
