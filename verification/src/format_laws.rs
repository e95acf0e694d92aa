//! What holds of the caption file format: files that are written one
//! caption to a line are read back as they were written, and text without a
//! time stamp holds no caption.

use vstd::prelude::*;

use crate::grammar::{
    captions_from, captions_of, digit_value, is_digit, lemma_line_within, line_caption, line_len,
    line_stamp_at, stamp_at, stamp_free, two_digits, with_caption, without_return, word_stamp_at,
};
use crate::lyric::Caption;
use crate::text::{is_blank, is_space};

verus! {

/// The digit that stands for `d`, for `d` below ten.
pub open spec fn digit_char(d: nat) -> char {
    if d == 0 {
        '0'
    } else if d == 1 {
        '1'
    } else if d == 2 {
        '2'
    } else if d == 3 {
        '3'
    } else if d == 4 {
        '4'
    } else if d == 5 {
        '5'
    } else if d == 6 {
        '6'
    } else if d == 7 {
        '7'
    } else if d == 8 {
        '8'
    } else {
        '9'
    }
}

/// A standard caption as it is written down: minutes, seconds and hundredths
/// of its time, and its text.
pub struct StandardLine {
    pub minutes: nat,
    pub seconds: nat,
    pub hundredths: nat,
    pub text: Seq<char>,
}

impl StandardLine {
    /// The caption can be written as one line `[mm:ss.xx]text` that reads
    /// as a standard caption: its time fits two digits each, and its text
    /// holds no line feed and no word stamp and ends in no carriage return.
    pub open spec fn well_formed(self) -> bool {
        &&& self.minutes < 100
        &&& self.seconds < 60
        &&& self.hundredths < 100
        &&& forall|i: int| 0 <= i < self.text.len() ==> self.text[i] != '\n'
        &&& self.text.len() > 0 ==> self.text.last() != '\r'
        &&& forall|i: int| word_stamp_at(self.text, i) is None
    }

    /// The caption's time in nanoseconds.
    pub open spec fn at(self) -> nat {
        (self.minutes * 60 + self.seconds) * 1_000_000_000 + self.hundredths * 10_000_000
    }

    /// The stamp `[mm:ss.xx]` of the caption.
    pub open spec fn stamp(self) -> Seq<char> {
        seq![
            '[',
            digit_char(self.minutes / 10),
            digit_char(self.minutes % 10),
            ':',
            digit_char(self.seconds / 10),
            digit_char(self.seconds % 10),
            '.',
            digit_char(self.hundredths / 10),
            digit_char(self.hundredths % 10),
            ']',
        ]
    }

    /// The line that defines the caption.
    pub open spec fn written(self) -> Seq<char> {
        self.stamp() + self.text
    }

    /// The caption that the line stands for.
    pub open spec fn caption(self) -> Caption {
        Caption::Standard { at: self.at(), text: self.text }
    }
}

/// One line of a caption file that holds standard captions only.
pub enum FileLine {
    /// A line that defines a standard caption.
    Standard(StandardLine),
    /// A line of white space, or an empty one.
    Blank(Seq<char>),
}

impl FileLine {
    /// A well-formed standard caption, or white space without a line feed.
    pub open spec fn well_formed(self) -> bool {
        match self {
            FileLine::Standard(line) => line.well_formed(),
            FileLine::Blank(space) => {
                &&& is_blank(space)
                &&& forall|i: int| 0 <= i < space.len() ==> space[i] != '\n'
            },
        }
    }

    /// The line as it stands in the file.
    pub open spec fn written(self) -> Seq<char> {
        match self {
            FileLine::Standard(line) => line.written(),
            FileLine::Blank(space) => space,
        }
    }

    /// The caption that the line stands for, if any.
    pub open spec fn caption(self) -> Option<Caption> {
        match self {
            FileLine::Standard(line) => Some(line.caption()),
            FileLine::Blank(_) => None,
        }
    }
}

/// What parts two lines of a file: a line feed, after a carriage return
/// where `crlf` is set.
pub open spec fn line_break(crlf: bool) -> Seq<char> {
    if crlf {
        seq!['\r', '\n']
    } else {
        seq!['\n']
    }
}

/// The file that holds `lines`, one after the other.
pub open spec fn file_text(lines: Seq<FileLine>, crlf: bool) -> Seq<char>
    decreases lines.len(),
{
    if lines.len() == 0 {
        Seq::empty()
    } else if lines.len() == 1 {
        lines[0].written()
    } else {
        lines[0].written() + line_break(crlf) + file_text(lines.drop_first(), crlf)
    }
}

/// The captions that `lines` stand for, in the order of the lines.
pub open spec fn captions_in(lines: Seq<FileLine>) -> Seq<Caption>
    decreases lines.len(),
{
    if lines.len() == 0 {
        Seq::empty()
    } else {
        with_caption(lines[0].caption(), captions_in(lines.drop_first()))
    }
}

/// How many of `lines` are not blank.
pub open spec fn caption_count(lines: Seq<FileLine>) -> nat
    decreases lines.len(),
{
    if lines.len() == 0 {
        0
    } else if lines[0] is Standard {
        1 + caption_count(lines.drop_first())
    } else {
        caption_count(lines.drop_first())
    }
}

/// `digit_char` gives the digit of its number.
proof fn lemma_digit_char(d: nat)
    requires
        d < 10,
    ensures
        is_digit(digit_char(d)),
        digit_value(digit_char(d)) == d,
{
}

/// Whether a stamp stands at a position of `tail` does not depend on what
/// stands before `tail`.
proof fn lemma_stamp_behind(head: Seq<char>, tail: Seq<char>, i: int, open: char, close: char)
    requires
        0 <= i,
    ensures
        stamp_at(head + tail, head.len() + i, open, close) is Some <==> stamp_at(
            tail,
            i,
            open,
            close,
        ) is Some,
{
    let whole = head + tail;
    let at = head.len() + i;
    assert(whole.len() == head.len() + tail.len());
    if i + 10 <= tail.len() {
        assert(whole[at] == tail[i]);
        assert(whole[at + 1] == tail[i + 1]);
        assert(whole[at + 2] == tail[i + 2]);
        assert(whole[at + 3] == tail[i + 3]);
        assert(whole[at + 4] == tail[i + 4]);
        assert(whole[at + 5] == tail[i + 5]);
        assert(whole[at + 6] == tail[i + 6]);
        assert(whole[at + 7] == tail[i + 7]);
        assert(whole[at + 8] == tail[i + 8]);
        assert(whole[at + 9] == tail[i + 9]);
        if i + 11 <= tail.len() {
            assert(whole[at + 10] == tail[i + 10]);
        }
    }
}

/// Where no word stamp stands from `from` on, the stamp-free stretch from
/// `from` runs to the end.
proof fn lemma_stamp_free_to_end(s: Seq<char>, from: int)
    requires
        0 <= from <= s.len(),
        forall|i: int| from <= i < s.len() ==> word_stamp_at(s, i) is None,
    ensures
        from + stamp_free(s, from) == s.len(),
    decreases s.len() - from,
{
    if from < s.len() {
        lemma_stamp_free_to_end(s, from + 1);
    }
}

/// A well-formed standard caption reads back from its line as it was written.
proof fn lemma_standard_line_reads_back(line: StandardLine)
    requires
        line.well_formed(),
    ensures
        line_caption(line.written()) == Some(line.caption()),
        without_return(line.written()) == line.written(),
        without_return(line.written() + seq!['\r']) == line.written(),
        forall|i: int| 0 <= i < line.written().len() ==> line.written()[i] != '\n',
{
    reveal(line_caption);
    let written = line.written();
    let stamp = line.stamp();
    assert(stamp.len() == 10);
    assert(written.len() == 10 + line.text.len());
    assert forall|i: int| 0 <= i < 10 implies written[i] == stamp[i] by {}
    assert forall|i: int| 10 <= i < written.len() implies written[i] == line.text[i - 10] by {}
    lemma_digit_char(line.minutes / 10);
    lemma_digit_char(line.minutes % 10);
    lemma_digit_char(line.seconds / 10);
    lemma_digit_char(line.seconds % 10);
    lemma_digit_char(line.hundredths / 10);
    lemma_digit_char(line.hundredths % 10);
    assert(written[0] == '[');
    assert(written[1] == digit_char(line.minutes / 10));
    assert(written[2] == digit_char(line.minutes % 10));
    assert(written[3] == ':');
    assert(written[4] == digit_char(line.seconds / 10));
    assert(written[5] == digit_char(line.seconds % 10));
    assert(written[6] == '.');
    assert(written[7] == digit_char(line.hundredths / 10));
    assert(written[8] == digit_char(line.hundredths % 10));
    assert(written[9] == ']');
    assert(two_digits(written, 1) == line.minutes);
    assert(two_digits(written, 4) == line.seconds);
    assert(two_digits(written, 7) == line.hundredths);
    assert(line_stamp_at(written, 0) == Some((line.at(), 10int)));
    assert forall|i: int| 10 <= i < written.len() implies word_stamp_at(written, i) is None by {
        lemma_stamp_behind(stamp, line.text, i - 10, '<', '>');
        lemma_stamp_behind(stamp, line.text, i - 10, '[', ']');
        assert(word_stamp_at(line.text, i - 10) is None);
    }
    lemma_stamp_free_to_end(written, 10);
    assert(written.subrange(10, written.len() as int) == line.text);
    assert(written.last() != '\r');
    assert((written + seq!['\r']).drop_last() == written);
    assert forall|i: int| 0 <= i < written.len() implies written[i] != '\n' by {
        if i >= 10 {
            assert(written[i] == line.text[i - 10]);
        }
    }
}

/// A blank line defines no caption.
proof fn lemma_blank_line_reads_as_none(space: Seq<char>)
    requires
        is_blank(space),
    ensures
        line_caption(without_return(space)) is None,
        line_caption(without_return(space + seq!['\r'])) is None,
{
    reveal(line_caption);
    let kept = without_return(space);
    if kept.len() > 0 {
        assert(kept[0] == space[0]);
        assert(is_space(space[0]));
    }
    let ended = space + seq!['\r'];
    assert(ended.drop_last() == space);
    assert(without_return(ended) == space);
    if space.len() > 0 {
        assert(is_space(space[0]));
    }
}

/// The line that starts at `from` ends at `end` where no line feed stands
/// between the two and `end` is a line feed or the end of the text.
proof fn lemma_line_ends_at(text: Seq<char>, from: int, end: int)
    requires
        0 <= from <= end <= text.len(),
        forall|i: int| from <= i < end ==> text[i] != '\n',
        end == text.len() || text[end] == '\n',
    ensures
        from + line_len(text, from) == end,
    decreases end - from,
{
    if from < end {
        lemma_line_ends_at(text, from + 1, end);
    }
}

/// The length of a line of `tail` does not depend on what stands before `tail`.
proof fn lemma_line_len_behind(head: Seq<char>, tail: Seq<char>, from: int)
    requires
        0 <= from <= tail.len(),
    ensures
        line_len(head + tail, head.len() + from) == line_len(tail, from),
    decreases tail.len() - from,
{
    if from < tail.len() {
        assert((head + tail)[head.len() + from] == tail[from]);
        if tail[from] != '\n' {
            lemma_line_len_behind(head, tail, from + 1);
        }
    }
}

/// The captions of the lines of `tail` do not depend on what stands before
/// `tail`.
proof fn lemma_captions_behind(head: Seq<char>, tail: Seq<char>, from: int)
    requires
        0 <= from,
    ensures
        captions_from(head + tail, head.len() + from) == captions_from(tail, from),
    decreases tail.len() - from + 1,
{
    let whole = head + tail;
    let start = head.len() + from;
    if from < tail.len() {
        let len = line_len(tail, from);
        lemma_line_len_behind(head, tail, from);
        lemma_line_within(tail, from);
        let line = tail.subrange(from, from + len);
        assert(whole.subrange(start, start + len) == line);
        lemma_captions_behind(head, tail, from + len + 1);
        let rest = captions_from(tail, from + len + 1);
        assert(captions_from(whole, start + len + 1) == rest);
        assert(captions_from(tail, from) == with_caption(
            line_caption(without_return(line)),
            rest,
        ));
        assert(captions_from(whole, start) == with_caption(
            line_caption(without_return(line)),
            rest,
        ));
    }
}

/// The captions of a text whose first line is `first`, followed by `rest`
/// after a line break.
proof fn lemma_first_line(first: Seq<char>, crlf: bool, rest: Seq<char>)
    requires
        forall|i: int| 0 <= i < first.len() ==> first[i] != '\n',
    ensures
        captions_of(first + line_break(crlf) + rest) == with_caption(
            line_caption(
                without_return(
                    if crlf {
                        first + seq!['\r']
                    } else {
                        first
                    },
                ),
            ),
            captions_of(rest),
        ),
{
    let line = if crlf {
        first + seq!['\r']
    } else {
        first
    };
    let head = line + seq!['\n'];
    let text = first + line_break(crlf) + rest;
    assert(text == head + rest);
    assert forall|i: int| 0 <= i < line.len() implies text[i] != '\n' by {
        if i < first.len() {
            assert(text[i] == first[i]);
        }
    }
    assert(text[line.len() as int] == '\n');
    lemma_line_ends_at(text, 0, line.len() as int);
    assert(text.subrange(0, line.len() as int) == line);
    lemma_captions_behind(head, rest, 0);
}

/// A caption file reads back as it was written: where every line of a file
/// is a well-formed standard caption or blank, the file defines the captions
/// of its lines and no others, one for each line that is not blank, in the
/// order of the lines, each with the time and the text it was written with.
/// This holds whether the lines are parted by line feeds alone or by
/// carriage return and line feed.
pub proof fn lemma_written_file_reads_back(lines: Seq<FileLine>, crlf: bool)
    requires
        forall|i: int| 0 <= i < lines.len() ==> (#[trigger] lines[i]).well_formed(),
    ensures
        captions_of(file_text(lines, crlf)) == captions_in(lines),
        captions_in(lines).len() == caption_count(lines),
    decreases lines.len(),
{
    if lines.len() > 0 {
        let first = lines[0];
        let written = first.written();
        let others = lines.drop_first();
        assert forall|i: int| 0 <= i < others.len() implies (#[trigger] others[i]).well_formed() by {
            assert(others[i] == lines[i + 1]);
        }
        lemma_written_file_reads_back(others, crlf);
        match first {
            FileLine::Standard(line) => {
                lemma_standard_line_reads_back(line);
            },
            FileLine::Blank(space) => {
                lemma_blank_line_reads_as_none(space);
            },
        }
        assert(first.well_formed());
        assert forall|i: int| 0 <= i < written.len() implies written[i] != '\n' by {}
        if lines.len() == 1 {
            let text = file_text(lines, crlf);
            assert(text == written);
            if written.len() > 0 {
                lemma_line_ends_at(text, 0, text.len() as int);
                assert(text.subrange(0, text.len() as int) == text);
                assert(captions_from(text, text.len() as int + 1) == Seq::<Caption>::empty());
            }
            assert(captions_in(others) == Seq::<Caption>::empty());
        } else {
            lemma_first_line(written, crlf, file_text(others, crlf));
        }
    }
}

/// A text without an opening square bracket defines no caption; the empty
/// text is one such.
pub proof fn lemma_unstamped_text_is_empty(text: Seq<char>)
    requires
        forall|i: int| 0 <= i < text.len() ==> text[i] != '[',
    ensures
        captions_of(text).len() == 0,
{
    lemma_unstamped_from(text, 0);
}

/// No line of a text without an opening square bracket defines a caption.
proof fn lemma_unstamped_from(text: Seq<char>, from: int)
    requires
        0 <= from,
        forall|i: int| 0 <= i < text.len() ==> text[i] != '[',
    ensures
        captions_from(text, from).len() == 0,
    decreases text.len() - from + 1,
{
    reveal(line_caption);
    if from < text.len() {
        lemma_line_within(text, from);
        let end = from + line_len(text, from);
        let line = text.subrange(from, end);
        let kept = without_return(line);
        if kept.len() > 0 {
            assert(kept[0] == text[from]);
        }
        lemma_unstamped_from(text, end + 1);
    }
}

} // verus!
