//! Captions and timelines.

use vstd::prelude::*;
use vstd::string::StringExecFns;

use crate::text::joined;
use crate::time::TimeSpan;

verus! {

/// One entry of a timeline, as contracts see it. Times are in nanoseconds
/// from the start of the track.
pub enum Caption {
    /// A line of text shown from `at`.
    Standard { at: nat, text: Seq<char> },
    /// A line shown from `at` whose words carry start times of their own.
    Enhanced { at: nat, words: Seq<(nat, Seq<char>)> },
}

/// The texts of `words`, without their times.
pub open spec fn word_texts(words: Seq<(nat, Seq<char>)>) -> Seq<Seq<char>> {
    Seq::new(words.len(), |i: int| words[i].1)
}

/// The texts of `words` with one space between neighbours.
pub open spec fn join_words(words: Seq<(nat, Seq<char>)>) -> Seq<char> {
    joined(word_texts(words), seq![' '])
}

impl Caption {
    /// When the caption starts.
    pub open spec fn at(self) -> nat {
        match self {
            Caption::Standard { at, .. } => at,
            Caption::Enhanced { at, .. } => at,
        }
    }

    /// The text that is shown for the caption.
    pub open spec fn text(self) -> Seq<char> {
        match self {
            Caption::Standard { text, .. } => text,
            Caption::Enhanced { words, .. } => join_words(words),
        }
    }

    /// No word of an enhanced caption starts before the caption does.
    pub open spec fn well_formed(self) -> bool {
        match self {
            Caption::Standard { .. } => true,
            Caption::Enhanced { at, words } => forall|i: int|
                0 <= i < words.len() ==> (#[trigger] words[i]).0 >= at,
        }
    }
}

/// What contracts see of a list of timed words.
pub open spec fn word_views(words: Seq<(TimeSpan, String)>) -> Seq<(nat, Seq<char>)> {
    Seq::new(words.len(), |i: int| (words[i].0@, words[i].1@))
}

/// One entry of a timeline.
#[derive(Clone, Debug, PartialEq, Eq)]
pub enum LyricsType {
    /// A start time and the text shown from then on.
    Standard(TimeSpan, String),
    /// A start time and the words of the line, each with its own start time.
    Enhanced(TimeSpan, Vec<(TimeSpan, String)>),
}

impl View for LyricsType {
    type V = Caption;

    open spec fn view(&self) -> Caption {
        match *self {
            LyricsType::Standard(at, text) => Caption::Standard { at: at@, text: text@ },
            LyricsType::Enhanced(at, words) => Caption::Enhanced {
                at: at@,
                words: word_views(words@),
            },
        }
    }
}

impl LyricsType {
    /// When the caption starts.
    pub fn timestamp(&self) -> (r: TimeSpan)
        ensures
            r@ == self@.at(),
    {
        match self {
            LyricsType::Standard(at, _) => *at,
            LyricsType::Enhanced(at, _) => *at,
        }
    }

    /// The text that is shown for the caption: its own text, or its words
    /// with one space between neighbours.
    pub fn text(&self) -> (r: String)
        ensures
            r@ == self@.text(),
    {
        match self {
            LyricsType::Standard(_, text) => text.clone(),
            LyricsType::Enhanced(_, words) => {
                let mut line = String::new();
                let mut i: usize = 0;
                let ghost texts = word_texts(word_views(words@));
                while i < words.len()
                    invariant
                        i <= words.len(),
                        texts == word_texts(word_views(words@)),
                        line@ == joined(texts.take(i as int), seq![' ']),
                    decreases words.len() - i,
                {
                    proof {
                        reveal_strlit(" ");
                        assert(" "@ == seq![' ']);
                        assert(texts.take(i + 1).drop_last() == texts.take(i as int));
                        assert(texts.take(i + 1).last() == words@[i as int].1@);
                    }
                    if i > 0 {
                        line.append(" ");
                    }
                    line.append(words[i].1.as_str());
                    i = i + 1;
                }
                proof {
                    assert(texts.take(i as int) == texts);
                }
                line
            },
        }
    }
}

/// What contracts see of a list of captions.
pub open spec fn caption_views(captions: Seq<LyricsType>) -> Seq<Caption> {
    Seq::new(captions.len(), |i: int| captions[i]@)
}

/// The timeline of one track: its captions in the order in which the caption
/// file gives them.
#[derive(Clone, Debug, PartialEq, Eq)]
pub struct Lyric {
    pub content: Vec<LyricsType>,
}

impl View for Lyric {
    type V = Seq<Caption>;

    open spec fn view(&self) -> Seq<Caption> {
        caption_views(self.content@)
    }
}

impl Lyric {
    /// Every caption of the timeline is well-formed.
    pub open spec fn well_formed(&self) -> bool {
        forall|i: int| 0 <= i < self@.len() ==> (#[trigger] self@[i]).well_formed()
    }
}

/// Why no timeline could be had for a track.
#[derive(Clone, Copy, Debug, PartialEq, Eq, Structural)]
pub enum LyricsFailure {
    /// There is no caption file for the track, or it cannot be read.
    LookupFailed,
    /// The caption file holds no caption.
    ParseFailed,
}

} // verus!
