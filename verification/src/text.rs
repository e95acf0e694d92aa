//! Character-level helpers: white space, blank text, the characters of a string.

use vstd::prelude::*;
use vstd::string::StringExecFns;

verus! {

/// Whether `c` is white space as Unicode defines it (`White_Space`).
pub open spec fn is_space(c: char) -> bool {
    let u = c as u32;
    ||| 0x09 <= u <= 0x0D
    ||| u == 0x20
    ||| u == 0x85
    ||| u == 0xA0
    ||| u == 0x1680
    ||| 0x2000 <= u <= 0x200A
    ||| u == 0x2028
    ||| u == 0x2029
    ||| u == 0x202F
    ||| u == 0x205F
    ||| u == 0x3000
}

/// Whether `c` is a white-space character.
pub fn is_whitespace(c: char) -> (r: bool)
    ensures
        r == is_space(c),
{
    let u: u32 = c as u32;
    (0x09 <= u && u <= 0x0D) || u == 0x20 || u == 0x85 || u == 0xA0 || u == 0x1680 || (0x2000 <= u
        && u <= 0x200A) || u == 0x2028 || u == 0x2029 || u == 0x202F || u == 0x205F || u == 0x3000
}

/// Text is blank where it holds nothing but white space; the empty text is blank.
pub open spec fn is_blank(s: Seq<char>) -> bool {
    forall|i: int| 0 <= i < s.len() ==> is_space(#[trigger] s[i])
}

/// The characters of `s`, in order.
pub fn chars_of(s: &str) -> (v: Vec<char>)
    ensures
        v@ == s@,
{
    let mut v: Vec<char> = Vec::new();
    for c in it: s.chars()
        invariant
            it.seq() == s@,
            v@ == s@.take(it.index() as int),
    {
        v.push(c);
    }
    v
}

/// Whether `s` holds nothing but white space.
pub fn blank(s: &str) -> (r: bool)
    ensures
        r == is_blank(s@),
{
    let mut all = true;
    for c in it: s.chars()
        invariant
            it.seq() == s@,
            all == is_blank(s@.take(it.index() as int)),
    {
        proof {
            let seen = s@.take(it.index() as int);
            let more = s@.take(it.index() + 1);
            assert(more == seen.push(c));
            if is_blank(more) {
                assert forall|i: int| 0 <= i < seen.len() implies is_space(#[trigger] seen[i]) by {
                    assert(seen[i] == more[i]);
                }
                assert(more[seen.len() as int] == c);
            }
        }
        if !is_whitespace(c) {
            all = false;
        }
    }
    proof {
        assert(s@.take(s@.len() as int) == s@);
    }
    all
}

/// What contracts see of a list of strings.
pub open spec fn string_views(strings: Seq<String>) -> Seq<Seq<char>> {
    Seq::new(strings.len(), |i: int| strings[i]@)
}

/// The texts `parts` in a row, with `separator` between neighbours.
pub open spec fn joined(parts: Seq<Seq<char>>, separator: Seq<char>) -> Seq<char>
    decreases parts.len(),
{
    if parts.len() == 0 {
        Seq::empty()
    } else if parts.len() == 1 {
        parts[0]
    } else {
        joined(parts.drop_last(), separator) + separator + parts.last()
    }
}

/// The strings `parts` in a row, with `separator` between neighbours.
pub fn join(parts: &Vec<String>, separator: &str) -> (r: String)
    ensures
        r@ == joined(string_views(parts@), separator@),
{
    let mut row = String::new();
    let mut i: usize = 0;
    while i < parts.len()
        invariant
            i <= parts.len(),
            row@ == joined(string_views(parts@).take(i as int), separator@),
        decreases parts.len() - i,
    {
        proof {
            let done = string_views(parts@).take(i as int);
            let more = string_views(parts@).take(i + 1);
            assert(more.drop_last() == done);
            assert(more.last() == parts@[i as int]@);
        }
        if i > 0 {
            row.append(separator);
        }
        row.append(parts[i].as_str());
        i = i + 1;
    }
    proof {
        assert(string_views(parts@).take(i as int) == string_views(parts@));
    }
    row
}

} // verus!
