//! Text as sequences of characters: search, joining and splitting.
//!
//! The contracts of the crate speak of a string through its view, a
//! `Seq<char>`. This module defines the three operations on such sequences
//! that the rest of the crate needs, and the executable functions that
//! compute them.

use vstd::prelude::*;
use vstd::string::StrSliceExecFns;
use vstd::string::StringExecFns;

verus! {

/// `needle` stands in `hay` at offset `at`.
pub open spec fn occurs_at(hay: Seq<char>, needle: Seq<char>, at: int) -> bool {
    &&& 0 <= at
    &&& at + needle.len() <= hay.len()
    &&& hay.subrange(at, at + needle.len()) == needle
}

/// `needle` stands somewhere in `hay`. The empty sequence stands in every
/// sequence.
pub open spec fn contains(hay: Seq<char>, needle: Seq<char>) -> bool {
    exists|at: int| occurs_at(hay, needle, at)
}

/// The parts in order, with `sep` between each two neighbours.
pub open spec fn join(parts: Seq<Seq<char>>, sep: Seq<char>) -> Seq<char>
    decreases parts.len(),
{
    if parts.len() == 0 {
        Seq::empty()
    } else if parts.len() == 1 {
        parts[0]
    } else {
        join(parts.drop_last(), sep) + sep + parts.last()
    }
}

/// The offset of the first `sep` in `text`, or the length of `text` if it
/// holds none.
pub open spec fn first_index(text: Seq<char>, sep: char) -> int
    decreases text.len(),
{
    if text.len() == 0 || text[0] == sep {
        0
    } else {
        1 + first_index(text.drop_first(), sep)
    }
}

/// The pieces of `text` between the occurrences of `sep`. A text without
/// `sep` is its own single piece; `n` separators give `n + 1` pieces, some of
/// them possibly empty.
pub open spec fn split(text: Seq<char>, sep: char) -> Seq<Seq<char>>
    decreases text.len(),
{
    let at = first_index(text, sep);
    if 0 <= at < text.len() {
        seq![text.take(at)] + split(text.skip(at + 1), sep)
    } else {
        seq![text]
    }
}

/// `first_index` is the one offset before which no `sep` stands and at which
/// the text ends or holds `sep`.
pub proof fn lemma_first_index(text: Seq<char>, sep: char, at: int)
    requires
        0 <= at <= text.len(),
        forall|k: int| 0 <= k < at ==> text[k] != sep,
        at < text.len() ==> text[at] == sep,
    ensures
        first_index(text, sep) == at,
    decreases text.len(),
{
    if at > 0 {
        let rest = text.drop_first();
        assert forall|k: int| 0 <= k < at - 1 implies rest[k] != sep by {
            assert(rest[k] == text[k + 1]);
        }
        lemma_first_index(rest, sep, at - 1);
    }
}

/// A text stands in every text that is made of it and of texts around it.
pub proof fn lemma_contains_middle(before: Seq<char>, text: Seq<char>, after: Seq<char>)
    ensures
        contains(before + text + after, text),
{
    let whole = before + text + after;
    let at = before.len() as int;
    assert(whole.subrange(at, at + text.len()) =~= text);
    assert(occurs_at(whole, text, at));
}

/// What stands in a part of a text stands in the text.
pub proof fn lemma_contains_transitive(outer: Seq<char>, middle: Seq<char>, inner: Seq<char>)
    requires
        contains(outer, middle),
        contains(middle, inner),
    ensures
        contains(outer, inner),
{
    let i = choose|i: int| occurs_at(outer, middle, i);
    let j = choose|j: int| occurs_at(middle, inner, j);
    assert(outer.subrange(i + j, i + j + inner.len()) =~= outer.subrange(
        i,
        i + middle.len(),
    ).subrange(j, j + inner.len()));
    assert(occurs_at(outer, inner, i + j));
}

/// Each part stands in the text that `join` makes of the parts.
pub proof fn lemma_join_holds_part(parts: Seq<Seq<char>>, sep: Seq<char>, i: int)
    requires
        0 <= i < parts.len(),
    ensures
        contains(join(parts, sep), parts[i]),
    decreases parts.len(),
{
    let none = Seq::<char>::empty();
    if parts.len() == 1 {
        lemma_contains_middle(none, parts[0], none);
        assert(none + parts[0] + none =~= parts[0]);
    } else {
        let head = join(parts.drop_last(), sep);
        if i == parts.len() - 1 {
            lemma_contains_middle(head + sep, parts.last(), none);
            assert((head + sep) + parts.last() + none =~= join(parts, sep));
        } else {
            lemma_join_holds_part(parts.drop_last(), sep, i);
            lemma_contains_middle(none, head, sep + parts.last());
            assert(none + head + (sep + parts.last()) =~= join(parts, sep));
            lemma_contains_transitive(join(parts, sep), head, parts[i]);
        }
    }
}

/// The characters of `text`, in order.
pub fn chars_of(text: &str) -> (chars: Vec<char>)
    ensures
        chars@ == text@,
{
    let mut chars: Vec<char> = Vec::new();
    for c in iter: text.chars()
        invariant
            chars@ == iter.seq().take(iter.index() as int),
            iter.seq() == text@,
    {
        chars.push(c);
    }
    chars
}

/// Whether `needle` stands in `hay` at offset `at`.
fn matches_at(hay: &Vec<char>, needle: &Vec<char>, at: usize) -> (same: bool)
    requires
        at + needle.len() <= hay.len(),
    ensures
        same == occurs_at(hay@, needle@, at as int),
{
    let mut k: usize = 0;
    while k < needle.len()
        invariant
            k <= needle.len(),
            at + needle.len() <= hay.len(),
            forall|j: int| 0 <= j < k ==> hay@[at + j] == needle@[j],
        decreases needle.len() - k,
    {
        if hay[at + k] != needle[k] {
            assert(hay@.subrange(at as int, at + needle.len())[k as int] != needle@[k as int]);
            return false;
        }
        k += 1;
    }
    assert(hay@.subrange(at as int, at + needle.len()) =~= needle@);
    true
}

/// Whether `needle` stands somewhere in `hay`.
pub fn contains_text(hay: &str, needle: &str) -> (found: bool)
    ensures
        found == contains(hay@, needle@),
{
    let hay_chars = chars_of(hay);
    let needle_chars = chars_of(needle);
    if needle_chars.len() > hay_chars.len() {
        return false;
    }
    let last: usize = hay_chars.len() - needle_chars.len();
    let mut at: usize = 0;
    while at < last
        invariant
            at <= last,
            last + needle_chars.len() == hay_chars.len(),
            hay_chars@ == hay@,
            needle_chars@ == needle@,
            forall|k: int| 0 <= k < at ==> !occurs_at(hay@, needle@, k),
        decreases last - at,
    {
        if matches_at(&hay_chars, &needle_chars, at) {
            assert(occurs_at(hay@, needle@, at as int));
            return true;
        }
        at += 1;
    }
    let found = matches_at(&hay_chars, &needle_chars, last);
    assert(found ==> occurs_at(hay@, needle@, last as int));
    found
}

/// The parts in order, with `sep` between each two neighbours.
pub fn join_texts(parts: &Vec<String>, sep: &str) -> (text: String)
    ensures
        text@ == join(parts.deep_view(), sep@),
{
    let ghost views = parts.deep_view();
    let mut text = String::new();
    let mut i: usize = 0;
    while i < parts.len()
        invariant
            i <= parts.len(),
            views == parts.deep_view(),
            text@ == join(views.take(i as int), sep@),
        decreases parts.len() - i,
    {
        proof {
            let before = views.take(i as int);
            let after = views.take(i + 1);
            assert(after.drop_last() =~= before);
            assert(after.last() == parts@[i as int]@);
        }
        if i > 0 {
            text.append(sep);
        }
        text.append(parts[i].as_str());
        i += 1;
    }
    assert(views.take(parts.len() as int) =~= views);
    text
}

/// The pieces of `text` between the occurrences of `sep`.
pub fn split_text(text: &str, sep: char) -> (pieces: Vec<String>)
    ensures
        pieces.deep_view() == split(text@, sep),
{
    let chars = chars_of(text);
    let mut pieces: Vec<String> = Vec::new();
    let mut start: usize = 0;
    let mut at: usize = 0;
    assert(text@.skip(0) =~= text@);
    assert(pieces.deep_view() + split(text@, sep) =~= split(text@, sep));
    while at < chars.len()
        invariant
            start <= at <= chars.len(),
            chars@ == text@,
            forall|k: int| start <= k < at ==> chars@[k] != sep,
            split(text@, sep) == pieces.deep_view() + split(text@.skip(start as int), sep),
        decreases chars.len() - at,
    {
        if chars[at] == sep {
            let piece = String::from_str(text.substring_char(start, at));
            proof {
                let rest = text@.skip(start as int);
                lemma_first_index(rest, sep, at - start);
                assert(rest.take(at - start) =~= piece@);
                assert(rest.skip(at - start + 1) =~= text@.skip(at + 1));
                assert(pieces.deep_view().push(piece@) =~= pieces.deep_view() + seq![piece@]);
            }
            let ghost before = pieces.deep_view();
            pieces.push(piece);
            assert(pieces.deep_view() =~= before.push(piece@));
            start = at + 1;
        }
        at += 1;
    }
    let piece = String::from_str(text.substring_char(start, at));
    proof {
        let rest = text@.skip(start as int);
        lemma_first_index(rest, sep, rest.len() as int);
        assert(rest =~= piece@);
    }
    let ghost before = pieces.deep_view();
    pieces.push(piece);
    assert(pieces.deep_view() =~= before.push(piece@));
    pieces
}

} // verus!
