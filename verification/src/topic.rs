//! Topics are hierarchical names whose levels are separated by `/`.

use vstd::prelude::*;
use vstd::std_specs::iter::IteratorSpec;
use vstd::string::*;
use vstd::utf8::*;

verus! {

/// The character that separates the levels of a topic.
pub const SEPARATOR: char = '/';

/// Index of the first `sep` in `s`, or `s.len()` where `s` holds none.
pub open spec fn separator_position(s: Seq<char>, sep: char) -> int
    decreases s.len(),
{
    if s.len() == 0 || s[0] == sep {
        0
    } else {
        1 + separator_position(s.drop_first(), sep)
    }
}

/// The pieces of `s` between occurrences of `sep`, in order. A text without
/// `sep` is one piece; an empty text is one empty piece; `n` separators give
/// `n + 1` pieces, some of which may be empty.
pub open spec fn split_segments(s: Seq<char>, sep: char) -> Seq<Seq<char>>
    decreases s.len(),
{
    let k = separator_position(s, sep);
    if 0 <= k < s.len() {
        seq![s.take(k)] + split_segments(s.skip(k + 1), sep)
    } else {
        seq![s]
    }
}

/// The levels of a topic.
pub open spec fn topic_segments(topic: Seq<char>) -> Seq<Seq<char>> {
    split_segments(topic, SEPARATOR)
}

/// `separator_position` is the one index `k` with no `sep` before it that
/// either holds `sep` or is the end of `s`.
pub proof fn lemma_separator_position(s: Seq<char>, sep: char, k: int)
    requires
        0 <= k <= s.len(),
        forall|j: int| 0 <= j < k ==> s[j] != sep,
        k < s.len() ==> s[k] == sep,
    ensures
        separator_position(s, sep) == k,
    decreases s.len(),
{
    if k > 0 {
        let rest = s.drop_first();
        assert forall|j: int| 0 <= j < k - 1 implies rest[j] != sep by {
            assert(rest[j] == s[j + 1]);
        }
        lemma_separator_position(rest, sep, k - 1);
    }
}

/// What `separator_position` gives lies within the text, nothing before it is
/// `sep`, and where it lies before the end it holds `sep`.
pub proof fn lemma_separator_found(s: Seq<char>, sep: char)
    ensures
        0 <= separator_position(s, sep) <= s.len(),
        forall|j: int| 0 <= j < separator_position(s, sep) ==> s[j] != sep,
        separator_position(s, sep) < s.len() ==> s[separator_position(s, sep)] == sep,
    decreases s.len(),
{
    if s.len() != 0 && s[0] != sep {
        let rest = s.drop_first();
        lemma_separator_found(rest, sep);
        assert forall|j: int| 0 <= j < separator_position(s, sep) implies s[j] != sep by {
            if j > 0 {
                assert(s[j] == rest[j - 1]);
            }
        }
        if separator_position(rest, sep) < rest.len() {
            assert(rest[separator_position(rest, sep)] == s[separator_position(s, sep)]);
        }
    }
}

/// The pieces put together again, with `sep` between neighbours.
pub open spec fn join_segments(segments: Seq<Seq<char>>, sep: char) -> Seq<char>
    decreases segments.len(),
{
    if segments.len() == 0 {
        Seq::empty()
    } else if segments.len() == 1 {
        segments[0]
    } else {
        segments[0] + seq![sep] + join_segments(segments.drop_first(), sep)
    }
}

/// Splitting loses nothing and leaves no separator behind: there is at least
/// one piece, no piece holds `sep`, and the pieces joined by `sep` are the
/// text that was split.
pub proof fn lemma_split_rejoins(s: Seq<char>, sep: char)
    ensures
        split_segments(s, sep).len() >= 1,
        forall|i: int|
            0 <= i < split_segments(s, sep).len() ==> !(#[trigger] split_segments(s, sep)[i]).contains(
                sep,
            ),
        join_segments(split_segments(s, sep), sep) == s,
    decreases s.len(),
{
    lemma_separator_found(s, sep);
    let k = separator_position(s, sep);
    if k < s.len() {
        let head = s.take(k);
        let rest = s.skip(k + 1);
        let pieces = split_segments(s, sep);
        lemma_split_rejoins(rest, sep);
        assert(pieces.drop_first() == split_segments(rest, sep));
        assert forall|i: int| 0 <= i < pieces.len() implies !(#[trigger] pieces[i]).contains(
            sep,
        ) by {
            if i > 0 {
                assert(pieces[i] == split_segments(rest, sep)[i - 1]);
            }
        }
        assert(head + seq![sep] + rest == s);
    }
}

/// Every character takes at least one byte in UTF-8.
proof fn lemma_encoding_length(chars: Seq<char>)
    ensures
        chars.len() <= encode_utf8(chars).len(),
    decreases chars.len(),
{
    if chars.len() > 0 {
        lemma_encoding_length(chars.drop_first());
    }
}

/// The level of `topic` at `index`, counted from zero, or `None` where the
/// topic has no more than `index` levels.
pub fn topic_segment<'a>(topic: &'a str, index: usize) -> (segment: Option<&'a str>)
    ensures
        match segment {
            Some(text) => index < topic_segments(topic@).len() && text@ == topic_segments(
                topic@,
            )[index as int],
            None => topic_segments(topic@).len() <= index,
        },
{
    broadcast use group_string_axioms;

    let byte_len: usize = topic.as_bytes().len();
    proof {
        lemma_encoding_length(topic@);
    }
    let mut chars = topic.chars();
    let mut position: usize = 0;
    let mut start: usize = 0;
    let mut passed: usize = 0;
    let ghost done: Seq<Seq<char>> = Seq::empty();
    proof {
        assert(topic@.skip(0) == topic@);
        assert(done + topic_segments(topic@) == topic_segments(topic@));
    }
    loop
        invariant
            topic@.len() <= byte_len,
            start <= position <= topic@.len(),
            chars.remaining() == topic@.skip(position as int),
            forall|j: int| start <= j < position ==> topic@[j] != SEPARATOR,
            passed <= index,
            done.len() == passed,
            topic_segments(topic@) == done + topic_segments(topic@.skip(start as int)),
        decreases topic@.len() - position,
    {
        let ghost tail = topic@.skip(start as int);
        let ghost piece = topic@.subrange(start as int, position as int);
        match chars.next() {
            None => {
                proof {
                    lemma_separator_position(tail, SEPARATOR, position - start);
                    assert(tail == piece);
                }
                if passed == index {
                    return Some(topic.substring_char(start, position));
                } else {
                    return None;
                }
            },
            Some(c) => {
                assert(c == topic@[position as int]);
                if c == SEPARATOR {
                    proof {
                        lemma_separator_position(tail, SEPARATOR, position - start);
                        assert(tail.take(position - start) == piece);
                        assert(tail.skip(position - start + 1) == topic@.skip(position + 1));
                    }
                    if passed == index {
                        return Some(topic.substring_char(start, position));
                    }
                    proof {
                        done = done.push(piece);
                    }
                    passed = passed + 1;
                    start = position + 1;
                }
                position = position + 1;
            },
        }
    }
}

} // verus!
