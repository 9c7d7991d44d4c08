//! Splitting a string at a separator character.

use vstd::hash_set::StringHashSet;
use vstd::prelude::*;

verus! {

/// `s[from..to]` is a token of `s`: a stretch without `sep` that begins at
/// the start of `s` or right after a `sep`, and ends at the end of `s` or
/// right before a `sep`.
pub open spec fn is_token_span(s: Seq<char>, sep: char, from: int, to: int) -> bool {
    &&& 0 <= from <= to <= s.len()
    &&& from == 0 || s[from - 1] == sep
    &&& to == s.len() || s[to] == sep
    &&& forall|k: int| from <= k < to ==> s[k] != sep
}

/// The tokens of `s` that end before position `bound`.
spec fn tokens_before(s: Seq<char>, sep: char, bound: int) -> Set<Seq<char>> {
    Set::new(
        |t: Seq<char>|
            exists|from: int, to: int|
                is_token_span(s, sep, from, to) && to < bound && t == s.subrange(from, to),
    )
}

/// All tokens of `s`: what is left of `s` when it is cut at every `sep`.
pub open spec fn tokens(s: Seq<char>, sep: char) -> Set<Seq<char>> {
    Set::new(
        |t: Seq<char>|
            exists|from: int, to: int| is_token_span(s, sep, from, to) && t == s.subrange(from, to),
    )
}

/// The pieces of `s` between one `sep` and the next, in the order in which
/// they stand in `s`: one piece more than `s` holds separators.
pub open spec fn split(s: Seq<char>, sep: char) -> Seq<Seq<char>>
    decreases s.len(),
{
    if s.len() == 0 {
        seq![Seq::empty()]
    } else {
        let before = split(s.drop_last(), sep);
        if s.last() == sep {
            before.push(Seq::empty())
        } else {
            before.drop_last().push(before.last().push(s.last()))
        }
    }
}

/// Cuts `value` at every `separator` and collects the pieces. Nothing is
/// trimmed or left out: two separators in a row, or one at either end, give
/// the empty piece.
///
/// The string is read once to find the separators; each piece is then cut
/// out by position, which walks the string up to the end of that piece.
pub fn split_tokens(value: &str, separator: char) -> (set: StringHashSet)
    ensures
        set@ == tokens(value@, separator),
        set@.finite(),
{
    let n = value.unicode_len();
    let mut set = StringHashSet::new();
    // The token being read starts at `start`; `i` characters have been read.
    let mut start: usize = 0;
    let mut i: usize = 0;
    for c in it: value.chars()
        invariant
            it.seq() == value@,
            i == it.index(),
            start <= i <= n,
            n == value@.len(),
            start == 0 || value@[start - 1] == separator,
            forall|k: int| start <= k < i ==> value@[k] != separator,
            set@ == tokens_before(value@, separator, start as int),
    {
        if c == separator {
            set.insert(value.substring_char(start, i).to_owned());
            start = i + 1;
        }
        i += 1;
    }
    set.insert(value.substring_char(start, n).to_owned());
    proof {
        lemma_tokens_are_the_pieces(value@, separator);
    }
    set
}

/// Where the last piece of `s` begins: behind the last `sep`, or at 0.
spec fn last_start(s: Seq<char>, sep: char) -> int
    decreases s.len(),
{
    if s.len() == 0 {
        0
    } else if s.last() == sep {
        s.len() as int
    } else {
        last_start(s.drop_last(), sep)
    }
}

proof fn lemma_last_start(s: Seq<char>, sep: char)
    ensures
        0 <= last_start(s, sep) <= s.len(),
        last_start(s, sep) == 0 || s[last_start(s, sep) - 1] == sep,
        forall|k: int| last_start(s, sep) <= k < s.len() ==> s[k] != sep,
    decreases s.len(),
{
    if s.len() > 0 && s.last() != sep {
        let shorter = s.drop_last();
        lemma_last_start(shorter, sep);
        assert forall|k: int| last_start(s, sep) <= k < s.len() implies s[k] != sep by {
            if k < shorter.len() {
                assert(shorter[k] == s[k]);
            }
        }
    }
}

/// The tokens of `s` are those that end before its last piece, and that
/// piece.
proof fn lemma_tokens_end_with_the_last(s: Seq<char>, sep: char)
    ensures
        tokens(s, sep) == tokens_before(s, sep, last_start(s, sep)).insert(
            s.subrange(last_start(s, sep), s.len() as int),
        ),
{
    lemma_last_start(s, sep);
    let start = last_start(s, sep);
    let last = s.subrange(start, s.len() as int);
    let rest = tokens_before(s, sep, start);
    assert forall|t: Seq<char>| tokens(s, sep).contains(t) implies rest.insert(last).contains(
        t,
    ) by {
        // A token that does not end before the last piece is that piece.
        let (from, to) = choose|from: int, to: int|
            is_token_span(s, sep, from, to) && t == s.subrange(from, to);
        assert(to >= start ==> to == s.len() && from == start);
    }
}

/// A token of `s` that ends before `bound` is one of `s` with a character
/// more, as long as that character stands behind `bound`.
proof fn lemma_tokens_before_ignore_the_end(s: Seq<char>, sep: char, bound: int)
    requires
        s.len() > 0,
        bound < s.len(),
    ensures
        tokens_before(s, sep, bound) == tokens_before(s.drop_last(), sep, bound),
{
    let shorter = s.drop_last();
    assert forall|t: Seq<char>| tokens_before(s, sep, bound).contains(t) implies tokens_before(
        shorter,
        sep,
        bound,
    ).contains(t) by {
        let (from, to) = choose|from: int, to: int|
            is_token_span(s, sep, from, to) && to < bound && t == s.subrange(from, to);
        assert(is_token_span(shorter, sep, from, to));
        assert(shorter.subrange(from, to) =~= s.subrange(from, to));
    }
    assert forall|t: Seq<char>| tokens_before(shorter, sep, bound).contains(t) implies tokens_before(
        s,
        sep,
        bound,
    ).contains(t) by {
        let (from, to) = choose|from: int, to: int|
            is_token_span(shorter, sep, from, to) && to < bound && t == shorter.subrange(from, to);
        assert(is_token_span(s, sep, from, to)) by {
            assert(forall|k: int| from <= k < to ==> shorter[k] == s[k]);
        }
        assert(shorter.subrange(from, to) =~= s.subrange(from, to));
    }
}

proof fn lemma_split_ends_with_the_last(s: Seq<char>, sep: char)
    ensures
        split(s, sep).len() >= 1,
        split(s, sep).last() == s.subrange(last_start(s, sep), s.len() as int),
        split(s, sep).drop_last().to_set() == tokens_before(s, sep, last_start(s, sep)),
    decreases s.len(),
{
    broadcast use Seq::lemma_push_to_set_commute;

    lemma_last_start(s, sep);
    if s.len() > 0 {
        let shorter = s.drop_last();
        let before = split(shorter, sep);
        let start = last_start(shorter, sep);
        lemma_split_ends_with_the_last(shorter, sep);
        lemma_last_start(shorter, sep);
        if s.last() == sep {
            // The pieces are those of `shorter` and an empty one behind
            // them, and the tokens of `s` that end before its last position
            // are the tokens of `shorter`.
            assert(split(s, sep).drop_last() =~= before);
            assert(before =~= before.drop_last().push(before.last()));
            lemma_tokens_end_with_the_last(shorter, sep);
            assert forall|t: Seq<char>| tokens(shorter, sep).contains(t) implies tokens_before(
                s,
                sep,
                s.len() as int,
            ).contains(t) by {
                let (from, to) = choose|from: int, to: int|
                    is_token_span(shorter, sep, from, to) && t == shorter.subrange(from, to);
                assert(is_token_span(s, sep, from, to)) by {
                    assert(forall|k: int| 0 <= k < shorter.len() ==> shorter[k] == s[k]);
                }
                assert(is_token_span(s, sep, from, to) && to < s.len() && t == s.subrange(
                    from,
                    to,
                ));
            }
            assert forall|t: Seq<char>|
                tokens_before(s, sep, s.len() as int).contains(t) implies tokens(
                shorter,
                sep,
            ).contains(t) by {
                let (from, to) = choose|from: int, to: int|
                    is_token_span(s, sep, from, to) && to < s.len() && t == s.subrange(from, to);
                assert(is_token_span(shorter, sep, from, to));
                assert(shorter.subrange(from, to) =~= s.subrange(from, to));
            }
        } else {
            // The last piece of `shorter` grows by one character; the
            // pieces before it stay.
            assert(shorter.subrange(start, shorter.len() as int).push(s.last()) =~= s.subrange(
                start,
                s.len() as int,
            ));
            assert(split(s, sep).drop_last() =~= before.drop_last());
            lemma_tokens_before_ignore_the_end(s, sep, start);
        }
    }
}

/// The tokens of a string are the pieces it splits into, so there are
/// finitely many of them, and at least one: the string without a separator
/// is its own single token, the empty string too.
pub proof fn lemma_tokens_are_the_pieces(s: Seq<char>, sep: char)
    ensures
        tokens(s, sep) == split(s, sep).to_set(),
        tokens(s, sep).finite(),
        1 <= tokens(s, sep).len() <= split(s, sep).len(),
{
    broadcast use Seq::lemma_push_to_set_commute;

    let pieces = split(s, sep);
    lemma_split_ends_with_the_last(s, sep);
    lemma_tokens_end_with_the_last(s, sep);
    assert(pieces =~= pieces.drop_last().push(pieces.last()));
    vstd::seq_lib::seq_to_set_is_finite(pieces);
    pieces.lemma_cardinality_of_set();
    pieces.lemma_cardinality_of_empty_set_is_0();
}

} // verus!
