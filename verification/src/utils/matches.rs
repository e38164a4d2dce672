//! Wildcard matching of names.

use vstd::prelude::*;

verus! {

/// Whether a wildcard pattern matches the whole of a text: `?` stands for
/// exactly one character, `*` for any number of them (also none), and every
/// other character for itself.
pub open spec fn wildcard(pattern: Seq<char>, text: Seq<char>) -> bool
    decreases pattern.len(), text.len(),
{
    if pattern.len() == 0 {
        text.len() == 0
    } else if pattern[0] == '*' {
        ||| wildcard(pattern.drop_first(), text)
        ||| text.len() > 0 && wildcard(pattern, text.drop_first())
    } else {
        &&& text.len() > 0
        &&& pattern[0] == '?' || pattern[0] == text[0]
        &&& wildcard(pattern.drop_first(), text.drop_first())
    }
}

/// The empty pattern stands for the empty text alone.
pub proof fn empty_pattern_matches_empty_text(text: Seq<char>)
    ensures
        wildcard(Seq::empty(), text) <==> text.len() == 0,
{
}

/// A `*` takes some part of the text, from its beginning, and leaves the rest of the text to the rest
/// of the pattern, and does nothing else.
pub proof fn star_takes_any_beginning(rest: Seq<char>, text: Seq<char>)
    ensures
        wildcard(seq!['*'] + rest, text) <==> exists|k: int|
            0 <= k <= text.len() && #[trigger] wildcard(rest, text.skip(k)),
    decreases text.len(),
{
    let pattern = seq!['*'] + rest;
    assert(pattern.drop_first() =~= rest);
    assert(text.skip(0) =~= text);
    if wildcard(rest, text) {
        assert(wildcard(rest, text.skip(0)));
    }
    if text.len() > 0 {
        let tail = text.drop_first();
        star_takes_any_beginning(rest, tail);
        if wildcard(pattern, tail) {
            let k = choose|k: int| 0 <= k <= tail.len() && #[trigger] wildcard(rest, tail.skip(k));
            assert(tail.skip(k) =~= text.skip(k + 1));
        }
        if exists|k: int| 0 <= k <= text.len() && #[trigger] wildcard(rest, text.skip(k)) {
            let k = choose|k: int| 0 <= k <= text.len() && #[trigger] wildcard(rest, text.skip(k));
            if k > 0 {
                assert(tail.skip(k - 1) =~= text.skip(k));
                assert(wildcard(rest, tail.skip(k - 1)));
            }
        }
    } else {
        assert forall|k: int|
            0 <= k <= text.len() && #[trigger] wildcard(rest, text.skip(k)) implies wildcard(
            rest,
            text,
        ) by {
            assert(text.skip(k) =~= text);
        }
    }
}

/// A `?` takes exactly one character, whichever it is, and leaves the others to the rest of the
/// pattern.
pub proof fn question_mark_takes_one_character(rest: Seq<char>, text: Seq<char>)
    ensures
        wildcard(seq!['?'] + rest, text) <==> text.len() > 0 && wildcard(rest, text.skip(1)),
{
    assert((seq!['?'] + rest).drop_first() =~= rest);
    if text.len() > 0 {
        assert(text.skip(1) =~= text.drop_first());
    }
}

/// Any other character takes itself, and leaves the characters after it to the rest of the
/// pattern.
pub proof fn other_character_takes_itself(c: char, rest: Seq<char>, text: Seq<char>)
    requires
        c != '*',
        c != '?',
    ensures
        wildcard(seq![c] + rest, text) <==> text.len() > 0 && text[0] == c && wildcard(
            rest,
            text.skip(1),
        ),
{
    assert((seq![c] + rest).drop_first() =~= rest);
    if text.len() > 0 {
        assert(text.skip(1) =~= text.drop_first());
    }
}

/// Two patterns, one after the other, match a text exactly if it can be cut so that each matches its
/// own part.
pub proof fn joined_patterns_cut_the_text(p: Seq<char>, q: Seq<char>, text: Seq<char>)
    ensures
        wildcard(p + q, text) <==> exists|k: int|
            0 <= k <= text.len() && #[trigger] wildcard(p, text.take(k)) && wildcard(
                q,
                text.skip(k),
            ),
    decreases p.len(), text.len(),
{
    if wildcard(p + q, text) {
        if p.len() == 0 {
            assert(p + q =~= q);
            assert(text.skip(0) =~= text);
            assert(wildcard(p, text.take(0)));
        } else {
            let tail = p.drop_first();
            assert((p + q).drop_first() =~= tail + q);
            if p[0] == '*' && wildcard(tail + q, text) {
                joined_patterns_cut_the_text(tail, q, text);
                let k = choose|k: int|
                    0 <= k <= text.len() && #[trigger] wildcard(tail, text.take(k)) && wildcard(
                        q,
                        text.skip(k),
                    );
                assert(wildcard(p, text.take(k)));
            } else {
                let left = text.drop_first();
                let next = if p[0] == '*' {
                    p
                } else {
                    tail
                };
                joined_patterns_cut_the_text(next, q, left);
                let k = choose|k: int|
                    0 <= k <= left.len() && #[trigger] wildcard(next, left.take(k)) && wildcard(
                        q,
                        left.skip(k),
                    );
                assert(text.take(k + 1).drop_first() =~= left.take(k));
                assert(text.skip(k + 1) =~= left.skip(k));
                assert(wildcard(p, text.take(k + 1)));
            }
        }
    }
    assert forall|k: int|
        0 <= k <= text.len() && #[trigger] wildcard(p, text.take(k)) && wildcard(
            q,
            text.skip(k),
        ) implies wildcard(p + q, text) by {
        patterns_concatenate(p, q, text.take(k), text.skip(k));
        assert(text.take(k) + text.skip(k) =~= text);
    }
}

/// A pattern without wildcards matches the text that it spells, and no other.
pub proof fn plain_pattern_matches_itself_alone(pattern: Seq<char>, text: Seq<char>)
    requires
        forall|i: int| 0 <= i < pattern.len() ==> pattern[i] != '*' && pattern[i] != '?',
    ensures
        wildcard(pattern, text) <==> pattern == text,
    decreases pattern.len(),
{
    if pattern.len() == 0 {
        assert(text.len() == 0 ==> pattern =~= text);
    } else if text.len() > 0 {
        plain_pattern_matches_itself_alone(pattern.drop_first(), text.drop_first());
        assert(pattern =~= seq![pattern[0]] + pattern.drop_first());
        assert(text =~= seq![text[0]] + text.drop_first());
    }
}

/// A lone `*` matches every text.
pub proof fn star_matches_everything(text: Seq<char>)
    ensures
        wildcard(seq!['*'], text),
    decreases text.len(),
{
    if text.len() > 0 {
        star_matches_everything(text.drop_first());
    } else {
        assert(seq!['*'].drop_first() =~= Seq::<char>::empty());
        assert(wildcard(Seq::<char>::empty(), text));
    }
}

/// A pattern of `?` alone matches the texts of its own length.
pub proof fn question_marks_count_characters(pattern: Seq<char>, text: Seq<char>)
    requires
        forall|i: int| 0 <= i < pattern.len() ==> pattern[i] == '?',
    ensures
        wildcard(pattern, text) <==> pattern.len() == text.len(),
    decreases pattern.len(),
{
    if pattern.len() > 0 && text.len() > 0 {
        question_marks_count_characters(pattern.drop_first(), text.drop_first());
    }
}

/// What two patterns match apart, their concatenation matches together.
pub proof fn patterns_concatenate(p: Seq<char>, q: Seq<char>, s: Seq<char>, t: Seq<char>)
    requires
        wildcard(p, s),
        wildcard(q, t),
    ensures
        wildcard(p + q, s + t),
    decreases p.len(), s.len(),
{
    if p.len() == 0 {
        assert(p + q =~= q);
        assert(s + t =~= t);
    } else {
        assert((p + q).drop_first() =~= p.drop_first() + q);
        if p[0] == '*' && wildcard(p.drop_first(), s) {
            patterns_concatenate(p.drop_first(), q, s, t);
        } else {
            assert((s + t).drop_first() =~= s.drop_first() + t);
            if p[0] == '*' {
                patterns_concatenate(p, q, s.drop_first(), t);
            } else {
                patterns_concatenate(p.drop_first(), q, s.drop_first(), t);
            }
        }
    }
}

/// A doubled `*` means what a single one means.
pub proof fn doubled_star_is_one_star(rest: Seq<char>, text: Seq<char>)
    ensures
        wildcard(seq!['*', '*'] + rest, text) <==> wildcard(seq!['*'] + rest, text),
    decreases text.len(),
{
    let one = seq!['*'] + rest;
    let two = seq!['*', '*'] + rest;
    assert(two.drop_first() =~= one);
    if text.len() > 0 {
        doubled_star_is_one_star(rest, text.drop_first());
    }
}

/// `wildmatch::WildMatch::new` takes the pattern and `WildMatch::matches` tests
/// a text against it, case included. The contract claims that the answer is that of
/// [`wildcard`]. No character can be escaped.
#[verifier::external_body]
fn wild_match(pattern: &str, text: &str) -> (matched: bool)
    ensures
        matched == wildcard(pattern@, text@),
{
    wildmatch::WildMatch::new(pattern).matches(text)
}

/// Whether `domain` is one of the names that the wildcard `pattern` stands for.
pub fn matches(pattern: &str, domain: &str) -> (matched: bool)
    ensures
        matched == wildcard(pattern@, domain@),
{
    wild_match(pattern, domain)
}

} // verus!
