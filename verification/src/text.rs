//! Sequences of characters: whitespace, trimming, and the parts of a line.
//!
//! A character counts as whitespace when it has the Unicode property
//! `White_Space`. Which characters those are is left to the standard library:
//! the predicate [`white_space`] stands for its answer, and everything in this
//! module is proved for any such set of characters.

use vstd::prelude::*;

verus! {

/// Whether `c` has the Unicode property `White_Space`.
pub uninterp spec fn white_space(c: char) -> bool;

/// `char::is_whitespace` tells whether the character has the property
/// `White_Space`. Nothing more is claimed of it: [`white_space`] is the name of
/// its answer.
pub assume_specification[ char::is_whitespace ](c: char) -> (r: bool)
    ensures
        r == white_space(c),
;

/// Every character of `s` is whitespace. The empty sequence is blank.
pub open spec fn blank(s: Seq<char>) -> bool {
    forall|i: int| 0 <= i < s.len() ==> white_space(#[trigger] s[i])
}

/// How many whitespace characters stand at the front of `s`.
pub open spec fn leading_space(s: Seq<char>) -> nat
    decreases s.len(),
{
    if s.len() > 0 && white_space(s.first()) {
        1 + leading_space(s.drop_first())
    } else {
        0
    }
}

/// How many whitespace characters stand at the back of `s`.
pub open spec fn trailing_space(s: Seq<char>) -> nat
    decreases s.len(),
{
    if s.len() > 0 && white_space(s.last()) {
        1 + trailing_space(s.drop_last())
    } else {
        0
    }
}

/// `s` without the whitespace at its front.
pub open spec fn trimmed_start(s: Seq<char>) -> Seq<char> {
    s.skip(leading_space(s) as int)
}

/// `s` without the whitespace at its back.
pub open spec fn trimmed_end(s: Seq<char>) -> Seq<char> {
    s.take(s.len() - trailing_space(s))
}

/// `s` without the whitespace at its front and at its back.
pub open spec fn trimmed(s: Seq<char>) -> Seq<char> {
    trimmed_end(trimmed_start(s))
}

/// `piece` stands in `whole` as one unbroken run of characters.
pub open spec fn part_of(piece: Seq<char>, whole: Seq<char>) -> bool {
    exists|at: int|
        0 <= at && at + piece.len() <= whole.len() && #[trigger] whole.subrange(
            at,
            at + piece.len(),
        ) == piece
}

/// The leading whitespace is the longest run of whitespace that starts `s`:
/// a run of `k` whitespace characters that ends at a character of another
/// kind, or at the end of `s`, is all of it.
pub proof fn lemma_leading_space(s: Seq<char>, k: int)
    requires
        0 <= k <= s.len(),
        forall|j: int| 0 <= j < k ==> white_space(#[trigger] s[j]),
        k < s.len() ==> !white_space(s[k]),
    ensures
        leading_space(s) == k,
    decreases k,
{
    if k > 0 {
        let rest = s.drop_first();
        assert forall|j: int| 0 <= j < k - 1 implies white_space(#[trigger] rest[j]) by {
            assert(rest[j] == s[j + 1]);
        }
        lemma_leading_space(rest, k - 1);
    }
}

/// The trailing whitespace is the longest run of whitespace that ends `s`.
pub proof fn lemma_trailing_space(s: Seq<char>, k: int)
    requires
        0 <= k <= s.len(),
        forall|j: int| s.len() - k <= j < s.len() ==> white_space(#[trigger] s[j]),
        k < s.len() ==> !white_space(s[s.len() - k - 1]),
    ensures
        trailing_space(s) == k,
    decreases k,
{
    if k > 0 {
        let rest = s.drop_last();
        assert forall|j: int| rest.len() - (k - 1) <= j < rest.len() implies white_space(
            #[trigger] rest[j],
        ) by {
            assert(rest[j] == s[j]);
        }
        lemma_trailing_space(rest, k - 1);
    }
}

/// Neither count exceeds the length, each run it counts is whitespace, and
/// the character that ends the run is not.
pub proof fn lemma_space_runs(s: Seq<char>)
    ensures
        leading_space(s) <= s.len(),
        trailing_space(s) <= s.len(),
        forall|j: int| 0 <= j < leading_space(s) ==> white_space(#[trigger] s[j]),
        forall|j: int| s.len() - trailing_space(s) <= j < s.len() ==> white_space(#[trigger] s[j]),
        leading_space(s) < s.len() ==> !white_space(s[leading_space(s) as int]),
        trailing_space(s) < s.len() ==> !white_space(s[s.len() - trailing_space(s) - 1]),
    decreases s.len(),
{
    if s.len() > 0 {
        if white_space(s.first()) {
            let rest = s.drop_first();
            lemma_space_runs(rest);
            assert forall|j: int| 0 <= j < leading_space(s) implies white_space(
                #[trigger] s[j],
            ) by {
                if j > 0 {
                    assert(s[j] == rest[j - 1]);
                }
            }
        }
        if white_space(s.last()) {
            let rest = s.drop_last();
            lemma_space_runs(rest);
            assert forall|j: int| s.len() - trailing_space(s) <= j < s.len() implies white_space(
                #[trigger] s[j],
            ) by {
                if j < s.len() - 1 {
                    assert(s[j] == rest[j]);
                }
            }
        }
    }
}

/// Where `s` holds a character that is not whitespace, trimming keeps what
/// lies from the first such character to the last, both included.
pub proof fn lemma_trimmed_between(s: Seq<char>, start: int, end: int)
    requires
        0 <= start < end <= s.len(),
        forall|j: int| 0 <= j < start ==> white_space(#[trigger] s[j]),
        forall|j: int| end <= j < s.len() ==> white_space(#[trigger] s[j]),
        !white_space(s[start]),
        !white_space(s[end - 1]),
    ensures
        trimmed(s) == s.subrange(start, end),
{
    lemma_leading_space(s, start);
    let rest = s.skip(start);
    assert forall|j: int| rest.len() - (s.len() - end) <= j < rest.len() implies white_space(
        #[trigger] rest[j],
    ) by {
        assert(rest[j] == s[j + start]);
    }
    lemma_trailing_space(rest, s.len() - end);
}

/// Trimming leaves nothing exactly of the blank sequences.
pub proof fn lemma_trimmed_blank(s: Seq<char>)
    ensures
        trimmed(s).len() == 0 <==> blank(s),
{
    lemma_space_runs(s);
    lemma_space_runs(trimmed_start(s));
    if blank(s) {
        lemma_leading_space(s, s.len() as int);
    }
}

/// What trimming keeps is one unbroken run of the characters of `s`.
pub proof fn lemma_trimmed_part(s: Seq<char>)
    ensures
        part_of(trimmed(s), s),
{
    lemma_space_runs(s);
    lemma_space_runs(trimmed_start(s));
    let at = leading_space(s) as int;
    assert(s.subrange(at, at + trimmed(s).len()) =~= trimmed(s));
}

/// What trimming keeps neither starts nor ends with whitespace.
pub proof fn lemma_trimmed_ends(s: Seq<char>)
    ensures
        trimmed(s).len() > 0 ==> !white_space(trimmed(s).first()) && !white_space(
            trimmed(s).last(),
        ),
{
    lemma_space_runs(s);
    lemma_space_runs(trimmed_start(s));
}

/// Trimming twice is trimming once.
pub proof fn lemma_trimmed_twice(s: Seq<char>)
    ensures
        trimmed(trimmed(s)) == trimmed(s),
{
    let kept = trimmed(s);
    lemma_trimmed_ends(s);
    if kept.len() > 0 {
        lemma_trimmed_between(kept, 0, kept.len() as int);
    }
}

/// One unbroken run of an unbroken run of `whole` is an unbroken run of `whole`.
pub proof fn lemma_part_of_part(piece: Seq<char>, middle: Seq<char>, whole: Seq<char>)
    requires
        part_of(piece, middle),
        part_of(middle, whole),
    ensures
        part_of(piece, whole),
{
    let a = choose|at: int|
        0 <= at && at + piece.len() <= middle.len() && #[trigger] middle.subrange(
            at,
            at + piece.len(),
        ) == piece;
    let b = choose|at: int|
        0 <= at && at + middle.len() <= whole.len() && #[trigger] whole.subrange(
            at,
            at + middle.len(),
        ) == middle;
    assert(whole.subrange(a + b, a + b + piece.len()) =~= piece);
}

/// The line without the whitespace around it, as a slice of the line.
pub fn trim<'a>(line: &'a str) -> (r: &'a str)
    ensures
        r@ == trimmed(line@),
{
    let n: usize = line.unicode_len();
    let mut start: usize = 0;
    let mut end: usize = 0;
    let mut at: usize = 0;
    for c in it: line.chars()
        invariant
            it.seq() == line@,
            n == line@.len(),
            at == it.index(),
            start <= end <= at,
            forall|j: int| 0 <= j < start ==> white_space(#[trigger] line@[j]),
            forall|j: int| end <= j < at ==> white_space(#[trigger] line@[j]),
            end == 0 ==> start == 0,
            end > 0 ==> start < end && !white_space(line@[start as int]) && !white_space(
                line@[end - 1],
            ),
    {
        if !c.is_whitespace() {
            if end == 0 {
                start = at;
            }
            end = at + 1;
        }
        at = at + 1;
    }
    proof {
        if end > 0 {
            lemma_trimmed_between(line@, start as int, end as int);
        } else {
            lemma_trimmed_blank(line@);
        }
    }
    line.substring_char(start, end)
}

} // verus!
