//! What holds of every line, whatever the grammars capture.

use crate::line::{classify, help_line, resolve, type_line, LineView, HELP_PATTERN, TYPE_PATTERN};
use crate::pattern::{captures_of, Groups};
use crate::text::{blank, lemma_trimmed_blank, lemma_trimmed_twice, trimmed};
use vstd::prelude::*;

verus! {

/// A line is classified as empty exactly if it holds nothing but whitespace;
/// the line without any character is one of these.
pub proof fn lemma_blank_is_empty(line: Seq<char>)
    ensures
        blank(line) <==> classify(line) == LineView::Empty,
{
    lemma_trimmed_blank(line);
}

/// Two lines of the same characters are classified alike: the class of a line
/// depends on nothing but its characters.
pub proof fn lemma_same_line_same_class(first: Seq<char>, second: Seq<char>)
    requires
        first =~= second,
    ensures
        classify(first) == classify(second),
{
}

/// The whitespace around a line does not matter: the trimmed line is
/// classified as the line is.
pub proof fn lemma_trimming_keeps_class(line: Seq<char>)
    ensures
        classify(trimmed(line)) == classify(line),
{
    lemma_trimmed_twice(line);
}

/// The first grammar that matches decides alone. Where the `HELP` grammar
/// matched, the outcome is the same whatever the other two returned; where it
/// did not and the `TYPE` grammar matched, the outcome is the same whatever
/// the sample grammar returned.
pub proof fn lemma_first_match_decides(
    help: Option<Groups>,
    kind: Option<Groups>,
    sample: Option<Groups>,
    other_kind: Option<Groups>,
    other_sample: Option<Groups>,
)
    ensures
        help is Some ==> resolve(help, kind, sample) == resolve(help, other_kind, other_sample),
        help is None && kind is Some ==> resolve(help, kind, sample) == resolve(
            help,
            kind,
            other_sample,
        ),
{
}

/// A line that one of the comment grammars matches is classified by that
/// grammar, the `HELP` grammar before the `TYPE` grammar, and never as a
/// sample.
pub proof fn lemma_comment_first(line: Seq<char>)
    requires
        !blank(line),
    ensures
        captures_of(HELP_PATTERN@, trimmed(line)) matches Some(groups) ==> classify(line)
            == help_line(groups),
        captures_of(HELP_PATTERN@, trimmed(line)) is None ==> (captures_of(
            TYPE_PATTERN@,
            trimmed(line),
        ) matches Some(groups) ==> classify(line) == type_line(groups)),
        captures_of(HELP_PATTERN@, trimmed(line)) is Some || captures_of(
            TYPE_PATTERN@,
            trimmed(line),
        ) is Some ==> !(classify(line) is Sample),
{
    lemma_trimmed_blank(line);
}

} // verus!
