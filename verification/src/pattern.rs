//! Regular expressions, as far as the line grammars need them.
//!
//! The matching itself is the work of the `regex` crate and is not proved
//! here. This module is the whole border with that crate: it names what a
//! search returns, as a function of the pattern and of the text searched, and
//! hands the result on as plain string slices.

use crate::text::part_of;
use regex::Regex;
use vstd::prelude::*;

verus! {

/// `regex::Regex`, a compiled pattern. Nothing is known of what it holds.
#[verifier::external_type_specification]
#[verifier::external_body]
pub struct ExRegex(Regex);

/// Whether `Regex::new` accepts the pattern `source`.
pub uninterp spec fn compiles(source: Seq<char>) -> bool;

/// What the first match of the pattern `source` in `text` captures: `None`
/// where the pattern matches nowhere in `text`; else one entry for each group
/// of the pattern, in the order of their opening brackets and after an entry
/// for the match as a whole, holding the text that the group matched, or
/// `None` for a group that took no part in the match.
pub uninterp spec fn captures_of(source: Seq<char>, text: Seq<char>) -> Option<
    Seq<Option<Seq<char>>>,
>;

/// What one match captured: for each group of the pattern the text that it
/// matched, or `None` for a group that took no part in the match. Entry 0 is
/// the match as a whole.
pub type Groups = Seq<Option<Seq<char>>>;

/// Every group that took part in the match holds one unbroken run of the
/// characters of `text`.
pub open spec fn groups_within(groups: Groups, text: Seq<char>) -> bool {
    forall|i: int|
        0 <= i < groups.len() ==> ((#[trigger] groups[i]) matches Some(found) ==> part_of(
            found,
            text,
        ))
}

/// The text of group `i`: `None` where the pattern has no such group, or
/// where the group took no part in the match.
pub open spec fn group(groups: Groups, i: int) -> Option<Seq<char>> {
    if 0 <= i < groups.len() {
        groups[i]
    } else {
        None
    }
}

/// A compiled pattern, kept together with the text it was compiled from.
///
/// Only [`compile`] makes a value of this type, so the two always belong
/// together. The view of a matcher is the pattern's text: it is what the
/// contracts know the matcher by.
pub(crate) struct Matcher {
    #[allow(dead_code)]
    source: String,
    compiled: Regex,
}

impl View for Matcher {
    type V = Seq<char>;

    closed spec fn view(&self) -> Seq<char> {
        self.source@
    }
}

/// Compiles `source` with `Regex::new`, which refuses a pattern that is
/// malformed or grows too large, and keeps the pattern's text beside what was
/// compiled. Not proved: that the outcome depends on the pattern alone, which
/// is what giving it the name [`compiles`] claims.
#[verifier::external_body]
pub(crate) fn compile(source: &str) -> (r: Option<Matcher>)
    ensures
        r.is_some() == compiles(source@),
        r matches Some(matcher) ==> matcher@ == source@,
{
    Regex::new(source).ok().map(|compiled| Matcher { source: source.to_string(), compiled })
}

/// Searches `text` with `Regex::captures` and hands out, for each group of
/// the pattern, the slice of `text` that it matched. Not proved: that the
/// outcome depends on the pattern and the text alone, which is what giving it
/// the name [`captures_of`] claims; and that each slice handed out is a
/// substring of `text`, as `Match::as_str` documents.
#[verifier::external_body]
pub(crate) fn captures<'a>(matcher: &Matcher, text: &'a str) -> (r: Option<Vec<Option<&'a str>>>)
    ensures
        r.deep_view() == captures_of(matcher@, text@),
        r matches Some(groups) ==> groups_within(groups.deep_view(), text@),
{
    matcher.compiled.captures(text).map(
        |found| found.iter().map(|group| group.map(|m| m.as_str())).collect(),
    )
}

/// The slice that group `i` matched, if the pattern has such a group and it
/// took part in the match.
pub fn group_at<'a>(groups: &Vec<Option<&'a str>>, i: usize) -> (r: Option<&'a str>)
    ensures
        r.deep_view() == group(groups.deep_view(), i as int),
{
    if i < groups.len() {
        groups[i]
    } else {
        None
    }
}

} // verus!
