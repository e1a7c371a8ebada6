//! The kinds of line in a plaintext metrics exposition, and the classifier
//! that tells them apart.
//!
//! A line is trimmed and then held against three grammars in a fixed order:
//! the `HELP` comment, the `TYPE` comment, the sample. The first grammar that
//! matches decides. Each grammar is a regular expression; what its groups
//! capture is turned into a [`LineInfo`] by a function of its own, so that
//! the rules of this module are proved for whatever a search may return.

use crate::pattern::{
    captures, captures_of, compile, compiles, group, group_at, groups_within, Groups, Matcher,
};
use crate::text::{
    blank, lemma_part_of_part, lemma_trimmed_blank, lemma_trimmed_part, part_of, trim, trimmed,
};
use vstd::prelude::*;

verus! {

/// The `HELP` comment: `#`, whitespace if any, `HELP`, whitespace, and the
/// rest of the line as group 1.
pub const HELP_PATTERN: &'static str = r"^#\s*HELP\s+(.*)$";

/// The `TYPE` comment: `#`, whitespace if any, `TYPE`, whitespace, the
/// metric's name as group 1, whitespace, the name of its type as group 2.
/// Both names are made of word characters.
pub const TYPE_PATTERN: &'static str = r"^#\s*TYPE\s+(\w+)\s+(\w+)";

/// The sample: the metric's name as group 1; directly behind it, if present,
/// a block in braces whose inside is group 2; whitespace; the value as group
/// 3; and, if present, whitespace and a timestamp of digits as group 4. Name
/// and value are made of word characters, and the inside of the braces of
/// anything but `}`.
pub const SAMPLE_PATTERN: &'static str = r"^(\w+)(?:\{([^}]+)\})?\s+(\w+)(?:\s+(\d+))?";

/// What one line of an exposition is. Every piece of text in it is a slice of
/// the line that was classified.
#[derive(Debug, PartialEq, Eq)]
pub enum LineInfo<'a> {
    /// A `# HELP` comment, with the text behind the keyword.
    Docstring(&'a str),
    /// A `# TYPE` comment.
    Type { metric_name: &'a str, metric_type: &'a str },
    /// A sample. `labels` is what stands between the braces, undivided;
    /// `value` and `timestamp` are the tokens as written.
    Sample {
        metric_name: &'a str,
        labels: Option<&'a str>,
        value: &'a str,
        timestamp: Option<&'a str>,
    },
    /// Nothing but whitespace.
    Empty,
    /// None of the above.
    Ignored,
}

/// A [`LineInfo`] as a mathematical value: each piece of text is the sequence
/// of its characters.
pub enum LineView {
    Docstring(Seq<char>),
    Type { metric_name: Seq<char>, metric_type: Seq<char> },
    Sample {
        metric_name: Seq<char>,
        labels: Option<Seq<char>>,
        value: Seq<char>,
        timestamp: Option<Seq<char>>,
    },
    Empty,
    Ignored,
}

impl<'a> View for LineInfo<'a> {
    type V = LineView;

    open spec fn view(&self) -> LineView {
        match *self {
            LineInfo::Docstring(text) => LineView::Docstring(text@),
            LineInfo::Type { metric_name, metric_type } => LineView::Type {
                metric_name: metric_name@,
                metric_type: metric_type@,
            },
            LineInfo::Sample { metric_name, labels, value, timestamp } => LineView::Sample {
                metric_name: metric_name@,
                labels: labels.deep_view(),
                value: value@,
                timestamp: timestamp.deep_view(),
            },
            LineInfo::Empty => LineView::Empty,
            LineInfo::Ignored => LineView::Ignored,
        }
    }
}

/// `found` is absent, or one unbroken run of the characters of `line`.
pub open spec fn absent_or_part(found: Option<Seq<char>>, line: Seq<char>) -> bool {
    found matches Some(text) ==> part_of(text, line)
}

impl LineView {
    /// Every piece of text in `self` is one unbroken run of the characters of
    /// `line`.
    pub open spec fn drawn_from(self, line: Seq<char>) -> bool {
        match self {
            LineView::Docstring(text) => part_of(text, line),
            LineView::Type { metric_name, metric_type } => part_of(metric_name, line) && part_of(
                metric_type,
                line,
            ),
            LineView::Sample { metric_name, labels, value, timestamp } => {
                &&& part_of(metric_name, line)
                &&& absent_or_part(labels, line)
                &&& part_of(value, line)
                &&& absent_or_part(timestamp, line)
            },
            LineView::Empty => true,
            LineView::Ignored => true,
        }
    }
}

/// What a match of the `HELP` grammar makes of the line: a docstring of what
/// group 1 captured, and a line to ignore where it captured nothing.
pub open spec fn help_line(groups: Groups) -> LineView {
    match group(groups, 1) {
        Some(text) => LineView::Docstring(text),
        None => LineView::Ignored,
    }
}

/// What a match of the `TYPE` grammar makes of the line: a type declaration of
/// what groups 1 and 2 captured, and a line to ignore where either captured
/// nothing.
pub open spec fn type_line(groups: Groups) -> LineView {
    match (group(groups, 1), group(groups, 2)) {
        (Some(metric_name), Some(metric_type)) => LineView::Type { metric_name, metric_type },
        _ => LineView::Ignored,
    }
}

/// What a match of the sample grammar makes of the line: a sample of what
/// groups 1 to 4 captured, of which the labels and the timestamp may be
/// absent, and a line to ignore where the name or the value is.
pub open spec fn sample_line(groups: Groups) -> LineView {
    match (group(groups, 1), group(groups, 3)) {
        (Some(metric_name), Some(value)) => LineView::Sample {
            metric_name,
            labels: group(groups, 2),
            value,
            timestamp: group(groups, 4),
        },
        _ => LineView::Ignored,
    }
}

/// The grammars in their order: the first that matched decides, and a line
/// that none matched is ignored. Each argument is what the search with one
/// grammar returned.
pub open spec fn resolve(
    help: Option<Groups>,
    kind: Option<Groups>,
    sample: Option<Groups>,
) -> LineView {
    match help {
        Some(groups) => help_line(groups),
        None => match kind {
            Some(groups) => type_line(groups),
            None => match sample {
                Some(groups) => sample_line(groups),
                None => LineView::Ignored,
            },
        },
    }
}

/// What the line is: empty where trimming leaves nothing, else what the
/// three grammars make of the trimmed line.
pub open spec fn classify(line: Seq<char>) -> LineView {
    let text = trimmed(line);
    if text.len() == 0 {
        LineView::Empty
    } else {
        resolve(
            captures_of(HELP_PATTERN@, text),
            captures_of(TYPE_PATTERN@, text),
            captures_of(SAMPLE_PATTERN@, text),
        )
    }
}

/// All three grammars are patterns that compile.
pub open spec fn grammar_compiles() -> bool {
    compiles(HELP_PATTERN@) && compiles(TYPE_PATTERN@) && compiles(SAMPLE_PATTERN@)
}

/// Whatever a grammar captured within `text`, the line made of it is drawn
/// from `text`.
pub proof fn lemma_lines_drawn(groups: Groups, text: Seq<char>)
    requires
        groups_within(groups, text),
    ensures
        help_line(groups).drawn_from(text),
        type_line(groups).drawn_from(text),
        sample_line(groups).drawn_from(text),
{
}

/// A line drawn from an unbroken run of `line` is drawn from `line`.
pub proof fn lemma_drawn_from_part(info: LineView, text: Seq<char>, line: Seq<char>)
    requires
        info.drawn_from(text),
        part_of(text, line),
    ensures
        info.drawn_from(line),
{
    match info {
        LineView::Docstring(found) => {
            lemma_part_of_part(found, text, line);
        },
        LineView::Type { metric_name, metric_type } => {
            lemma_part_of_part(metric_name, text, line);
            lemma_part_of_part(metric_type, text, line);
        },
        LineView::Sample { metric_name, labels, value, timestamp } => {
            lemma_part_of_part(metric_name, text, line);
            lemma_part_of_part(value, text, line);
            if let Some(found) = labels {
                lemma_part_of_part(found, text, line);
            }
            if let Some(found) = timestamp {
                lemma_part_of_part(found, text, line);
            }
        },
        LineView::Empty => {},
        LineView::Ignored => {},
    }
}

impl<'a> LineInfo<'a> {
    /// The line that a match of the `HELP` grammar stands for, from what its
    /// groups captured.
    pub fn from_help(groups: &Vec<Option<&'a str>>) -> (r: LineInfo<'a>)
        ensures
            r@ == help_line(groups.deep_view()),
    {
        match group_at(groups, 1) {
            Some(text) => LineInfo::Docstring(text),
            None => LineInfo::Ignored,
        }
    }

    /// The line that a match of the `TYPE` grammar stands for, from what its
    /// groups captured.
    pub fn from_type(groups: &Vec<Option<&'a str>>) -> (r: LineInfo<'a>)
        ensures
            r@ == type_line(groups.deep_view()),
    {
        match (group_at(groups, 1), group_at(groups, 2)) {
            (Some(metric_name), Some(metric_type)) => LineInfo::Type { metric_name, metric_type },
            _ => LineInfo::Ignored,
        }
    }

    /// The line that a match of the sample grammar stands for, from what its
    /// groups captured.
    pub fn from_sample(groups: &Vec<Option<&'a str>>) -> (r: LineInfo<'a>)
        ensures
            r@ == sample_line(groups.deep_view()),
    {
        match (group_at(groups, 1), group_at(groups, 3)) {
            (Some(metric_name), Some(value)) => LineInfo::Sample {
                metric_name,
                labels: group_at(groups, 2),
                value,
                timestamp: group_at(groups, 4),
            },
            _ => LineInfo::Ignored,
        }
    }

    /// Classifies one line.
    ///
    /// The three grammars are compiled anew on every call: to classify many
    /// lines, make one [`Classifier`] and use it for each.
    pub fn parse(line: &'a str) -> (r: LineInfo<'a>)
        requires
            grammar_compiles(),
        ensures
            r@ == classify(line@),
            r@ == LineView::Empty <==> blank(line@),
            r@.drawn_from(line@),
    {
        let classifier = Classifier::new().unwrap();
        classifier.classify(line)
    }

    /// Classifies one line, or returns `None` where one of the grammars does
    /// not compile.
    pub fn try_parse(line: &'a str) -> (r: Option<LineInfo<'a>>)
        ensures
            r.is_some() == grammar_compiles(),
            r matches Some(info) ==> {
                &&& info@ == classify(line@)
                &&& info@ == LineView::Empty <==> blank(line@)
                &&& info@.drawn_from(line@)
            },
    {
        if Classifier::new().is_some() {
            Some(LineInfo::parse(line))
        } else {
            None
        }
    }
}

/// The three grammars, compiled once and kept for any number of lines.
pub struct Classifier {
    help: Matcher,
    kind: Matcher,
    sample: Matcher,
}

impl Classifier {
    /// Each matcher was compiled from the grammar that its name says.
    #[verifier::type_invariant]
    spec fn grammars_in_place(self) -> bool {
        &&& self.help@ == HELP_PATTERN@
        &&& self.kind@ == TYPE_PATTERN@
        &&& self.sample@ == SAMPLE_PATTERN@
    }

    /// Compiles the three grammars. `None` where one of them does not compile.
    pub fn new() -> (r: Option<Classifier>)
        ensures
            r.is_some() == grammar_compiles(),
    {
        let help = match compile(HELP_PATTERN) {
            Some(matcher) => matcher,
            None => { return None; },
        };
        let kind = match compile(TYPE_PATTERN) {
            Some(matcher) => matcher,
            None => { return None; },
        };
        let sample = match compile(SAMPLE_PATTERN) {
            Some(matcher) => matcher,
            None => { return None; },
        };
        Some(Classifier { help, kind, sample })
    }

    /// Classifies one line: trims it, and holds what is left against the
    /// `HELP` grammar, the `TYPE` grammar and the sample grammar, in this
    /// order. A later grammar is tried only where the earlier ones did not
    /// match.
    pub fn classify<'a>(&self, line: &'a str) -> (r: LineInfo<'a>)
        ensures
            r@ == classify(line@),
            r@ == LineView::Empty <==> blank(line@),
            r@.drawn_from(line@),
    {
        proof {
            use_type_invariant(self);
            lemma_trimmed_part(line@);
            lemma_trimmed_blank(line@);
        }
        let text = trim(line);
        if text.is_empty() {
            return LineInfo::Empty;
        }
        if let Some(groups) = captures(&self.help, text) {
            let info = LineInfo::from_help(&groups);
            proof {
                lemma_lines_drawn(groups.deep_view(), text@);
                lemma_drawn_from_part(info@, text@, line@);
            }
            return info;
        }
        if let Some(groups) = captures(&self.kind, text) {
            let info = LineInfo::from_type(&groups);
            proof {
                lemma_lines_drawn(groups.deep_view(), text@);
                lemma_drawn_from_part(info@, text@, line@);
            }
            return info;
        }
        if let Some(groups) = captures(&self.sample, text) {
            let info = LineInfo::from_sample(&groups);
            proof {
                lemma_lines_drawn(groups.deep_view(), text@);
                lemma_drawn_from_part(info@, text@, line@);
            }
            return info;
        }
        LineInfo::Ignored
    }
}

} // verus!
