//! Classifies one line of a plaintext metrics exposition: a `HELP` comment, a
//! `TYPE` comment, a sample, an empty line, or a line to ignore.
//!
//! [`LineInfo::parse`] classifies a single line; a [`Classifier`] holds the
//! compiled grammars for any number of lines. What a line is classified as is
//! written down once, as the function [`line::classify`] on sequences of
//! characters, and the contracts of both say that they compute it.
//!
//! Three things are taken on trust and named rather than defined: which
//! characters are whitespace ([`text::white_space`]), which patterns compile
//! ([`pattern::compiles`]), and what a pattern captures in a text
//! ([`pattern::captures_of`]). All else is proved.

pub mod laws;
pub mod line;
pub mod pattern;
pub mod text;

pub use line::{Classifier, LineInfo};
