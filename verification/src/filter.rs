//! The pattern filter: a regular expression, compiled once, that candidate
//! paths are tested against.
//!
//! Compiling and searching are done by the `regex` crate. What it computes is
//! not restated here: its results are given names, and the contracts of this
//! module speak of those names.

use vstd::prelude::*;

verus! {

/// `regex::Regex`, a compiled regular expression. Nothing of its inside is
/// known here.
#[verifier::external_type_specification]
#[verifier::external_body]
pub struct ExRegex(regex::Regex);

/// `regex::Error`, the reason why a pattern was not compiled. Nothing of its
/// inside is known here.
#[verifier::external_type_specification]
#[verifier::external_body]
pub struct ExRegexError(regex::Error);

/// Whether `regex::Regex::new` accepts `pattern`.
pub uninterp spec fn pattern_compiles(pattern: Seq<char>) -> bool;

/// Whether the regular expression that `regex::Regex::new` compiles from
/// `pattern` has a match anywhere in `text`.
pub uninterp spec fn pattern_finds(pattern: Seq<char>, text: Seq<char>) -> bool;

/// Whether the compiled expression `regex` has a match anywhere in `text`:
/// what `regex::Regex::is_match` answers.
pub uninterp spec fn regex_finds(regex: regex::Regex, text: Seq<char>) -> bool;

/// Calls `regex::Regex::new`. It succeeds exactly on the patterns the crate
/// accepts, and the expression it returns is the one compiled from the
/// pattern: it finds what the pattern finds.
#[verifier::external_body]
fn compile(pattern: &str) -> (outcome: Result<regex::Regex, regex::Error>)
    ensures
        outcome is Ok <==> pattern_compiles(pattern@),
        outcome matches Ok(regex) ==> forall|text: Seq<char>| #[trigger]
            regex_finds(regex, text) == pattern_finds(pattern@, text),
{
    regex::Regex::new(pattern)
}

/// Calls `regex::Regex::is_match`, which looks for a match anywhere in the
/// text and does not anchor the expression.
#[verifier::external_body]
fn search(regex: &regex::Regex, text: &str) -> (found: bool)
    ensures
        found == regex_finds(*regex, text@),
{
    regex.is_match(text)
}

/// Renders a `regex::Error` through its `Display` impl. Nothing is claimed
/// of the text.
#[verifier::external_body]
fn explain(error: &regex::Error) -> String {
    error.to_string()
}

/// Why a pattern was refused.
#[derive(Debug, Clone, PartialEq, Eq)]
pub struct InvalidPatternError {
    /// The pattern that was refused.
    pub pattern: String,
    /// What the expression compiler had to say about it.
    pub detail: String,
}

/// A compiled pattern.
#[derive(Debug)]
pub struct PatternFilter {
    pattern: String,
    regex: regex::Regex,
}

impl PatternFilter {
    /// The expression is the one compiled from the pattern.
    #[verifier::type_invariant]
    spec fn well_formed(&self) -> bool {
        forall|text: Seq<char>| #[trigger]
            regex_finds(self.regex, text) == pattern_finds(self.pattern@, text)
    }

    /// The pattern this filter was compiled from.
    pub closed spec fn pattern(&self) -> Seq<char> {
        self.pattern@
    }

    /// Compiles `pattern`. A pattern the compiler refuses is reported back
    /// together with the compiler's explanation.
    pub fn new(pattern: &str) -> (outcome: Result<PatternFilter, InvalidPatternError>)
        ensures
            outcome is Ok <==> pattern_compiles(pattern@),
            outcome matches Ok(filter) ==> filter.pattern() == pattern@,
            outcome matches Err(error) ==> error.pattern@ == pattern@,
    {
        match compile(pattern) {
            Ok(regex) => Ok(PatternFilter { pattern: pattern.to_owned(), regex }),
            Err(error) => Err(
                InvalidPatternError { pattern: pattern.to_owned(), detail: explain(&error) },
            ),
        }
    }

    /// Whether the pattern has a match anywhere in `path`.
    pub fn matches(&self, path: &str) -> (found: bool)
        ensures
            found == pattern_finds(self.pattern(), path@),
    {
        proof {
            use_type_invariant(self);
        }
        search(&self.regex, path)
    }

    /// The pattern as it was written.
    pub fn as_str(&self) -> (text: &str)
        ensures
            text@ == self.pattern(),
    {
        self.pattern.as_str()
    }
}

} // verus!
