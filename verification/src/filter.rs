//! The filter on the titles of submissions, a regular expression.
use regex::Regex;
use vstd::prelude::*;

verus! {

/// `regex::Regex`, a compiled regular expression.
#[verifier::external_type_specification]
#[verifier::external_body]
pub struct ExRegex(regex::Regex);

/// `regex::Error`, the reason why a pattern was rejected.
#[verifier::external_type_specification]
#[verifier::external_body]
pub struct ExRegexError(regex::Error);

/// What `regex::Regex::new` makes of a pattern on a machine with words of
/// `word_bits` bits.
pub uninterp spec fn regex_new(pattern: Seq<char>, word_bits: u32) -> Result<Regex, regex::Error>;

/// `regex::Regex::new`. The result depends on the pattern, and on the size of
/// a machine word: a compiled pattern may take ten mebibytes, and its parts
/// hold words. Nothing else is said of which patterns are accepted.
#[verifier::external_body]
fn compile(pattern: &str) -> (compiled: Result<Regex, regex::Error>)
    ensures
        compiled == regex_new(pattern@, usize::BITS),
{
    Regex::new(pattern)
}

/// The filter that the watcher is given, and the reason why there is none
/// although one was asked for.
#[derive(Debug)]
pub struct TitleFilter {
    pub filter: Option<Regex>,
    pub rejected: Option<regex::Error>,
}

/// The filter while it is switched off: every title passes.
pub open spec fn no_filter() -> TitleFilter {
    TitleFilter { filter: None, rejected: None }
}

/// The filter that comes of a pattern, given what compiling it came to. A
/// rejected pattern filters nothing.
pub open spec fn filter_from(compiled: Result<Regex, regex::Error>) -> TitleFilter {
    match compiled {
        Ok(regex) => TitleFilter { filter: Some(regex), rejected: None },
        Err(error) => TitleFilter { filter: None, rejected: Some(error) },
    }
}

impl TitleFilter {
    /// The filter while it is switched off.
    pub fn none() -> (filter: TitleFilter)
        ensures
            filter == no_filter(),
    {
        TitleFilter { filter: None, rejected: None }
    }

    /// The filter that comes of a compiled or rejected pattern.
    pub fn from_compiled(compiled: Result<Regex, regex::Error>) -> (filter: TitleFilter)
        ensures
            filter == filter_from(compiled),
    {
        match compiled {
            Ok(regex) => TitleFilter { filter: Some(regex), rejected: None },
            Err(error) => TitleFilter { filter: None, rejected: Some(error) },
        }
    }

    /// The filter that comes of a pattern.
    pub fn from_pattern(pattern: &str) -> (filter: TitleFilter)
        ensures
            filter == filter_from(regex_new(pattern@, usize::BITS)),
    {
        TitleFilter::from_compiled(compile(pattern))
    }
}

} // verus!
