//! Searching text lines for a pattern with the `regex` crate.
//!
//! What the crate's engine does is not verified here. It is reached through
//! two functions: one compiles a pattern, the other searches a line, and the
//! result of the search is given the name `regex_captures`. Everything that
//! is done with that result is verified for every value the engine could
//! return.
//!
//! Whether a pattern compiles is left open: `regex` bounds the size of what
//! it compiles, and measures that size in memory. So compiling is the one
//! step that may fail; a search with a compiled pattern never does.

use vstd::prelude::*;
use crate::error::AisError;

verus! {

/// `regex::Regex`, a compiled pattern. Nothing is known of its contents.
#[verifier::external_type_specification]
#[verifier::external_body]
pub struct ExRegex(regex::Regex);

/// `regex::Error`, the reason for which `regex` refuses a pattern. Nothing
/// is known of its contents.
#[verifier::external_type_specification]
#[verifier::external_body]
pub struct ExRegexError(regex::Error);

/// What `regex::Regex::captures` returns when `line` is searched for
/// `pattern`, compiled by `regex::Regex::new`, with each group as the text
/// it matched: `None` when the line has no match, otherwise the groups of
/// the first match, one entry per capture group, group 0 being the whole
/// match, with `None` for a group that took no part in the match.
pub uninterp spec fn regex_captures(pattern: Seq<char>, line: Seq<char>) -> Option<Seq<Option<Seq<char>>>>;

/// The texts of a sequence of capture groups.
pub open spec fn groups_view(groups: Seq<Option<String>>) -> Seq<Option<Seq<char>>> {
    Seq::new(
        groups.len(),
        |i: int|
            match groups[i] {
                Some(text) => Some(text@),
                None => None,
            },
    )
}

/// The texts of the capture groups of a match, if there is one.
pub open spec fn captures_view(captures: Option<Vec<Option<String>>>) -> Option<
    Seq<Option<Seq<char>>>,
> {
    match captures {
        Some(groups) => Some(groups_view(groups@)),
        None => None,
    }
}

/// A pattern that `regex` has compiled, together with its text.
///
/// The two always belong together. The only place that builds a value is
/// `compile`, which stores the very text that it compiles; no verified code
/// builds a value or changes a field.
pub struct Matcher {
    pattern: String,
    regex: regex::Regex,
}

impl View for Matcher {
    type V = Seq<char>;

    /// The text of the pattern.
    closed spec fn view(&self) -> Seq<char> {
        self.pattern@
    }
}

/// Compiles `pattern` with `regex::Regex::new` and keeps the text beside
/// the compiled pattern.
///
/// Believed without proof: the text of the matcher is the text that was
/// compiled. Nothing is claimed about which patterns compile, nor about the
/// error when one does not.
#[verifier::external_body]
fn compile(pattern: &str) -> (r: Result<Matcher, regex::Error>)
    ensures
        r matches Ok(matcher) ==> matcher@ == pattern@,
{
    let regex = regex::Regex::new(pattern)?;
    Ok(Matcher { pattern: pattern.to_owned(), regex })
}

/// Searches `line` with `regex::Regex::captures` and copies the text of each
/// group of the first match out of the line.
///
/// Believed without proof: the groups returned are those that `regex` finds
/// in this line for the pattern whose text the matcher holds, and they
/// depend on nothing but the two. This rests on `compile` being the one
/// place that builds a matcher.
#[verifier::external_body]
fn search(matcher: &Matcher, line: &str) -> (captures: Option<Vec<Option<String>>>)
    ensures
        captures_view(captures) == regex_captures(matcher@, line@),
{
    let captures = matcher.regex.captures(line);
    captures.map(|c| c.iter().map(|g| g.map(|m| m.as_str().to_owned())).collect())
}

impl Matcher {
    /// Compiles `pattern`. Fails with a pattern error when `regex` refuses
    /// it.
    pub fn new(pattern: &str) -> (r: Result<Matcher, AisError>)
        ensures
            r matches Ok(matcher) ==> matcher@ == pattern@,
            r matches Err(e) ==> e == AisError::Pattern,
    {
        match compile(pattern) {
            Ok(matcher) => Ok(matcher),
            Err(_) => Err(AisError::Pattern),
        }
    }

    /// The text of the pattern.
    pub fn pattern(&self) -> (text: &str)
        ensures
            text@ == self@,
    {
        self.pattern.as_str()
    }

    /// Searches `line` for the first match of the pattern and returns the
    /// text of each capture group, or `None` when the line has no match.
    pub fn captures(&self, line: &str) -> (captures: Option<Vec<Option<String>>>)
        ensures
            captures_view(captures) == regex_captures(self@, line@),
    {
        search(self, line)
    }
}

} // verus!
