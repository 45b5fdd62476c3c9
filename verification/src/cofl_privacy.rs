//! The chat privacy filter that Cofl configures: chat lines that its
//! regular expression finds are uploaded to Cofl, others are not.
use vstd::prelude::*;
use crate::text::{chars_of, string_of};

verus! {

/// Whether `regex::Regex::new` accepts `pattern`.
pub uninterp spec fn regex_compiles(pattern: Seq<char>) -> bool;

/// Whether `regex::Regex::is_match` finds the compiled `pattern` in `text`.
pub uninterp spec fn regex_finds(pattern: Seq<char>, text: Seq<char>) -> bool;

/// Compiles `pattern` with `regex::Regex::new` and, when it compiles,
/// searches `text` with `Regex::is_match`.  The contract names both
/// results: `None` exactly when the pattern does not compile (an invalid
/// pattern, or one over the default size limit), else whether a match was
/// found anywhere in `text`.
#[verifier::external_body]
fn regex_search(pattern: &str, text: &str) -> (r: Option<bool>)
    ensures
        r is Some <==> regex_compiles(pattern@),
        r matches Some(found) ==> found == regex_finds(pattern@, text@),
{
    regex::Regex::new(pattern).ok().map(|re| re.is_match(text))
}

/// Why a privacy pattern was refused.
#[derive(Clone, Copy, Debug, PartialEq, Eq, Structural)]
pub enum PrivacyRegexError {
    InvalidPattern,
}

impl PrivacyRegexError {
    pub fn message(&self) -> (r: &'static str)
        ensures
            r@ == "invalid Cofl privacy chat regex"@,
    {
        "invalid Cofl privacy chat regex"
    }
}

/// The privacy filter: the pattern Cofl last set that compiled, if any.
pub struct CoflPrivacyFilter {
    pattern: Option<String>,
}

impl CoflPrivacyFilter {
    pub closed spec fn pattern_view(&self) -> Option<Seq<char>> {
        match self.pattern {
            Some(p) => Some(p@),
            None => None,
        }
    }

    /// The stored pattern compiles.
    pub closed spec fn wf(&self) -> bool {
        self.pattern_view() matches Some(p) ==> regex_compiles(p)
    }

    pub fn new() -> (r: Self)
        ensures
            r.wf(),
            r.pattern_view() is None,
    {
        CoflPrivacyFilter { pattern: None }
    }

    /// Installs `pattern` when it compiles; otherwise refuses it and keeps
    /// the filter as it was.
    pub fn update(&mut self, pattern: &str) -> (r: Result<(), PrivacyRegexError>)
        requires
            old(self).wf(),
        ensures
            final(self).wf(),
            regex_compiles(pattern@) ==> r is Ok && final(self).pattern_view() == Some(pattern@),
            !regex_compiles(pattern@) ==> r == Err::<(), PrivacyRegexError>(PrivacyRegexError::InvalidPattern)
                && final(self).pattern_view() == old(self).pattern_view(),
    {
        match regex_search(pattern, "") {
            Some(_) => {
                self.pattern = Some(string_of(&chars_of(pattern)));
                Ok(())
            },
            None => Err(PrivacyRegexError::InvalidPattern),
        }
    }

    /// Whether the chat line `text` is to be uploaded: a pattern is set and
    /// finds a match in it.
    pub fn matches(&self, text: &str) -> (r: bool)
        requires
            self.wf(),
        ensures
            r == (self.pattern_view() matches Some(p) && regex_finds(p, text@)),
    {
        match &self.pattern {
            Some(p) => match regex_search(p.as_str(), text) {
                Some(found) => found,
                None => false,
            },
            None => false,
        }
    }
}

} // verus!
