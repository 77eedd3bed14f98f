//! A named, single-capture pattern: a label plus a regular expression whose
//! first capture group names the test or namespace a line declares.
//!
//! The regular-expression engine is outside code; what it yields on a given
//! pattern and line is a fixed value, named by [`capture_of`] and
//! [`regex_matches`], and everything downstream is proved against those
//! names.  A pattern that fails to compile simply never matches.

use vstd::prelude::*;

verus! {

/// What matching `pattern` against `line` yields: the text of the first
/// capture group of the first match (empty when the pattern has no first
/// group), or `None` when the pattern does not match the line or does not
/// compile.  The value depends on the two strings alone.
pub uninterp spec fn capture_of(pattern: Seq<char>, line: Seq<char>) -> Option<Seq<char>>;

/// Whether `pattern` matches anywhere in `text`; `false` for a pattern
/// that does not compile.  The value depends on the two strings alone.
pub uninterp spec fn regex_matches(pattern: Seq<char>, text: Seq<char>) -> bool;

/// Relies on regex::Regex::new and regex::Regex::captures: the first match
/// of the pattern in the haystack, reduced to its first capture group.
/// Both are functions of the pattern and the haystack alone; a pattern
/// that does not compile is treated as never matching.
#[verifier::external_body]
fn regex_capture_first(pattern: &str, haystack: &str) -> (r: Option<String>)
    ensures
        match r {
            Some(c) => capture_of(pattern@, haystack@) == Some(c@),
            None => capture_of(pattern@, haystack@) is None,
        },
{
    match regex::Regex::new(pattern) {
        Ok(re) => match re.captures(haystack) {
            Some(caps) => match caps.get(1) {
                Some(m) => Some(m.as_str().to_string()),
                None => Some(String::new()),
            },
            None => None,
        },
        Err(_) => None,
    }
}

/// Relies on regex::Regex::new and regex::Regex::is_match: whether the
/// pattern matches anywhere in the text, a function of the two strings
/// alone; a pattern that does not compile is treated as never matching.
#[verifier::external_body]
pub(crate) fn regex_is_match(pattern: &str, text: &str) -> (r: bool)
    ensures
        r == regex_matches(pattern@, text@),
{
    match regex::Regex::new(pattern) {
        Ok(re) => re.is_match(text),
        Err(_) => false,
    }
}

/// A single-capture regular expression with an optional label naming the
/// language rule it came from.
pub struct NamedPattern {
    /// The regular expression, kept as written.
    pub pattern: String,
    /// The optional label.
    pub name: Option<String>,
}

impl NamedPattern {
    pub fn new(pattern: &str, name: Option<&str>) -> (r: Self)
        ensures
            r.pattern@ == pattern@,
            match name {
                Some(n) => r.name matches Some(rn) && rn@ == n@,
                None => r.name is None,
            },
    {
        let name_owned: Option<String> = match name {
            Some(n) => Some(String::from_str(n)),
            None => None,
        };
        Self { pattern: String::from_str(pattern), name: name_owned }
    }

    pub fn pattern(&self) -> (r: &String)
        ensures
            r == self.pattern,
    {
        &self.pattern
    }

    pub fn name(&self) -> (r: &Option<String>)
        ensures
            r == self.name,
    {
        &self.name
    }

    /// Matches the pattern against one line: the first capture group's text
    /// together with this pattern's label, or `None` when the line does not
    /// match.
    pub fn find(&self, haystack: &str) -> (r: Option<(String, Option<String>)>)
        ensures
            match r {
                Some(found) => capture_of(self.pattern@, haystack@) == Some(found.0@) && match self
                    .name {
                    Some(n) => found.1 matches Some(fn_) && fn_@ == n@,
                    None => found.1 is None,
                },
                None => capture_of(self.pattern@, haystack@) is None,
            },
    {
        match regex_capture_first(self.pattern.as_str(), haystack) {
            Some(cap) => {
                let label: Option<String> = match &self.name {
                    Some(n) => Some(n.clone()),
                    None => None,
                };
                Some((cap, label))
            },
            None => None,
        }
    }
}

} // verus!
