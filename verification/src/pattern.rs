//! Regular expressions over log lines.
//!
//! What a pattern matches is left to the `regex` crate; its answers are named
//! here ([`regex_compiles`], [`regex_matches`], [`regex_first_group`]) so that
//! the parsers can say exactly what they make of them.

use crate::text::occurs_in;
use vstd::prelude::*;

verus! {

#[verifier::external_type_specification]
#[verifier::external_body]
pub struct ExRegex(regex::Regex);

#[verifier::external_type_specification]
#[verifier::external_body]
pub struct ExRegexError(regex::Error);

/// Whether `regex::Regex::new` accepts a pattern.
pub uninterp spec fn regex_compiles(pattern: Seq<char>) -> bool;

/// Whether `regex::Regex::is_match` finds a match of a pattern in a text.
pub uninterp spec fn regex_matches(pattern: Seq<char>, text: Seq<char>) -> bool;

/// The text of the first capture group of the leftmost match, as
/// `regex::Regex::captures` reports it; none if there is no match or the group
/// takes no part in it.
pub uninterp spec fn regex_first_group(pattern: Seq<char>, text: Seq<char>) -> Option<Seq<char>>;

/// True for a pattern in which every character stands for itself.
pub open spec fn is_literal_pattern(pattern: Seq<char>) -> bool {
    forall|i: int| 0 <= i < pattern.len() ==> is_literal_char(#[trigger] pattern[i])
}

/// Letters, digits, the space and the colon have no special meaning in a
/// pattern.
pub open spec fn is_literal_char(c: char) -> bool {
    ('a' <= c && c <= 'z') || ('A' <= c && c <= 'Z') || ('0' <= c && c <= '9') || c == ' ' || c
        == ':'
}

/// A compiled pattern. It is only ever made by [`LinePattern::compile`], so
/// `compiled` is the expression compiled from `source`.
pub struct LinePattern {
    source: String,
    compiled: regex::Regex,
}

impl View for LinePattern {
    type V = Seq<char>;

    closed spec fn view(&self) -> Seq<char> {
        self.source@
    }
}

impl LinePattern {
    /// `regex::Regex::new`: compiles a pattern. Whether it is accepted depends
    /// on the pattern alone; which error comes otherwise is not stated.
    #[verifier::external_body]
    pub(crate) fn compile(source: &str) -> (r: Result<LinePattern, regex::Error>)
        ensures
            r is Ok <==> regex_compiles(source@),
            r matches Ok(p) ==> p@ == source@,
    {
        let compiled = regex::Regex::new(source)?;
        Ok(LinePattern { source: source.to_string(), compiled })
    }

    /// `regex::Regex::is_match`: true if there is a match for the pattern
    /// anywhere in the text. A pattern of plain characters matches the texts
    /// that contain it.
    #[verifier::external_body]
    pub(crate) fn is_match(&self, text: &str) -> (r: bool)
        ensures
            r == regex_matches(self@, text@),
            is_literal_pattern(self@) ==> r == occurs_in(self@, text@),
    {
        self.compiled.is_match(text)
    }

    /// `regex::Regex::captures`, group 1: the part of the text that the first
    /// group of the leftmost match covers. It is a part of the text.
    #[verifier::external_body]
    pub(crate) fn first_group(&self, text: &str) -> (r: Option<String>)
        ensures
            match r {
                Some(s) => regex_first_group(self@, text@) == Some(s@) && occurs_in(s@, text@),
                None => regex_first_group(self@, text@) is None,
            },
    {
        match self.compiled.captures(text)?.get(1) {
            Some(group) => Some(group.as_str().to_string()),
            None => None,
        }
    }
}

} // verus!
