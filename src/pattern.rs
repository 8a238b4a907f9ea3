//! Compiled regular expressions, each carrying the text it was compiled from.

use vstd::prelude::*;

verus! {

#[verifier::external_type_specification]
#[verifier::external_body]
pub struct ExRegex(regex::Regex);

#[verifier::external_type_specification]
#[verifier::external_body]
pub struct ExRegexError(regex::Error);

/// Whether the regex crate accepts `pattern` (its syntax is valid and the
/// compiled program stays under the default size limit).
pub uninterp spec fn regex_compiles(pattern: Seq<char>) -> bool;

/// Whether the regex `pattern` matches somewhere in `haystack`.
pub uninterp spec fn regex_is_match(pattern: Seq<char>, haystack: Seq<char>) -> bool;

/// A compiled regular expression.
pub struct Pattern {
    re: regex::Regex,
    text: Ghost<Seq<char>>,
}

impl Pattern {
    /// The text this pattern was compiled from.
    pub closed spec fn source(&self) -> Seq<char> {
        self.text@
    }

    /// Relies on `regex::Regex::new`: compiles `text`, or reports why not.
    #[verifier::external_body]
    pub fn compile(text: &str) -> (r: Result<Pattern, regex::Error>)
        ensures
            r is Ok <==> regex_compiles(text@),
            r is Ok ==> r->Ok_0.source() == text@,
    {
        match regex::Regex::new(text) {
            Ok(re) => Ok(Pattern { re, text: Ghost(text@) }),
            Err(e) => Err(e),
        }
    }

    /// Relies on `regex::Regex::is_match`: whether the pattern matches anywhere
    /// in `haystack`.
    #[verifier::external_body]
    pub fn is_match(&self, haystack: &str) -> (r: bool)
        ensures
            r == regex_is_match(self.source(), haystack@),
    {
        self.re.is_match(haystack)
    }
}

} // verus!
