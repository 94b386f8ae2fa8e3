//! Pattern compilation and substitution.
//!
//! The matching dialect is regex's; compiling a pattern and replacing every
//! non-overlapping match stand behind two trusted wrappers whose results are
//! named by uninterpreted functions, and the classification into a replaced
//! text or an `InvalidPattern` error is verified against those names.

use vstd::prelude::*;
use vstd::string::StringExecFns;

use crate::ReplexErr;
use crate::input::UntrustedInput;
use crate::input::lemma_prefix_of_concat;

verus! {

/// Names whether regex compiles a pattern; compilation depends on the
/// pattern alone.
pub uninterp spec fn regex_valid(pattern: Seq<char>) -> bool;

/// Names whether a pattern that compiles matches anywhere in a text, as
/// `regex::Regex::is_match` would report; matching depends on the pattern
/// and the text alone.
pub uninterp spec fn regex_has_match(pattern: Seq<char>, text: Seq<char>) -> bool;

/// Names the text that replacing every non-overlapping match of a pattern
/// with a replacement template produces; the result depends on the pattern,
/// the text and the template alone.
pub uninterp spec fn replace_all_of(
    pattern: Seq<char>,
    text: Seq<char>,
    replacement: Seq<char>,
) -> Seq<char>;

/// Relies on `regex::Regex::new`: whether a pattern compiles is a function of
/// the pattern alone, and the compilation error describes itself with a
/// non-empty message.
#[verifier::external_body]
fn regex_compile_check(pattern: &str) -> (r: Result<(), String>)
    ensures
        (r is Ok) == regex_valid(pattern@),
        r matches Err(m) ==> m@.len() > 0,
{
    match regex::Regex::new(pattern) {
        Ok(_) => Ok(()),
        Err(e) => Err(e.to_string()),
    }
}

/// Relies on `regex::Regex::new` and `regex::Regex::replace_all`: on a
/// pattern that compiles, the replaced text is a function of the pattern, the
/// text and the replacement template alone, and a text in which the pattern
/// matches nowhere is returned unchanged (as `replace_all` documents).
#[verifier::external_body]
fn regex_replace_all(pattern: &str, text: &str, replacement: &str) -> (r: String)
    requires
        regex_valid(pattern@),
    ensures
        r@ == replace_all_of(pattern@, text@, replacement@),
        !regex_has_match(pattern@, text@) ==> r@ == text@,
{
    let re = regex::Regex::new(pattern).unwrap();
    re.replace_all(text, replacement).into_owned()
}

/// Every `InvalidPattern` diagnostic starts with these characters.
pub open spec fn invalid_pattern_prefix() -> Seq<char> {
    "invalid regular expression: "@
}

/// Wraps a compiler diagnostic as the `InvalidPattern` error.
fn invalid_pattern_err(detail: &str) -> (e: ReplexErr)
    ensures
        e matches ReplexErr::InvalidPattern(m) && m@ == invalid_pattern_prefix() + detail@,
        e matches ReplexErr::InvalidPattern(m) && invalid_pattern_prefix().is_prefix_of(m@),
        e matches ReplexErr::InvalidPattern(m) && m@.len() > 0,
{
    proof {
        reveal_strlit("invalid regular expression: ");
        lemma_prefix_of_concat(invalid_pattern_prefix(), detail@);
    }
    ReplexErr::InvalidPattern("invalid regular expression: ".to_owned().concat(detail))
}

impl UntrustedInput {
    /// Compiles the request's pattern and substitutes every non-overlapping
    /// match of it in the request's text with the replacement template.
    ///
    /// Succeeds exactly when the pattern compiles, with the replaced text; a
    /// text the pattern cannot match anywhere comes back unchanged. A pattern
    /// that does not compile yields `InvalidPattern` with a non-empty
    /// diagnostic.
    pub fn to_result(&self) -> (r: Result<String, ReplexErr>)
        ensures
            (r is Ok) == regex_valid(self.pattern@),
            r matches Ok(s) ==> s@ == replace_all_of(self.pattern@, self.text@, self.replacement@),
            r matches Ok(s) ==> (!regex_has_match(self.pattern@, self.text@) ==> s@ == self.text@),
            r matches Err(e) ==> e matches ReplexErr::InvalidPattern(m)
                && invalid_pattern_prefix().is_prefix_of(m@) && m@.len() > 0,
    {
        match regex_compile_check(self.pattern.as_str()) {
            Ok(()) => Ok(
                regex_replace_all(
                    self.pattern.as_str(),
                    self.text.as_str(),
                    self.replacement.as_str(),
                ),
            ),
            Err(m) => Err(invalid_pattern_err(m.as_str())),
        }
    }
}

} // verus!
