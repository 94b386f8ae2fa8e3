//! A single-shot text-substitution library: a JSON request holding a pattern,
//! a text body and a replacement template is decoded, the pattern is compiled
//! and applied with replace-all semantics, and the outcome (the replaced text
//! or a classified error) is rendered as a single JSON document.

use vstd::prelude::*;

pub mod engine;
pub mod input;
pub mod output;

use crate::engine::{invalid_pattern_prefix, regex_has_match, regex_valid, replace_all_of};
use crate::input::{invalid_input_prefix, parse_input, spec_decoded};
use crate::output::{ErrorDto, ReplaceResult, ReplaceResultView, render_result, spec_rendered};

verus! {

/// Cap on how many input bytes a single invocation considers; a caller that
/// reads from a channel must hand over at most this many bytes.
pub const MAX_INPUT_BYTES: usize = 1048576;

/// Code carried by the emitted error when the input does not decode.
pub const ERR_CODE_INVALID_INPUT: i32 = 1;

/// Code carried by the emitted error when the pattern does not compile.
pub const ERR_CODE_INVALID_PATTERN: i32 = 2;

/// A classified, data-level failure of one invocation. Transport-level I/O
/// failures are not represented here: they belong to the caller that owns the
/// channels.
pub enum ReplexErr {
    /// The input bytes are not a JSON object carrying the three required
    /// string members.
    InvalidInput(String),
    /// The pattern does not compile under the matching dialect.
    InvalidPattern(String),
}

/// Decodes a byte buffer and substitutes per the decoded request.
///
/// This is the whole data-level computation of one invocation: it succeeds
/// exactly when the bytes decode to a request whose pattern compiles, and
/// then returns the text with every non-overlapping match of the pattern
/// replaced by the template; a buffer that does not decode yields
/// `InvalidInput`, and a decoded request whose pattern does not compile
/// yields `InvalidPattern`, each with a non-empty diagnostic. A text the
/// pattern cannot match anywhere comes back unchanged.
pub fn sub(bytes: &Vec<u8>) -> (r: Result<String, ReplexErr>)
    ensures
        (r is Ok) == (spec_decoded(bytes@) matches Some(q) && regex_valid(q.pattern)),
        r matches Ok(s) ==> (spec_decoded(bytes@) matches Some(q) && s@ == replace_all_of(
            q.pattern,
            q.text,
            q.replacement,
        )),
        r matches Ok(s) ==> (spec_decoded(bytes@) matches Some(q) && (!regex_has_match(
            q.pattern,
            q.text,
        ) ==> s@ == q.text)),
        spec_decoded(bytes@) is None ==> (r matches Err(e) && e matches ReplexErr::InvalidInput(m)
            && invalid_input_prefix().is_prefix_of(m@) && m@.len() > 0),
        (spec_decoded(bytes@) matches Some(q) && !regex_valid(q.pattern)) ==> (r matches Err(e)
            && e matches ReplexErr::InvalidPattern(m) && invalid_pattern_prefix().is_prefix_of(m@)
            && m@.len() > 0),
{
    let q = match parse_input(bytes) {
        Ok(q) => q,
        Err(e) => {
            return Err(e);
        },
    };
    q.to_result()
}

/// Folds an invocation's outcome into the uniform response shape: the
/// replaced text with a `null` error on success, and the empty placeholder
/// text with the error's code and message on failure.
pub fn to_replace_result(r: Result<String, ReplexErr>) -> (out: ReplaceResult)
    ensures
        r matches Ok(s) ==> out@.replaced_text == s@ && out@.error is None,
        r matches Err(ReplexErr::InvalidInput(m)) ==> out@.replaced_text.len() == 0
            && (out@.error matches Some(e) && e.code == 1 && e.message == m@),
        r matches Err(ReplexErr::InvalidPattern(m)) ==> out@.replaced_text.len() == 0
            && (out@.error matches Some(e) && e.code == 2 && e.message == m@),
{
    match r {
        Ok(s) => ReplaceResult { replaced_text: s, error: None },
        Err(ReplexErr::InvalidInput(m)) => ReplaceResult {
            replaced_text: String::new(),
            error: Some(ErrorDto { code: ERR_CODE_INVALID_INPUT, message: m }),
        },
        Err(ReplexErr::InvalidPattern(m)) => ReplaceResult {
            replaced_text: String::new(),
            error: Some(ErrorDto { code: ERR_CODE_INVALID_PATTERN, message: m }),
        },
    }
}

/// What a response to a byte buffer must look like: on a buffer that decodes
/// to a request whose pattern compiles, the replaced text and a `null`
/// error; otherwise the empty placeholder text and the error for what went
/// wrong, code 1 for a buffer that does not decode and code 2 for a pattern
/// that does not compile, each with its diagnostic prefix.
pub open spec fn valid_outcome(bytes: Seq<u8>, r: ReplaceResultView) -> bool {
    match spec_decoded(bytes) {
        None => r.replaced_text.len() == 0 && (r.error matches Some(e) && e.code == 1
            && invalid_input_prefix().is_prefix_of(e.message) && e.message.len() > 0),
        Some(q) => if regex_valid(q.pattern) {
            r.replaced_text == replace_all_of(q.pattern, q.text, q.replacement) && r.error is None
        } else {
            r.replaced_text.len() == 0 && (r.error matches Some(e) && e.code == 2
                && invalid_pattern_prefix().is_prefix_of(e.message) && e.message.len() > 0)
        },
    }
}

/// Runs one full invocation on a byte buffer and returns the single JSON
/// document to emit: the rendering of a response that `valid_outcome` admits
/// for these bytes. A request whose pattern compiles but matches nowhere in
/// the text gets its text back verbatim.
pub fn respond(bytes: &Vec<u8>) -> (out: String)
    ensures
        exists|r: ReplaceResultView| #[trigger] valid_outcome(bytes@, r) && out@ == spec_rendered(
            r,
        ),
        spec_decoded(bytes@) matches Some(q) ==> (regex_valid(q.pattern) ==> out@ == spec_rendered(
            (ReplaceResultView {
                replaced_text: replace_all_of(q.pattern, q.text, q.replacement),
                error: None,
            }),
        )),
        spec_decoded(bytes@) matches Some(q) ==> ((regex_valid(q.pattern) && !regex_has_match(
            q.pattern,
            q.text,
        )) ==> out@ == spec_rendered(
            (ReplaceResultView { replaced_text: q.text, error: None }),
        )),
{
    let rslt = to_replace_result(crate::sub(bytes));
    let out = render_result(&rslt);
    proof {
        assert(valid_outcome(bytes@, rslt@));
        match spec_decoded(bytes@) {
            Some(q) => {
                if regex_valid(q.pattern) {
                    assert(rslt@ =~= (ReplaceResultView {
                        replaced_text: replace_all_of(q.pattern, q.text, q.replacement),
                        error: None,
                    }));
                }
                if regex_valid(q.pattern) && !regex_has_match(q.pattern, q.text) {
                    assert(rslt@ =~= (ReplaceResultView { replaced_text: q.text, error: None }));
                }
            },
            None => {},
        }
    }
    out
}

} // verus!
