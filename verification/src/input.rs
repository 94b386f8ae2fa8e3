//! The request document: its data model and its decoding.
//!
//! A request is one JSON object with `pattern`, `text` and `replacement`
//! string members. The JSON reading itself is delegated to serde_json behind
//! one trusted wrapper; what the wrapper reports of a byte buffer is named by
//! two uninterpreted functions, and the classification of a buffer into a
//! request or an `InvalidInput` error is verified against those names.

use vstd::prelude::*;
use vstd::string::StringExecFns;

use crate::ReplexErr;

verus! {

/// Names whether serde_json parses a byte buffer as one well-formed JSON
/// document; the parse depends on the bytes alone.
pub uninterp spec fn json_doc_ok(bytes: Seq<u8>) -> bool;

/// Names what serde_json finds under `key` in the document the bytes hold:
/// the member's characters where the document is an object whose member
/// `key` is a string, and nothing where that member is absent or not a
/// string. Meaningful only where `json_doc_ok` holds of the bytes.
pub uninterp spec fn json_string_member(bytes: Seq<u8>, key: Seq<char>) -> Option<Seq<char>>;

/// Relies on `serde_json::from_slice::<serde_json::Value>`,
/// `serde_json::Value::get` and the `Value::String` variant: the document a
/// buffer parses to, and what stands under a key in it, are functions of the
/// bytes and the key alone; serde_json's error carries a non-empty
/// description.
#[verifier::external_body]
fn json_string_field(bytes: &Vec<u8>, key: &str) -> (r: Result<Option<String>, String>)
    ensures
        (r is Ok) == json_doc_ok(bytes@),
        r matches Err(m) ==> m@.len() > 0,
        r matches Ok(f) ==> match f {
            Some(s) => json_string_member(bytes@, key@) == Some(s@),
            None => json_string_member(bytes@, key@) is None,
        },
{
    match serde_json::from_slice::<serde_json::Value>(bytes.as_slice()) {
        Ok(doc) => match doc.get(key) {
            Some(serde_json::Value::String(s)) => Ok(Some(s.clone())),
            _ => Ok(None),
        },
        Err(e) => Err(e.to_string()),
    }
}

/// One decoded request: the three fields every invocation needs, exactly as
/// they stood in the input document.
pub struct UntrustedInput {
    pub pattern: String,
    pub text: String,
    pub replacement: String,
}

/// Mathematical model of a request.
#[verifier::ext_equal]
pub struct RequestView {
    pub pattern: Seq<char>,
    pub text: Seq<char>,
    pub replacement: Seq<char>,
}

impl View for UntrustedInput {
    type V = RequestView;

    open spec fn view(&self) -> RequestView {
        RequestView { pattern: self.pattern@, text: self.text@, replacement: self.replacement@ }
    }
}

/// What a byte buffer decodes to: a request exactly when the bytes hold one
/// well-formed JSON document whose `pattern`, `text` and `replacement`
/// members are strings.
pub open spec fn spec_decoded(bytes: Seq<u8>) -> Option<RequestView> {
    if json_doc_ok(bytes) {
        match (
            json_string_member(bytes, "pattern"@),
            json_string_member(bytes, "text"@),
            json_string_member(bytes, "replacement"@),
        ) {
            (Some(p), Some(t), Some(r)) => Some(RequestView { pattern: p, text: t, replacement: r }),
            _ => None,
        }
    } else {
        None
    }
}

/// Every `InvalidInput` diagnostic starts with these characters.
pub open spec fn invalid_input_prefix() -> Seq<char> {
    "unable to parse the input json: "@
}

pub(crate) proof fn lemma_prefix_of_concat(p: Seq<char>, s: Seq<char>)
    ensures
        p.is_prefix_of(p + s),
{
    assert((p + s).subrange(0, p.len() as int) =~= p);
}

/// Wraps a parser diagnostic as the `InvalidInput` error.
fn invalid_input_err(detail: &str) -> (e: ReplexErr)
    ensures
        e matches ReplexErr::InvalidInput(m) && m@ == invalid_input_prefix() + detail@,
        e matches ReplexErr::InvalidInput(m) && invalid_input_prefix().is_prefix_of(m@),
        e matches ReplexErr::InvalidInput(m) && m@.len() > 0,
{
    proof {
        reveal_strlit("unable to parse the input json: ");
        lemma_prefix_of_concat(invalid_input_prefix(), detail@);
    }
    ReplexErr::InvalidInput("unable to parse the input json: ".to_owned().concat(detail))
}

/// Decodes a byte buffer into a request.
///
/// Succeeds exactly on the buffers `spec_decoded` accepts, and returns the
/// decoded request itself; every rejected buffer yields `InvalidInput` with a
/// non-empty diagnostic.
pub fn parse_input(bytes: &Vec<u8>) -> (r: Result<UntrustedInput, ReplexErr>)
    ensures
        (r is Ok) == (spec_decoded(bytes@) is Some),
        r matches Ok(q) ==> spec_decoded(bytes@) == Some(q@),
        r matches Err(e) ==> e matches ReplexErr::InvalidInput(m)
            && invalid_input_prefix().is_prefix_of(m@) && m@.len() > 0,
{
    let pattern = match json_string_field(bytes, "pattern") {
        Err(m) => {
            return Err(invalid_input_err(m.as_str()));
        },
        Ok(None) => {
            return Err(invalid_input_err("pattern, text and replacement must be strings"));
        },
        Ok(Some(s)) => s,
    };
    let text = match json_string_field(bytes, "text") {
        Err(m) => {
            return Err(invalid_input_err(m.as_str()));
        },
        Ok(None) => {
            return Err(invalid_input_err("pattern, text and replacement must be strings"));
        },
        Ok(Some(s)) => s,
    };
    let replacement = match json_string_field(bytes, "replacement") {
        Err(m) => {
            return Err(invalid_input_err(m.as_str()));
        },
        Ok(None) => {
            return Err(invalid_input_err("pattern, text and replacement must be strings"));
        },
        Ok(Some(s)) => s,
    };
    Ok(UntrustedInput { pattern, text, replacement })
}

} // verus!
