use replex::input::parse_input;
use replex::output::{render_result, ErrorDto, ReplaceResult};
use replex::{respond, sub, to_replace_result, ReplexErr, MAX_INPUT_BYTES};

fn bytes_of(s: &str) -> Vec<u8> {
    s.as_bytes().to_vec()
}

#[test]
fn scenario_simple_replacement() {
    let input = bytes_of(r#"{"pattern":"a+","text":"baaab","replacement":"X"}"#);
    assert_eq!(respond(&input), r#"{"replaced_text":"bXb","error":null}"#);
}

#[test]
fn scenario_capture_group_expansion() {
    let input = bytes_of(r#"{"pattern":"(\\d+)","text":"id=42","replacement":"[$1]"}"#);
    assert_eq!(respond(&input), r#"{"replaced_text":"id=[42]","error":null}"#);
}

#[test]
fn scenario_invalid_pattern() {
    let input = bytes_of(r#"{"pattern":"(","text":"x","replacement":"y"}"#);
    let out = respond(&input);
    assert!(out.starts_with(
        r#"{"replaced_text":"","error":{"code":2,"message":"invalid regular expression: "#
    ));
    assert!(out.ends_with(r#""}}"#));
}

#[test]
fn scenario_not_json() {
    let input = bytes_of("not-json");
    let out = respond(&input);
    assert!(out.starts_with(
        r#"{"replaced_text":"","error":{"code":1,"message":"unable to parse the input json: "#
    ));
    assert!(out.ends_with(r#""}}"#));
}

#[test]
fn scenario_truncated_oversized_input() {
    let mut doc = String::from(r#"{"pattern":"a","text":""#);
    doc.push_str(&"x".repeat(MAX_INPUT_BYTES));
    doc.push_str(r#"","replacement":"y"}"#);
    assert!(doc.len() > MAX_INPUT_BYTES);
    let truncated: Vec<u8> = doc.as_bytes()[..MAX_INPUT_BYTES].to_vec();
    let out = respond(&truncated);
    assert!(out.starts_with(r#"{"replaced_text":"","error":{"code":1,"message":"#));
}

#[test]
fn no_match_leaves_text_unchanged() {
    let input = bytes_of(r#"{"pattern":"z","text":"abc def","replacement":"!"}"#);
    assert_eq!(respond(&input), r#"{"replaced_text":"abc def","error":null}"#);
}

#[test]
fn no_match_substitution_is_idempotent() {
    let input = bytes_of(r#"{"pattern":"q[0-9]","text":"plain body","replacement":"***"}"#);
    let first = respond(&input);
    let second = respond(&input);
    assert_eq!(first, r#"{"replaced_text":"plain body","error":null}"#);
    assert_eq!(first, second);
}

#[test]
fn literal_pattern_single_occurrence() {
    let input = bytes_of(r#"{"pattern":"xyz","text":"a xyz b","replacement":"Q"}"#);
    assert_eq!(respond(&input), r#"{"replaced_text":"a Q b","error":null}"#);
}

#[test]
fn replaces_every_nonoverlapping_match() {
    let input = bytes_of(r#"{"pattern":"ab","text":"ababab","replacement":"-"}"#);
    assert_eq!(respond(&input), r#"{"replaced_text":"---","error":null}"#);
}

#[test]
fn missing_member_is_invalid_input() {
    let input = bytes_of(r#"{"pattern":"a","text":"b"}"#);
    let out = respond(&input);
    assert!(out.starts_with(
        r#"{"replaced_text":"","error":{"code":1,"message":"unable to parse the input json: "#
    ));
}

#[test]
fn wrong_member_type_is_invalid_input() {
    let input = bytes_of(r#"{"pattern":3,"text":"b","replacement":"c"}"#);
    let out = respond(&input);
    assert!(out.starts_with(
        r#"{"replaced_text":"","error":{"code":1,"message":"unable to parse the input json: "#
    ));
}

#[test]
fn non_object_document_is_invalid_input() {
    let out = respond(&bytes_of("42"));
    assert!(out.starts_with(
        r#"{"replaced_text":"","error":{"code":1,"message":"unable to parse the input json: "#
    ));
}

#[test]
fn invalid_utf8_is_invalid_input() {
    let input: Vec<u8> = vec![0x7b, 0x22, 0xff, 0xfe, 0x22, 0x7d];
    let out = respond(&input);
    assert!(out.starts_with(r#"{"replaced_text":"","error":{"code":1,"message":"#));
}

#[test]
fn empty_replacement_result_is_success() {
    let input = bytes_of(r#"{"pattern":"a","text":"aaa","replacement":""}"#);
    assert_eq!(respond(&input), r#"{"replaced_text":"","error":null}"#);
}

#[test]
fn extra_members_are_ignored() {
    let input = bytes_of(r#"{"pattern":"a","text":"ab","replacement":"o","note":7}"#);
    assert_eq!(respond(&input), r#"{"replaced_text":"ob","error":null}"#);
}

#[test]
fn parse_input_returns_the_decoded_request() {
    let input = bytes_of(r#"{"pattern":"p+","text":"t t","replacement":"r"}"#);
    let q = parse_input(&input).ok().expect("well-formed request must decode");
    assert_eq!(q.pattern, "p+");
    assert_eq!(q.text, "t t");
    assert_eq!(q.replacement, "r");
}

#[test]
fn parse_input_rejects_malformed_bytes() {
    let r = parse_input(&bytes_of("{"));
    match r {
        Err(ReplexErr::InvalidInput(m)) => {
            assert!(m.starts_with("unable to parse the input json: "));
        }
        _ => panic!("a malformed document must classify as InvalidInput"),
    }
}

#[test]
fn to_result_substitutes() {
    let input = bytes_of(r#"{"pattern":"l+","text":"hello","replacement":"L"}"#);
    let q = parse_input(&input).ok().expect("well-formed request must decode");
    let s = q.to_result().ok().expect("a pattern that compiles must substitute");
    assert_eq!(s, "heLo");
}

#[test]
fn to_result_rejects_bad_pattern() {
    let input = bytes_of(r#"{"pattern":"[","text":"x","replacement":"y"}"#);
    let q = parse_input(&input).ok().expect("well-formed request must decode");
    match q.to_result() {
        Err(ReplexErr::InvalidPattern(m)) => {
            assert!(m.starts_with("invalid regular expression: "));
            assert!(!m.is_empty());
        }
        _ => panic!("a pattern that does not compile must classify as InvalidPattern"),
    }
}

#[test]
fn to_replace_result_maps_the_three_outcomes() {
    let ok = to_replace_result(Ok(String::from("done")));
    assert_eq!(ok.replaced_text, "done");
    assert!(ok.error.is_none());

    let bad_input = to_replace_result(Err(ReplexErr::InvalidInput(String::from("m1"))));
    assert_eq!(bad_input.replaced_text, "");
    let e1 = bad_input.error.expect("InvalidInput must carry an error");
    assert_eq!(e1.code, 1);
    assert_eq!(e1.message, "m1");

    let bad_pattern = to_replace_result(Err(ReplexErr::InvalidPattern(String::from("m2"))));
    assert_eq!(bad_pattern.replaced_text, "");
    let e2 = bad_pattern.error.expect("InvalidPattern must carry an error");
    assert_eq!(e2.code, 2);
    assert_eq!(e2.message, "m2");
}

#[test]
fn sub_returns_replaced_text() {
    let input = bytes_of(r#"{"pattern":"o","text":"foo","replacement":"0"}"#);
    let s = sub(&input).ok().expect("a well-formed request must succeed");
    assert_eq!(s, "f00");
}

#[test]
fn render_success_document() {
    let r = ReplaceResult { replaced_text: String::from("plain"), error: None };
    assert_eq!(render_result(&r), r#"{"replaced_text":"plain","error":null}"#);
}

#[test]
fn render_escapes_quotes_and_backslashes() {
    let r = ReplaceResult { replaced_text: String::from("a\"b\\c"), error: None };
    assert_eq!(render_result(&r), r#"{"replaced_text":"a\"b\\c","error":null}"#);
}

#[test]
fn render_escapes_control_characters() {
    let r = ReplaceResult {
        replaced_text: String::from("tab\there\nand\u{1}ctl"),
        error: None,
    };
    assert_eq!(
        render_result(&r),
        r#"{"replaced_text":"tab\there\nand\u0001ctl","error":null}"#
    );
}

#[test]
fn render_keeps_non_ascii_characters() {
    let r = ReplaceResult { replaced_text: String::from("héllo→"), error: None };
    assert_eq!(render_result(&r), "{\"replaced_text\":\"héllo→\",\"error\":null}");
}

#[test]
fn render_error_document() {
    let r = ReplaceResult {
        replaced_text: String::new(),
        error: Some(ErrorDto { code: 2, message: String::from("why it failed") }),
    };
    assert_eq!(
        render_result(&r),
        r#"{"replaced_text":"","error":{"code":2,"message":"why it failed"}}"#
    );
}

#[test]
fn render_multi_digit_and_negative_codes() {
    let r = ReplaceResult {
        replaced_text: String::new(),
        error: Some(ErrorDto { code: 105, message: String::from("m") }),
    };
    assert_eq!(
        render_result(&r),
        r#"{"replaced_text":"","error":{"code":105,"message":"m"}}"#
    );
    let n = ReplaceResult {
        replaced_text: String::new(),
        error: Some(ErrorDto { code: -7, message: String::from("m") }),
    };
    assert_eq!(
        render_result(&n),
        r#"{"replaced_text":"","error":{"code":-7,"message":"m"}}"#
    );
}

#[test]
fn substitution_handles_unicode_text() {
    let input = bytes_of(r#"{"pattern":"é+","text":"café récréation","replacement":"e"}"#);
    assert_eq!(
        respond(&input),
        r#"{"replaced_text":"cafe recreation","error":null}"#
    );
}

#[test]
fn empty_pattern_matches_at_every_position() {
    let input = bytes_of(r#"{"pattern":"","text":"ab","replacement":"-"}"#);
    assert_eq!(respond(&input), r#"{"replaced_text":"-a-b-","error":null}"#);
}

#[test]
fn whole_match_reference_in_template() {
    let input = bytes_of(r#"{"pattern":"a+","text":"baaab","replacement":"<$0>"}"#);
    assert_eq!(respond(&input), r#"{"replaced_text":"b<aaa>b","error":null}"#);
}

#[test]
fn output_matches_host_encoder_shape() {
    let input = bytes_of(r#"{"pattern":"\n","text":"a\nb","replacement":" "}"#);
    let out = respond(&input);
    let reparsed: serde_json::Value =
        serde_json::from_str(&out).expect("the emitted document must itself be valid JSON");
    assert_eq!(reparsed.get("replaced_text").and_then(|v| v.as_str()), Some("a b"));
    assert!(reparsed.get("error").expect("error member must be present").is_null());
}
