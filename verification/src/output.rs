//! The response document: its data model and a verified JSON encoder for it.
//!
//! The encoder renders exactly one shape, an object with a `replaced_text`
//! string and an `error` member that is `null` or an object with an integer
//! `code` and a string `message`. String escaping and integer rendering are
//! specified character by character and the executable encoder is proved to
//! produce exactly the specified sequence.

use vstd::prelude::*;
use vstd::string::StrSliceExecFns;

verus! {

/// The error branch of a response: a numeric code and a diagnostic message.
pub struct ErrorDto {
    pub code: i32,
    pub message: String,
}

/// Mathematical model of an `ErrorDto`.
#[verifier::ext_equal]
pub struct ErrorDtoView {
    pub code: int,
    pub message: Seq<char>,
}

impl View for ErrorDto {
    type V = ErrorDtoView;

    open spec fn view(&self) -> ErrorDtoView {
        ErrorDtoView { code: self.code as int, message: self.message@ }
    }
}

/// The uniform response shape: the replaced text (the empty string on the
/// failure path) and the error branch (`None` on success).
pub struct ReplaceResult {
    pub replaced_text: String,
    pub error: Option<ErrorDto>,
}

/// Mathematical model of a `ReplaceResult`.
#[verifier::ext_equal]
pub struct ReplaceResultView {
    pub replaced_text: Seq<char>,
    pub error: Option<ErrorDtoView>,
}

impl View for ReplaceResult {
    type V = ReplaceResultView;

    open spec fn view(&self) -> ReplaceResultView {
        ReplaceResultView {
            replaced_text: self.replaced_text@,
            error: match self.error {
                Some(e) => Some(e@),
                None => None,
            },
        }
    }
}

/// The character standing for one hexadecimal digit, lower case.
pub open spec fn hex_digit(n: int) -> char {
    if n == 0 {
        '0'
    } else if n == 1 {
        '1'
    } else if n == 2 {
        '2'
    } else if n == 3 {
        '3'
    } else if n == 4 {
        '4'
    } else if n == 5 {
        '5'
    } else if n == 6 {
        '6'
    } else if n == 7 {
        '7'
    } else if n == 8 {
        '8'
    } else if n == 9 {
        '9'
    } else if n == 10 {
        'a'
    } else if n == 11 {
        'b'
    } else if n == 12 {
        'c'
    } else if n == 13 {
        'd'
    } else if n == 14 {
        'e'
    } else {
        'f'
    }
}

/// How one character is written inside a JSON string: quote and backslash get
/// a two-character escape, the control characters with a short form get it,
/// every other control character becomes a `\u00..` sequence, and everything
/// else stands for itself.
pub open spec fn escape_char(c: char) -> Seq<char> {
    if c == '"' {
        seq!['\\', '"']
    } else if c == '\\' {
        seq!['\\', '\\']
    } else if c == '\u{8}' {
        seq!['\\', 'b']
    } else if c == '\t' {
        seq!['\\', 't']
    } else if c == '\n' {
        seq!['\\', 'n']
    } else if c == '\u{c}' {
        seq!['\\', 'f']
    } else if c == '\r' {
        seq!['\\', 'r']
    } else if (c as u32) < 32 {
        seq!['\\', 'u', '0', '0', hex_digit(c as u32 as int / 16), hex_digit(c as u32 as int % 16)]
    } else {
        seq![c]
    }
}

/// How a whole string is written inside a JSON string: each character escaped
/// in order.
pub open spec fn escape_seq(s: Seq<char>) -> Seq<char>
    decreases s.len(),
{
    if s.len() == 0 {
        Seq::empty()
    } else {
        escape_char(s[0]) + escape_seq(s.drop_first())
    }
}

/// The decimal digits of a non-negative integer, most significant first.
pub open spec fn dec_rep_nat(n: int) -> Seq<char>
    decreases n,
{
    if n < 10 {
        seq![hex_digit(n)]
    } else {
        dec_rep_nat(n / 10) + seq![hex_digit(n % 10)]
    }
}

/// The decimal rendering of an integer, with a leading minus sign when it is
/// negative.
pub open spec fn dec_rep(n: int) -> Seq<char> {
    if n < 0 {
        seq!['-'] + dec_rep_nat(-n)
    } else {
        dec_rep_nat(n)
    }
}

/// The exact character sequence of the emitted JSON document for a response.
pub open spec fn spec_rendered(r: ReplaceResultView) -> Seq<char> {
    "{\"replaced_text\":\""@ + escape_seq(r.replaced_text) + "\",\"error\":"@ + (match r.error {
        None => "null"@,
        Some(e) => "{\"code\":"@ + dec_rep(e.code) + ",\"message\":\""@ + escape_seq(e.message)
            + "\"}"@,
    }) + "}"@
}

fn hex_digit_char(n: u32) -> (c: char)
    requires
        n < 16,
    ensures
        c == hex_digit(n as int),
{
    if n == 0 {
        '0'
    } else if n == 1 {
        '1'
    } else if n == 2 {
        '2'
    } else if n == 3 {
        '3'
    } else if n == 4 {
        '4'
    } else if n == 5 {
        '5'
    } else if n == 6 {
        '6'
    } else if n == 7 {
        '7'
    } else if n == 8 {
        '8'
    } else if n == 9 {
        '9'
    } else if n == 10 {
        'a'
    } else if n == 11 {
        'b'
    } else if n == 12 {
        'c'
    } else if n == 13 {
        'd'
    } else if n == 14 {
        'e'
    } else {
        'f'
    }
}

fn push_escaped_char(out: &mut Vec<char>, c: char)
    ensures
        final(out)@ == old(out)@ + escape_char(c),
{
    if c == '"' {
        out.push('\\');
        out.push('"');
    } else if c == '\\' {
        out.push('\\');
        out.push('\\');
    } else if c == '\u{8}' {
        out.push('\\');
        out.push('b');
    } else if c == '\t' {
        out.push('\\');
        out.push('t');
    } else if c == '\n' {
        out.push('\\');
        out.push('n');
    } else if c == '\u{c}' {
        out.push('\\');
        out.push('f');
    } else if c == '\r' {
        out.push('\\');
        out.push('r');
    } else if (c as u32) < 32 {
        let v: u32 = c as u32;
        out.push('\\');
        out.push('u');
        out.push('0');
        out.push('0');
        out.push(hex_digit_char(v / 16));
        out.push(hex_digit_char(v % 16));
    } else {
        out.push(c);
    }
    proof {
        assert(out@ =~= old(out)@ + escape_char(c));
    }
}

proof fn lemma_escape_seq_snoc(s: Seq<char>, c: char)
    ensures
        escape_seq(s.push(c)) == escape_seq(s) + escape_char(c),
    decreases s.len(),
{
    if s.len() == 0 {
        assert(s.push(c)[0] == c);
        assert(s.push(c).drop_first() =~= Seq::<char>::empty());
        assert(escape_seq(s.push(c).drop_first()) == Seq::<char>::empty());
        assert(escape_seq(s.push(c)) == escape_char(c) + escape_seq(s.push(c).drop_first()));
        assert(escape_seq(s.push(c)) =~= escape_seq(s) + escape_char(c));
    } else {
        lemma_escape_seq_snoc(s.drop_first(), c);
        assert(s.push(c).drop_first() =~= s.drop_first().push(c));
        assert(s.push(c)[0] == s[0]);
        assert(escape_seq(s.push(c)) =~= escape_seq(s) + escape_char(c));
    }
}

/// Appends the escaped form of `s` to `out`.
fn append_escaped(out: &mut Vec<char>, s: &str)
    ensures
        final(out)@ == old(out)@ + escape_seq(s@),
{
    let n: usize = s.unicode_len();
    proof {
        assert(old(out)@ + escape_seq(s@.take(0)) =~= old(out)@);
    }
    let mut i: usize = 0;
    while i < n
        invariant
            i <= n,
            n == s@.len(),
            out@ == old(out)@ + escape_seq(s@.take(i as int)),
        decreases n - i,
    {
        let c = s.get_char(i);
        proof {
            lemma_escape_seq_snoc(s@.take(i as int), s@[i as int]);
            assert(s@.take(i as int).push(s@[i as int]) =~= s@.take(i as int + 1));
        }
        push_escaped_char(out, c);
        i += 1;
    }
    proof {
        assert(s@.take(n as int) =~= s@);
    }
}

/// Appends the characters of `s` to `out` unchanged.
fn append_str(out: &mut Vec<char>, s: &str)
    ensures
        final(out)@ == old(out)@ + s@,
{
    let n: usize = s.unicode_len();
    proof {
        assert(old(out)@ + s@.take(0) =~= old(out)@);
    }
    let mut i: usize = 0;
    while i < n
        invariant
            i <= n,
            n == s@.len(),
            out@ == old(out)@ + s@.take(i as int),
        decreases n - i,
    {
        let c = s.get_char(i);
        proof {
            assert(s@.take(i as int).push(s@[i as int]) =~= s@.take(i as int + 1));
        }
        out.push(c);
        i += 1;
    }
    proof {
        assert(s@.take(n as int) =~= s@);
    }
}

fn append_decimal_u32(out: &mut Vec<char>, n: u32)
    ensures
        final(out)@ == old(out)@ + dec_rep_nat(n as int),
    decreases n,
{
    if n >= 10 {
        proof {
            assert(n / 10 < n) by (nonlinear_arith)
                requires
                    n >= 10,
            ;
        }
        append_decimal_u32(out, n / 10);
        out.push(hex_digit_char(n % 10));
        proof {
            assert(out@ =~= old(out)@ + dec_rep_nat(n as int));
        }
    } else {
        out.push(hex_digit_char(n % 10));
        proof {
            assert(n % 10 == n as int);
            assert(out@ =~= old(out)@ + dec_rep_nat(n as int));
        }
    }
}

fn append_decimal_i32(out: &mut Vec<char>, n: i32)
    ensures
        final(out)@ == old(out)@ + dec_rep(n as int),
{
    if n < 0 {
        out.push('-');
        let m: u32 = (-(n as i64)) as u32;
        proof {
            assert(m as int == -(n as int));
        }
        append_decimal_u32(out, m);
        proof {
            assert(out@ =~= old(out)@ + dec_rep(n as int));
        }
    } else {
        append_decimal_u32(out, n as u32);
    }
}

/// Relies on `String`'s `FromIterator` implementation over `char` to assemble
/// the collected characters into a `String`; the standard library documents it
/// as concatenating the characters in order, and vstd gives it no
/// specification.
#[verifier::external_body]
fn chars_to_string(v: &Vec<char>) -> (r: String)
    ensures
        r@ == v@,
{
    v.iter().collect()
}

/// Serializes a response as the single JSON document that one invocation
/// emits: exactly the character sequence `spec_rendered` describes.
pub fn render_result(r: &ReplaceResult) -> (out: String)
    ensures
        out@ == spec_rendered(r@),
{
    let mut buf: Vec<char> = Vec::new();
    append_str(&mut buf, "{\"replaced_text\":\"");
    append_escaped(&mut buf, r.replaced_text.as_str());
    append_str(&mut buf, "\",\"error\":");
    match &r.error {
        None => {
            append_str(&mut buf, "null");
        },
        Some(e) => {
            append_str(&mut buf, "{\"code\":");
            append_decimal_i32(&mut buf, e.code);
            append_str(&mut buf, ",\"message\":\"");
            append_escaped(&mut buf, e.message.as_str());
            append_str(&mut buf, "\"}");
        },
    }
    append_str(&mut buf, "}");
    proof {
        assert(buf@ =~= spec_rendered(r@));
    }
    chars_to_string(&buf)
}

} // verus!
