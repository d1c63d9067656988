//! Parsing primitives for the token-response wire format.
//!
//! The identity service answers a successful token exchange with a flat
//! JSON object whose values are strings, integers and `null`. This module
//! gives the grammar of those scalars as spec functions over character
//! sequences, together with executable parsers proved equal to them:
//!
//! - whitespace: space, tab, carriage return, line feed;
//! - strings: double-quoted, with the single-character escapes
//!   `\" \\ \/ \n \t \r \b \f`; raw control characters and `\u` escapes
//!   are rejected;
//! - integers: an optional minus sign and decimal digits without leading
//!   zeros, of magnitude below 10^18 so that every accepted value fits
//!   comfortably in an `i64`.
//!
//! Positions are character indices into the decoded text, not byte
//! offsets.
use vstd::prelude::*;
use vstd::string::*;

verus! {

/// The largest accumulator that may take one more decimal digit while
/// keeping the running value below 10^18.
pub const DIGIT_ACC_CAP: i64 = 100_000_000_000_000_000;

/// Every value accepted by the integer grammar has magnitude below this
/// bound.
pub const INT_MAGNITUDE_BOUND: i64 = 1_000_000_000_000_000_000;

/// One parsed JSON scalar.
pub enum JsonScalar {
    Str(String),
    Int(i64),
    Null,
}

/// The mathematical value of a scalar: the character sequence of a
/// string, the integer of a number, or `null`.
pub enum ScalarView {
    Str(Seq<char>),
    Int(int),
    Null,
}

impl View for JsonScalar {
    type V = ScalarView;

    open spec fn view(&self) -> ScalarView {
        match self {
            JsonScalar::Str(v) => ScalarView::Str(v@),
            JsonScalar::Int(v) => ScalarView::Int(*v as int),
            JsonScalar::Null => ScalarView::Null,
        }
    }
}

/// JSON insignificant whitespace.
pub open spec fn is_json_ws(c: char) -> bool {
    c == ' ' || c == '\t' || c == '\n' || c == '\r'
}

/// A decimal digit.
pub open spec fn is_dec_digit(c: char) -> bool {
    48 <= c as u32 && c as u32 <= 57
}

/// The numeric value of a decimal digit.
pub open spec fn dec_digit_value(c: char) -> int {
    c as u32 - 48
}

/// The first position at or after `i` that does not hold whitespace.
pub open spec fn spec_skip_ws(s: Seq<char>, i: int) -> int
    decreases s.len() - i,
{
    if 0 <= i < s.len() && is_json_ws(s[i]) {
        spec_skip_ws(s, i + 1)
    } else {
        i
    }
}

/// Skip insignificant whitespace.
pub fn skip_ws(s: &str, i: usize) -> (r: usize)
    requires
        i <= s@.len(),
    ensures
        r as int == spec_skip_ws(s@, i as int),
        i <= r <= s@.len(),
    decreases s@.len() - i,
{
    let n = s.unicode_len();
    if i < n {
        let c = s.get_char(i);
        if c == ' ' || c == '\t' || c == '\n' || c == '\r' {
            return skip_ws(s, i + 1);
        }
    }
    i
}

/// What a string escape decodes to: `None` for the escapes the grammar
/// does not accept.
pub open spec fn escape_value(c: char) -> Option<char> {
    if c == '"' {
        Some('"')
    } else if c == '\\' {
        Some('\\')
    } else if c == '/' {
        Some('/')
    } else if c == 'n' {
        Some('\n')
    } else if c == 't' {
        Some('\t')
    } else if c == 'r' {
        Some('\r')
    } else if c == 'b' {
        Some('\u{0008}')
    } else if c == 'f' {
        Some('\u{000C}')
    } else {
        None
    }
}

/// The decoded escape as a one-character string slice, or `None` for an
/// escape outside the grammar.
fn escape_literal(c: char) -> (r: Option<&'static str>)
    ensures
        match r {
            Some(d) => escape_value(c) matches Some(e) && d@ == seq![e],
            None => escape_value(c) is None,
        },
{
    proof {
        reveal_strlit("\"");
        reveal_strlit("\\");
        reveal_strlit("/");
        reveal_strlit("\n");
        reveal_strlit("\t");
        reveal_strlit("\r");
        reveal_strlit("\u{0008}");
        reveal_strlit("\u{000C}");
    }
    if c == '"' {
        Some("\"")
    } else if c == '\\' {
        Some("\\")
    } else if c == '/' {
        Some("/")
    } else if c == 'n' {
        Some("\n")
    } else if c == 't' {
        Some("\t")
    } else if c == 'r' {
        Some("\r")
    } else if c == 'b' {
        Some("\u{0008}")
    } else if c == 'f' {
        Some("\u{000C}")
    } else {
        None
    }
}

/// The decoded body of a string, starting just after the opening quote:
/// the decoded characters and the position just after the closing quote.
/// Raw control characters and unsupported escapes yield `None`.
pub open spec fn spec_parse_string_body(s: Seq<char>, i: int) -> Option<(Seq<char>, int)>
    decreases s.len() - i,
{
    if !(0 <= i < s.len()) {
        None
    } else if s[i] == '"' {
        Some((Seq::empty(), i + 1))
    } else if s[i] == '\\' {
        if i + 1 < s.len() && escape_value(s[i + 1]) is Some {
            match spec_parse_string_body(s, i + 2) {
                Some((rest, j)) => Some((seq![escape_value(s[i + 1]).unwrap()] + rest, j)),
                None => None,
            }
        } else {
            None
        }
    } else if (s[i] as u32) < 32 {
        None
    } else {
        match spec_parse_string_body(s, i + 1) {
            Some((rest, j)) => Some((seq![s[i]] + rest, j)),
            None => None,
        }
    }
}

/// Parse the body of a string, starting just after the opening quote.
pub fn parse_string_body(s: &str, i: usize) -> (r: Option<(String, usize)>)
    requires
        i <= s@.len(),
    ensures
        match r {
            Some(p) => spec_parse_string_body(s@, i as int) == Some((p.0@, p.1 as int)) && i < p.1
                <= s@.len(),
            None => spec_parse_string_body(s@, i as int) is None,
        },
    decreases s@.len() - i,
{
    let n = s.unicode_len();
    if i >= n {
        return None;
    }
    let c = s.get_char(i);
    if c == '"' {
        let out = String::new();
        proof {
            assert(out@ =~= Seq::<char>::empty());
        }
        Some((out, i + 1))
    } else if c == '\\' {
        if i + 1 < n {
            let e = s.get_char(i + 1);
            match escape_literal(e) {
                Some(d) => {
                    match parse_string_body(s, i + 2) {
                        Some((rest, j)) => {
                            let mut out = String::from_str(d);
                            out.append(rest.as_str());
                            Some((out, j))
                        },
                        None => None,
                    }
                },
                None => None,
            }
        } else {
            None
        }
    } else if (c as u32) < 32 {
        None
    } else {
        match parse_string_body(s, i + 1) {
            Some((rest, j)) => {
                let head = s.substring_char(i, i + 1);
                let mut out = String::from_str(head);
                out.append(rest.as_str());
                proof {
                    assert(head@ =~= seq![s@[i as int]]);
                }
                Some((out, j))
            },
            None => None,
        }
    }
}

/// Characters that a string member can hold without any escaping.
pub open spec fn needs_no_escape(w: Seq<char>) -> bool {
    forall|k: int| 0 <= k < w.len() ==> w[k] != '"' && w[k] != '\\' && (w[k] as u32) >= 32
}

/// Round-trip fidelity of string members: a text that needs no escaping,
/// written between quotes, parses back to exactly the characters that
/// were written, with the position landing just after the closing quote.
pub proof fn lemma_string_body_round_trip(s: Seq<char>, i: int, w: Seq<char>)
    requires
        0 <= i,
        i + w.len() < s.len(),
        s.subrange(i, i + w.len()) == w,
        s[i + w.len()] == '"',
        needs_no_escape(w),
    ensures
        spec_parse_string_body(s, i) == Some((w, i + w.len() + 1)),
    decreases w.len(),
{
    if w.len() == 0 {
        assert(s[i] == '"');
        assert(w =~= Seq::<char>::empty());
    } else {
        assert(s[i] == s.subrange(i, i + w.len())[0]);
        assert(s[i] == w[0]);
        let tail = w.drop_first();
        assert(s.subrange(i + 1, i + 1 + tail.len()) =~= tail);
        lemma_string_body_round_trip(s, i + 1, tail);
        assert(seq![s[i]] + tail =~= w);
    }
}

/// The value of a run of decimal digits appended to the accumulator
/// `acc`, and the position after the run. `None` when the running value
/// would reach 10^18.
pub open spec fn spec_parse_digits(s: Seq<char>, i: int, acc: int) -> Option<(int, int)>
    decreases s.len() - i,
{
    if 0 <= i < s.len() && is_dec_digit(s[i]) {
        if acc >= DIGIT_ACC_CAP {
            None
        } else {
            spec_parse_digits(s, i + 1, acc * 10 + dec_digit_value(s[i]))
        }
    } else {
        Some((acc, i))
    }
}

/// Accumulate a run of decimal digits.
fn parse_digits(s: &str, i: usize, acc: i64) -> (r: Option<(i64, usize)>)
    requires
        i <= s@.len(),
        0 <= acc < INT_MAGNITUDE_BOUND,
    ensures
        match r {
            Some(p) => spec_parse_digits(s@, i as int, acc as int) == Some((p.0 as int, p.1 as int))
                && i <= p.1 <= s@.len() && 0 <= p.0 < INT_MAGNITUDE_BOUND,
            None => spec_parse_digits(s@, i as int, acc as int) is None,
        },
    decreases s@.len() - i,
{
    let n = s.unicode_len();
    if i < n {
        let c = s.get_char(i);
        let u = c as u32;
        if 48 <= u && u <= 57 {
            if acc >= DIGIT_ACC_CAP {
                return None;
            }
            let d = (u - 48) as i64;
            return parse_digits(s, i + 1, acc * 10 + d);
        }
    }
    Some((acc, i))
}

/// Ten to the `k`.
pub open spec fn pow10(k: nat) -> int
    decreases k,
{
    if k == 0 {
        1
    } else {
        10 * pow10((k - 1) as nat)
    }
}

/// A sequence made of decimal digits only.
pub open spec fn all_dec_digits(w: Seq<char>) -> bool {
    forall|k: int| 0 <= k < w.len() ==> is_dec_digit(w[k])
}

/// The standard positional value of a run of decimal digits.
pub open spec fn digits_value(w: Seq<char>) -> int
    decreases w.len(),
{
    if w.len() == 0 {
        0
    } else {
        10 * digits_value(w.drop_last()) + dec_digit_value(w.last())
    }
}

proof fn lemma_pow10_pos(k: nat)
    ensures
        pow10(k) >= 1,
    decreases k,
{
    if k > 0 {
        lemma_pow10_pos((k - 1) as nat);
    }
}

proof fn lemma_digits_value_nonneg(w: Seq<char>)
    requires
        all_dec_digits(w),
    ensures
        digits_value(w) >= 0,
    decreases w.len(),
{
    if w.len() > 0 {
        assert(all_dec_digits(w.drop_last()));
        lemma_digits_value_nonneg(w.drop_last());
    }
}

proof fn lemma_digits_value_front(w: Seq<char>)
    requires
        w.len() >= 1,
        all_dec_digits(w),
    ensures
        digits_value(w) == dec_digit_value(w[0]) * pow10((w.len() - 1) as nat) + digits_value(
            w.drop_first(),
        ),
    decreases w.len(),
{
    if w.len() == 1 {
        assert(w.drop_last() =~= Seq::<char>::empty());
        assert(w.drop_first() =~= Seq::<char>::empty());
        assert(w.last() == w[0]);
        let p = pow10(0);
        assert(p == 1);
        assert(dec_digit_value(w[0]) * p == dec_digit_value(w[0])) by (nonlinear_arith)
            requires
                p == 1,
        ;
    } else {
        let head = w.drop_last();
        let tail = w.drop_first();
        assert(all_dec_digits(head));
        assert(head[0] == w[0]);
        lemma_digits_value_front(head);
        assert(head.drop_first() =~= tail.drop_last());
        assert(tail.last() == w.last());
        let d0 = dec_digit_value(w[0]);
        let p = pow10((w.len() - 2) as nat);
        assert(pow10((w.len() - 1) as nat) == 10 * p);
        assert(digits_value(head) == d0 * p + digits_value(tail.drop_last()));
        assert(digits_value(w) == 10 * (d0 * p + digits_value(tail.drop_last())) + dec_digit_value(
            w.last(),
        ));
        assert(10 * (d0 * p + digits_value(tail.drop_last())) == d0 * (10 * p) + 10 * digits_value(
            tail.drop_last(),
        )) by (nonlinear_arith);
        assert(digits_value(tail) == 10 * digits_value(tail.drop_last()) + dec_digit_value(
            tail.last(),
        ));
    }
}

proof fn lemma_digits_parse(s: Seq<char>, i: int, w: Seq<char>, acc: int)
    requires
        0 <= i,
        i + w.len() <= s.len(),
        s.subrange(i, i + w.len()) == w,
        all_dec_digits(w),
        i + w.len() == s.len() || !is_dec_digit(s[i + w.len()]),
        0 <= acc,
        acc * pow10(w.len() as nat) + digits_value(w) < INT_MAGNITUDE_BOUND as int,
    ensures
        spec_parse_digits(s, i, acc) == Some(
            (acc * pow10(w.len() as nat) + digits_value(w), i + w.len()),
        ),
    decreases w.len(),
{
    if w.len() == 0 {
        assert(w =~= Seq::<char>::empty());
    } else {
        assert(s[i] == s.subrange(i, i + w.len())[0]);
        assert(s[i] == w[0]);
        let tail = w.drop_first();
        let d0 = dec_digit_value(w[0]);
        let p = pow10((w.len() - 1) as nat);
        lemma_pow10_pos((w.len() - 1) as nat);
        assert(all_dec_digits(tail));
        lemma_digits_value_nonneg(tail);
        lemma_digits_value_front(w);
        // the running value stays below the bound, so the cap is not hit
        assert(acc * (10 * p) == (acc * 10) * p) by (nonlinear_arith);
        assert((acc * 10) * p >= acc * 10) by (nonlinear_arith)
            requires
                acc >= 0,
                p >= 1,
        ;
        assert(d0 * p >= 0) by (nonlinear_arith)
            requires
                d0 >= 0,
                p >= 1,
        ;
        assert(acc * 10 < INT_MAGNITUDE_BOUND as int);
        assert(acc < DIGIT_ACC_CAP as int);
        let acc2 = acc * 10 + d0;
        assert((acc * 10 + d0) * p == acc * (10 * p) + d0 * p) by (nonlinear_arith);
        assert(acc2 * p + digits_value(tail) == acc * pow10(w.len() as nat) + digits_value(w));
        assert(s.subrange(i + 1, i + 1 + tail.len()) =~= tail);
        lemma_digits_parse(s, i + 1, tail, acc2);
    }
}

/// Round-trip fidelity of integer members: parsing at the start of a
/// maximal run of decimal digits yields the run's standard positional
/// value, whenever that value lies below the grammar's magnitude bound.
pub proof fn lemma_digits_positional(s: Seq<char>, i: int, w: Seq<char>)
    requires
        0 <= i,
        w.len() >= 1,
        i + w.len() <= s.len(),
        s.subrange(i, i + w.len()) == w,
        all_dec_digits(w),
        i + w.len() == s.len() || !is_dec_digit(s[i + w.len()]),
        digits_value(w) < INT_MAGNITUDE_BOUND as int,
    ensures
        spec_parse_digits(s, i, 0) == Some((digits_value(w), i + w.len())),
{
    lemma_digits_value_nonneg(w);
    lemma_pow10_pos(w.len() as nat);
    lemma_digits_parse(s, i, w, 0);
}

/// The integer grammar: an optional minus sign and a run of decimal
/// digits without leading zeros, of magnitude below 10^18.
pub open spec fn spec_parse_int(s: Seq<char>, i: int) -> Option<(int, int)> {
    if !(0 <= i < s.len()) {
        None
    } else {
        let j = if s[i] == '-' {
            i + 1
        } else {
            i
        };
        if !(j < s.len() && is_dec_digit(s[j])) {
            None
        } else if s[j] == '0' && j + 1 < s.len() && is_dec_digit(s[j + 1]) {
            None
        } else {
            match spec_parse_digits(s, j, 0) {
                Some(p) => Some(
                    (
                        if s[i] == '-' {
                            -p.0
                        } else {
                            p.0
                        },
                        p.1,
                    ),
                ),
                None => None,
            }
        }
    }
}

/// Parse an integer at position `i`.
pub fn parse_int(s: &str, i: usize) -> (r: Option<(i64, usize)>)
    requires
        i <= s@.len(),
    ensures
        match r {
            Some(p) => spec_parse_int(s@, i as int) == Some((p.0 as int, p.1 as int)) && i < p.1
                <= s@.len() && -INT_MAGNITUDE_BOUND < p.0 < INT_MAGNITUDE_BOUND,
            None => spec_parse_int(s@, i as int) is None,
        },
{
    let n = s.unicode_len();
    if i >= n {
        return None;
    }
    let negative = s.get_char(i) == '-';
    let j = if negative {
        i + 1
    } else {
        i
    };
    if j >= n {
        return None;
    }
    let c = s.get_char(j);
    let u = c as u32;
    if !(48 <= u && u <= 57) {
        return None;
    }
    if u == 48 && j + 1 < n {
        let next = s.get_char(j + 1);
        let nu = next as u32;
        if 48 <= nu && nu <= 57 {
            return None;
        }
    }
    // Consume the first digit here so that the digit run provably starts
    // below the accumulator cap.
    let d0 = (u - 48) as i64;
    proof {
        assert(spec_parse_digits(s@, j as int, 0) == spec_parse_digits(
            s@,
            j as int + 1,
            dec_digit_value(s@[j as int]),
        ));
    }
    match parse_digits(s, j + 1, d0) {
        Some((v, k)) => {
            let value = if negative {
                -v
            } else {
                v
            };
            Some((value, k))
        },
        None => None,
    }
}

/// The scalar grammar: a string, an integer, or the keyword `null`.
pub open spec fn spec_parse_scalar(s: Seq<char>, i: int) -> Option<(ScalarView, int)> {
    if !(0 <= i < s.len()) {
        None
    } else if s[i] == '"' {
        match spec_parse_string_body(s, i + 1) {
            Some(p) => Some((ScalarView::Str(p.0), p.1)),
            None => None,
        }
    } else if s[i] == '-' || is_dec_digit(s[i]) {
        match spec_parse_int(s, i) {
            Some(p) => Some((ScalarView::Int(p.0), p.1)),
            None => None,
        }
    } else if s[i] == 'n' {
        if i + 4 <= s.len() && s[i + 1] == 'u' && s[i + 2] == 'l' && s[i + 3] == 'l' {
            Some((ScalarView::Null, i + 4))
        } else {
            None
        }
    } else {
        None
    }
}

/// Parse one scalar value at position `i`.
pub fn parse_scalar(s: &str, i: usize) -> (r: Option<(JsonScalar, usize)>)
    requires
        i <= s@.len(),
    ensures
        match r {
            Some(p) => spec_parse_scalar(s@, i as int) == Some((p.0@, p.1 as int)) && i < p.1
                <= s@.len(),
            None => spec_parse_scalar(s@, i as int) is None,
        },
{
    let n = s.unicode_len();
    if i >= n {
        return None;
    }
    let c = s.get_char(i);
    let u = c as u32;
    if c == '"' {
        match parse_string_body(s, i + 1) {
            Some((v, j)) => Some((JsonScalar::Str(v), j)),
            None => None,
        }
    } else if c == '-' || (48 <= u && u <= 57) {
        match parse_int(s, i) {
            Some((v, j)) => Some((JsonScalar::Int(v), j)),
            None => None,
        }
    } else if c == 'n' {
        if n - i >= 4 && s.get_char(i + 1) == 'u' && s.get_char(i + 2) == 'l' && s.get_char(i + 3)
            == 'l' {
            Some((JsonScalar::Null, i + 4))
        } else {
            None
        }
    } else {
        None
    }
}

} // verus!
