//! Parsing wire text into a document tree.
//!
//! `spec_parse` is the mathematical parser: a total recursive definition on
//! character sequences that fixes, for every input, whether it is a
//! well-formed document and which model it denotes.  The executable parser
//! is proved to return exactly `spec_parse` of its input.
//!
//! The grammar is the wire protocol's: JSON documents whose numbers are
//! signed 64-bit integers without fraction or exponent, with the short
//! escapes, `\uXXXX` escapes for scalar values outside the surrogate range,
//! and no raw control characters inside string literals.

use vstd::prelude::*;

use crate::json::{jv_model, jv_model_seq, jv_model_fields, JsonModel, JsonValue};
use crate::json::{lemma_jv_model_seq, lemma_jv_model_fields};
use crate::text::{char_from_u32, push_char, str_chars};

verus! {

/// Insignificant whitespace.
pub open spec fn is_ws(c: char) -> bool {
    c == ' ' || c == '\t' || c == '\n' || c == '\r'
}

/// A decimal digit.
pub open spec fn is_digit(c: char) -> bool {
    48 <= (c as u32) && (c as u32) <= 57
}

/// The value of a decimal digit character.
pub open spec fn digit_val(c: char) -> int {
    (c as u32) - 48
}

/// The value of a hexadecimal digit character, or `-1`.
pub open spec fn hex_val(c: char) -> int {
    let u = c as u32;
    if 48 <= u && u <= 57 {
        u - 48
    } else if 97 <= u && u <= 102 {
        u - 87
    } else if 65 <= u && u <= 70 {
        u - 55
    } else {
        -1
    }
}

/// The first index at or after `i` that does not hold whitespace.
pub open spec fn ws_end(s: Seq<char>, i: int) -> int
    decreases s.len() - i,
    when 0 <= i <= s.len()
{
    if i < s.len() && is_ws(s[i]) {
        ws_end(s, i + 1)
    } else {
        i
    }
}

pub proof fn lemma_ws_end(s: Seq<char>, i: int)
    requires
        0 <= i <= s.len(),
    ensures
        i <= ws_end(s, i) <= s.len(),
    decreases s.len() - i,
{
    if i < s.len() && is_ws(s[i]) {
        lemma_ws_end(s, i + 1);
    }
}

/// The first index at or after `i` that does not hold a decimal digit.
pub open spec fn digits_end(s: Seq<char>, i: int) -> int
    decreases s.len() - i,
    when 0 <= i <= s.len()
{
    if i < s.len() && is_digit(s[i]) {
        digits_end(s, i + 1)
    } else {
        i
    }
}

pub proof fn lemma_digits_end(s: Seq<char>, i: int)
    requires
        0 <= i <= s.len(),
    ensures
        i <= digits_end(s, i) <= s.len(),
        forall|k: int| i <= k < digits_end(s, i) ==> is_digit(s[k]),
    decreases s.len() - i,
{
    if i < s.len() && is_digit(s[i]) {
        lemma_digits_end(s, i + 1);
    }
}

/// The number a run of decimal digits denotes.
pub open spec fn digits_val(run: Seq<char>) -> int
    decreases run,
{
    if run.len() == 0 {
        0
    } else {
        digits_val(run.drop_last()) * 10 + digit_val(run.last())
    }
}

/// Ten to the given power.
pub open spec fn pow10(k: int) -> int
    decreases k,
    when k >= 0
{
    if k <= 0 {
        1
    } else {
        10 * pow10(k - 1)
    }
}

/// A digit run's value is bounded by ten to its length.
pub proof fn lemma_digits_val_upper(run: Seq<char>)
    requires
        forall|k: int| 0 <= k < run.len() ==> is_digit(run[k]),
    ensures
        0 <= digits_val(run) < pow10(run.len() as int),
    decreases run.len(),
{
    if run.len() > 0 {
        lemma_digits_val_upper(run.drop_last());
    }
}

/// A digit run that does not start with zero is at least ten to one less
/// than its length.
pub proof fn lemma_digits_val_lower(run: Seq<char>)
    requires
        run.len() > 0,
        forall|k: int| 0 <= k < run.len() ==> is_digit(run[k]),
        digit_val(run[0]) != 0,
    ensures
        digits_val(run) >= pow10(run.len() - 1),
    decreases run.len(),
{
    if run.len() == 1 {
        reveal_with_fuel(digits_val, 3);
        assert(digit_val(run[0]) >= 1);
        assert(digits_val(run) == digit_val(run[0]));
    } else {
        lemma_digits_val_lower(run.drop_last());
        assert(digits_val(run) >= pow10(run.len() - 2) * 10 + 0);
    }
}

/// The short escapes of the grammar.
pub open spec fn short_escape(e: char) -> Option<char> {
    if e == '"' {
        Some('"')
    } else if e == '\\' {
        Some('\\')
    } else if e == '/' {
        Some('/')
    } else if e == 'b' {
        Some('\u{0008}')
    } else if e == 'f' {
        Some('\u{000C}')
    } else if e == 'n' {
        Some('\n')
    } else if e == 'r' {
        Some('\r')
    } else if e == 't' {
        Some('\t')
    } else {
        None
    }
}

/// The value of the four hexadecimal digits at `i`, or `-1`.
pub open spec fn hex4_val(s: Seq<char>, i: int) -> int {
    if hex_val(s[i]) < 0 || hex_val(s[i + 1]) < 0 || hex_val(s[i + 2]) < 0 || hex_val(s[i + 3])
        < 0 {
        -1
    } else {
        hex_val(s[i]) * 4096 + hex_val(s[i + 1]) * 256 + hex_val(s[i + 2]) * 16 + hex_val(
            s[i + 3],
        )
    }
}

/// A Unicode scalar value: a code point outside the surrogate range.
pub open spec fn is_scalar(u: int) -> bool {
    (0 <= u < 0xD800) || (0xE000 <= u < 0x110000)
}

/// A high (leading) UTF-16 surrogate.
pub open spec fn is_high_surrogate(u: int) -> bool {
    0xD800 <= u < 0xDC00
}

/// A low (trailing) UTF-16 surrogate.
pub open spec fn is_low_surrogate(u: int) -> bool {
    0xDC00 <= u < 0xE000
}

/// The scalar value a surrogate pair spells.
pub open spec fn surrogate_combine(hi: int, lo: int) -> int {
    0x10000 + (hi - 0xD800) * 0x400 + (lo - 0xDC00)
}

/// The content and end of a string literal's body, the opening quote
/// already consumed.  A `\uXXXX` escape spells a scalar value directly, or
/// a character above the basic plane as a high/low surrogate pair; a lone
/// surrogate is malformed.
pub open spec fn parse_string_body(s: Seq<char>, i: int) -> Option<(Seq<char>, int)>
    decreases s.len() - i,
    when 0 <= i <= s.len()
{
    if i >= s.len() {
        None
    } else if s[i] == '"' {
        Some((Seq::empty(), i + 1))
    } else if s[i] == '\\' {
        if i + 1 >= s.len() {
            None
        } else if s[i + 1] == 'u' {
            if i + 6 > s.len() {
                None
            } else {
                let u = hex4_val(s, i + 2);
                if is_scalar(u) {
                    match parse_string_body(s, i + 6) {
                        None => None,
                        Some((t, j)) => Some((seq![((u as u32) as char)] + t, j)),
                    }
                } else if is_high_surrogate(u) {
                    if i + 12 > s.len() {
                        None
                    } else if !(s[i + 6] == '\\' && s[i + 7] == 'u') {
                        None
                    } else {
                        let u2 = hex4_val(s, i + 8);
                        if !is_low_surrogate(u2) {
                            None
                        } else {
                            let c = surrogate_combine(u, u2);
                            match parse_string_body(s, i + 12) {
                                None => None,
                                Some((t, j)) => Some((seq![((c as u32) as char)] + t, j)),
                            }
                        }
                    }
                } else {
                    None
                }
            }
        } else {
            match short_escape(s[i + 1]) {
                None => None,
                Some(c) => match parse_string_body(s, i + 2) {
                    None => None,
                    Some((t, j)) => Some((seq![c] + t, j)),
                },
            }
        }
    } else if (s[i] as u32) < 32 {
        None
    } else {
        match parse_string_body(s, i + 1) {
            None => None,
            Some((t, j)) => Some((seq![s[i]] + t, j)),
        }
    }
}

pub proof fn lemma_parse_string_body_bounds(s: Seq<char>, i: int)
    requires
        0 <= i <= s.len(),
    ensures
        parse_string_body(s, i) matches Some(r) ==> i < r.1 <= s.len(),
    decreases s.len() - i,
{
    if i < s.len() {
        if s[i] == '\\' {
            if i + 1 < s.len() && s[i + 1] == 'u' && i + 6 <= s.len() {
                lemma_parse_string_body_bounds(s, i + 6);
                if i + 12 <= s.len() {
                    lemma_parse_string_body_bounds(s, i + 12);
                }
            } else if i + 1 < s.len() {
                lemma_parse_string_body_bounds(s, i + 2);
            }
        } else if s[i] != '"' {
            lemma_parse_string_body_bounds(s, i + 1);
        }
    }
}

/// The value and end of a number token starting at `i`.
pub open spec fn parse_number(s: Seq<char>, i: int) -> Option<(int, int)> {
    if !(0 <= i < s.len()) {
        None
    } else {
        let d0 = if s[i] == '-' {
            i + 1
        } else {
            i
        };
        if d0 >= s.len() || !is_digit(s[d0]) {
            None
        } else {
            let j = digits_end(s, d0);
            if digit_val(s[d0]) == 0 && j > d0 + 1 {
                None
            } else {
                let v = digits_val(s.subrange(d0, j));
                let sv = if s[i] == '-' {
                    -v
                } else {
                    v
                };
                if sv < -0x8000_0000_0000_0000 || sv > 0x7FFF_FFFF_FFFF_FFFF {
                    None
                } else {
                    Some((sv, j))
                }
            }
        }
    }
}

/// The model and end of the value starting exactly at `i`.
pub open spec fn parse_value(s: Seq<char>, i: int) -> Option<(JsonModel, int)>
    decreases s.len() - i, 0int,
    when 0 <= i <= s.len()
{
    if i >= s.len() {
        None
    } else {
        let c = s[i];
        if c == 'n' {
            if i + 4 <= s.len() && s[i + 1] == 'u' && s[i + 2] == 'l' && s[i + 3] == 'l' {
                Some((JsonModel::Null, i + 4))
            } else {
                None
            }
        } else if c == 't' {
            if i + 4 <= s.len() && s[i + 1] == 'r' && s[i + 2] == 'u' && s[i + 3] == 'e' {
                Some((JsonModel::Bool(true), i + 4))
            } else {
                None
            }
        } else if c == 'f' {
            if i + 5 <= s.len() && s[i + 1] == 'a' && s[i + 2] == 'l' && s[i + 3] == 's' && s[i
                + 4] == 'e' {
                Some((JsonModel::Bool(false), i + 5))
            } else {
                None
            }
        } else if c == '"' {
            match parse_string_body(s, i + 1) {
                None => None,
                Some((t, j)) => Some((JsonModel::Str(t), j)),
            }
        } else if c == '-' || is_digit(c) {
            match parse_number(s, i) {
                None => None,
                Some((v, j)) => Some((JsonModel::Int(v), j)),
            }
        } else if c == '[' {
            let k = ws_end(s, i + 1);
            if !(i < k && k <= s.len()) {
                None
            } else if k < s.len() && s[k] == ']' {
                Some((JsonModel::Arr(Seq::empty()), k + 1))
            } else {
                match parse_items(s, k) {
                    None => None,
                    Some((items, j)) => Some((JsonModel::Arr(items), j)),
                }
            }
        } else if c == '{' {
            let k = ws_end(s, i + 1);
            if !(i < k && k <= s.len()) {
                None
            } else if k < s.len() && s[k] == '}' {
                Some((JsonModel::Obj(Seq::empty()), k + 1))
            } else {
                match parse_members(s, k) {
                    None => None,
                    Some((fields, j)) => Some((JsonModel::Obj(fields), j)),
                }
            }
        } else {
            None
        }
    }
}

/// The models and end of one or more comma-separated array elements,
/// the first starting exactly at `i`, up to and including the closing
/// bracket.
pub open spec fn parse_items(s: Seq<char>, i: int) -> Option<(Seq<JsonModel>, int)>
    decreases s.len() - i, 1int,
    when 0 <= i <= s.len()
{
    match parse_value(s, i) {
        None => None,
        Some((v, j)) => {
            if !(i < j && j <= s.len()) {
                None
            } else {
                let k = ws_end(s, j);
                if !(j <= k && k <= s.len()) {
                    None
                } else if k < s.len() && s[k] == ',' {
                    let n = ws_end(s, k + 1);
                    if !(i < n && n <= s.len()) {
                        None
                    } else {
                        match parse_items(s, n) {
                            None => None,
                            Some((rest, e)) => Some((seq![v] + rest, e)),
                        }
                    }
                } else if k < s.len() && s[k] == ']' {
                    Some((seq![v], k + 1))
                } else {
                    None
                }
            }
        },
    }
}

/// The members and end of one or more comma-separated object members,
/// the first key starting exactly at `i`, up to and including the closing
/// brace.
pub open spec fn parse_members(s: Seq<char>, i: int) -> Option<
    (Seq<(Seq<char>, JsonModel)>, int),
>
    decreases s.len() - i, 1int,
    when 0 <= i <= s.len()
{
    if !(i < s.len() && s[i] == '"') {
        None
    } else {
        match parse_string_body(s, i + 1) {
            None => None,
            Some((key, j)) => {
                if !(i < j && j <= s.len()) {
                    None
                } else {
                    let k = ws_end(s, j);
                    if !(j <= k && k <= s.len() && k < s.len() && s[k] == ':') {
                        None
                    } else {
                        let m = ws_end(s, k + 1);
                        if !(i < m && m <= s.len()) {
                            None
                        } else {
                            match parse_value(s, m) {
                                None => None,
                                Some((v, j2)) => {
                                    if !(m <= j2 && j2 <= s.len()) {
                                        None
                                    } else {
                                        let k2 = ws_end(s, j2);
                                        if !(j2 <= k2 && k2 <= s.len()) {
                                            None
                                        } else if k2 < s.len() && s[k2] == ',' {
                                            let n = ws_end(s, k2 + 1);
                                            if !(i < n && n <= s.len()) {
                                                None
                                            } else {
                                                match parse_members(s, n) {
                                                    None => None,
                                                    Some((rest, e)) => Some(
                                                        (seq![(key, v)] + rest, e),
                                                    ),
                                                }
                                            }
                                        } else if k2 < s.len() && s[k2] == '}' {
                                            Some((seq![(key, v)], k2 + 1))
                                        } else {
                                            None
                                        }
                                    }
                                },
                            }
                        }
                    }
                }
            },
        }
    }
}

/// `pow10` is positive.
pub proof fn lemma_pow10_pos(k: int)
    requires
        0 <= k,
    ensures
        pow10(k) >= 1,
    decreases k,
{
    if k > 0 {
        lemma_pow10_pos(k - 1);
    }
}

/// `pow10` does not decrease.
pub proof fn lemma_pow10_mono(a: int, b: int)
    requires
        0 <= a <= b,
    ensures
        1 <= pow10(a) <= pow10(b),
    decreases b,
{
    lemma_pow10_pos(a);
    if a < b {
        lemma_pow10_mono(a, b - 1);
        lemma_pow10_pos(b - 1);
    }
}

/// The model of a complete document: one value, surrounded only by
/// whitespace.
pub open spec fn spec_parse(s: Seq<char>) -> Option<JsonModel> {
    let i = ws_end(s, 0);
    if !(0 <= i && i <= s.len()) {
        None
    } else {
        match parse_value(s, i) {
            None => None,
            Some((m, j)) => {
                if 0 <= j <= s.len() && ws_end(s, j) == s.len() {
                    Some(m)
                } else {
                    None
                }
            },
        }
    }
}

/// Whitespace, computed.
fn is_ws_x(c: char) -> (r: bool)
    ensures
        r == is_ws(c),
{
    c == ' ' || c == '\t' || c == '\n' || c == '\r'
}

/// A decimal digit, computed.
fn is_digit_x(c: char) -> (r: bool)
    ensures
        r == is_digit(c),
{
    let u = c as u32;
    48 <= u && u <= 57
}

/// The value of a decimal digit, computed.
fn digit_val_x(c: char) -> (r: u32)
    requires
        is_digit(c),
    ensures
        r as int == digit_val(c),
        r <= 9,
{
    (c as u32) - 48
}

/// The value of a hexadecimal digit, computed.
fn hex_val_x(c: char) -> (r: i32)
    ensures
        r as int == hex_val(c),
{
    let u = c as u32;
    if 48 <= u && u <= 57 {
        (u - 48) as i32
    } else if 97 <= u && u <= 102 {
        (u - 87) as i32
    } else if 65 <= u && u <= 70 {
        (u - 55) as i32
    } else {
        -1
    }
}

/// The short escape for `e`, computed.
fn short_escape_x(e: char) -> (r: Option<char>)
    ensures
        r == short_escape(e),
{
    if e == '"' {
        Some('"')
    } else if e == '\\' {
        Some('\\')
    } else if e == '/' {
        Some('/')
    } else if e == 'b' {
        Some('\u{0008}')
    } else if e == 'f' {
        Some('\u{000C}')
    } else if e == 'n' {
        Some('\n')
    } else if e == 'r' {
        Some('\r')
    } else if e == 't' {
        Some('\t')
    } else {
        None
    }
}

/// The end of the whitespace run at `i`, computed.
#[verifier::loop_isolation(false)]
fn ws_end_x(s: &Vec<char>, i: usize) -> (r: usize)
    requires
        i <= s@.len(),
    ensures
        r as int == ws_end(s@, i as int),
        i <= r <= s@.len(),
{
    let mut k: usize = i;
    while k < s.len() && is_ws_x(s[k])
        invariant
            i <= k <= s@.len(),
            ws_end(s@, i as int) == ws_end(s@, k as int),
        decreases s@.len() - k,
    {
        k += 1;
    }
    k
}

/// The end of the digit run at `i`, computed.
#[verifier::loop_isolation(false)]
fn digits_end_x(s: &Vec<char>, i: usize) -> (r: usize)
    requires
        i <= s@.len(),
    ensures
        r as int == digits_end(s@, i as int),
        i <= r <= s@.len(),
{
    let mut k: usize = i;
    while k < s.len() && is_digit_x(s[k])
        invariant
            i <= k <= s@.len(),
            digits_end(s@, i as int) == digits_end(s@, k as int),
        decreases s@.len() - k,
    {
        k += 1;
    }
    k
}

/// Parses the number token at `i`: exactly `parse_number`.
#[verifier::loop_isolation(false)]
#[verifier::rlimit(60)]
fn p_number(s: &Vec<char>, i: usize) -> (r: Option<(i64, usize)>)
    requires
        i < s@.len(),
    ensures
        match r {
            Some((v, j)) => parse_number(s@, i as int) == Some((v as int, j as int)) && i < j
                <= s@.len(),
            None => parse_number(s@, i as int) is None,
        },
{
    let n = s.len();
    let neg = s[i] == '-';
    let d0: usize = if neg {
        i + 1
    } else {
        i
    };
    if d0 >= n || !is_digit_x(s[d0]) {
        return None;
    }
    let j = digits_end_x(s, d0);
    proof {
        lemma_digits_end(s@, d0 as int);
        assert(digits_end(s@, d0 as int) == digits_end(s@, d0 + 1));
        lemma_digits_end(s@, d0 + 1);
    }
    let ghost run = s@.subrange(d0 as int, j as int);
    proof {
        lemma_digits_val_upper(run);
    }
    if digit_val_x(s[d0]) == 0 && j > d0 + 1 {
        return None;
    }
    let run_len = j - d0;
    if run_len >= 20 {
        proof {
            reveal_with_fuel(pow10, 21);
            lemma_digits_val_lower(run);
            lemma_pow10_mono(19, run_len - 1);
            assert(digits_val(run) >= pow10(19));
        }
        return None;
    }
    let mut acc: u64 = 0;
    let mut k = d0;
    proof {
        assert(s@.subrange(d0 as int, d0 as int) =~= Seq::<char>::empty());
        reveal_with_fuel(pow10, 21);
    }
    while k < j
        invariant
            d0 <= k <= j,
            acc as int == digits_val(s@.subrange(d0 as int, k as int)),
            acc < pow10(k - d0),
        decreases j - k,
    {
        let d = digit_val_x(s[k]);
        proof {
            assert(k - d0 <= 18);
            lemma_pow10_mono(k - d0, 18);
            assert(acc < pow10(18));
            assert(s@.subrange(d0 as int, k + 1).drop_last() =~= s@.subrange(
                d0 as int,
                k as int,
            ));
            assert(s@.subrange(d0 as int, k + 1).last() == s@[k as int]);
        }
        acc = acc * 10 + (d as u64);
        k += 1;
    }
    proof {
        assert(s@.subrange(d0 as int, j as int) =~= run);
    }
    if neg {
        if acc > 9223372036854775808u64 {
            proof {
                lemma_digits_val_upper(run);
            }
            None
        } else if acc == 9223372036854775808u64 {
            Some((i64::MIN, j))
        } else {
            Some((-(acc as i64), j))
        }
    } else {
        if acc > 9223372036854775807u64 {
            None
        } else {
            Some((acc as i64, j))
        }
    }
}

/// Parses the body of a string literal after its opening quote: exactly
/// `parse_string_body`.
#[verifier::loop_isolation(false)]
#[verifier::rlimit(60)]
fn p_string_body(s: &Vec<char>, i: usize) -> (r: Option<(String, usize)>)
    requires
        i <= s@.len(),
    ensures
        match r {
            Some((t, j)) => parse_string_body(s@, i as int) == Some((t@, j as int)) && i < j
                <= s@.len(),
            None => parse_string_body(s@, i as int) is None,
        },
{
    let ghost full = parse_string_body(s@, i as int);
    let mut buf = String::new();
    let mut k: usize = i;
    loop
        invariant
            i <= k <= s@.len(),
            full == match parse_string_body(s@, k as int) {
                None => None::<(Seq<char>, int)>,
                Some((t, j)) => Some((buf@ + t, j)),
            },
        decreases s@.len() - k,
    {
        if k >= s.len() {
            return None;
        }
        let c = s[k];
        if c == '"' {
            proof {
                assert(buf@ + Seq::<char>::empty() =~= buf@);
                lemma_parse_string_body_bounds(s@, i as int);
            }
            return Some((buf, k + 1));
        } else if c == '\\' {
            if k + 1 >= s.len() {
                return None;
            }
            let e = s[k + 1];
            if e == 'u' {
                if s.len() - k < 6 {
                    return None;
                }
                let h0 = hex_val_x(s[k + 2]);
                let h1 = hex_val_x(s[k + 3]);
                let h2 = hex_val_x(s[k + 4]);
                let h3 = hex_val_x(s[k + 5]);
                if h0 < 0 || h1 < 0 || h2 < 0 || h3 < 0 {
                    return None;
                }
                let u: u32 = (h0 as u32) * 4096 + (h1 as u32) * 256 + (h2 as u32) * 16 + (
                h3 as u32);
                proof {
                    assert(u as int == hex4_val(s@, k + 2));
                }
                if u < 0xD800 || 0xE000 <= u {
                    let ch = match char_from_u32(u) {
                        None => {
                            // Unreachable: `u` is below 0x10000 and outside
                            // the surrogate range, hence a scalar value.
                            return None;
                        },
                        Some(ch) => ch,
                    };
                    let ghost buf_before = buf@;
                    push_char(&mut buf, ch);
                    proof {
                        let inner = parse_string_body(s@, k + 6);
                        assert(parse_string_body(s@, k as int) == match inner {
                            None => None::<(Seq<char>, int)>,
                            Some((t, j)) => Some((seq![ch] + t, j)),
                        });
                        assert(forall|t: Seq<char>|
                            buf_before + (seq![ch] + t) =~= buf_before.push(ch) + t);
                    }
                    k += 6;
                } else if u < 0xDC00 {
                    if s.len() - k < 12 {
                        return None;
                    }
                    if !(s[k + 6] == '\\' && s[k + 7] == 'u') {
                        return None;
                    }
                    let h4 = hex_val_x(s[k + 8]);
                    let h5 = hex_val_x(s[k + 9]);
                    let h6 = hex_val_x(s[k + 10]);
                    let h7 = hex_val_x(s[k + 11]);
                    if h4 < 0 || h5 < 0 || h6 < 0 || h7 < 0 {
                        return None;
                    }
                    let u2: u32 = (h4 as u32) * 4096 + (h5 as u32) * 256 + (h6 as u32) * 16 + (
                    h7 as u32);
                    proof {
                        assert(u2 as int == hex4_val(s@, k + 8));
                    }
                    if !(0xDC00 <= u2 && u2 < 0xE000) {
                        return None;
                    }
                    let c: u32 = 0x10000 + (u - 0xD800) * 0x400 + (u2 - 0xDC00);
                    proof {
                        assert(c as int == surrogate_combine(u as int, u2 as int));
                        assert(is_scalar(c as int));
                    }
                    let ch = match char_from_u32(c) {
                        None => {
                            // Unreachable: a combined pair is a scalar value.
                            return None;
                        },
                        Some(ch) => ch,
                    };
                    let ghost buf_before = buf@;
                    push_char(&mut buf, ch);
                    proof {
                        let inner = parse_string_body(s@, k + 12);
                        assert(parse_string_body(s@, k as int) == match inner {
                            None => None::<(Seq<char>, int)>,
                            Some((t, j)) => Some((seq![ch] + t, j)),
                        });
                        assert(forall|t: Seq<char>|
                            buf_before + (seq![ch] + t) =~= buf_before.push(ch) + t);
                    }
                    k += 12;
                } else {
                    return None;
                }
            } else {
                match short_escape_x(e) {
                    None => {
                        return None;
                    },
                    Some(c2) => {
                        let ghost buf_before = buf@;
                        push_char(&mut buf, c2);
                        proof {
                            assert(forall|t: Seq<char>|
                                buf_before + (seq![c2] + t) =~= buf_before.push(c2) + t);
                        }
                        k += 2;
                    },
                }
            }
        } else if (c as u32) < 32 {
            return None;
        } else {
            let ghost buf_before = buf@;
            push_char(&mut buf, c);
            proof {
                assert(forall|t: Seq<char>| buf_before + (seq![c] + t) =~= buf_before.push(c)
                    + t);
            }
            k += 1;
        }
    }
}

/// Parses the value at `i`: exactly `parse_value`.
#[verifier::loop_isolation(false)]
#[verifier::rlimit(100)]
fn p_value(s: &Vec<char>, i: usize) -> (r: Option<(JsonValue, usize)>)
    requires
        i <= s@.len(),
    ensures
        match r {
            Some((v, j)) => parse_value(s@, i as int) == Some((jv_model(v), j as int)) && i < j
                <= s@.len(),
            None => parse_value(s@, i as int) is None,
        },
    decreases s@.len() - i, 0int,
{
    if i >= s.len() {
        return None;
    }
    let c = s[i];
    if c == 'n' {
        if s.len() - i >= 4 && s[i + 1] == 'u' && s[i + 2] == 'l' && s[i + 3] == 'l' {
            Some((JsonValue::Null, i + 4))
        } else {
            None
        }
    } else if c == 't' {
        if s.len() - i >= 4 && s[i + 1] == 'r' && s[i + 2] == 'u' && s[i + 3] == 'e' {
            Some((JsonValue::Bool(true), i + 4))
        } else {
            None
        }
    } else if c == 'f' {
        if s.len() - i >= 5 && s[i + 1] == 'a' && s[i + 2] == 'l' && s[i + 3] == 's' && s[i + 4]
            == 'e' {
            Some((JsonValue::Bool(false), i + 5))
        } else {
            None
        }
    } else if c == '"' {
        match p_string_body(s, i + 1) {
            None => None,
            Some((t, j)) => Some((JsonValue::Str(t), j)),
        }
    } else if c == '-' || is_digit_x(c) {
        match p_number(s, i) {
            None => None,
            Some((v, j)) => Some((JsonValue::Int(v), j)),
        }
    } else if c == '[' {
        let k = ws_end_x(s, i + 1);
        if k < s.len() && s[k] == ']' {
            proof {
                assert(jv_model_seq(Seq::<JsonValue>::empty()) =~= Seq::<JsonModel>::empty());
            }
            let empty_items: Vec<JsonValue> = Vec::new();
            proof {
                assert(empty_items@ =~= Seq::<JsonValue>::empty());
            }
            Some((JsonValue::Arr(empty_items), k + 1))
        } else {
            match p_items(s, k) {
                None => None,
                Some((items, j)) => Some((JsonValue::Arr(items), j)),
            }
        }
    } else if c == '{' {
        let k = ws_end_x(s, i + 1);
        if k < s.len() && s[k] == '}' {
            proof {
                assert(jv_model_fields(Seq::<(String, JsonValue)>::empty()) =~= Seq::<
                    (Seq<char>, JsonModel),
                >::empty());
            }
            let empty_fields: Vec<(String, JsonValue)> = Vec::new();
            proof {
                assert(empty_fields@ =~= Seq::<(String, JsonValue)>::empty());
            }
            Some((JsonValue::Obj(empty_fields), k + 1))
        } else {
            match p_members(s, k) {
                None => None,
                Some((fields, j)) => Some((JsonValue::Obj(fields), j)),
            }
        }
    } else {
        None
    }
}

/// Parses array elements from the first element on: exactly `parse_items`.
#[verifier::loop_isolation(false)]
#[verifier::rlimit(100)]
fn p_items(s: &Vec<char>, i: usize) -> (r: Option<(Vec<JsonValue>, usize)>)
    requires
        i <= s@.len(),
    ensures
        match r {
            Some((items, j)) => parse_items(s@, i as int) == Some(
                (jv_model_seq(items@), j as int),
            ) && i < j <= s@.len(),
            None => parse_items(s@, i as int) is None,
        },
    decreases s@.len() - i, 1int,
{
    let ghost full = parse_items(s@, i as int);
    let mut out: Vec<JsonValue> = Vec::new();
    let mut cur: usize = i;
    proof {
        assert(jv_model_seq(out@) =~= Seq::<JsonModel>::empty());
    }
    loop
        invariant
            i <= cur <= s@.len(),
            cur == i || cur > i,
            full == match parse_items(s@, cur as int) {
                None => None::<(Seq<JsonModel>, int)>,
                Some((rest, e)) => Some((jv_model_seq(out@) + rest, e)),
            },
        decreases s@.len() - cur,
    {
        match p_value(s, cur) {
            None => {
                return None;
            },
            Some((v, j)) => {
                let k = ws_end_x(s, j);
                proof {
                    lemma_jv_model_seq(out@);
                }
                if k < s.len() && s[k] == ',' {
                    let nn = ws_end_x(s, k + 1);
                    let ghost out_before = out@;
                    out.push(v);
                    proof {
                        lemma_jv_model_seq(out@);
                        assert(out@ =~= out_before.push(v));
                        assert(jv_model_seq(out@) =~= jv_model_seq(out_before).push(
                            jv_model(v),
                        )) by {
                            lemma_jv_model_seq(out_before);
                            lemma_jv_model_seq(out@);
                        }
                        assert(forall|rest: Seq<JsonModel>|
                            jv_model_seq(out_before) + (seq![jv_model(v)] + rest)
                                =~= jv_model_seq(out_before).push(jv_model(v)) + rest);
                    }
                    cur = nn;
                } else if k < s.len() && s[k] == ']' {
                    let ghost out_before = out@;
                    out.push(v);
                    proof {
                        assert(out@ =~= out_before.push(v));
                        assert(jv_model_seq(out@) =~= jv_model_seq(out_before).push(
                            jv_model(v),
                        )) by {
                            lemma_jv_model_seq(out_before);
                            lemma_jv_model_seq(out@);
                        }
                        assert(jv_model_seq(out_before) + seq![jv_model(v)] =~= jv_model_seq(
                            out@,
                        ));
                    }
                    return Some((out, k + 1));
                } else {
                    return None;
                }
            },
        }
    }
}

/// Parses object members from the first key on: exactly `parse_members`.
#[verifier::loop_isolation(false)]
#[verifier::rlimit(100)]
fn p_members(s: &Vec<char>, i: usize) -> (r: Option<(Vec<(String, JsonValue)>, usize)>)
    requires
        i <= s@.len(),
    ensures
        match r {
            Some((fields, j)) => parse_members(s@, i as int) == Some(
                (jv_model_fields(fields@), j as int),
            ) && i < j <= s@.len(),
            None => parse_members(s@, i as int) is None,
        },
    decreases s@.len() - i, 1int,
{
    let ghost full = parse_members(s@, i as int);
    let mut out: Vec<(String, JsonValue)> = Vec::new();
    let mut cur: usize = i;
    proof {
        assert(jv_model_fields(out@) =~= Seq::<(Seq<char>, JsonModel)>::empty());
    }
    loop
        invariant
            i <= cur <= s@.len(),
            full == match parse_members(s@, cur as int) {
                None => None::<(Seq<(Seq<char>, JsonModel)>, int)>,
                Some((rest, e)) => Some((jv_model_fields(out@) + rest, e)),
            },
        decreases s@.len() - cur,
    {
        if !(cur < s.len() && s[cur] == '"') {
            return None;
        }
        match p_string_body(s, cur + 1) {
            None => {
                return None;
            },
            Some((key, j)) => {
                let k = ws_end_x(s, j);
                if !(k < s.len() && s[k] == ':') {
                    return None;
                }
                let m = ws_end_x(s, k + 1);
                match p_value(s, m) {
                    None => {
                        return None;
                    },
                    Some((v, j2)) => {
                        let k2 = ws_end_x(s, j2);
                        if k2 < s.len() && s[k2] == ',' {
                            let nn = ws_end_x(s, k2 + 1);
                            let ghost out_before = out@;
                            let ghost key_model = key@;
                            let ghost v_model = jv_model(v);
                            out.push((key, v));
                            proof {
                                assert(out@ =~= out_before.push((out@.last().0, out@.last().1)));
                                assert(jv_model_fields(out@) =~= jv_model_fields(
                                    out_before,
                                ).push((key_model, v_model))) by {
                                    lemma_jv_model_fields(out_before);
                                    lemma_jv_model_fields(out@);
                                }
                                assert(forall|rest: Seq<(Seq<char>, JsonModel)>|
                                    jv_model_fields(out_before) + (seq![(key_model, v_model)]
                                        + rest) =~= jv_model_fields(out_before).push(
                                        (key_model, v_model),
                                    ) + rest);
                            }
                            cur = nn;
                        } else if k2 < s.len() && s[k2] == '}' {
                            let ghost out_before = out@;
                            let ghost key_model = key@;
                            let ghost v_model = jv_model(v);
                            out.push((key, v));
                            proof {
                                assert(jv_model_fields(out@) =~= jv_model_fields(
                                    out_before,
                                ).push((key_model, v_model))) by {
                                    lemma_jv_model_fields(out_before);
                                    lemma_jv_model_fields(out@);
                                }
                                assert(jv_model_fields(out_before) + seq![(key_model, v_model)]
                                    =~= jv_model_fields(out@));
                            }
                            return Some((out, k2 + 1));
                        } else {
                            return None;
                        }
                    },
                }
            },
        }
    }
}

/// Parses a complete document: returns a tree exactly when `spec_parse`
/// accepts the text, and then one whose model is the denoted model.
pub fn parse_document(text: &str) -> (r: Option<JsonValue>)
    ensures
        match r {
            Some(v) => spec_parse(text@) == Some(jv_model(v)),
            None => spec_parse(text@) is None,
        },
{
    let s = str_chars(text);
    let i = ws_end_x(&s, 0);
    match p_value(&s, i) {
        None => None,
        Some((v, j)) => {
            let e = ws_end_x(&s, j);
            if e == s.len() {
                Some(v)
            } else {
                None
            }
        },
    }
}

} // verus!
