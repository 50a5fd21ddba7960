//! The wire text round trip: rendered text parses back to the rendered
//! model.
//!
//! `spec_print` and `spec_parse` are independent definitions; this module
//! proves that for every well-formed model — integers within the wire's
//! 64-bit range, at any nesting — `spec_parse(spec_print(m)) == Some(m)`.

use vstd::prelude::*;

use crate::json::JsonModel;
use crate::json_parse::{
    digit_val, digits_end, digits_val, hex_val, is_digit, is_ws, parse_items, parse_members,
    parse_number, parse_string_body, parse_value, spec_parse, ws_end,
};
use crate::json_print::{
    digit_char, esc_char, spec_digits, spec_escaped, spec_int_chars, spec_print, spec_print_items,
    spec_print_members, spec_string_chars,
};

verus! {

/// A model the printer can render into the wire grammar: every integer
/// fits the wire's signed 64-bit range, at any depth.
pub open spec fn wf_model(m: JsonModel) -> bool
    decreases m,
{
    match m {
        JsonModel::Null => true,
        JsonModel::Bool(_) => true,
        JsonModel::Int(i) => -0x8000_0000_0000_0000 <= i <= 0x7FFF_FFFF_FFFF_FFFF,
        JsonModel::Str(_) => true,
        JsonModel::Arr(items) => wf_items(items),
        JsonModel::Obj(fields) => wf_members(fields),
    }
}

/// Every element is well formed.
pub open spec fn wf_items(items: Seq<JsonModel>) -> bool
    decreases items,
{
    if items.len() == 0 {
        true
    } else {
        wf_items(items.drop_last()) && wf_model(items.last())
    }
}

/// Every member value is well formed.
pub open spec fn wf_members(fields: Seq<(Seq<char>, JsonModel)>) -> bool
    decreases fields,
{
    if fields.len() == 0 {
        true
    } else {
        wf_members(fields.drop_last()) && wf_model(fields.last().1)
    }
}

/// `wf_items` holds pointwise.
proof fn lemma_wf_items_index(items: Seq<JsonModel>)
    requires
        wf_items(items),
    ensures
        forall|k: int| 0 <= k < items.len() ==> wf_model(#[trigger] items[k]),
        items.len() > 0 ==> wf_items(items.skip(1)),
    decreases items.len(),
{
    if items.len() > 0 {
        lemma_wf_items_index(items.drop_last());
        assert forall|k: int| 0 <= k < items.len() implies wf_model(#[trigger] items[k]) by {
            if k < items.len() - 1 {
                assert(items[k] == items.drop_last()[k]);
            } else {
                assert(items[k] == items.last());
            }
        }
        lemma_wf_items_skip(items);
    }
}

/// Dropping the first element keeps `wf_items`.
proof fn lemma_wf_items_skip(items: Seq<JsonModel>)
    requires
        wf_items(items),
        items.len() > 0,
    ensures
        wf_items(items.skip(1)),
    decreases items.len(),
{
    if items.len() > 1 {
        lemma_wf_items_skip(items.drop_last());
        assert(items.skip(1).drop_last() =~= items.drop_last().skip(1));
        assert(items.skip(1).last() == items.last());
    } else {
        assert(items.skip(1) =~= Seq::<JsonModel>::empty());
    }
}

/// Dropping the first member keeps `wf_members`.
proof fn lemma_wf_members_skip(fields: Seq<(Seq<char>, JsonModel)>)
    requires
        wf_members(fields),
        fields.len() > 0,
    ensures
        wf_members(fields.skip(1)),
        wf_model(fields[0].1),
    decreases fields.len(),
{
    if fields.len() > 1 {
        lemma_wf_members_skip(fields.drop_last());
        assert(fields.skip(1).drop_last() =~= fields.drop_last().skip(1));
        assert(fields.skip(1).last() == fields.last());
    } else {
        assert(fields.skip(1) =~= Seq::<(Seq<char>, JsonModel)>::empty());
    }
}

// ---------------------------------------------------------------------------
// Number tokens.
// ---------------------------------------------------------------------------

/// The printed digits of a nonnegative number are digits, denote that
/// number, and start with zero only for zero itself.
proof fn lemma_spec_digits_facts(n: int)
    requires
        n >= 0,
    ensures
        spec_digits(n).len() >= 1,
        forall|k: int| 0 <= k < spec_digits(n).len() ==> is_digit(#[trigger] spec_digits(n)[k]),
        digits_val(spec_digits(n)) == n,
        digit_val(spec_digits(n)[0]) == 0 <==> n == 0,
    decreases n,
{
    if n < 10 {
        assert(is_digit(digit_char(n)) && digit_val(digit_char(n)) == n);
        assert(spec_digits(n) =~= seq![digit_char(n)]);
        assert(digits_val(spec_digits(n)) == digits_val(
            spec_digits(n).drop_last(),
        ) * 10 + digit_val(spec_digits(n).last()));
        assert(spec_digits(n).drop_last() =~= Seq::<char>::empty());
    } else {
        lemma_spec_digits_facts(n / 10);
        let p = spec_digits(n / 10);
        assert(spec_digits(n) == p.push(digit_char(n % 10)));
        assert(is_digit(digit_char(n % 10)) && digit_val(digit_char(n % 10)) == n % 10);
        assert(forall|k: int| 0 <= k < p.len() ==> p.push(digit_char(n % 10))[k] == p[k]);
        assert(spec_digits(n).drop_last() =~= p);
        assert(digits_val(spec_digits(n)) == (n / 10) * 10 + n % 10);
        assert(spec_digits(n)[0] == p[0]);
    }
}

/// A digit run embedded at `i` with a non-digit (or the end) after it ends
/// the digit scan exactly at its end.
proof fn lemma_digits_end_run(s: Seq<char>, i: int, l: int)
    requires
        0 <= i,
        0 <= l,
        i + l <= s.len(),
        forall|k: int| 0 <= k < l ==> is_digit(#[trigger] s[i + k]),
        i + l == s.len() || !is_digit(s[i + l]),
    ensures
        digits_end(s, i) == i + l,
    decreases l,
{
    if l == 0 {
    } else {
        assert(is_digit(s[i + 0]));
        assert(is_digit(s[i]));
        assert forall|k: int| 0 <= k < l - 1 implies is_digit(#[trigger] s[i + 1 + k]) by {
            assert(is_digit(s[i + (k + 1)]));
            assert(s[i + 1 + k] == s[i + (k + 1)]);
        }
        lemma_digits_end_run(s, i + 1, l - 1);
    }
}

/// A printed integer embedded at `i`, with a non-digit (or the end) after
/// it, is parsed back as exactly that number.
proof fn lemma_parse_number_of_print(v: int, s: Seq<char>, i: int)
    requires
        -0x8000_0000_0000_0000 <= v <= 0x7FFF_FFFF_FFFF_FFFF,
        0 <= i,
        i + spec_int_chars(v).len() <= s.len(),
        s.subrange(i, i + spec_int_chars(v).len() as int) == spec_int_chars(v),
        i + spec_int_chars(v).len() == s.len() || !is_digit(s[i + spec_int_chars(v).len()]),
    ensures
        parse_number(s, i) == Some((v, i + spec_int_chars(v).len() as int)),
{
    let p = spec_int_chars(v);
    assert(forall|k: int| 0 <= k < p.len() ==> s[i + k] == #[trigger] p[k]) by {
        assert(forall|k: int| 0 <= k < p.len() ==> #[trigger] s.subrange(
            i,
            i + p.len() as int,
        )[k] == s[i + k]);
    }
    if v >= 0 {
        let run = spec_digits(v);
        lemma_spec_digits_facts(v);
        assert(s[i + 0] == p[0]);
        assert(s[i] == run[0]);
        assert(is_digit(s[i]));
        assert(s[i] != '-') by {
            assert(('-' as u32) == 45);
        }
        assert forall|k: int| 0 <= k < run.len() implies is_digit(#[trigger] s[i + k]) by {
            assert(s[i + k] == p[k]);
            assert(is_digit(run[k]));
        }
        lemma_digits_end_run(s, i, run.len() as int);
        let j = digits_end(s, i);
        assert(j == i + run.len());
        assert(s.subrange(i, j) =~= run);
        if digit_val(s[i]) == 0 {
            assert(v == 0);
            assert(run.len() == 1);
        }
        assert(digits_val(s.subrange(i, j)) == v);
    } else {
        assert(p == seq!['-'] + spec_digits(-v));
        assert(s[i + 0] == p[0]);
        assert(s[i] == '-');
        let run = spec_digits(-v);
        lemma_spec_digits_facts(-v);
        assert forall|k: int| 0 <= k < run.len() implies is_digit(#[trigger] s[i + 1 + k])
            && s[i + 1 + k] == run[k] by {
            assert(s[i + (1 + k)] == p[1 + k]);
            assert(s[i + 1 + k] == s[i + (1 + k)]);
            assert(p[1 + k] == run[k]);
            assert(is_digit(run[k]));
        }
        assert(is_digit(s[i + 1 + 0]));
        assert(is_digit(s[i + 1]));
        lemma_digits_end_run(s, i + 1, run.len() as int);
        let j = digits_end(s, i + 1);
        assert(j == i + 1 + run.len());
        assert(s.subrange(i + 1, j) =~= run) by {
            assert forall|k: int| 0 <= k < run.len() implies s.subrange(i + 1, j)[k] == run[k] by {
                assert(s.subrange(i + 1, j)[k] == s[i + 1 + k]);
                assert(s[i + 1 + k] == run[k]);
            }
        }
        if digit_val(s[i + 1]) == 0 {
            assert(-v == 0);
        }
        assert(digits_val(s.subrange(i + 1, j)) == -v);
    }
}


// ---------------------------------------------------------------------------
// String literals.
// ---------------------------------------------------------------------------

/// A character's scalar value names it back.
proof fn lemma_char_roundtrip(c: char)
    ensures
        ((c as u32) as char) == c,
{
}

/// The printer's hexadecimal digits decode to their value.
proof fn lemma_hex_of_digit_char(d: int)
    requires
        0 <= d < 16,
    ensures
        hex_val(digit_char(d)) == d,
{
}

/// Escaping decomposes at the front.
proof fn lemma_escaped_front(t: Seq<char>)
    requires
        t.len() > 0,
    ensures
        spec_escaped(t) == esc_char(t[0]) + spec_escaped(t.skip(1)),
    decreases t.len(),
{
    if t.len() == 1 {
        assert(t.drop_last() =~= Seq::<char>::empty());
        assert(t.skip(1) =~= Seq::<char>::empty());
        assert(t.last() == t[0]);
        assert(spec_escaped(t) =~= esc_char(t[0]) + spec_escaped(t.skip(1)));
    } else {
        lemma_escaped_front(t.drop_last());
        assert(t.drop_last()[0] == t[0]);
        assert(t.drop_last().skip(1) =~= t.skip(1).drop_last());
        assert(t.skip(1).last() == t.last());
        assert(spec_escaped(t) =~= esc_char(t[0]) + spec_escaped(t.skip(1)));
    }
}

/// A printed string body embedded at `i`, closing quote included, is
/// parsed back as exactly that string.
#[verifier::rlimit(100)]
#[verifier::spinoff_prover]
proof fn lemma_parse_string_of_print(t: Seq<char>, s: Seq<char>, i: int)
    requires
        0 <= i,
        i + spec_escaped(t).len() + 1 <= s.len(),
        s.subrange(i, i + spec_escaped(t).len() + 1) == spec_escaped(t) + seq!['"'],
    ensures
        parse_string_body(s, i) == Some((t, i + spec_escaped(t).len() + 1)),
    decreases t.len(),
{
    let e_all = spec_escaped(t) + seq!['"'];
    assert forall|k: int| 0 <= k < e_all.len() implies s[i + k] == #[trigger] e_all[k] by {
        assert(s.subrange(i, i + spec_escaped(t).len() + 1)[k] == s[i + k]);
    }
    if t.len() == 0 {
        assert(spec_escaped(t).len() == 0);
        assert(s[i + 0] == e_all[0]);
        assert(s[i] == '"');
    } else {
        lemma_escaped_front(t);
        let c = t[0];
        let e = esc_char(c);
        let rest = spec_escaped(t.skip(1));
        assert(spec_escaped(t).len() == e.len() + rest.len());
        assert forall|k: int| 0 <= k < e.len() implies s[i + k] == #[trigger] e[k] by {
            assert(s[i + k] == e_all[k]);
            assert(e_all[k] == e[k]);
        }
        assert(s.subrange(i + e.len(), i + e.len() + rest.len() + 1) =~= rest + seq!['"']) by {
            assert forall|k: int| 0 <= k < rest.len() + 1 implies s.subrange(
                i + e.len(),
                i + e.len() + rest.len() + 1,
            )[k] == (rest + seq!['"'])[k] by {
                assert(s.subrange(i + e.len(), i + e.len() + rest.len() + 1)[k] == s[(i + e.len())
                    + k]);
                assert(s[i + (e.len() + k)] == e_all[e.len() + k]);
                assert(s[(i + e.len()) + k] == s[i + (e.len() + k)]);
                assert(e_all[e.len() + k] == (rest + seq!['"'])[k]);
            }
        }
        lemma_parse_string_of_print(t.skip(1), s, i + e.len() as int);
        assert(seq![c] + t.skip(1) =~= t);
        assert(s[i] == e[0]) by {
            assert(s[i + 0] == e[0]);
        }
        if c == '"' || c == '\\' || c == '\n' || c == '\r' || c == '\t' {
            assert(s[i] == '\\');
            assert(s[i + 1] == e[1]);
        } else if (c as u32) < 32 {
            assert(s[i] == '\\');
            assert(s[i + 1] == 'u');
            let hi = (c as u32) as int / 16;
            let lo = (c as u32) as int % 16;
            assert(s[i + 2] == '0' && s[i + 3] == '0' && s[i + 4] == digit_char(hi) && s[i + 5]
                == digit_char(lo)) by {
                assert(s[i + 2] == e[2] && s[i + 3] == e[3] && s[i + 4] == e[4] && s[i + 5]
                    == e[5]);
            }
            lemma_hex_of_digit_char(hi);
            lemma_hex_of_digit_char(lo);
            assert(crate::json_parse::hex4_val(s, i + 2) == (c as u32) as int) by {
                assert(hex_val('0') == 0);
                assert(hex_val(s[i + 2]) == 0 && hex_val(s[i + 3]) == 0);
                assert(hex_val(s[i + 4]) == hi && hex_val(s[i + 5]) == lo);
            }
            assert(crate::json_parse::is_scalar((c as u32) as int));
            let u32v = c as u32;
            assert((u32v as int) as u32 == u32v);
            lemma_char_roundtrip(c);
            assert((u32v as char) == c);
        } else {
            assert(s[i] == c);
        }
        assert(parse_string_body(s, i) == Some((t, i + spec_escaped(t).len() + 1)));
    }
}


// ---------------------------------------------------------------------------
// Values, elements and members.
// ---------------------------------------------------------------------------

/// A digit names none of the grammar's marker characters.
proof fn lemma_digit_not_marker(c: char)
    requires
        is_digit(c),
    ensures
        c != 'n' && c != 't' && c != 'f' && c != '"' && c != '[' && c != '{' && c != '-',
        c != ']' && c != '}' && c != ',' && c != ':',
        !is_ws(c),
{
    assert(('n' as u32) == 110 && ('t' as u32) == 116 && ('f' as u32) == 102);
    assert(('"' as u32) == 34 && ('[' as u32) == 91 && ('{' as u32) == 123);
    assert(('-' as u32) == 45 && (']' as u32) == 93 && ('}' as u32) == 125);
    assert((',' as u32) == 44 && (':' as u32) == 58);
    assert((' ' as u32) == 32);
    assert(('\t' as u32) == 9 && ('\n' as u32) == 10 && ('\r' as u32) == 13);
}

/// A value's first rendered character starts a value and is none of the
/// grammar's closing or separating characters.
proof fn lemma_print_first(m: JsonModel)
    requires
        wf_model(m),
    ensures
        spec_print(m).len() >= 1,
        ({
            let c = spec_print(m)[0];
            c == 'n' || c == 't' || c == 'f' || c == '"' || c == '[' || c == '{' || c == '-'
                || is_digit(c)
        }),
        !is_ws(spec_print(m)[0]),
        spec_print(m)[0] != ']' && spec_print(m)[0] != '}' && spec_print(m)[0] != ','
            && spec_print(m)[0] != ':',
    decreases m,
{
    match m {
        JsonModel::Int(i) => {
            if i >= 0 {
                lemma_spec_digits_facts(i);
                assert(spec_print(m)[0] == spec_digits(i)[0]);
                lemma_digit_not_marker(spec_print(m)[0]);
            } else {
                assert(spec_print(m)[0] == '-');
            }
        },
        _ => {},
    }
}

/// Element rendering decomposes at the front.
proof fn lemma_print_items_front(items: Seq<JsonModel>)
    requires
        items.len() >= 1,
    ensures
        spec_print_items(items) == spec_print(items[0]) + (if items.len() == 1 {
            Seq::<char>::empty()
        } else {
            seq![','] + spec_print_items(items.skip(1))
        }),
    decreases items.len(),
{
    if items.len() == 1 {
        assert(spec_print_items(items) =~= spec_print(items[0]) + Seq::<char>::empty());
    } else {
        lemma_print_items_front(items.drop_last());
        assert(items.drop_last()[0] == items[0]);
        assert(items.drop_last().skip(1) =~= items.skip(1).drop_last());
        assert(items.skip(1).last() == items.last());
        if items.len() == 2 {
            assert(items.skip(1) =~= seq![items.last()]);
            assert(spec_print_items(items.skip(1)) == spec_print(items.skip(1)[0]));
            assert(items.skip(1)[0] == items.last());
            assert(spec_print_items(items) =~= spec_print(items[0]) + (seq![',']
                + spec_print_items(items.skip(1))));
        } else {
            assert(spec_print_items(items.skip(1)) == spec_print_items(items.skip(1).drop_last())
                + seq![','] + spec_print(items.skip(1).last()));
            assert(spec_print_items(items) =~= spec_print(items[0]) + (seq![',']
                + spec_print_items(items.skip(1))));
        }
    }
}

/// Member rendering decomposes at the front.
proof fn lemma_print_members_front(fields: Seq<(Seq<char>, JsonModel)>)
    requires
        fields.len() >= 1,
    ensures
        spec_print_members(fields) == spec_string_chars(fields[0].0) + seq![':'] + spec_print(
            fields[0].1,
        ) + (if fields.len() == 1 {
            Seq::<char>::empty()
        } else {
            seq![','] + spec_print_members(fields.skip(1))
        }),
    decreases fields.len(),
{
    if fields.len() == 1 {
        assert(spec_print_members(fields) =~= spec_string_chars(fields[0].0) + seq![':']
            + spec_print(fields[0].1) + Seq::<char>::empty());
    } else {
        lemma_print_members_front(fields.drop_last());
        assert(fields.drop_last()[0] == fields[0]);
        assert(fields.drop_last().skip(1) =~= fields.skip(1).drop_last());
        assert(fields.skip(1).last() == fields.last());
        if fields.len() == 2 {
            assert(fields.skip(1) =~= seq![fields.last()]);
            assert(spec_print_members(fields.skip(1)) == spec_string_chars(fields.skip(1)[0].0)
                + seq![':'] + spec_print(fields.skip(1)[0].1));
            assert(fields.skip(1)[0] == fields.last());
            assert(spec_print_members(fields) =~= spec_string_chars(fields[0].0) + seq![':']
                + spec_print(fields[0].1) + (seq![','] + spec_print_members(fields.skip(1))));
        } else {
            assert(spec_print_members(fields.skip(1)) == spec_print_members(
                fields.skip(1).drop_last(),
            ) + seq![','] + spec_string_chars(fields.skip(1).last().0) + seq![':'] + spec_print(
                fields.skip(1).last().1,
            ));
            assert(spec_print_members(fields) =~= spec_string_chars(fields[0].0) + seq![':']
                + spec_print(fields[0].1) + (seq![','] + spec_print_members(fields.skip(1))));
        }
    }
}


/// The conclusion of `lemma_parse_of_print`: the embedded rendering of
/// `m` parses back as `m`.
pub open spec fn parse_of_print_ok(m: JsonModel, s: Seq<char>, i: int) -> bool {
    parse_value(s, i) == Some((m, i + spec_print(m).len() as int))
}

/// A rendered value embedded at `i`, with no digit directly after it, is
/// parsed back as exactly that value.
#[verifier::rlimit(100)]
proof fn lemma_parse_of_print(m: JsonModel, s: Seq<char>, i: int)
    requires
        wf_model(m),
        0 <= i,
        i + spec_print(m).len() <= s.len(),
        s.subrange(i, i + spec_print(m).len() as int) == spec_print(m),
        i + spec_print(m).len() == s.len() || !is_digit(s[i + spec_print(m).len()]),
    ensures
        parse_of_print_ok(m, s, i),
    decreases m, 0int,
{
    let p = spec_print(m);
    assert forall|k: int| 0 <= k < p.len() implies s[i + k] == #[trigger] p[k] by {
        assert(s.subrange(i, i + p.len() as int)[k] == s[i + k]);
    }
    match m {
        JsonModel::Null => {
            assert(s[i + 0] == 'n' && s[i + 1] == 'u' && s[i + 2] == 'l' && s[i + 3] == 'l');
            assert(s[i] == 'n');
            assert(parse_of_print_ok(m, s, i));
        },
        JsonModel::Bool(b) => {
            if b {
                assert(s[i + 0] == 't' && s[i + 1] == 'r' && s[i + 2] == 'u' && s[i + 3] == 'e');
                assert(s[i] == 't');
            } else {
                assert(s[i + 0] == 'f' && s[i + 1] == 'a' && s[i + 2] == 'l' && s[i + 3] == 's'
                    && s[i + 4] == 'e');
                assert(s[i] == 'f');
            }
            assert(parse_of_print_ok(m, s, i));
        },
        JsonModel::Int(v) => {
            assert(s[i + 0] == p[0]);
            if v >= 0 {
                lemma_spec_digits_facts(v);
                assert(is_digit(s[i]));
                lemma_digit_not_marker(s[i]);
            } else {
                assert(s[i] == '-');
            }
            lemma_parse_number_of_print(v, s, i);
            assert(parse_of_print_ok(m, s, i));
        },
        JsonModel::Str(st) => {
            let esc = spec_escaped(st);
            assert(p == seq!['"'] + esc + seq!['"']);
            assert(p[0] == '"');
            assert(s[i + 0] == p[0]);
            assert(s[i] == '"');
            assert(s.subrange(i + 1, i + 1 + esc.len() + 1) =~= esc + seq!['"']) by {
                assert forall|k: int| 0 <= k < esc.len() + 1 implies s.subrange(
                    i + 1,
                    i + 1 + esc.len() + 1,
                )[k] == (esc + seq!['"'])[k] by {
                    assert(s.subrange(i + 1, i + 1 + esc.len() + 1)[k] == s[(i + 1) + k]);
                    assert(s[(i + 1) + k] == s[i + (1 + k)]);
                    assert(s[i + (1 + k)] == p[1 + k]);
                    assert(p[1 + k] == (esc + seq!['"'])[k]);
                }
            }
            lemma_parse_string_of_print(st, s, i + 1);
            assert(p.len() == esc.len() + 2);
            assert(parse_of_print_ok(m, s, i));
        },
        JsonModel::Arr(items) => {
            let pi = spec_print_items(items);
            assert(p == seq!['['] + pi + seq![']']);
            assert(p[0] == '[');
            assert(s[i + 0] == p[0]);
            assert(s[i] == '[');
            if items.len() == 0 {
                assert(items =~= Seq::<JsonModel>::empty());
                assert(pi.len() == 0);
                assert(p[1] == ']');
                assert(s[i + 1] == p[1]);
                assert(s[i + 1] == ']');
                assert(ws_end(s, i + 1) == i + 1);
            } else {
                lemma_wf_items_index(items);
                lemma_print_items_front(items);
                lemma_print_first(items[0]);
                assert(s[i + 1] == p[1]);
                assert(p[1] == pi[0]);
                assert(pi[0] == spec_print(items[0])[0]);
                assert(!is_ws(s[i + 1]) && s[i + 1] != ']');
                assert(ws_end(s, i + 1) == i + 1);
                assert(s.subrange(i + 1, i + 1 + pi.len() + 1) =~= pi + seq![']']) by {
                    assert forall|k: int| 0 <= k < pi.len() + 1 implies s.subrange(
                        i + 1,
                        i + 1 + pi.len() + 1,
                    )[k] == (pi + seq![']'])[k] by {
                        assert(s.subrange(i + 1, i + 1 + pi.len() + 1)[k] == s[(i + 1) + k]);
                        assert(s[(i + 1) + k] == s[i + (1 + k)]);
                        assert(s[i + (1 + k)] == p[1 + k]);
                        assert(p[1 + k] == (pi + seq![']'])[k]);
                    }
                }
                lemma_parse_items_of_print(items, s, i + 1);
                assert(p.len() == pi.len() + 2);
            }
            assert(parse_of_print_ok(m, s, i));
        },
        JsonModel::Obj(fields) => {
            let pm = spec_print_members(fields);
            assert(p == seq!['{'] + pm + seq!['}']);
            assert(p[0] == '{');
            assert(s[i + 0] == p[0]);
            assert(s[i] == '{');
            if fields.len() == 0 {
                assert(fields =~= Seq::<(Seq<char>, JsonModel)>::empty());
                assert(pm.len() == 0);
                assert(p[1] == '}');
                assert(s[i + 1] == p[1]);
                assert(s[i + 1] == '}');
                assert(ws_end(s, i + 1) == i + 1);
            } else {
                lemma_print_members_front(fields);
                assert(s[i + 1] == p[1]);
                assert(p[1] == pm[0]);
                assert(pm[0] == '"');
                assert(ws_end(s, i + 1) == i + 1);
                assert(s.subrange(i + 1, i + 1 + pm.len() + 1) =~= pm + seq!['}']) by {
                    assert forall|k: int| 0 <= k < pm.len() + 1 implies s.subrange(
                        i + 1,
                        i + 1 + pm.len() + 1,
                    )[k] == (pm + seq!['}'])[k] by {
                        assert(s.subrange(i + 1, i + 1 + pm.len() + 1)[k] == s[(i + 1) + k]);
                        assert(s[(i + 1) + k] == s[i + (1 + k)]);
                        assert(s[i + (1 + k)] == p[1 + k]);
                        assert(p[1 + k] == (pm + seq!['}'])[k]);
                    }
                }
                lemma_parse_members_of_print(fields, s, i + 1);
                assert(p.len() == pm.len() + 2);
            }
            assert(parse_of_print_ok(m, s, i));
        },
    }
}

/// Rendered elements embedded at `i`, closing bracket included, are
/// parsed back as exactly those elements.
#[verifier::rlimit(100)]
#[verifier::spinoff_prover]
proof fn lemma_parse_items_of_print(items: Seq<JsonModel>, s: Seq<char>, i: int)
    requires
        wf_items(items),
        items.len() >= 1,
        0 <= i,
        i + spec_print_items(items).len() + 1 <= s.len(),
        s.subrange(i, i + spec_print_items(items).len() + 1) == spec_print_items(items) + seq![
            ']',
        ],
    ensures
        parse_items(s, i) == Some((items, i + spec_print_items(items).len() + 1)),
    decreases items, 1int,
{
    let pi = spec_print_items(items);
    let e_all = pi + seq![']'];
    assert forall|k: int| 0 <= k < e_all.len() implies s[i + k] == #[trigger] e_all[k] by {
        assert(s.subrange(i, i + pi.len() + 1)[k] == s[i + k]);
    }
    lemma_wf_items_index(items);
    lemma_print_items_front(items);
    let p0 = spec_print(items[0]);
    lemma_print_first(items[0]);
    let j = i + p0.len() as int;
    assert(s.subrange(i, j) =~= p0) by {
        assert forall|k: int| 0 <= k < p0.len() implies s.subrange(i, j)[k] == p0[k] by {
            assert(s.subrange(i, j)[k] == s[i + k]);
            assert(e_all[k] == p0[k]);
        }
    }
    assert(s[i + p0.len() as int] == e_all[p0.len() as int]);
    if items.len() == 1 {
        assert(e_all[p0.len() as int] == ']');
        assert(s[j] == ']');
        lemma_digit_not_marker_none(']');
        lemma_parse_of_print(items[0], s, i);
        assert(ws_end(s, j) == j);
        assert(seq![items[0]] =~= items);
    } else {
        let rest = spec_print_items(items.skip(1));
        assert(pi == p0 + (seq![','] + rest));
        assert(e_all[p0.len() as int] == ',');
        assert(s[j] == ',');
        lemma_digit_not_marker_none(',');
        lemma_parse_of_print(items[0], s, i);
        assert(ws_end(s, j) == j);
        lemma_print_items_front(items.skip(1));
        lemma_print_first(items.skip(1)[0]);
        assert(s[j + 1] == e_all[p0.len() + 1 as int]);
        assert(e_all[p0.len() + 1 as int] == rest[0]);
        assert(rest[0] == spec_print(items.skip(1)[0])[0]);
        assert(!is_ws(s[j + 1]));
        assert(ws_end(s, j + 1) == j + 1);
        assert(s.subrange(j + 1, j + 1 + rest.len() + 1) =~= rest + seq![']']) by {
            assert forall|k: int| 0 <= k < rest.len() + 1 implies s.subrange(
                j + 1,
                j + 1 + rest.len() + 1,
            )[k] == (rest + seq![']'])[k] by {
                assert(s.subrange(j + 1, j + 1 + rest.len() + 1)[k] == s[(j + 1) + k]);
                assert(s[(j + 1) + k] == s[i + (p0.len() + 1 + k)]);
                assert(s[i + (p0.len() + 1 + k)] == e_all[p0.len() + 1 + k]);
                assert(e_all[p0.len() + 1 + k] == (rest + seq![']'])[k]);
            }
        }
        lemma_parse_items_of_print(items.skip(1), s, j + 1);
        assert(seq![items[0]] + items.skip(1) =~= items);
    }
}

/// A closing or separating character is not a digit.
proof fn lemma_digit_not_marker_none(c: char)
    requires
        c == ']' || c == '}' || c == ',' || c == ':',
    ensures
        !is_digit(c),
        !is_ws(c),
{
    assert((']' as u32) == 93 && ('}' as u32) == 125 && (',' as u32) == 44 && (':' as u32) == 58);
}

/// Rendered members embedded at `i`, closing brace included, are parsed
/// back as exactly those members.
#[verifier::rlimit(100)]
#[verifier::spinoff_prover]
proof fn lemma_parse_members_of_print(fields: Seq<(Seq<char>, JsonModel)>, s: Seq<char>, i: int)
    requires
        wf_members(fields),
        fields.len() >= 1,
        0 <= i,
        i + spec_print_members(fields).len() + 1 <= s.len(),
        s.subrange(i, i + spec_print_members(fields).len() + 1) == spec_print_members(fields)
            + seq!['}'],
    ensures
        parse_members(s, i) == Some((fields, i + spec_print_members(fields).len() + 1)),
    decreases fields, 1int,
{
    let pm = spec_print_members(fields);
    let e_all = pm + seq!['}'];
    assert forall|k: int| 0 <= k < e_all.len() implies s[i + k] == #[trigger] e_all[k] by {
        assert(s.subrange(i, i + pm.len() + 1)[k] == s[i + k]);
    }
    lemma_wf_members_skip(fields);
    lemma_print_members_front(fields);
    let key = fields[0].0;
    let kc = spec_string_chars(key);
    let esc = spec_escaped(key);
    assert(kc == seq!['"'] + esc + seq!['"']);
    assert(s[i + 0] == e_all[0]);
    assert(s[i] == '"');
    assert(s.subrange(i + 1, i + 1 + esc.len() + 1) =~= esc + seq!['"']) by {
        assert forall|k: int| 0 <= k < esc.len() + 1 implies s.subrange(
            i + 1,
            i + 1 + esc.len() + 1,
        )[k] == (esc + seq!['"'])[k] by {
            assert(s.subrange(i + 1, i + 1 + esc.len() + 1)[k] == s[(i + 1) + k]);
            assert(s[(i + 1) + k] == s[i + (1 + k)]);
            assert(s[i + (1 + k)] == e_all[1 + k]);
            assert(e_all[1 + k] == kc[1 + k]);
            assert(kc[1 + k] == (esc + seq!['"'])[k]);
        }
    }
    lemma_parse_string_of_print(key, s, i + 1);
    let jk = i + 1 + esc.len() + 1;
    assert(jk == i + kc.len());
    assert(s[i + kc.len() as int] == e_all[kc.len() as int]);
    assert(e_all[kc.len() as int] == ':');
    assert(s[jk] == ':');
    lemma_digit_not_marker_none(':');
    assert(ws_end(s, jk) == jk);
    let v0 = fields[0].1;
    let pv = spec_print(v0);
    lemma_print_first(v0);
    let m0 = jk + 1;
    assert(s[i + (kc.len() + 1 as int)] == e_all[kc.len() + 1 as int]);
    assert(e_all[kc.len() + 1 as int] == pv[0]);
    assert(s[m0] == pv[0]);
    assert(ws_end(s, m0) == m0);
    assert(s.subrange(m0, m0 + pv.len() as int) =~= pv) by {
        assert forall|k: int| 0 <= k < pv.len() implies s.subrange(
            m0,
            m0 + pv.len() as int,
        )[k] == pv[k] by {
            assert(s.subrange(m0, m0 + pv.len() as int)[k] == s[m0 + k]);
            assert(s[m0 + k] == s[i + (kc.len() + 1 + k)]);
            assert(s[i + (kc.len() + 1 + k)] == e_all[kc.len() + 1 + k]);
            assert(e_all[kc.len() + 1 + k] == pv[k]);
        }
    }
    let j2 = m0 + pv.len() as int;
    assert(s[i + (kc.len() + 1 + pv.len() as int)] == e_all[kc.len() + 1 + pv.len() as int]);
    assert(s[j2] == e_all[kc.len() + 1 + pv.len() as int]);
    if fields.len() == 1 {
        assert(e_all[kc.len() + 1 + pv.len() as int] == '}');
        assert(s[j2] == '}');
        lemma_digit_not_marker_none('}');
        lemma_parse_of_print(v0, s, m0);
        assert(ws_end(s, j2) == j2);
        assert(seq![(key, v0)] =~= fields) by {
            assert(fields[0] == (key, v0));
        }
    } else {
        let rest = spec_print_members(fields.skip(1));
        assert(pm == kc + seq![':'] + pv + (seq![','] + rest));
        assert(e_all[kc.len() + 1 + pv.len() as int] == ',');
        assert(s[j2] == ',');
        lemma_digit_not_marker_none(',');
        lemma_parse_of_print(v0, s, m0);
        assert(ws_end(s, j2) == j2);
        lemma_print_members_front(fields.skip(1));
        assert(s[j2 + 1] == e_all[kc.len() + 1 + pv.len() + 1 as int]);
        assert(e_all[kc.len() + 1 + pv.len() + 1 as int] == rest[0]);
        assert(rest[0] == '"');
        assert(ws_end(s, j2 + 1) == j2 + 1);
        assert(s.subrange(j2 + 1, j2 + 1 + rest.len() + 1) =~= rest + seq!['}']) by {
            assert forall|k: int| 0 <= k < rest.len() + 1 implies s.subrange(
                j2 + 1,
                j2 + 1 + rest.len() + 1,
            )[k] == (rest + seq!['}'])[k] by {
                assert(s.subrange(j2 + 1, j2 + 1 + rest.len() + 1)[k] == s[(j2 + 1) + k]);
                assert(s[(j2 + 1) + k] == s[i + (kc.len() + 1 + pv.len() + 1 + k)]);
                assert(s[i + (kc.len() + 1 + pv.len() + 1 + k)] == e_all[kc.len() + 1 + pv.len()
                    + 1 + k]);
                assert(e_all[kc.len() + 1 + pv.len() + 1 + k] == (rest + seq!['}'])[k]);
            }
        }
        lemma_parse_members_of_print(fields.skip(1), s, j2 + 1);
        assert(seq![(key, v0)] + fields.skip(1) =~= fields) by {
            assert(fields[0] == (key, v0));
        }
    }
}

/// The wire text round trip: rendering any well-formed model and parsing
/// the text back yields exactly that model.
pub proof fn lemma_print_parse_round_trip(m: JsonModel)
    requires
        wf_model(m),
    ensures
        spec_parse(spec_print(m)) == Some(m),
{
    let s = spec_print(m);
    lemma_print_first(m);
    assert(ws_end(s, 0) == 0);
    assert(s.subrange(0, s.len() as int) =~= s);
    lemma_parse_of_print(m, s, 0);
    assert(ws_end(s, s.len() as int) == s.len());
}



// ---------------------------------------------------------------------------
// Encoded events are well-formed models.
// ---------------------------------------------------------------------------

/// Pointwise well-formedness builds `wf_items`.
proof fn lemma_wf_items_build(items: Seq<JsonModel>)
    requires
        forall|k: int| 0 <= k < items.len() ==> wf_model(#[trigger] items[k]),
    ensures
        wf_items(items),
    decreases items.len(),
{
    if items.len() > 0 {
        assert forall|k: int| 0 <= k < items.len() - 1 implies wf_model(
            #[trigger] items.drop_last()[k],
        ) by {
            assert(items.drop_last()[k] == items[k]);
        }
        lemma_wf_items_build(items.drop_last());
        assert(items.last() == items[items.len() - 1]);
    }
}

/// Pointwise well-formedness builds `wf_members`.
proof fn lemma_wf_members_build(fields: Seq<(Seq<char>, JsonModel)>)
    requires
        forall|k: int| 0 <= k < fields.len() ==> wf_model(#[trigger] fields[k].1),
    ensures
        wf_members(fields),
    decreases fields.len(),
{
    if fields.len() > 0 {
        assert forall|k: int| 0 <= k < fields.len() - 1 implies wf_model(
            #[trigger] fields.drop_last()[k].1,
        ) by {
            assert(fields.drop_last()[k] == fields[k]);
        }
        lemma_wf_members_build(fields.drop_last());
        assert(fields.last() == fields[fields.len() - 1]);
    }
}

/// Well-formed member runs concatenate.
proof fn lemma_wf_members_concat(a: Seq<(Seq<char>, JsonModel)>, b: Seq<(Seq<char>, JsonModel)>)
    requires
        wf_members(a),
        wf_members(b),
    ensures
        wf_members(a + b),
    decreases b.len(),
{
    if b.len() == 0 {
        assert(a + b =~= a);
    } else {
        lemma_wf_members_concat(a, b.drop_last());
        assert((a + b).drop_last() =~= a + b.drop_last());
        assert((a + b).last() == b.last());
    }
}

/// Every optional member run is well formed when its value is.
proof fn lemma_wf_opt_member(key: Seq<char>, m: Option<JsonModel>)
    requires
        match m {
            Some(x) => wf_model(x),
            None => true,
        },
    ensures
        wf_members(crate::codec::opt_member(key, m)),
{
    match m {
        Some(x) => {
            lemma_wf_members_build(seq![(key, x)]);
        },
        None => {},
    }
}

/// Every encoded segment is a well-formed model.
proof fn lemma_enc_segment_wf(sg: crate::types::message::in_coming::IncomingSegment)
    ensures
        wf_model(crate::codec::enc_segment(sg)),
{
    let v = crate::codec::enc_segment(sg);
    match sg {
        crate::types::message::in_coming::IncomingSegment::File {
            file_id,
            file_name,
            file_size,
            file_hash,
        } => {
            let fixed = seq![
                ("file_id"@, JsonModel::Str(file_id@)),
                ("file_name"@, JsonModel::Str(file_name@)),
                ("file_size"@, JsonModel::Int(file_size as int)),
            ];
            lemma_wf_members_build(fixed);
            lemma_wf_opt_member("file_hash"@, crate::codec::enc_opt_str(file_hash));
            lemma_wf_members_concat(
                fixed,
                crate::codec::opt_member("file_hash"@, crate::codec::enc_opt_str(file_hash)),
            );
            lemma_wf_members_build(v->Obj_0);
        },
        _ => {
            assert(wf_members(v->Obj_0[1].1->Obj_0)) by {
                lemma_wf_members_build(v->Obj_0[1].1->Obj_0);
            }
            lemma_wf_members_build(v->Obj_0);
        },
    }
}

/// Every encoded segment sequence is a well-formed element run.
proof fn lemma_enc_segments_wf(ss: Seq<crate::types::message::in_coming::IncomingSegment>)
    ensures
        wf_items(crate::codec::enc_segments(ss)),
    decreases ss,
{
    if ss.len() == 0 {
    } else {
        lemma_enc_segments_wf(ss.drop_last());
        lemma_enc_segment_wf(ss.last());
        let whole = crate::codec::enc_segments(ss);
        assert(whole.drop_last() =~= crate::codec::enc_segments(ss.drop_last()));
        assert(whole.last() == crate::codec::enc_segment(ss.last()));
    }
}


/// Every encoded profile or payload object below is a well-formed model.
proof fn lemma_enc_friend_wf(f: crate::types::friend::Friend)
    ensures
        wf_model(crate::codec::enc_friend(f)),
{
    let fs = crate::codec::enc_friend(f)->Obj_0;
    assert forall|k: int| 0 <= k < fs.len() implies wf_model(#[trigger] fs[k].1) by {
        match f.category {
            Some(c) => {
                lemma_wf_members_build(crate::codec::enc_category(c)->Obj_0);
            },
            None => {},
        }
    }
    lemma_wf_members_build(fs);
}

proof fn lemma_enc_group_wf(g: crate::types::group::Group)
    ensures
        wf_model(crate::codec::enc_group(g)),
{
    lemma_wf_members_build(crate::codec::enc_group(g)->Obj_0);
}

proof fn lemma_enc_member_wf(m: crate::types::group::GroupMember)
    ensures
        wf_model(crate::codec::enc_member(m)),
{
    lemma_wf_members_build(crate::codec::enc_member(m)->Obj_0);
}

/// The shared message members are well formed.
proof fn lemma_enc_msg_base_wf(m: crate::codec::IncomingMessageM)
    ensures
        wf_members(crate::codec::enc_msg_base(m)),
{
    lemma_enc_segments_wf(m.segments);
    lemma_wf_members_build(crate::codec::enc_msg_base(m));
}

/// Every encoded message payload is a well-formed model.
proof fn lemma_enc_message_wf(me: crate::codec::MessageEventM)
    ensures
        wf_model(crate::codec::enc_message(me)),
{
    match me {
        crate::codec::MessageEventM::Friend(f) => {
            lemma_enc_msg_base_wf(f.message);
            lemma_enc_friend_wf(f.friend);
            lemma_wf_members_build(seq![("friend"@, crate::codec::enc_friend(f.friend))]);
            lemma_wf_members_concat(
                crate::codec::enc_msg_base(f.message),
                seq![("friend"@, crate::codec::enc_friend(f.friend))],
            );
        },
        crate::codec::MessageEventM::Group(g) => {
            lemma_enc_msg_base_wf(g.message);
            lemma_enc_group_wf(g.group);
            lemma_enc_member_wf(g.group_member);
            lemma_wf_members_build(
                seq![
                    ("group"@, crate::codec::enc_group(g.group)),
                    ("group_member"@, crate::codec::enc_member(g.group_member)),
                ],
            );
            lemma_wf_members_concat(
                crate::codec::enc_msg_base(g.message),
                seq![
                    ("group"@, crate::codec::enc_group(g.group)),
                    ("group_member"@, crate::codec::enc_member(g.group_member)),
                ],
            );
        },
        crate::codec::MessageEventM::Temp(tm) => {
            lemma_enc_msg_base_wf(tm.message);
            let og = match tm.group {
                Some(g) => Some(crate::codec::enc_group(g)),
                None => None,
            };
            match tm.group {
                Some(g) => {
                    lemma_enc_group_wf(g);
                },
                None => {},
            }
            lemma_wf_opt_member("group"@, og);
            lemma_wf_members_concat(
                crate::codec::enc_msg_base(tm.message),
                crate::codec::opt_member("group"@, og),
            );
        },
    }
}

/// Every encoded event payload is a well-formed model.
#[verifier::rlimit(100)]
proof fn lemma_enc_kind_data_wf(k: crate::codec::EventKindM)
    ensures
        wf_model(crate::codec::enc_kind_data(k)),
{
    let v = crate::codec::enc_kind_data(k);
    match k {
        crate::codec::EventKindM::MessageReceive(me) => {
            lemma_enc_message_wf(me);
        },
        crate::codec::EventKindM::FriendRequest(d) => {
            let fixed = seq![
                ("request_id"@, JsonModel::Str(d.request_id@)),
                ("operator_id"@, JsonModel::Int(d.operator_id as int)),
            ];
            lemma_wf_members_build(fixed);
            lemma_wf_opt_member("comment"@, crate::codec::enc_opt_str(d.comment));
            lemma_wf_opt_member("via"@, crate::codec::enc_opt_str(d.via));
            lemma_wf_members_concat(
                fixed,
                crate::codec::opt_member("comment"@, crate::codec::enc_opt_str(d.comment)),
            );
            lemma_wf_members_concat(
                fixed + crate::codec::opt_member(
                    "comment"@,
                    crate::codec::enc_opt_str(d.comment),
                ),
                crate::codec::opt_member("via"@, crate::codec::enc_opt_str(d.via)),
            );
        },
        crate::codec::EventKindM::GroupJoinRequest(d) => {
            let fixed = seq![
                ("request_id"@, JsonModel::Str(d.request_id@)),
                ("operator_id"@, JsonModel::Int(d.operator_id as int)),
                ("group_id"@, JsonModel::Int(d.group_id as int)),
            ];
            lemma_wf_members_build(fixed);
            lemma_wf_opt_member("comment"@, crate::codec::enc_opt_str(d.comment));
            lemma_wf_members_concat(
                fixed,
                crate::codec::opt_member("comment"@, crate::codec::enc_opt_str(d.comment)),
            );
        },
        crate::codec::EventKindM::GroupMemberIncrease(d) => {
            let fixed = seq![
                ("group_id"@, JsonModel::Int(d.group_id as int)),
                ("user_id"@, JsonModel::Int(d.user_id as int)),
            ];
            lemma_wf_members_build(fixed);
            lemma_wf_opt_member("operator_id"@, crate::codec::enc_opt_i64(d.operator_id));
            lemma_wf_opt_member("invitor_id"@, crate::codec::enc_opt_i64(d.invitor_id));
            lemma_wf_members_concat(
                fixed,
                crate::codec::opt_member("operator_id"@, crate::codec::enc_opt_i64(d.operator_id)),
            );
            lemma_wf_members_concat(
                fixed + crate::codec::opt_member(
                    "operator_id"@,
                    crate::codec::enc_opt_i64(d.operator_id),
                ),
                crate::codec::opt_member("invitor_id"@, crate::codec::enc_opt_i64(d.invitor_id)),
            );
        },
        crate::codec::EventKindM::GroupMemberDecrease(d) => {
            let fixed = seq![
                ("group_id"@, JsonModel::Int(d.group_id as int)),
                ("user_id"@, JsonModel::Int(d.user_id as int)),
            ];
            lemma_wf_members_build(fixed);
            lemma_wf_opt_member("operator_id"@, crate::codec::enc_opt_i64(d.operator_id));
            lemma_wf_members_concat(
                fixed,
                crate::codec::opt_member("operator_id"@, crate::codec::enc_opt_i64(d.operator_id)),
            );
        },
        crate::codec::EventKindM::GroupMessageReaction(d) => {
            let fixed = seq![
                ("group_id"@, JsonModel::Int(d.group_id as int)),
                ("user_id"@, JsonModel::Int(d.user_id as int)),
                ("message_seq"@, JsonModel::Int(d.message_seq as int)),
                ("face_id"@, JsonModel::Str(d.face_id@)),
            ];
            lemma_wf_members_build(fixed);
            lemma_wf_opt_member("is_add"@, crate::codec::enc_opt_bool(d.is_add));
            lemma_wf_members_concat(
                fixed,
                crate::codec::opt_member("is_add"@, crate::codec::enc_opt_bool(d.is_add)),
            );
        },
        _ => {
            lemma_wf_members_build(v->Obj_0);
        },
    }
}

/// The rendering of any encoded event parses back to exactly the encoded
/// document: together with the document inversion on `encode_event`, the
/// round trip holds over the wire text itself.
pub proof fn lemma_event_text_round_trip(em: crate::codec::EventM)
    ensures
        wf_model(crate::codec::enc_event(em)),
        spec_parse(spec_print(crate::codec::enc_event(em))) == Some(crate::codec::enc_event(em)),
{
    lemma_enc_kind_data_wf(em.kind);
    lemma_wf_members_build(crate::codec::enc_event(em)->Obj_0);
    lemma_print_parse_round_trip(crate::codec::enc_event(em));
}

} // verus!
