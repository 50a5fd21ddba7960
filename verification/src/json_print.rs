//! Rendering a document tree to its wire text.
//!
//! `spec_print` fixes the rendered text of every model exactly; the
//! executable renderer is proved to produce precisely that text.

use vstd::prelude::*;

use crate::json::{jv_model, jv_model_fields, jv_model_seq, JsonModel, JsonValue};
use crate::json::{lemma_jv_model_fields, lemma_jv_model_seq};
use crate::text::push_char;
use crate::text::str_chars;

verus! {

/// The digit character for a value below sixteen.
pub open spec fn digit_char(d: int) -> char {
    if d == 0 {
        '0'
    } else if d == 1 {
        '1'
    } else if d == 2 {
        '2'
    } else if d == 3 {
        '3'
    } else if d == 4 {
        '4'
    } else if d == 5 {
        '5'
    } else if d == 6 {
        '6'
    } else if d == 7 {
        '7'
    } else if d == 8 {
        '8'
    } else if d == 9 {
        '9'
    } else if d == 10 {
        'a'
    } else if d == 11 {
        'b'
    } else if d == 12 {
        'c'
    } else if d == 13 {
        'd'
    } else if d == 14 {
        'e'
    } else {
        'f'
    }
}

/// Decimal digits of a nonnegative number, most significant first.
pub open spec fn spec_digits(n: int) -> Seq<char>
    decreases n,
{
    if n < 10 {
        seq![digit_char(n)]
    } else {
        spec_digits(n / 10).push(digit_char(n % 10))
    }
}

/// Decimal rendering of an integer.
pub open spec fn spec_int_chars(i: int) -> Seq<char> {
    if i < 0 {
        seq!['-'] + spec_digits(-i)
    } else {
        spec_digits(i)
    }
}

/// Rendering of one character inside a string literal.
pub open spec fn esc_char(c: char) -> Seq<char> {
    if c == '"' {
        seq!['\\', '"']
    } else if c == '\\' {
        seq!['\\', '\\']
    } else if c == '\n' {
        seq!['\\', 'n']
    } else if c == '\r' {
        seq!['\\', 'r']
    } else if c == '\t' {
        seq!['\\', 't']
    } else if (c as u32) < 32 {
        seq!['\\', 'u', '0', '0', digit_char((c as u32) as int / 16), digit_char(
            (c as u32) as int % 16,
        )]
    } else {
        seq![c]
    }
}

/// Rendering of the characters of a string literal's content.
pub open spec fn spec_escaped(s: Seq<char>) -> Seq<char>
    decreases s,
{
    if s.len() == 0 {
        Seq::empty()
    } else {
        spec_escaped(s.drop_last()) + esc_char(s.last())
    }
}

/// Rendering of a string literal, quotes included.
pub open spec fn spec_string_chars(s: Seq<char>) -> Seq<char> {
    seq!['"'] + spec_escaped(s) + seq!['"']
}

/// The wire text of a model.  There is no insignificant whitespace.
pub open spec fn spec_print(m: JsonModel) -> Seq<char>
    decreases m,
{
    match m {
        JsonModel::Null => seq!['n', 'u', 'l', 'l'],
        JsonModel::Bool(b) => if b {
            seq!['t', 'r', 'u', 'e']
        } else {
            seq!['f', 'a', 'l', 's', 'e']
        },
        JsonModel::Int(i) => spec_int_chars(i),
        JsonModel::Str(s) => spec_string_chars(s),
        JsonModel::Arr(items) => seq!['['] + spec_print_items(items) + seq![']'],
        JsonModel::Obj(fields) => seq!['{'] + spec_print_members(fields) + seq!['}'],
    }
}

/// The comma-separated renderings of array elements.
pub open spec fn spec_print_items(items: Seq<JsonModel>) -> Seq<char>
    decreases items,
{
    if items.len() == 0 {
        Seq::empty()
    } else if items.len() == 1 {
        spec_print(items[0])
    } else {
        spec_print_items(items.drop_last()) + seq![','] + spec_print(items.last())
    }
}

/// The comma-separated renderings of object members.
pub open spec fn spec_print_members(fields: Seq<(Seq<char>, JsonModel)>) -> Seq<char>
    decreases fields,
{
    if fields.len() == 0 {
        Seq::empty()
    } else if fields.len() == 1 {
        spec_string_chars(fields[0].0) + seq![':'] + spec_print(fields[0].1)
    } else {
        spec_print_members(fields.drop_last()) + seq![','] + spec_string_chars(fields.last().0)
            + seq![':'] + spec_print(fields.last().1)
    }
}

/// The digit character, computed.
fn digit_ch(d: u8) -> (c: char)
    requires
        d < 16,
    ensures
        c == digit_char(d as int),
{
    match d {
        0 => '0',
        1 => '1',
        2 => '2',
        3 => '3',
        4 => '4',
        5 => '5',
        6 => '6',
        7 => '7',
        8 => '8',
        9 => '9',
        10 => 'a',
        11 => 'b',
        12 => 'c',
        13 => 'd',
        14 => 'e',
        _ => 'f',
    }
}

/// Appends the decimal digits of `n`.
pub(crate) fn write_u64_digits(n: u64, out: &mut String)
    ensures
        final(out)@ == old(out)@ + spec_digits(n as int),
    decreases n,
{
    if n < 10 {
        push_char(out, digit_ch(n as u8));
        proof {
            assert(old(out)@.push(digit_char(n as int)) =~= old(out)@ + spec_digits(n as int));
        }
    } else {
        write_u64_digits(n / 10, out);
        push_char(out, digit_ch((n % 10) as u8));
        proof {
            assert(old(out)@ + spec_digits(n as int / 10) + seq![digit_char(n as int % 10)]
                =~= old(out)@ + spec_digits(n as int));
            assert((old(out)@ + spec_digits(n as int / 10)).push(digit_char(n as int % 10))
                =~= old(out)@ + spec_digits(n as int / 10) + seq![digit_char(n as int % 10)]);
        }
    }
}

/// Appends the decimal rendering of `i`, sign included.
fn write_i64(i: i64, out: &mut String)
    ensures
        final(out)@ == old(out)@ + spec_int_chars(i as int),
{
    if i < 0 {
        push_char(out, '-');
        let mag: u64 = if i == i64::MIN {
            9223372036854775808u64
        } else {
            (-i) as u64
        };
        proof {
            assert(mag as int == -(i as int));
        }
        write_u64_digits(mag, out);
        proof {
            assert(old(out)@.push('-') + spec_digits(mag as int) =~= old(out)@ + spec_int_chars(
                i as int,
            ));
        }
    } else {
        write_u64_digits(i as u64, out);
    }
}

/// Appends the rendering of a string literal, quotes included.
#[verifier::loop_isolation(false)]
fn write_string(s: &str, out: &mut String)
    ensures
        final(out)@ == old(out)@ + spec_string_chars(s@),
{
    push_char(out, '"');
    let cs = str_chars(s);
    let n = cs.len();
    let mut i: usize = 0;
    while i < n
        invariant
            n == cs@.len(),
            i <= n,
            out@ == old(out)@.push('"') + spec_escaped(cs@.take(i as int)),
        decreases n - i,
    {
        let ghost prefix = out@;
        let c = cs[i];
        if c == '"' {
            push_char(out, '\\');
            push_char(out, '"');
        } else if c == '\\' {
            push_char(out, '\\');
            push_char(out, '\\');
        } else if c == '\n' {
            push_char(out, '\\');
            push_char(out, 'n');
        } else if c == '\r' {
            push_char(out, '\\');
            push_char(out, 'r');
        } else if c == '\t' {
            push_char(out, '\\');
            push_char(out, 't');
        } else if (c as u32) < 32 {
            push_char(out, '\\');
            push_char(out, 'u');
            push_char(out, '0');
            push_char(out, '0');
            push_char(out, digit_ch(((c as u32) / 16) as u8));
            push_char(out, digit_ch(((c as u32) % 16) as u8));
        } else {
            push_char(out, c);
        }
        proof {
            assert(out@ =~= prefix + esc_char(c));
            assert(cs@.take(i + 1).drop_last() =~= cs@.take(i as int));
            assert(cs@.take(i + 1).last() == c);
            assert(out@ =~= old(out)@.push('"') + spec_escaped(cs@.take(i + 1)));
        }
        i += 1;
    }
    proof {
        assert(cs@.take(n as int) =~= s@);
    }
    push_char(out, '"');
    proof {
        assert((old(out)@.push('"') + spec_escaped(s@)).push('"') =~= old(out)@
            + spec_string_chars(s@));
    }
}

impl JsonValue {
    /// Appends this document's wire text to `out`.
    #[verifier::loop_isolation(false)]
    #[verifier::rlimit(60)]
    fn write(&self, out: &mut String)
        ensures
            final(out)@ == old(out)@ + spec_print(jv_model(*self)),
        decreases *self,
    {
        match self {
            JsonValue::Null => {
                push_char(out, 'n');
                push_char(out, 'u');
                push_char(out, 'l');
                push_char(out, 'l');
                proof {
                    assert(out@ =~= old(out)@ + spec_print(jv_model(*self)));
                }
            },
            JsonValue::Bool(b) => {
                if *b {
                    push_char(out, 't');
                    push_char(out, 'r');
                    push_char(out, 'u');
                    push_char(out, 'e');
                } else {
                    push_char(out, 'f');
                    push_char(out, 'a');
                    push_char(out, 'l');
                    push_char(out, 's');
                    push_char(out, 'e');
                }
                proof {
                    assert(out@ =~= old(out)@ + spec_print(jv_model(*self)));
                }
            },
            JsonValue::Int(i) => {
                write_i64(*i, out);
            },
            JsonValue::Str(s) => {
                write_string(s.as_str(), out);
            },
            JsonValue::Arr(items) => {
                let ghost ms = jv_model_seq(items@);
                proof {
                    lemma_jv_model_seq(items@);
                }
                push_char(out, '[');
                let n = items.len();
                let mut i: usize = 0;
                while i < n
                    invariant
                        n == items@.len(),
                        i <= n,
                        out@ == old(out)@.push('[') + spec_print_items(ms.take(i as int)),
                    decreases n - i,
                {
                    if i > 0 {
                        push_char(out, ',');
                    }
                    let ghost prefix = out@;
                    items[i].write(out);
                    proof {
                        assert(ms.take(i + 1).drop_last() =~= ms.take(i as int));
                        if i == 0 {
                            assert(out@ =~= old(out)@.push('[') + spec_print_items(ms.take(1)));
                        } else {
                            assert(out@ =~= old(out)@.push('[') + spec_print_items(ms.take(i + 1)));
                        }
                    }
                    i += 1;
                }
                proof {
                    assert(ms.take(n as int) =~= ms);
                }
                push_char(out, ']');
                proof {
                    assert(out@ =~= old(out)@ + spec_print(jv_model(*self)));
                }
            },
            JsonValue::Obj(fields) => {
                let ghost ms = jv_model_fields(fields@);
                proof {
                    lemma_jv_model_fields(fields@);
                }
                push_char(out, '{');
                let n = fields.len();
                let mut i: usize = 0;
                while i < n
                    invariant
                        n == fields@.len(),
                        i <= n,
                        out@ == old(out)@.push('{') + spec_print_members(ms.take(i as int)),
                    decreases n - i,
                {
                    if i > 0 {
                        push_char(out, ',');
                    }
                    let ghost prefix = out@;
                    write_string(fields[i].0.as_str(), out);
                    push_char(out, ':');
                    fields[i].1.write(out);
                    proof {
                        assert(ms.take(i + 1).drop_last() =~= ms.take(i as int));
                        if i == 0 {
                            assert(out@ =~= old(out)@.push('{') + spec_print_members(ms.take(1)));
                        } else {
                            assert(out@ =~= old(out)@.push('{') + spec_print_members(
                                ms.take(i + 1),
                            ));
                        }
                    }
                    i += 1;
                }
                proof {
                    assert(ms.take(n as int) =~= ms);
                }
                push_char(out, '}');
                proof {
                    assert(out@ =~= old(out)@ + spec_print(jv_model(*self)));
                }
            },
        }
    }

    /// The wire text of this document: exactly `spec_print` of its model.
    pub fn to_text(&self) -> (r: String)
        ensures
            r@ == spec_print(jv_model(*self)),
    {
        let mut out = String::new();
        self.write(&mut out);
        proof {
            assert(out@ =~= spec_print(jv_model(*self)));
        }
        out
    }
}

} // verus!
