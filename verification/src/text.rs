//! Small trusted bridges to `std`'s string and character primitives that
//! vstd does not specify.  Each wrapper holds exactly one `std` call.

use vstd::prelude::*;

verus! {

/// Relies on `String::push`: appends exactly the given character.
#[verifier::external_body]
pub fn push_char(out: &mut String, c: char)
    ensures
        final(out)@ == old(out)@.push(c),
{
    out.push(c);
}

/// Relies on `str::chars`: yields the characters of the slice in order.
#[verifier::external_body]
pub fn str_chars(s: &str) -> (r: Vec<char>)
    ensures
        r@ == s@,
{
    s.chars().collect()
}

/// Relies on `char::from_u32`: `Some` exactly for scalar values, that is
/// everything below `0x110000` except the surrogate range, and then returns
/// the character with that scalar value.
#[verifier::external_body]
pub fn char_from_u32(u: u32) -> (r: Option<char>)
    ensures
        r is Some <==> (u < 0xD800 || (0xE000 <= u && u < 0x110000)),
        r matches Some(c) ==> c as u32 == u && c == (u as char),
{
    char::from_u32(u)
}

} // verus!
