use vstd::prelude::*;

verus! {

pub open spec fn is_octal_digit(c: char) -> bool {
    '0' <= c && c <= '7'
}

pub open spec fn digit_value(c: char) -> nat {
    (c as nat - '0' as nat) as nat
}

/// The number that a sequence of octal digits denotes.
pub open spec fn octal_number(d: Seq<char>) -> nat
    decreases d.len(),
{
    if d.len() == 0 {
        0
    } else {
        octal_number(d.drop_last()) * 8 + digit_value(d.last())
    }
}

/// The digits of an octal token: the token without an optional leading `+`.
pub open spec fn octal_digits(t: Seq<char>) -> Seq<char> {
    if t.len() > 0 && t[0] == '+' {
        t.subrange(1, t.len() as int)
    } else {
        t
    }
}

/// The `u32` that an octal token denotes: one or more octal digits, with an
/// optional leading `+`, whose value fits in 32 bits. Anything else denotes
/// nothing.
pub open spec fn octal_value(t: Seq<char>) -> Option<u32> {
    let d = octal_digits(t);
    if d.len() > 0 && (forall|i: int| 0 <= i < d.len() ==> is_octal_digit(#[trigger] d[i]))
        && octal_number(d) <= u32::MAX {
        Some(octal_number(d) as u32)
    } else {
        None
    }
}

/// Relies on `u32::from_str_radix` with radix 8: it accepts an optional `+`
/// followed by one or more digits `0`-`7`, and fails on an empty string, on
/// any other character and on a value that overflows `u32`.
#[verifier::external_body]
pub(crate) fn parse_octal(t: &str) -> (r: Option<u32>)
    ensures
        r == octal_value(t@),
{
    u32::from_str_radix(t, 8).ok()
}

} // verus!
