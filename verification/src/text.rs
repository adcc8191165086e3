use vstd::prelude::*;

verus! {

/// The character for a single decimal digit.
pub open spec fn dec_digit(d: nat) -> char {
    ((d + 48) as u8) as char
}

/// The decimal digit string of a natural number, most significant digit first.
pub open spec fn dec_u64_str(n: nat) -> Seq<char>
    decreases n,
{
    if n < 10 {
        seq![dec_digit(n)]
    } else {
        dec_u64_str(n / 10).push(dec_digit(n % 10))
    }
}

/// The decimal string of a signed number: a minus sign before the magnitude.
pub open spec fn dec_i64_str(n: int) -> Seq<char> {
    if n < 0 {
        seq!['-'] + dec_u64_str((-n) as nat)
    } else {
        dec_u64_str(n as nat)
    }
}

/// Relies on std's equality on `str`: character-for-character comparison.
#[verifier::external_body]
pub fn str_eq(a: &str, b: &str) -> (r: bool)
    ensures
        r == (a@ == b@),
{
    a == b
}

/// Relies on std's String::push: appends one character.
#[verifier::external_body]
pub fn push_char(out: &mut String, c: char)
    ensures
        final(out)@ == old(out)@ + seq![c],
{
    out.push(c);
}

/// Append the decimal digits of `n` to `out`.
pub fn push_u64_dec(n: u64, out: &mut String)
    ensures
        final(out)@ == old(out)@ + dec_u64_str(n as nat),
    decreases n,
{
    if n < 10 {
        let c: char = ((n as u8) + 48) as char;
        push_char(out, c);
        assert(out@ =~= old(out)@ + dec_u64_str(n as nat));
    } else {
        push_u64_dec(n / 10, out);
        let d: u64 = n % 10;
        let c: char = ((d as u8) + 48) as char;
        push_char(out, c);
        assert(out@ =~= old(out)@ + dec_u64_str(n as nat));
    }
}

/// Append the decimal representation of a signed number to `out`.
pub fn push_i64_dec(n: i64, out: &mut String)
    ensures
        final(out)@ == old(out)@ + dec_i64_str(n as int),
{
    if n >= 0 {
        push_u64_dec(n as u64, out);
    } else {
        push_char(out, '-');
        let mag: u64 = ((-(n + 1)) as u64) + 1;
        assert(mag == -(n as int));
        push_u64_dec(mag, out);
        assert(out@ =~= old(out)@ + dec_i64_str(n as int));
    }
}

/// The decimal string of an unsigned number, as a fresh `String`.
pub fn u64_to_dec(n: u64) -> (r: String)
    ensures
        r@ == dec_u64_str(n as nat),
{
    let mut out = String::new();
    push_u64_dec(n, &mut out);
    out
}

/// The decimal string of a signed number, as a fresh `String`.
pub fn i64_to_dec(n: i64) -> (r: String)
    ensures
        r@ == dec_i64_str(n as int),
{
    let mut out = String::new();
    push_i64_dec(n, &mut out);
    out
}

} // verus!
