//! Character-level rendering of numbers and literals.
use vstd::prelude::*;
use vstd::string::StrSliceExecFns;

verus! {

/// The lower-case hexadecimal digit for `d` (which is below 16).
pub open spec fn digit_char(d: nat) -> char {
    if d == 0 { '0' }
    else if d == 1 { '1' }
    else if d == 2 { '2' }
    else if d == 3 { '3' }
    else if d == 4 { '4' }
    else if d == 5 { '5' }
    else if d == 6 { '6' }
    else if d == 7 { '7' }
    else if d == 8 { '8' }
    else if d == 9 { '9' }
    else if d == 10 { 'a' }
    else if d == 11 { 'b' }
    else if d == 12 { 'c' }
    else if d == 13 { 'd' }
    else if d == 14 { 'e' }
    else { 'f' }
}

/// The digits of `n` in base `b`, most significant first, with no leading zeros
/// ("0" for zero).
pub open spec fn digits(n: nat, b: nat) -> Seq<char>
    recommends
        2 <= b <= 16,
    decreases n,
    via digits_decreases
{
    if b < 2 || n < b {
        seq![digit_char(n)]
    } else {
        digits(n / b, b).push(digit_char(n % b))
    }
}

#[via_fn]
proof fn digits_decreases(n: nat, b: nat) {
    if !(b < 2 || n < b) {
        assert(n / b < n) by (nonlinear_arith)
            requires
                b >= 2,
                n >= b,
        ;
    }
}

/// Decimal text of `n`.
pub open spec fn decimal(n: nat) -> Seq<char> {
    digits(n, 10)
}

/// Lower-case hexadecimal text of `n`, without leading zeros.
pub open spec fn hex(n: nat) -> Seq<char> {
    digits(n, 16)
}

pub fn digit(d: u32) -> (c: char)
    requires
        d < 16,
    ensures
        c == digit_char(d as nat),
{
    if d == 0 { '0' }
    else if d == 1 { '1' }
    else if d == 2 { '2' }
    else if d == 3 { '3' }
    else if d == 4 { '4' }
    else if d == 5 { '5' }
    else if d == 6 { '6' }
    else if d == 7 { '7' }
    else if d == 8 { '8' }
    else if d == 9 { '9' }
    else if d == 10 { 'a' }
    else if d == 11 { 'b' }
    else if d == 12 { 'c' }
    else if d == 13 { 'd' }
    else if d == 14 { 'e' }
    else { 'f' }
}

/// Appends the base-`b` digits of `n` to `out`.
pub fn push_digits(out: &mut Vec<char>, n: u32, b: u32)
    requires
        2 <= b <= 16,
    ensures
        final(out)@ == old(out)@ + digits(n as nat, b as nat),
    decreases n,
{
    if n < b {
        out.push(digit(n));
    } else {
        assert(n / b < n) by (nonlinear_arith)
            requires
                b >= 2,
                n >= b,
        ;
        push_digits(out, n / b, b);
        out.push(digit(n % b));
        assert(final(out)@ =~= old(out)@ + digits(n as nat, b as nat));
    }
}

/// Appends the characters of `s` to `out`.
pub fn push_str(out: &mut Vec<char>, s: &str)
    ensures
        final(out)@ == old(out)@ + s@,
{
    let n = s.unicode_len();
    let mut i: usize = 0;
    while i < n
        invariant
            n == s@.len(),
            i <= n,
            out@ == old(out)@ + s@.subrange(0, i as int),
        decreases n - i,
    {
        let c = s.get_char(i);
        out.push(c);
        i = i + 1;
        assert(out@ =~= old(out)@ + s@.subrange(0, i as int));
    }
    assert(s@.subrange(0, n as int) =~= s@);
}

/// Relies on `String::from_iter` over `char`s: the string holds exactly the
/// given characters, in order.
#[verifier::external_body]
pub(crate) fn string_of(chars: &Vec<char>) -> (r: String)
    ensures
        r@ == chars@,
{
    String::from_iter(chars.iter())
}

} // verus!
