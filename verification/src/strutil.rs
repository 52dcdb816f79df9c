//! Small string-building helpers shared by the emitters.

use vstd::prelude::*;

verus! {

/// Relies on `String::push`: appends exactly one character at the end.
#[verifier::external_body]
pub fn push_char(out: &mut String, c: char)
    ensures
        final(out)@ == old(out)@.push(c),
{
    out.push(c);
}

/// Character-by-character string equality.
pub fn str_eq(a: &str, b: &str) -> (r: bool)
    ensures
        r == (a@ == b@),
{
    let an = a.unicode_len();
    let bn = b.unicode_len();
    if an != bn {
        assert(a@.len() != b@.len());
        return false;
    }
    let mut i: usize = 0;
    while i < an
        invariant
            0 <= i <= an,
            an == a@.len(),
            an == b@.len(),
            forall|j: int| 0 <= j < i ==> a@[j] == b@[j],
        decreases an - i,
    {
        if a.get_char(i) != b.get_char(i) {
            assert(a@[i as int] != b@[i as int]);
            return false;
        }
        i = i + 1;
    }
    proof {
        assert(a@ =~= b@);
    }
    true
}

/// The decimal digit character for `d`, for `0 <= d < 10`.
pub open spec fn spec_digit_char(d: int) -> char {
    ((48 + d) as u8) as char
}

/// The decimal text of `n`, most significant digit first.
pub open spec fn spec_dec(n: int) -> Seq<char>
    decreases n,
{
    if n < 10 {
        seq![spec_digit_char(if n < 0 { 0 } else { n })]
    } else {
        spec_dec(n / 10).push(spec_digit_char(n % 10))
    }
}

/// Appends the decimal rendering of `n` to `out`.
pub fn push_dec(out: &mut String, n: usize)
    ensures
        final(out)@ == old(out)@ + spec_dec(n as int),
    decreases n,
{
    let ghost start = out@;
    if n < 10 {
        let d = (48 + (n as u8)) as char;
        assert(d == spec_digit_char(n as int));
        push_char(out, d);
        assert(out@ =~= start + spec_dec(n as int));
    } else {
        push_dec(out, n / 10);
        let d = (48 + ((n % 10) as u8)) as char;
        assert(d == spec_digit_char(n as int % 10));
        push_char(out, d);
        assert(out@ =~= start + spec_dec(n as int));
    }
}

/// Appends the decimal rendering of a wide counter to `out`.
pub fn push_dec_wide(out: &mut String, n: u128)
    ensures
        final(out)@ == old(out)@ + spec_dec(n as int),
    decreases n,
{
    let ghost start = out@;
    if n < 10 {
        let d = (48 + (n as u8)) as char;
        assert(d == spec_digit_char(n as int));
        push_char(out, d);
        assert(out@ =~= start + spec_dec(n as int));
    } else {
        push_dec_wide(out, n / 10);
        let d = (48 + ((n % 10) as u8)) as char;
        assert(d == spec_digit_char(n as int % 10));
        push_char(out, d);
        assert(out@ =~= start + spec_dec(n as int));
    }
}

} // verus!
