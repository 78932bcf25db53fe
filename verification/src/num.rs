//! Decimal rendering of the integer quantities the library works with:
//! plain integers, signed integers, and fixed-point values in thousandths
//! (milli) or millionths (ppm), rendered the way the filter expressions and
//! persisted documents need them (no trailing zeros in fractions).

use vstd::prelude::*;

verus! {

/// The decimal digit character for `d` in 0..10.
pub open spec fn digit_char(d: int) -> char {
    if d == 0 { '0' }
    else if d == 1 { '1' }
    else if d == 2 { '2' }
    else if d == 3 { '3' }
    else if d == 4 { '4' }
    else if d == 5 { '5' }
    else if d == 6 { '6' }
    else if d == 7 { '7' }
    else if d == 8 { '8' }
    else { '9' }
}

/// Decimal digits of `n`, most significant first, no leading zeros
/// (a single `'0'` for zero).
pub open spec fn spec_u64_str(n: nat) -> Seq<char>
    decreases n,
{
    if n < 10 {
        seq![digit_char(n as int)]
    } else {
        spec_u64_str(n / 10) + seq![digit_char((n % 10) as int)]
    }
}

/// Decimal rendering of a signed value: a leading `'-'` for negatives.
pub open spec fn spec_i64_str(n: int) -> Seq<char> {
    if n < 0 {
        seq!['-'] + spec_u64_str((-n) as nat)
    } else {
        spec_u64_str(n as nat)
    }
}

/// Exactly `k` decimal digits of `m`, zero padded on the left.
pub open spec fn spec_padded_digits(m: nat, k: nat) -> Seq<char>
    decreases k,
{
    if k == 0 {
        Seq::<char>::empty()
    } else {
        spec_padded_digits(m / 10, (k - 1) as nat) + seq![digit_char((m % 10) as int)]
    }
}

/// The `k`-digit fraction `m`, with trailing zeros removed; empty when the
/// fraction is all zeros.
pub open spec fn spec_frac_digits(m: nat, k: nat) -> Seq<char>
    decreases k,
{
    if k == 0 {
        Seq::<char>::empty()
    } else if m % 10 == 0 {
        spec_frac_digits(m / 10, (k - 1) as nat)
    } else {
        spec_padded_digits(m, k)
    }
}

/// `m` thousandths, rendered as a decimal number: `1500` is `1.5`,
/// `2000` is `2`, `166` is `0.166`.
pub open spec fn spec_milli_str(m: nat) -> Seq<char> {
    if m % 1000 == 0 {
        spec_u64_str(m / 1000)
    } else {
        spec_u64_str(m / 1000) + seq!['.'] + spec_frac_digits(m % 1000, 3)
    }
}

/// `p` millionths, rendered as a decimal number: `500000` is `0.5`,
/// `283333` is `0.283333`.
pub open spec fn spec_ppm_str(p: nat) -> Seq<char> {
    if p % 1000000 == 0 {
        spec_u64_str(p / 1000000)
    } else {
        spec_u64_str(p / 1000000) + seq!['.'] + spec_frac_digits(p % 1000000, 6)
    }
}

/// The one-character string for decimal digit `d`.
fn digit_str(d: u64) -> (r: &'static str)
    requires
        d < 10,
    ensures
        r@ == seq![digit_char(d as int)],
{
    proof {
        reveal_strlit("0");
        reveal_strlit("1");
        reveal_strlit("2");
        reveal_strlit("3");
        reveal_strlit("4");
        reveal_strlit("5");
        reveal_strlit("6");
        reveal_strlit("7");
        reveal_strlit("8");
        reveal_strlit("9");
    }
    let r = if d == 0 { "0" }
    else if d == 1 { "1" }
    else if d == 2 { "2" }
    else if d == 3 { "3" }
    else if d == 4 { "4" }
    else if d == 5 { "5" }
    else if d == 6 { "6" }
    else if d == 7 { "7" }
    else { "9" };
    let r = if d == 8 { "8" } else { r };
    proof {
        assert(r@ =~= seq![digit_char(d as int)]);
    }
    r
}

/// Appends the decimal digits of `n` to `out`.
pub fn push_u64(out: &mut String, n: u64)
    ensures
        final(out)@ == old(out)@ + spec_u64_str(n as nat),
    decreases n,
{
    if n < 10 {
        out.append(digit_str(n));
    } else {
        push_u64(out, n / 10);
        out.append(digit_str(n % 10));
        proof {
            assert(out@ =~= old(out)@ + spec_u64_str(n as nat));
        }
    }
}

/// The decimal rendering of `n`.
pub fn u64_to_string(n: u64) -> (s: String)
    ensures
        s@ == spec_u64_str(n as nat),
{
    let mut s = String::new();
    push_u64(&mut s, n);
    proof {
        assert(s@ =~= spec_u64_str(n as nat));
    }
    s
}

/// Appends the decimal rendering of signed `n` to `out`.
pub fn push_i64(out: &mut String, n: i64)
    requires
        n > i64::MIN,
    ensures
        final(out)@ == old(out)@ + spec_i64_str(n as int),
{
    proof {
        reveal_strlit("-");
    }
    if n < 0 {
        out.append("-");
        push_u64(out, (-n) as u64);
        proof {
            assert("-"@ =~= seq!['-']);
            assert(out@ =~= old(out)@ + spec_i64_str(n as int));
        }
    } else {
        push_u64(out, n as u64);
    }
}

/// The decimal rendering of signed `n`.
pub fn i64_to_string(n: i64) -> (s: String)
    requires
        n > i64::MIN,
    ensures
        s@ == spec_i64_str(n as int),
{
    let mut s = String::new();
    push_i64(&mut s, n);
    proof {
        assert(s@ =~= spec_i64_str(n as int));
    }
    s
}

/// Appends exactly `k` digits of `m`, zero padded.
fn push_padded(out: &mut String, m: u64, k: u64)
    ensures
        final(out)@ == old(out)@ + spec_padded_digits(m as nat, k as nat),
    decreases k,
{
    if k > 0 {
        push_padded(out, m / 10, k - 1);
        out.append(digit_str(m % 10));
        proof {
            assert(out@ =~= old(out)@ + spec_padded_digits(m as nat, k as nat));
        }
    } else {
        proof {
            assert(out@ =~= old(out)@ + spec_padded_digits(m as nat, 0));
        }
    }
}

/// Appends the `k`-digit fraction `m` with trailing zeros removed.
fn push_frac(out: &mut String, m: u64, k: u64)
    ensures
        final(out)@ == old(out)@ + spec_frac_digits(m as nat, k as nat),
    decreases k,
{
    if k == 0 {
        proof {
            assert(out@ =~= old(out)@ + spec_frac_digits(m as nat, 0));
        }
    } else if m % 10 == 0 {
        push_frac(out, m / 10, k - 1);
    } else {
        push_padded(out, m, k);
    }
}

/// Appends `m` thousandths as a decimal number.
pub fn push_milli(out: &mut String, m: u64)
    ensures
        final(out)@ == old(out)@ + spec_milli_str(m as nat),
{
    proof {
        reveal_strlit(".");
    }
    push_u64(out, m / 1000);
    if m % 1000 != 0 {
        out.append(".");
        push_frac(out, m % 1000, 3);
        proof {
            assert("."@ =~= seq!['.']);
            assert(out@ =~= old(out)@ + spec_milli_str(m as nat));
        }
    }
}

/// A signed value in thousandths, rendered as a decimal number.
pub open spec fn spec_milli_str_signed(v: int) -> Seq<char> {
    if v < 0 {
        seq!['-'] + spec_milli_str((-v) as nat)
    } else {
        spec_milli_str(v as nat)
    }
}

/// Appends a signed value in thousandths as a decimal number.
pub fn push_milli_signed(out: &mut String, v: i64)
    requires
        v > i64::MIN,
    ensures
        final(out)@ == old(out)@ + spec_milli_str_signed(v as int),
{
    proof {
        reveal_strlit("-");
    }
    if v < 0 {
        out.append("-");
        push_milli(out, (-v) as u64);
        proof {
            assert("-"@ =~= seq!['-']);
            assert(out@ =~= old(out)@ + spec_milli_str_signed(v as int));
        }
    } else {
        push_milli(out, v as u64);
    }
}


/// `c` hundredths, rendered as a decimal number: `94` is `0.94`, `100`
/// is `1`, `36` is `0.36`.
pub open spec fn spec_cent_str(c: nat) -> Seq<char> {
    if c % 100 == 0 {
        spec_u64_str(c / 100)
    } else {
        spec_u64_str(c / 100) + seq!['.'] + spec_frac_digits(c % 100, 2)
    }
}

/// Appends `c` hundredths as a decimal number.
pub fn push_cent(out: &mut String, c: u64)
    ensures
        final(out)@ == old(out)@ + spec_cent_str(c as nat),
{
    proof {
        reveal_strlit(".");
    }
    push_u64(out, c / 100);
    if c % 100 != 0 {
        out.append(".");
        push_frac(out, c % 100, 2);
        proof {
            assert("."@ =~= seq!['.']);
            assert(out@ =~= old(out)@ + spec_cent_str(c as nat));
        }
    }
}

/// The decimal rendering of `m` thousandths.
pub fn milli_to_string(m: u64) -> (s: String)
    ensures
        s@ == spec_milli_str(m as nat),
{
    let mut s = String::new();
    push_milli(&mut s, m);
    proof {
        assert(s@ =~= spec_milli_str(m as nat));
    }
    s
}

/// Appends `p` millionths as a decimal number.
pub fn push_ppm(out: &mut String, p: u64)
    ensures
        final(out)@ == old(out)@ + spec_ppm_str(p as nat),
{
    proof {
        reveal_strlit(".");
    }
    push_u64(out, p / 1000000);
    if p % 1000000 != 0 {
        out.append(".");
        push_frac(out, p % 1000000, 6);
        proof {
            assert("."@ =~= seq!['.']);
            assert(out@ =~= old(out)@ + spec_ppm_str(p as nat));
        }
    }
}

/// The decimal rendering of `p` millionths.
pub fn ppm_to_string(p: u64) -> (s: String)
    ensures
        s@ == spec_ppm_str(p as nat),
{
    let mut s = String::new();
    push_ppm(&mut s, p);
    proof {
        assert(s@ =~= spec_ppm_str(p as nat));
    }
    s
}

} // verus!
