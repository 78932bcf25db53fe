//! Parsing the media duration out of the encoder's banner: the
//! `Duration: hh:mm:ss.cc` line it prints for an input.

use vstd::prelude::*;
use crate::strutil::spec_is_ws;

verus! {

/// The first position at or after `i` where `pat` occurs in `s`.
pub open spec fn spec_find_from(s: Seq<char>, pat: Seq<char>, i: int) -> Option<int>
    decreases s.len() + 1 - i,
{
    if i < 0 || i + pat.len() > s.len() {
        None
    } else if s.subrange(i, i + pat.len()) == pat {
        Some(i)
    } else {
        spec_find_from(s, pat, i + 1)
    }
}

/// The first position at or after `i` holding `c`.
pub open spec fn spec_char_from(s: Seq<char>, c: char, i: int) -> Option<int>
    decreases s.len() - i,
{
    if i < 0 || i >= s.len() {
        None
    } else if s[i] == c {
        Some(i)
    } else {
        spec_char_from(s, c, i + 1)
    }
}

/// The first non-whitespace position at or after `i`.
pub open spec fn spec_skip_ws(s: Seq<char>, i: int) -> int
    decreases s.len() - i,
{
    if i < 0 || i >= s.len() {
        s.len() as int
    } else if spec_is_ws(s[i]) {
        spec_skip_ws(s, i + 1)
    } else {
        i
    }
}

/// One past the last non-whitespace position at or before `j - 1`.
pub open spec fn spec_rskip_ws(s: Seq<char>, j: int) -> int
    decreases j,
{
    if j <= 0 {
        0int
    } else if spec_is_ws(s[j - 1]) {
        spec_rskip_ws(s, j - 1)
    } else {
        j
    }
}

/// The text with surrounding whitespace removed.
pub open spec fn spec_trim(s: Seq<char>) -> Seq<char> {
    let a = spec_skip_ws(s, 0);
    let b = spec_rskip_ws(s, s.len() as int);
    if a <= b {
        s.subrange(a, b)
    } else {
        Seq::<char>::empty()
    }
}

/// A decimal digit.
pub open spec fn spec_is_digit(c: char) -> bool {
    c == '0' || c == '1' || c == '2' || c == '3' || c == '4' || c == '5' || c == '6' || c == '7'
        || c == '8' || c == '9'
}

/// The value of a digit character.
pub open spec fn spec_digit_val(c: char) -> nat {
    if c == '0' { 0nat }
    else if c == '1' { 1nat }
    else if c == '2' { 2nat }
    else if c == '3' { 3nat }
    else if c == '4' { 4nat }
    else if c == '5' { 5nat }
    else if c == '6' { 6nat }
    else if c == '7' { 7nat }
    else if c == '8' { 8nat }
    else { 9nat }
}

/// Whether every character is a digit.
pub open spec fn spec_all_digits(s: Seq<char>) -> bool {
    forall|i: int| 0 <= i < s.len() ==> spec_is_digit(#[trigger] s[i])
}

/// The value of a digit string.
pub open spec fn spec_digits_val(s: Seq<char>) -> nat
    decreases s.len(),
{
    if s.len() == 0 {
        0nat
    } else {
        spec_digits_val(s.drop_last()) * 10 + spec_digit_val(s.last())
    }
}

/// Ten to the `k`.
pub open spec fn spec_pow10(k: nat) -> nat
    decreases k,
{
    if k == 0 {
        1nat
    } else {
        10 * spec_pow10((k - 1) as nat)
    }
}

/// A clock field (`hh`, `mm` or `ss.cc`) as millionths of its unit:
/// one to six integer digits, an optional fraction of which the first
/// six digits count. Anything else is rejected.
pub open spec fn spec_parse_micro(s: Seq<char>) -> Option<nat> {
    let ip = match spec_char_from(s, '.', 0) {
        Some(d) => s.take(d),
        None => s,
    };
    let fp = match spec_char_from(s, '.', 0) {
        Some(d) => s.skip(d + 1),
        None => Seq::<char>::empty(),
    };
    if 1 <= ip.len() <= 6 && spec_all_digits(ip) && spec_all_digits(fp) {
        let frac = if fp.len() >= 6 {
            spec_digits_val(fp.take(6))
        } else {
            spec_digits_val(fp) * spec_pow10((6 - fp.len()) as nat)
        };
        Some(spec_digits_val(ip) * 1000000 + frac)
    } else {
        None
    }
}

/// The milliseconds encoded by the text after the first `Duration: `
/// marker: three colon-separated clock fields up to the next comma,
/// summed as hours, minutes and seconds and rounded to the millisecond.
pub open spec fn spec_parse_duration_ms(text: Seq<char>) -> Option<u64> {
    match spec_find_from(text, "Duration: "@, 0) {
        None => None,
        Some(at) => {
            let tail_start = at + "Duration: "@.len();
            let comma = match spec_char_from(text, ',', tail_start) {
                Some(c) => c,
                None => text.len() as int,
            };
            let dur = spec_trim(text.subrange(tail_start, comma));
            match spec_char_from(dur, ':', 0) {
                None => None,
                Some(c1) => match spec_char_from(dur, ':', c1 + 1) {
                    None => None,
                    Some(c2) => {
                        let p3end = match spec_char_from(dur, ':', c2 + 1) {
                            Some(c3) => c3,
                            None => dur.len() as int,
                        };
                        let h = spec_parse_micro(dur.subrange(0, c1));
                        let m = spec_parse_micro(dur.subrange(c1 + 1, c2));
                        let s = spec_parse_micro(dur.subrange(c2 + 1, p3end));
                        match (h, m, s) {
                            (Some(hv), Some(mv), Some(sv)) => Some(
                                (((hv * 3600 + mv * 60 + sv) + 500) / 1000) as u64,
                            ),
                            _ => None,
                        }
                    },
                },
            }
        },
    }
}

/// Finds the first occurrence of `pat` at or after `from`.
#[verifier::loop_isolation(false)]
pub fn find_from(s: &str, pat: &str, from: usize) -> (r: Option<usize>)
    requires
        from <= s@.len(),
        pat@.len() >= 1,
    ensures
        ({
            let goal = spec_find_from(s@, pat@, from as int);
            match r {
                Some(i) => goal == Some(i as int) && from <= i && i + pat@.len() <= s@.len(),
                None => goal is None,
            }
        }),
{
    let n = s.unicode_len();
    let m = pat.unicode_len();
    if m > n {
        return None;
    }
    let mut i: usize = from;
    while i <= n - m
        invariant
            from <= i,
            m <= n,
            i <= n + 1,
            n == s@.len(),
            m == pat@.len(),
            spec_find_from(s@, pat@, from as int) == spec_find_from(s@, pat@, i as int),
        decreases n + 1 - i,
    {
        let mut j: usize = 0;
        let mut matches: bool = true;
        while j < m && matches
            invariant
                j <= m,
                i + m <= n,
                matches ==> forall|q: int| 0 <= q < j ==> s@[i + q] == pat@[q],
                !matches ==> s@.subrange(i as int, i + m) != pat@,
            decreases m - j, (if matches { 1int } else { 0int }),
        {
            if s.get_char(i + j) != pat.get_char(j) {
                proof {
                    assert(s@.subrange(i as int, i + m)[j as int] != pat@[j as int]);
                }
                matches = false;
            } else {
                j = j + 1;
            }
        }
        if matches {
            proof {
                assert(s@.subrange(i as int, i + m) =~= pat@);
            }
            return Some(i);
        }
        i = i + 1;
    }
    None
}

/// Finds the first `c` at or after `from`.
#[verifier::loop_isolation(false)]
pub fn char_from(s: &str, c: char, from: usize) -> (r: Option<usize>)
    requires
        from <= s@.len(),
    ensures
        ({
            let goal = spec_char_from(s@, c, from as int);
            match r {
                Some(i) => goal == Some(i as int) && from <= i && i < usize::MAX && i < s@.len()
                    && s@[i as int] == c,
                None => goal is None,
            }
        }),
{
    let n = s.unicode_len();
    let mut i: usize = from;
    while i < n
        invariant
            from <= i <= n,
            spec_char_from(s@, c, from as int) == spec_char_from(s@, c, i as int),
        decreases n - i,
    {
        if s.get_char(i) == c {
            return Some(i);
        }
        i = i + 1;
    }
    None
}

/// A digit string's value is below ten to its length.
pub proof fn lemma_digits_val_bound(s: Seq<char>)
    ensures
        spec_digits_val(s) < spec_pow10(s.len()),
    decreases s.len(),
{
    if s.len() > 0 {
        lemma_digits_val_bound(s.drop_last());
        assert(spec_pow10(s.len()) == 10 * spec_pow10((s.len() - 1) as nat));
        assert(spec_digit_val(s.last()) <= 9);
    }
}

/// Powers of ten grow with the exponent.
pub proof fn lemma_pow10_mono(a: nat, b: nat)
    requires
        a <= b,
    ensures
        spec_pow10(a) <= spec_pow10(b),
    decreases b,
{
    if a < b {
        lemma_pow10_mono(a, (b - 1) as nat);
        assert(spec_pow10(b) == 10 * spec_pow10((b - 1) as nat));
    }
}

/// Powers of ten multiply by adding exponents.
pub proof fn lemma_pow10_add(a: nat, b: nat)
    ensures
        spec_pow10(a) * spec_pow10(b) == spec_pow10(a + b),
    decreases b,
{
    if b == 0 {
        assert(spec_pow10(a) * 1 == spec_pow10(a)) by (nonlinear_arith);
    } else {
        lemma_pow10_add(a, (b - 1) as nat);
        assert(spec_pow10(b) == 10 * spec_pow10((b - 1) as nat));
        assert(spec_pow10(a) * (10 * spec_pow10((b - 1) as nat)) == 10 * (spec_pow10(a)
            * spec_pow10((b - 1) as nat))) by (nonlinear_arith);
        assert(spec_pow10((a + b) as nat) == 10 * spec_pow10((a + b - 1) as nat));
    }
}

/// The small powers of ten, written out.
pub proof fn lemma_pow10_vals()
    ensures
        spec_pow10(0) == 1,
        spec_pow10(1) == 10,
        spec_pow10(2) == 100,
        spec_pow10(3) == 1000,
        spec_pow10(4) == 10000,
        spec_pow10(5) == 100000,
        spec_pow10(6) == 1000000,
{
    assert(spec_pow10(0) == 1);
    assert(spec_pow10(1) == 10);
    assert(spec_pow10(2) == 100);
    assert(spec_pow10(3) == 1000);
    assert(spec_pow10(4) == 10000);
    assert(spec_pow10(5) == 100000);
    assert(spec_pow10(6) == 1000000);
}

/// Parses one clock field into millionths of its unit.
#[verifier::loop_isolation(false)]
#[verifier::rlimit(100)]
fn parse_micro(s: &str) -> (r: Option<u64>)
    ensures
        ({
            let goal = spec_parse_micro(s@);
            match r {
                Some(v) => goal == Some(v as nat) && v < 2000000000000u64,
                None => goal is None,
            }
        }),
{
    let n = s.unicode_len();
    let dot = char_from(s, '.', 0);
    let ip_end: usize = match dot {
        Some(d) => d,
        None => n,
    };
    let ghost ip = (match spec_char_from(s@, '.', 0) {
        Some(d) => s@.take(d),
        None => s@,
    });
    let ghost fp = (match spec_char_from(s@, '.', 0) {
        Some(d) => s@.skip(d + 1),
        None => Seq::<char>::empty(),
    });
    proof {
        assert(ip =~= s@.take(ip_end as int));
        lemma_pow10_vals();
    }
    if ip_end < 1 || ip_end > 6 {
        return None;
    }
    let mut ival: u64 = 0;
    let mut i: usize = 0;
    while i < ip_end
        invariant
            i <= ip_end,
            ip_end <= 6,
            ip_end <= n,
            n == s@.len(),
            ip =~= s@.take(ip_end as int),
            spec_all_digits(ip.take(i as int)),
            ival as nat == spec_digits_val(ip.take(i as int)),
        decreases ip_end - i,
    {
        let c = s.get_char(i);
        let d: u64 = match c {
            '0' => 0, '1' => 1, '2' => 2, '3' => 3, '4' => 4,
            '5' => 5, '6' => 6, '7' => 7, '8' => 8, '9' => 9,
            _ => {
                proof {
                    assert(ip[i as int] == c);
                    assert(!spec_is_digit(c));
                }
                return None;
            },
        };
        proof {
            assert(ip.take(i as int + 1).drop_last() =~= ip.take(i as int));
            assert(ip.take(i as int + 1).last() == ip[i as int]);
            assert(ip[i as int] == c);
            assert(spec_digit_val(c) == d as nat);
            lemma_digits_val_bound(ip.take(i as int));
            lemma_pow10_mono(i as nat, 5);
            lemma_pow10_vals();
            assert(ival < 100000);
        }
        ival = ival * 10 + d;
        i = i + 1;
    }
    proof {
        assert(ip.take(ip_end as int) =~= ip);
        lemma_digits_val_bound(ip);
        lemma_pow10_mono(ip.len(), 6);
        lemma_pow10_vals();
        assert(ival < 1000000);
    }
    let mut frac: u64 = 0;
    let mut k: usize = 0;
    let fstart: usize = match dot {
        Some(d) => d + 1,
        None => n,
    };
    proof {
        assert(fp =~= s@.skip(fstart as int));
    }
    let flen: usize = n - fstart;
    let mut j: usize = 0;
    while j < flen
        invariant
            j <= flen,
            flen == fp.len(),
            fstart + flen == n,
            n == s@.len(),
            fp =~= s@.skip(fstart as int),
            spec_all_digits(fp.take(j as int)),
            k <= 6,
            k == (if j < 6 { j } else { 6 }),
            frac as nat == spec_digits_val(fp.take(k as int)),
        decreases flen - j,
    {
        let c = s.get_char(fstart + j);
        let d: u64 = match c {
            '0' => 0, '1' => 1, '2' => 2, '3' => 3, '4' => 4,
            '5' => 5, '6' => 6, '7' => 7, '8' => 8, '9' => 9,
            _ => {
                proof {
                    assert(fp[j as int] == c);
                    assert(!spec_is_digit(c));
                }
                return None;
            },
        };
        proof {
            assert(fp.take(j as int + 1).drop_last() =~= fp.take(j as int));
            assert(fp.take(j as int + 1).last() == fp[j as int]);
            assert(fp[j as int] == c);
            assert(spec_digit_val(c) == d as nat);
            lemma_digits_val_bound(fp.take(k as int));
            lemma_pow10_mono(k as nat, 6);
            lemma_pow10_vals();
            assert(frac < 1000000);
        }
        if j < 6 {
            proof {
                assert(fp.take(k as int + 1) =~= fp.take(j as int + 1).take(k as int + 1));
                assert(fp.take(k as int + 1).drop_last() =~= fp.take(k as int));
                assert(fp.take(k as int + 1).last() == fp[k as int]);
            }
            frac = frac * 10 + d;
            k = k + 1;
        }
        j = j + 1;
    }
    proof {
        assert(fp.take(flen as int) =~= fp);
        lemma_digits_val_bound(fp.take(k as int));
        lemma_pow10_mono(k as nat, 6);
        lemma_pow10_vals();
        assert(frac < 1000000);
    }
    let mut scaled: u64 = frac;
    let mut pad: usize = k;
    proof {
        assert(spec_digits_val(fp.take(k as int)) * spec_pow10(0) == spec_digits_val(
            fp.take(k as int),
        )) by (nonlinear_arith);
    }
    while pad < 6
        invariant
            k <= pad <= 6,
            k <= 6,
            frac as nat == spec_digits_val(fp.take(k as int)),
            scaled as nat == spec_digits_val(fp.take(k as int)) * spec_pow10((pad - k) as nat),
        decreases 6 - pad,
    {
        proof {
            lemma_digits_val_bound(fp.take(k as int));
            lemma_pow10_add(fp.take(k as int).len(), ((pad - k) as nat));
            assert(spec_digits_val(fp.take(k as int)) * spec_pow10((pad - k) as nat)
                < spec_pow10(k as nat) * spec_pow10((pad - k) as nat)) by (nonlinear_arith)
                requires
                    spec_digits_val(fp.take(k as int)) < spec_pow10(fp.take(k as int).len()),
                    spec_pow10(fp.take(k as int).len()) == spec_pow10(k as nat),
                    spec_pow10((pad - k) as nat) >= 1,
            ;
            lemma_pow10_add(k as nat, ((pad - k) as nat));
            lemma_pow10_mono(pad as nat, 6);
            lemma_pow10_vals();
            assert(scaled < 1000000);
            assert(spec_pow10((pad + 1 - k) as nat) == 10 * spec_pow10((pad - k) as nat));
            assert(spec_digits_val(fp.take(k as int)) * spec_pow10((pad + 1 - k) as nat)
                == spec_digits_val(fp.take(k as int)) * spec_pow10((pad - k) as nat) * 10)
                by (nonlinear_arith)
                requires
                    spec_pow10((pad + 1 - k) as nat) == 10 * spec_pow10((pad - k) as nat),
            ;
        }
        scaled = scaled * 10;
        pad = pad + 1;
    }
    proof {
        lemma_digits_val_bound(fp.take(k as int));
        lemma_pow10_add(k as nat, ((6 - k) as nat));
        lemma_pow10_vals();
        assert(spec_digits_val(fp.take(k as int)) * spec_pow10((6 - k) as nat) < spec_pow10(
            k as nat,
        ) * spec_pow10((6 - k) as nat)) by (nonlinear_arith)
            requires
                spec_digits_val(fp.take(k as int)) < spec_pow10(k as nat),
                spec_pow10((6 - k) as nat) >= 1,
        ;
        assert(scaled < 1000000);
        if fp.len() >= 6 {
            assert(k == 6);
            assert(spec_digits_val(fp.take(6)) * spec_pow10(0) == spec_digits_val(fp.take(6)))
                by (nonlinear_arith);
            assert(scaled as nat == spec_digits_val(fp.take(6)));
        } else {
            assert(k == fp.len());
            assert(fp.take(k as int) =~= fp);
        }
    }
    Some(ival * 1000000 + scaled)
}

/// The first non-whitespace position at or after `from`.
#[verifier::loop_isolation(false)]
pub fn skip_ws_from(s: &str, from: usize) -> (r: usize)
    requires
        from <= s@.len(),
    ensures
        r as int == spec_skip_ws(s@, from as int),
        from <= r <= s@.len(),
{
    let n = s.unicode_len();
    let mut i: usize = from;
    while i < n
        invariant
            from <= i <= n,
            n == s@.len(),
            spec_skip_ws(s@, from as int) == spec_skip_ws(s@, i as int),
        decreases n - i,
    {
        let c = s.get_char(i);
        if !(c == ' ' || c == '\t' || c == '\n' || c == '\r') {
            return i;
        }
        i = i + 1;
    }
    n
}

/// One past the last non-whitespace position before `to`.
#[verifier::loop_isolation(false)]
pub fn rskip_ws_to(s: &str, to: usize) -> (r: usize)
    requires
        to <= s@.len(),
    ensures
        r as int == spec_rskip_ws(s@, to as int),
        r <= to,
{
    let mut j: usize = to;
    while j > 0
        invariant
            j <= to,
            to <= s@.len(),
            spec_rskip_ws(s@, to as int) == spec_rskip_ws(s@, j as int),
        decreases j,
    {
        let c = s.get_char(j - 1);
        if !(c == ' ' || c == '\t' || c == '\n' || c == '\r') {
            return j;
        }
        j = j - 1;
    }
    0
}

/// Parses the `Duration: hh:mm:ss.cc` marker out of encoder output into
/// milliseconds; absent or malformed markers yield `None`.
#[verifier::loop_isolation(false)]
pub fn parse_duration_ms(text: &str) -> (r: Option<u64>)
    ensures
        r == spec_parse_duration_ms(text@),
{
    proof {
        reveal_strlit("Duration: ");
    }
    let at = match find_from(text, "Duration: ", 0) {
        Some(i) => i,
        None => {
            return None;
        },
    };
    let n = text.unicode_len();
    let marker_len = "Duration: ".unicode_len();
    proof {
        reveal_strlit("Duration: ");
    }
    let tail_start = at + marker_len;
    let comma = match char_from(text, ',', tail_start) {
        Some(c) => c,
        None => n,
    };
    let raw = text.substring_char(tail_start, comma);
    let rn = raw.unicode_len();
    let a = skip_ws_from(raw, 0);
    let b = rskip_ws_to(raw, rn);
    if b < a {
        proof {
            assert(spec_trim(raw@) =~= Seq::<char>::empty());
        }
        let dur0 = raw.substring_char(0, 0);
        proof {
            assert(dur0@ =~= spec_trim(raw@));
        }
        let r = parse_fields(dur0);
        return r;
    }
    let dur = raw.substring_char(a, b);
    proof {
        assert(dur@ =~= spec_trim(raw@));
    }
    let r = parse_fields(dur);
    return r;
}

/// Parses the trimmed `hh:mm:ss.cc` text into milliseconds.
#[verifier::loop_isolation(false)]
fn parse_fields(dur: &str) -> (r: Option<u64>)
    ensures
        ({
            let d = dur@;
            match spec_char_from(d, ':', 0) {
                None => r is None,
                Some(c1) => match spec_char_from(d, ':', c1 + 1) {
                    None => r is None,
                    Some(c2) => {
                        let p3end = match spec_char_from(d, ':', c2 + 1) {
                            Some(c3) => c3,
                            None => d.len() as int,
                        };
                        let h = spec_parse_micro(d.subrange(0, c1));
                        let m = spec_parse_micro(d.subrange(c1 + 1, c2));
                        let s = spec_parse_micro(d.subrange(c2 + 1, p3end));
                        match (h, m, s) {
                            (Some(hv), Some(mv), Some(sv)) => r == Some(
                                (((hv * 3600 + mv * 60 + sv) + 500) / 1000) as u64,
                            ),
                            _ => r is None,
                        }
                    },
                },
            }
        }),
{
    let dn = dur.unicode_len();
    let c1 = match char_from(dur, ':', 0) {
        Some(i) => i,
        None => {
            return None;
        },
    };
    let c2 = match char_from(dur, ':', c1 + 1) {
        Some(i) => i,
        None => {
            return None;
        },
    };
    let p3end = match char_from(dur, ':', c2 + 1) {
        Some(i) => i,
        None => dn,
    };
    let hpart = dur.substring_char(0, c1);
    let mpart = dur.substring_char(c1 + 1, c2);
    let spart = dur.substring_char(c2 + 1, p3end);
    let h = match parse_micro(hpart) {
        Some(v) => v,
        None => {
            return None;
        },
    };
    let m = match parse_micro(mpart) {
        Some(v) => v,
        None => {
            return None;
        },
    };
    let s = match parse_micro(spart) {
        Some(v) => v,
        None => {
            return None;
        },
    };
    let total: u64 = h * 3600 + m * 60 + s;
    Some((total + 500) / 1000)
}

/// The media duration reported in the encoder's probe output for a
/// file: the parsed `Duration:` banner line, `None` when there is none.
pub fn get_media_duration_ms(probe_output: &str) -> (r: Option<u64>)
    ensures
        r == spec_parse_duration_ms(probe_output@),
{
    parse_duration_ms(probe_output)
}

} // verus!
