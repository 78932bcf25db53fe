//! Hex color parsing for the background gradient tables.

use vstd::prelude::*;

verus! {

/// The value of a hexadecimal digit, or `None` for any other character.
pub open spec fn spec_hex_val(c: char) -> Option<int> {
    if c == '0' { Some(0int) }
    else if c == '1' { Some(1int) }
    else if c == '2' { Some(2int) }
    else if c == '3' { Some(3int) }
    else if c == '4' { Some(4int) }
    else if c == '5' { Some(5int) }
    else if c == '6' { Some(6int) }
    else if c == '7' { Some(7int) }
    else if c == '8' { Some(8int) }
    else if c == '9' { Some(9int) }
    else if c == 'a' || c == 'A' { Some(10int) }
    else if c == 'b' || c == 'B' { Some(11int) }
    else if c == 'c' || c == 'C' { Some(12int) }
    else if c == 'd' || c == 'D' { Some(13int) }
    else if c == 'e' || c == 'E' { Some(14int) }
    else if c == 'f' || c == 'F' { Some(15int) }
    else { None }
}

/// The input with every leading `'#'` removed.
pub open spec fn spec_strip_hashes(s: Seq<char>) -> Seq<char>
    decreases s.len(),
{
    if s.len() > 0 && s[0] == '#' {
        spec_strip_hashes(s.drop_first())
    } else {
        s
    }
}

/// A two-digit hex component at position `i`, or 0 when either digit is
/// not hexadecimal.
pub open spec fn spec_hex_pair(s: Seq<char>, i: int) -> int {
    match (spec_hex_val(s[i]), spec_hex_val(s[i + 1])) {
        (Some(hi), Some(lo)) => 16 * hi + lo,
        _ => 0,
    }
}

/// The `(r, g, b)` components of a `#rrggbb` color; `(0, 0, 0)` when,
/// after stripping leading `'#'`s, the text is not six characters long.
pub open spec fn spec_parse_hex_color(s: Seq<char>) -> (int, int, int) {
    let hex = spec_strip_hashes(s);
    if hex.len() != 6 {
        (0int, 0int, 0int)
    } else {
        (spec_hex_pair(hex, 0), spec_hex_pair(hex, 2), spec_hex_pair(hex, 4))
    }
}

/// The value of one hex digit character, or `None`.
fn hex_val(c: char) -> (r: Option<i32>)
    ensures
        r matches Some(v) ==> spec_hex_val(c) == Some(v as int),
        r is None <==> spec_hex_val(c) is None,
{
    if c == '0' { Some(0) }
    else if c == '1' { Some(1) }
    else if c == '2' { Some(2) }
    else if c == '3' { Some(3) }
    else if c == '4' { Some(4) }
    else if c == '5' { Some(5) }
    else if c == '6' { Some(6) }
    else if c == '7' { Some(7) }
    else if c == '8' { Some(8) }
    else if c == '9' { Some(9) }
    else if c == 'a' || c == 'A' { Some(10) }
    else if c == 'b' || c == 'B' { Some(11) }
    else if c == 'c' || c == 'C' { Some(12) }
    else if c == 'd' || c == 'D' { Some(13) }
    else if c == 'e' || c == 'E' { Some(14) }
    else if c == 'f' || c == 'F' { Some(15) }
    else { None }
}

/// The two-digit hex component of `s` at `i`, 0 when either digit is bad.
fn hex_pair(s: &str, i: usize) -> (r: i32)
    requires
        i < usize::MAX,
        i + 1 < s@.len(),
    ensures
        r == spec_hex_pair(s@, i as int),
{
    let hi = hex_val(s.get_char(i));
    let lo = hex_val(s.get_char(i + 1));
    match (hi, lo) {
        (Some(h), Some(l)) => 16 * h + l,
        _ => 0,
    }
}

/// Parses a `#rrggbb` color into `(r, g, b)` components; anything
/// malformed yields `(0, 0, 0)`.
pub fn parse_hex_color(value: &str) -> (r: (i32, i32, i32))
    ensures
        (r.0 as int, r.1 as int, r.2 as int) == spec_parse_hex_color(value@),
{
    let n = value.unicode_len();
    let mut start: usize = 0;
    proof {
        assert(value@.skip(0) =~= value@);
    }
    while start < n && value.get_char(start) == '#'
        invariant
            start <= n,
            n == value@.len(),
            spec_strip_hashes(value@) == spec_strip_hashes(value@.skip(start as int)),
        decreases n - start,
    {
        proof {
            assert(value@.skip(start as int).drop_first() =~= value@.skip(start as int + 1));
        }
        start = start + 1;
    }
    proof {
        assert(spec_strip_hashes(value@.skip(start as int)) == value@.skip(start as int));
    }
    if n - start != 6 {
        return (0, 0, 0);
    }
    let ghost hex = spec_strip_hashes(value@);
    let c0 = hex_pair_at(value, start, 0);
    let c1 = hex_pair_at(value, start, 2);
    let c2 = hex_pair_at(value, start, 4);
    (c0, c1, c2)
}

/// The hex component at offset `off` past `start`, stated over the
/// hash-stripped view.
fn hex_pair_at(s: &str, start: usize, off: usize) -> (r: i32)
    requires
        spec_strip_hashes(s@) == s@.skip(start as int),
        start <= usize::MAX - 6,
        start <= s@.len(),
        s@.len() - start == 6,
        off + 1 < 6,
    ensures
        r == spec_hex_pair(spec_strip_hashes(s@), off as int),
{
    proof {
        assert(s@.skip(start as int)[off as int] == s@[start as int + off]);
        assert(s@.skip(start as int)[off as int + 1] == s@[start as int + off + 1]);
    }
    hex_pair(s, start + off)
}

} // verus!
