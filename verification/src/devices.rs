//! Parsing device names out of the encoder's device-listing output: the
//! quoted names under the audio or video section headers, deduplicated
//! in insertion order.

use vstd::prelude::*;
use crate::capture::argv_view;
use crate::duration::{char_from, find_from, rskip_ws_to, skip_ws_from, spec_char_from, spec_find_from, spec_trim};
use crate::strutil::str_eq;

verus! {

/// Whether `pat` occurs in `s`.
pub open spec fn spec_contains(s: Seq<char>, pat: Seq<char>) -> bool {
    spec_find_from(s, pat, 0) is Some
}

/// A line with its trailing carriage return removed.
pub open spec fn spec_strip_cr(l: Seq<char>) -> Seq<char> {
    if l.len() > 0 && l.last() == '\r' {
        l.drop_last()
    } else {
        l
    }
}

/// How one listing line changes the scanner: section headers flip the
/// in-section flag; inside the section (or on a tagged line) the first
/// quoted name is taken, trimmed, and kept once.
pub open spec fn spec_dshow_line(
    line: Seq<char>,
    in_flag: bool,
    acc: Seq<Seq<char>>,
    audio: bool,
) -> (bool, Seq<Seq<char>>) {
    let on_pat = if audio {
        "DirectShow audio devices"@
    } else {
        "DirectShow video devices"@
    };
    let off_pat = if audio {
        "DirectShow video devices"@
    } else {
        "DirectShow audio devices"@
    };
    let tag_pat = if audio {
        "(audio)"@
    } else {
        "(video)"@
    };
    if spec_contains(line, on_pat) {
        (true, acc)
    } else if spec_contains(line, off_pat) {
        (false, acc)
    } else if !in_flag && !spec_contains(line, tag_pat) {
        (in_flag, acc)
    } else if spec_contains(line, "(none)"@) {
        (in_flag, acc)
    } else {
        match spec_char_from(line, '"', 0) {
            None => (in_flag, acc),
            Some(q1) => match spec_char_from(line, '"', q1 + 1) {
                None => (in_flag, acc),
                Some(q2) => {
                    let name = spec_trim(line.subrange(q1 + 1, q2));
                    if name.len() > 0 && !acc.contains(name) {
                        (in_flag, acc.push(name))
                    } else {
                        (in_flag, acc)
                    }
                },
            },
        }
    }
}

/// The device names accumulated by scanning the text line by line from
/// `pos`.
pub open spec fn spec_dshow_devices(
    s: Seq<char>,
    pos: int,
    in_flag: bool,
    acc: Seq<Seq<char>>,
    audio: bool,
) -> Seq<Seq<char>>
    decreases s.len() - pos,
{
    if pos < 0 || pos >= s.len() {
        acc
    } else {
        let line_end = match spec_char_from(s, '\n', pos) {
            Some(i) => if pos <= i < s.len() {
                i
            } else {
                s.len() as int
            },
            None => s.len() as int,
        };
        let line = spec_strip_cr(s.subrange(pos, line_end));
        let next = match spec_char_from(s, '\n', pos) {
            Some(i) => if pos <= i < s.len() {
                i + 1
            } else {
                s.len() as int
            },
            None => s.len() as int,
        };
        let st = spec_dshow_line(line, in_flag, acc, audio);
        spec_dshow_devices(s, next, st.0, st.1, audio)
    }
}

/// Whether the list already holds this name.
fn vec_contains_str(v: &Vec<String>, s: &str) -> (r: bool)
    ensures
        r == argv_view(*v).contains(s@),
{
    let mut i: usize = 0;
    while i < v.len()
        invariant
            i <= v@.len(),
            forall|j: int| 0 <= j < i ==> argv_view(*v)[j] != s@,
        decreases v@.len() - i,
    {
        if str_eq(v[i].as_str(), s) {
            proof {
                assert(argv_view(*v)[i as int] == s@);
            }
            return true;
        }
        i = i + 1;
    }
    proof {
        assert forall|j: int| 0 <= j < argv_view(*v).len() implies argv_view(*v)[j] != s@ by {}
    }
    false
}

/// Applies one listing line to the scanner state.
#[verifier::loop_isolation(false)]
fn dshow_line_step(line: &str, in_flag: bool, devices: &mut Vec<String>, audio: bool) -> (nf:
    bool)
    ensures
        ({
            let st = spec_dshow_line(line@, in_flag, argv_view(*old(devices)), audio);
            nf == st.0 && argv_view(*final(devices)) == st.1
        }),
{
    proof {
        reveal_strlit("DirectShow audio devices");
        reveal_strlit("DirectShow video devices");
        reveal_strlit("(audio)");
        reveal_strlit("(video)");
        reveal_strlit("(none)");
    }
    let on_pat: &str = if audio { "DirectShow audio devices" } else { "DirectShow video devices" };
    let off_pat: &str = if audio { "DirectShow video devices" } else { "DirectShow audio devices" };
    let tag_pat: &str = if audio { "(audio)" } else { "(video)" };
    if find_from(line, on_pat, 0).is_some() {
        return true;
    }
    if find_from(line, off_pat, 0).is_some() {
        return false;
    }
    if !in_flag && find_from(line, tag_pat, 0).is_none() {
        return in_flag;
    }
    if find_from(line, "(none)", 0).is_some() {
        return in_flag;
    }
    let q1 = match char_from(line, '"', 0) {
        Some(i) => i,
        None => {
            return in_flag;
        },
    };
    let q2 = match char_from(line, '"', q1 + 1) {
        Some(i) => i,
        None => {
            return in_flag;
        },
    };
    let quoted = line.substring_char(q1 + 1, q2);
    let a = skip_ws_from(quoted, 0);
    let b = rskip_ws_to(quoted, quoted.unicode_len());
    let ghost name = spec_trim(line@.subrange(q1 + 1, q2 as int));
    if b <= a {
        proof {
            assert(name =~= Seq::<char>::empty());
        }
        return in_flag;
    }
    let trimmed = quoted.substring_char(a, b);
    proof {
        assert(trimmed@ =~= name);
    }
    if vec_contains_str(devices, trimmed) {
        return in_flag;
    }
    let owned = String::from_str(trimmed);
    devices.push(owned);
    proof {
        assert(argv_view(*devices) =~= argv_view(*old(devices)).push(name));
    }
    in_flag
}

/// Scans the text from `pos`, accumulating device names.
#[verifier::loop_isolation(false)]
fn dshow_scan(s: &str, pos: usize, in_flag: bool, devices: &mut Vec<String>, audio: bool)
    requires
        pos <= s@.len(),
    ensures
        argv_view(*final(devices)) == spec_dshow_devices(
            s@,
            pos as int,
            in_flag,
            argv_view(*old(devices)),
            audio,
        ),
    decreases s@.len() - pos,
{
    let n = s.unicode_len();
    if pos >= n {
        return;
    }
    let nl = char_from(s, '\n', pos);
    let line_end: usize = match nl {
        Some(i) => i,
        None => n,
    };
    let raw = s.substring_char(pos, line_end);
    let rn = raw.unicode_len();
    let stripped: &str = if rn > 0 && raw.get_char(rn - 1) == '\r' {
        raw.substring_char(0, rn - 1)
    } else {
        raw
    };
    proof {
        assert(stripped@ =~= spec_strip_cr(s@.subrange(pos as int, line_end as int)));
    }
    let nf = dshow_line_step(stripped, in_flag, devices, audio);
    let next: usize = match nl {
        Some(i) => i + 1,
        None => n,
    };
    dshow_scan(s, next, nf, devices, audio);
}

/// Parses the audio device names out of the encoder's device listing.
pub fn parse_dshow_audio_devices(stderr: &str) -> (r: Vec<String>)
    ensures
        argv_view(r) == spec_dshow_devices(stderr@, 0, false, Seq::<Seq<char>>::empty(), true),
{
    let mut devices: Vec<String> = Vec::new();
    proof {
        assert(argv_view(devices) =~= Seq::<Seq<char>>::empty());
    }
    dshow_scan(stderr, 0, false, &mut devices, true);
    devices
}

/// Parses the video device names out of the encoder's device listing.
pub fn parse_dshow_video_devices(stderr: &str) -> (r: Vec<String>)
    ensures
        argv_view(r) == spec_dshow_devices(stderr@, 0, false, Seq::<Seq<char>>::empty(), false),
{
    let mut devices: Vec<String> = Vec::new();
    proof {
        assert(argv_view(devices) =~= Seq::<Seq<char>>::empty());
    }
    dshow_scan(stderr, 0, false, &mut devices, false);
    devices
}

/// The items with later duplicates removed, first occurrences kept in
/// order.
pub open spec fn spec_dedupe(items: Seq<Seq<char>>) -> Seq<Seq<char>>
    decreases items.len(),
{
    if items.len() == 0 {
        Seq::<Seq<char>>::empty()
    } else {
        let prev = spec_dedupe(items.drop_last());
        if prev.contains(items.last()) {
            prev
        } else {
            prev.push(items.last())
        }
    }
}

/// Deduplicates window titles in insertion order, keeping the first
/// occurrence of each; the lexicographic ordering of the result stays
/// with the caller.
pub fn dedupe_titles(titles: &Vec<String>) -> (r: Vec<String>)
    ensures
        argv_view(r) == spec_dedupe(argv_view(*titles)),
{
    let mut r: Vec<String> = Vec::new();
    let mut i: usize = 0;
    proof {
        assert(argv_view(*titles).take(0) =~= Seq::<Seq<char>>::empty());
        assert(argv_view(r) =~= spec_dedupe(argv_view(*titles).take(0)));
    }
    while i < titles.len()
        invariant
            i <= titles@.len(),
            argv_view(r) == spec_dedupe(argv_view(*titles).take(i as int)),
        decreases titles@.len() - i,
    {
        proof {
            assert(argv_view(*titles).take(i as int + 1).drop_last() =~= argv_view(
                *titles,
            ).take(i as int));
            assert(argv_view(*titles).take(i as int + 1).last() == argv_view(*titles)[i as int]);
        }
        if !vec_contains_str(&r, titles[i].as_str()) {
            let copy = String::from_str(titles[i].as_str());
            r.push(copy);
            proof {
                assert(argv_view(r) =~= spec_dedupe(argv_view(*titles).take(i as int + 1)));
            }
        } else {
            proof {
                assert(argv_view(r) =~= spec_dedupe(argv_view(*titles).take(i as int + 1)));
            }
        }
        i = i + 1;
    }
    proof {
        assert(argv_view(*titles).take(titles@.len() as int) =~= argv_view(*titles));
    }
    r
}

} // verus!
