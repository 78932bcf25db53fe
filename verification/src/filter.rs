//! The filter-graph synthesizer: translates edit state, export profile and
//! derived tracks into the single filter expression the export encoder
//! consumes.

use vstd::prelude::*;
use crate::color::{parse_hex_color, spec_parse_hex_color};
use crate::edit_state::{EditState, ExportProfile};
use crate::geom::spec_evenize;
use crate::kinds::{Aspect, BackgroundType, CameraPosition, CameraShape};
use crate::num::{
    push_i64,
    push_milli,
    push_milli_signed,
    push_ppm,
    spec_i64_str,
    spec_milli_str,
    spec_milli_str_signed,
    spec_ppm_str,
};
use crate::tracks::{
    spec_default_zoom_settings,
    CameraSegment,
    CameraTrack,
    ClipSegment,
    ClipTrack,
    ZoomFrame,
    ZoomSettings,
    ZoomTrack,
};

verus! {

/// The view of an optional string.
pub open spec fn opt_view(o: Option<String>) -> Option<Seq<char>> {
    match o {
        Some(s) => Some(s@),
        None => None,
    }
}

/// The normalized diagonal position used by background fills:
/// `(X/(W-1) + Y/(H-1)) / 2` with the frame size filled in.
pub open spec fn spec_t_expr(w: int, h: int) -> Seq<char> {
    "((X/"@ + spec_i64_str(if w - 1 < 1 { 1int } else { w - 1 }) + ")+(Y/"@ + spec_i64_str(
        if h - 1 < 1 { 1int } else { h - 1 },
    ) + "))/2"@
}

/// One channel of a three-stop gradient: linear from `c0` to `c1` up to
/// the mid position, then linear from `c1` to `c2`.
pub open spec fn spec_grad_channel(t: Seq<char>, m: nat, c0: int, c1: int, c2: int) -> Seq<char> {
    "if(lte("@ + t + ","@ + spec_milli_str(m) + "),"@ + spec_i64_str(c0) + "+("@ + spec_i64_str(
        c1,
    ) + "-"@ + spec_i64_str(c0) + ")*"@ + t + "/"@ + spec_milli_str(m) + ","@ + spec_i64_str(c1)
        + "+("@ + spec_i64_str(c2) + "-"@ + spec_i64_str(c1) + ")*("@ + t + "-"@ + spec_milli_str(
        m,
    ) + ")/(1-"@ + spec_milli_str(m) + "))"@
}

/// One channel of a two-stop diagonal wallpaper fill.
pub open spec fn spec_wall_channel(t: Seq<char>, c0: int, c1: int) -> Seq<char> {
    spec_i64_str(c0) + "+("@ + spec_i64_str(c1) + "-"@ + spec_i64_str(c0) + ")*"@ + t
}

/// The three-stop gradient preset table: start, mid, end colors and the
/// mid position in thousandths.
pub open spec fn spec_gradient_preset(i: int) -> (Seq<char>, Seq<char>, Seq<char>, nat) {
    if i == 0 {
        ("#6ee7ff"@, "#a855f7"@, "#f97316"@, 500nat)
    } else if i == 1 {
        ("#0f172a"@, "#1e40af"@, "#38bdf8"@, 550nat)
    } else if i == 2 {
        ("#111827"@, "#7c3aed"@, "#ec4899"@, 600nat)
    } else {
        ("#0b1020"@, "#0f766e"@, "#22d3ee"@, 600nat)
    }
}

/// The two-stop wallpaper preset table.
pub open spec fn spec_wallpaper_preset(i: int) -> (Seq<char>, Seq<char>) {
    if i == 0 {
        ("#0f172a"@, "#1f2937"@)
    } else if i == 1 {
        ("#0b1020"@, "#1f1b3a"@)
    } else if i == 2 {
        ("#1f2937"@, "#0f172a"@)
    } else {
        ("#0a0f1f"@, "#0b1020"@)
    }
}

/// The full background source: a synthesized frame-sized fill whose
/// channels follow the preset's gradient or wallpaper stops, with opaque
/// alpha.
pub open spec fn spec_background_source(es: EditState, w: int, h: int, fps: int) -> Seq<char> {
    let t = spec_t_expr(w, h);
    let head = "nullsrc=s="@ + spec_i64_str(w) + "x"@ + spec_i64_str(h) + ":r="@ + spec_i64_str(
        fps,
    ) + ",format=rgba,geq=r='"@;
    match es.background_type {
        BackgroundType::Wallpaper => {
            let p = spec_wallpaper_preset(es.background_preset as int % 4);
            let s = spec_parse_hex_color(p.0);
            let e = spec_parse_hex_color(p.1);
            head + spec_wall_channel(t, s.0, e.0) + "':g='"@ + spec_wall_channel(t, s.1, e.1)
                + "':b='"@ + spec_wall_channel(t, s.2, e.2) + "':a='255'"@
        },
        BackgroundType::Gradient => {
            let p = spec_gradient_preset(es.background_preset as int % 4);
            let s = spec_parse_hex_color(p.0);
            let m = spec_parse_hex_color(p.1);
            let e = spec_parse_hex_color(p.2);
            head + spec_grad_channel(t, p.3, s.0, m.0, e.0) + "':g='"@ + spec_grad_channel(
                t,
                p.3,
                s.1,
                m.1,
                e.1,
            ) + "':b='"@ + spec_grad_channel(t, p.3, s.2, m.2, e.2) + "':a='255'"@
        },
    }
}

/// Builds the normalized diagonal position expression.
fn t_expr(w: i64, h: i64) -> (r: String)
    requires
        i64::MIN < w,
        i64::MIN < h,
    ensures
        r@ == spec_t_expr(w as int, h as int),
{
    let wm = if w - 1 < 1 { 1 } else { w - 1 };
    let hm = if h - 1 < 1 { 1 } else { h - 1 };
    let mut r = String::from_str("((X/");
    push_i64(&mut r, wm);
    r.append(")+(Y/");
    push_i64(&mut r, hm);
    r.append("))/2");
    r
}

/// Builds one gradient channel expression.
fn grad_channel(t: &str, m: u32, c0: i32, c1: i32, c2: i32) -> (r: String)
    ensures
        r@ == spec_grad_channel(t@, m as nat, c0 as int, c1 as int, c2 as int),
{
    let mut r = String::from_str("if(lte(");
    r.append(t);
    r.append(",");
    push_milli(&mut r, m as u64);
    r.append("),");
    push_i64(&mut r, c0 as i64);
    r.append("+(");
    push_i64(&mut r, c1 as i64);
    r.append("-");
    push_i64(&mut r, c0 as i64);
    r.append(")*");
    r.append(t);
    r.append("/");
    push_milli(&mut r, m as u64);
    r.append(",");
    push_i64(&mut r, c1 as i64);
    r.append("+(");
    push_i64(&mut r, c2 as i64);
    r.append("-");
    push_i64(&mut r, c1 as i64);
    r.append(")*(");
    r.append(t);
    r.append("-");
    push_milli(&mut r, m as u64);
    r.append(")/(1-");
    push_milli(&mut r, m as u64);
    r.append("))");
    r
}

/// Builds one wallpaper channel expression.
fn wall_channel(t: &str, c0: i32, c1: i32) -> (r: String)
    ensures
        r@ == spec_wall_channel(t@, c0 as int, c1 as int),
{
    let mut r = String::new();
    push_i64(&mut r, c0 as i64);
    r.append("+(");
    push_i64(&mut r, c1 as i64);
    r.append("-");
    push_i64(&mut r, c0 as i64);
    r.append(")*");
    r.append(t);
    proof {
        assert(r@ =~= spec_wall_channel(t@, c0 as int, c1 as int));
    }
    r
}

/// Builds the background source filter for the edit state's preset.
pub fn background_source(edit_state: &EditState, width: i32, height: i32, fps: u32) -> (r: String)
    ensures
        r@ == spec_background_source(*edit_state, width as int, height as int, fps as int),
{
    let t = t_expr(width as i64, height as i64);
    let mut r = String::from_str("nullsrc=s=");
    push_i64(&mut r, width as i64);
    r.append("x");
    push_i64(&mut r, height as i64);
    r.append(":r=");
    push_i64(&mut r, fps as i64);
    r.append(",format=rgba,geq=r='");
    let index = edit_state.background_preset % 4;
    match edit_state.background_type {
        BackgroundType::Wallpaper => {
            let (start, end) = wallpaper_preset(index);
            let (sr, sg, sb) = parse_hex_color(start);
            let (er, eg, eb) = parse_hex_color(end);
            let cr = wall_channel(t.as_str(), sr, er);
            let cg = wall_channel(t.as_str(), sg, eg);
            let cb = wall_channel(t.as_str(), sb, eb);
            r.append(cr.as_str());
            r.append("':g='");
            r.append(cg.as_str());
            r.append("':b='");
            r.append(cb.as_str());
            r.append("':a='255'");
        },
        BackgroundType::Gradient => {
            let (start, mid, end, m) = gradient_preset(index);
            let (sr, sg, sb) = parse_hex_color(start);
            let (mr, mg, mb) = parse_hex_color(mid);
            let (er, eg, eb) = parse_hex_color(end);
            let cr = grad_channel(t.as_str(), m, sr, mr, er);
            let cg = grad_channel(t.as_str(), m, sg, mg, eg);
            let cb = grad_channel(t.as_str(), m, sb, mb, eb);
            r.append(cr.as_str());
            r.append("':g='");
            r.append(cg.as_str());
            r.append("':b='");
            r.append(cb.as_str());
            r.append("':a='255'");
        },
    }
    r
}

/// The gradient preset colors and mid position for a preset index.
fn gradient_preset(index: u32) -> (r: (&'static str, &'static str, &'static str, u32))
    requires
        index < 4,
    ensures
        ({
            let p = spec_gradient_preset(index as int);
            r.0@ == p.0 && r.1@ == p.1 && r.2@ == p.2 && r.3 as nat == p.3
        }),
{
    if index == 0 {
        ("#6ee7ff", "#a855f7", "#f97316", 500)
    } else if index == 1 {
        ("#0f172a", "#1e40af", "#38bdf8", 550)
    } else if index == 2 {
        ("#111827", "#7c3aed", "#ec4899", 600)
    } else {
        ("#0b1020", "#0f766e", "#22d3ee", 600)
    }
}

/// The wallpaper preset colors for a preset index.
fn wallpaper_preset(index: u32) -> (r: (&'static str, &'static str))
    requires
        index < 4,
    ensures
        ({
            let p = spec_wallpaper_preset(index as int);
            r.0@ == p.0 && r.1@ == p.1
        }),
{
    if index == 0 {
        ("#0f172a", "#1f2937")
    } else if index == 1 {
        ("#0b1020", "#1f1b3a")
    } else if index == 2 {
        ("#1f2937", "#0f172a")
    } else {
        ("#0a0f1f", "#0b1020")
    }
}

/// The corner-rounding alpha: zero outside a quarter circle of the given
/// radius in each corner, opaque elsewhere.
pub open spec fn spec_rounded_alpha_expr(radius: int) -> Seq<char> {
    let r = spec_i64_str(radius);
    let r2 = spec_i64_str(radius * radius);
    "if(lte(X,"@ + r + ")*lte(Y,"@ + r + ")*gt(pow(X-"@ + r + ",2)+pow(Y-"@ + r + ",2),"@ + r2
        + "),0,if(lte(W-X,"@ + r + ")*lte(Y,"@ + r + ")*gt(pow(W-X-"@ + r + ",2)+pow(Y-"@ + r
        + ",2),"@ + r2 + "),0,if(lte(X,"@ + r + ")*lte(H-Y,"@ + r + ")*gt(pow(X-"@ + r
        + ",2)+pow(H-Y-"@ + r + ",2),"@ + r2 + "),0,if(lte(W-X,"@ + r + ")*lte(H-Y,"@ + r
        + ")*gt(pow(W-X-"@ + r + ",2)+pow(H-Y-"@ + r + ",2),"@ + r2 + "),0,255))))"@
}

/// Builds the corner-rounding alpha expression for a radius.
pub fn rounded_alpha_expr(radius: i32) -> (out: String)
    requires
        0 <= radius <= 16384,
    ensures
        out@ == spec_rounded_alpha_expr(radius as int),
{
    let radius = radius as i64;
    proof {
        assert((radius as int) * (radius as int) <= 16384 * 16384) by (nonlinear_arith)
            requires 0 <= radius <= 16384,
        ;
    }
    let r2: i64 = radius * radius;
    let mut out = String::from_str("if(lte(X,");
    push_i64(&mut out, radius);
    out.append(")*lte(Y,");
    push_i64(&mut out, radius);
    out.append(")*gt(pow(X-");
    push_i64(&mut out, radius);
    out.append(",2)+pow(Y-");
    push_i64(&mut out, radius);
    out.append(",2),");
    push_i64(&mut out, r2);
    out.append("),0,if(lte(W-X,");
    push_i64(&mut out, radius);
    out.append(")*lte(Y,");
    push_i64(&mut out, radius);
    out.append(")*gt(pow(W-X-");
    push_i64(&mut out, radius);
    out.append(",2)+pow(Y-");
    push_i64(&mut out, radius);
    out.append(",2),");
    push_i64(&mut out, r2);
    out.append("),0,if(lte(X,");
    push_i64(&mut out, radius);
    out.append(")*lte(H-Y,");
    push_i64(&mut out, radius);
    out.append(")*gt(pow(X-");
    push_i64(&mut out, radius);
    out.append(",2)+pow(H-Y-");
    push_i64(&mut out, radius);
    out.append(",2),");
    push_i64(&mut out, r2);
    out.append("),0,if(lte(W-X,");
    push_i64(&mut out, radius);
    out.append(")*lte(H-Y,");
    push_i64(&mut out, radius);
    out.append(")*gt(pow(W-X-");
    push_i64(&mut out, radius);
    out.append(",2)+pow(H-Y-");
    push_i64(&mut out, radius);
    out.append(",2),");
    push_i64(&mut out, r2);
    out.append("),0,255))))");
    out
}

/// A `between(t, start, end)` term over seconds.
pub open spec fn spec_between(start_ms: nat, end_ms: nat) -> Seq<char> {
    "between(t,"@ + spec_milli_str(start_ms) + ","@ + spec_milli_str(end_ms) + ")"@
}

/// Builds a `between(t, start, end)` term from millisecond bounds.
fn between_part(start_ms: u64, end_ms: u64) -> (r: String)
    ensures
        r@ == spec_between(start_ms as nat, end_ms as nat),
{
    let mut r = String::from_str("between(t,");
    push_milli(&mut r, start_ms);
    r.append(",");
    push_milli(&mut r, end_ms);
    r.append(")");
    r
}

/// The camera enable expression: the sum of `between` terms of the
/// visible segments, in order; `None` when no segment is visible.
pub open spec fn spec_camera_enable(segs: Seq<CameraSegment>) -> Option<Seq<char>>
    decreases segs.len(),
{
    if segs.len() == 0 {
        None
    } else {
        let prev = spec_camera_enable(segs.drop_last());
        let s = segs.last();
        if !s.visible {
            prev
        } else {
            let part = spec_between(s.start_ms as nat, s.end_ms as nat);
            match prev {
                None => Some(part),
                Some(p) => Some(p + "+"@ + part),
            }
        }
    }
}

/// The clip select expression: the sum of `between` terms of all
/// segments, in order; `None` when there are none.
pub open spec fn spec_clip_select(segs: Seq<ClipSegment>) -> Option<Seq<char>>
    decreases segs.len(),
{
    if segs.len() == 0 {
        None
    } else {
        let prev = spec_clip_select(segs.drop_last());
        let s = segs.last();
        let part = spec_between(s.start_ms as nat, s.end_ms as nat);
        match prev {
            None => Some(part),
            Some(p) => Some(p + "+"@ + part),
        }
    }
}

/// Joins a new `between` term onto an accumulated sum.
fn join_part(acc: Option<String>, part: String) -> (r: Option<String>)
    ensures
        ({
            let part_view = part@;
            match acc {
                None => opt_view(r) == Some(part_view),
                Some(p) => opt_view(r) == Some(p@ + "+"@ + part_view),
            }
        }),
{
    match acc {
        None => Some(part),
        Some(p) => {
            let mut s = p;
            s.append("+");
            s.append(part.as_str());
            Some(s)
        },
    }
}

/// Derives the camera overlay enable expression from a camera track: the
/// overlay is visible exactly during the union of its visible segments.
pub fn derive_camera_enable(track: &CameraTrack) -> (r: Option<String>)
    ensures
        opt_view(r) == spec_camera_enable(track.segments@),
{
    let mut acc: Option<String> = None;
    let mut i: usize = 0;
    while i < track.segments.len()
        invariant
            i <= track.segments@.len(),
            opt_view(acc) == spec_camera_enable(track.segments@.take(i as int)),
        decreases track.segments@.len() - i,
    {
        proof {
            assert(track.segments@.take(i as int + 1).drop_last() =~= track.segments@.take(
                i as int,
            ));
            assert(track.segments@.take(i as int + 1).last() == track.segments@[i as int]);
        }
        let seg = &track.segments[i];
        if seg.visible {
            let part = between_part(seg.start_ms, seg.end_ms);
            acc = join_part(acc, part);
        }
        i = i + 1;
    }
    proof {
        assert(track.segments@.take(track.segments@.len() as int) =~= track.segments@);
    }
    acc
}

/// Derives the clip select expression from a clip track: the kept spans
/// of the source timeline as a sum of `between` terms.
pub fn derive_clip_select(track: &ClipTrack) -> (r: Option<String>)
    ensures
        opt_view(r) == spec_clip_select(track.segments@),
{
    let mut acc: Option<String> = None;
    let mut i: usize = 0;
    while i < track.segments.len()
        invariant
            i <= track.segments@.len(),
            opt_view(acc) == spec_clip_select(track.segments@.take(i as int)),
        decreases track.segments@.len() - i,
    {
        proof {
            assert(track.segments@.take(i as int + 1).drop_last() =~= track.segments@.take(
                i as int,
            ));
            assert(track.segments@.take(i as int + 1).last() == track.segments@[i as int]);
        }
        let seg = &track.segments[i];
        let part = between_part(seg.start_ms, seg.end_ms);
        acc = join_part(acc, part);
        i = i + 1;
    }
    proof {
        assert(track.segments@.take(track.segments@.len() as int) =~= track.segments@);
    }
    acc
}

/// First index at or after `i` whose frame zooms above 1.
pub open spec fn spec_zw_skip(frames: Seq<ZoomFrame>, i: int) -> int
    decreases frames.len() - i,
{
    if i < 0 || i >= frames.len() {
        frames.len() as int
    } else if frames[i].zoom_milli > 1000 {
        i
    } else {
        spec_zw_skip(frames, i + 1)
    }
}

/// First index at or after `j` whose frame is back at zoom 1.
pub open spec fn spec_zw_run(frames: Seq<ZoomFrame>, j: int) -> int
    decreases frames.len() - j,
{
    if j < 0 || j >= frames.len() {
        frames.len() as int
    } else if frames[j].zoom_milli <= 1000 {
        j
    } else {
        spec_zw_run(frames, j + 1)
    }
}

/// The zoomed spans of a track: maximal runs of frames above zoom 1,
/// each reported as its first and last frame time; at most `cap` spans.
pub open spec fn spec_zoom_windows(frames: Seq<ZoomFrame>, i: int, cap: nat) -> Seq<(u64, u64)>
    decreases cap,
{
    if cap == 0 {
        Seq::<(u64, u64)>::empty()
    } else {
        let s_i = spec_zw_skip(frames, i);
        if s_i >= frames.len() {
            Seq::<(u64, u64)>::empty()
        } else {
            let j = spec_zw_run(frames, s_i);
            seq![(frames[s_i].time_ms, frames[j - 1].time_ms)] + spec_zoom_windows(
                frames,
                j,
                (cap - 1) as nat,
            )
        }
    }
}

/// The ease-in factor of a zoom window starting at `s`.
pub open spec fn spec_zoom_up(s: nat, mz: nat, ramp: nat) -> Seq<char> {
    "(1+("@ + spec_milli_str(mz) + "-1)*(1-pow(1-((time-"@ + spec_milli_str(s) + ")/"@
        + spec_milli_str(ramp) + " ),3)))"@
}

/// The ease-out factor of a zoom window ending at `e`.
pub open spec fn spec_zoom_down(e: nat, mz: nat, ramp: nat) -> Seq<char> {
    "(1+("@ + spec_milli_str(mz) + "-1)*(1-pow(1-(("@ + spec_milli_str(e) + "-time)/"@
        + spec_milli_str(ramp) + "),3)))"@
}

/// One window's zoom branch wrapped around the expression for the
/// earlier windows.
pub open spec fn spec_zoom_wrap(
    s: nat,
    e: nat,
    mz: nat,
    ri: nat,
    ro: nat,
    fallback: Seq<char>,
) -> Seq<char> {
    "if(between(time,"@ + spec_milli_str(s) + ","@ + spec_milli_str(s + ri) + "),"@ + spec_zoom_up(
        s,
        mz,
        ri,
    ) + ",if(between(time,"@ + spec_milli_str(s + ri) + ","@ + spec_milli_str_signed(
        e as int - ro as int,
    ) + "),"@ + spec_milli_str(mz) + ",if(between(time,"@ + spec_milli_str_signed(
        e as int - ro as int,
    ) + ","@ + spec_milli_str(e) + "),"@ + spec_zoom_down(e, mz, ro) + ","@ + fallback + ")))"@
}

/// The zoom expression after folding the first `k` windows over the
/// constant `1`.
pub open spec fn spec_z_fold(ws: Seq<(u64, u64)>, k: int, mz: nat, ri: nat, ro: nat) -> Seq<char>
    decreases k,
{
    if k <= 0 {
        "1"@
    } else {
        spec_zoom_wrap(
            ws[k - 1].0 as nat,
            ws[k - 1].1 as nat,
            mz,
            ri,
            ro,
            spec_z_fold(ws, k - 1, mz, ri, ro),
        )
    }
}

/// The pan anchors kept for the coordinate expressions: frames at least
/// `SAMPLE_MS` apart, capped, as `(time, x)` pairs.
pub open spec fn spec_decimate_x(
    frames: Seq<ZoomFrame>,
    k: int,
    prev: Option<u64>,
    count: nat,
) -> Seq<(u64, u32)>
    decreases frames.len() - k,
{
    if k < 0 || k >= frames.len() {
        Seq::<(u64, u32)>::empty()
    } else {
        let accept = match prev {
            None => true,
            Some(p) => frames[k].time_ms >= p + 120,
        };
        if accept {
            let a = (frames[k].time_ms, frames[k].axn_ppm);
            if count + 1 > 150 {
                seq![a]
            } else {
                seq![a] + spec_decimate_x(
                    frames,
                    k + 1,
                    Some(frames[k].time_ms),
                    (count + 1) as nat,
                )
            }
        } else {
            spec_decimate_x(frames, k + 1, prev, count)
        }
    }
}

/// As `spec_decimate_x`, for the y coordinate.
pub open spec fn spec_decimate_y(
    frames: Seq<ZoomFrame>,
    k: int,
    prev: Option<u64>,
    count: nat,
) -> Seq<(u64, u32)>
    decreases frames.len() - k,
{
    if k < 0 || k >= frames.len() {
        Seq::<(u64, u32)>::empty()
    } else {
        let accept = match prev {
            None => true,
            Some(p) => frames[k].time_ms >= p + 120,
        };
        if accept {
            let a = (frames[k].time_ms, frames[k].ayn_ppm);
            if count + 1 > 150 {
                seq![a]
            } else {
                seq![a] + spec_decimate_y(
                    frames,
                    k + 1,
                    Some(frames[k].time_ms),
                    (count + 1) as nat,
                )
            }
        } else {
            spec_decimate_y(frames, k + 1, prev, count)
        }
    }
}

/// The fallback anchors used when decimation yields nothing.
pub open spec fn spec_default_pairs() -> Seq<(u64, u32)> {
    seq![(0u64, 500000u32), (1000u64, 500000u32)]
}

/// The linear interpolation term between two anchors.
pub open spec fn spec_lerp_expr(t0: nat, v0: nat, t1: nat, v1: nat) -> Seq<char> {
    let dt = if t1 >= t0 + 1 {
        (t1 - t0) as nat
    } else {
        1nat
    };
    "(("@ + spec_ppm_str(v0) + ")*(1-((time-"@ + spec_milli_str(t0) + ")/("@ + spec_milli_str(dt)
        + ")))+("@ + spec_ppm_str(v1) + ")*(((time-"@ + spec_milli_str(t0) + ")/("@
        + spec_milli_str(dt) + "))))"@
}

/// The piecewise-linear coordinate expression over anchors from pair `k`
/// on; the innermost fallback holds the last anchor's value.
pub open spec fn spec_coord_fold(a: Seq<(u64, u32)>, k: int) -> Seq<char>
    decreases a.len() - k,
{
    if k < 0 || k + 1 >= a.len() {
        spec_ppm_str(a.last().1 as nat)
    } else {
        "if(between(time,"@ + spec_milli_str(a[k].0 as nat) + ","@ + spec_milli_str(
            a[k + 1].0 as nat,
        ) + "),"@ + spec_lerp_expr(a[k].0 as nat, a[k].1 as nat, a[k + 1].0 as nat, a[k + 1].1 as nat)
            + ","@ + spec_coord_fold(a, k + 1) + ")"@
    }
}

/// The x crop position: the pan center scaled to the input width,
/// clamped so the zoomed viewport stays inside the frame.
pub open spec fn spec_clip_x(ax: Seq<char>, z: Seq<char>) -> Seq<char> {
    "clip(("@ + ax + ")*iw - (iw/("@ + z + "))/2, 0, iw - iw/("@ + z + "))"@
}

/// The y crop position, over the input height.
pub open spec fn spec_clip_y(ay: Seq<char>, z: Seq<char>) -> Seq<char> {
    "clip(("@ + ay + ")*ih - (ih/("@ + z + "))/2, 0, ih - ih/("@ + z + "))"@
}

/// The settings a track carries, or the defaults.
pub open spec fn spec_track_settings(t: ZoomTrack) -> ZoomSettings {
    match t.settings {
        Some(s) => s,
        None => spec_default_zoom_settings(),
    }
}

/// A ramp length clamped to at least one millisecond.
pub open spec fn spec_ramp_ms(r: u32) -> nat {
    if r < 1 {
        1nat
    } else {
        r as nat
    }
}

/// The complete zoom expression of a track.
pub open spec fn spec_zoom_override_z(t: ZoomTrack) -> Seq<char> {
    let st = spec_track_settings(t);
    let ws = spec_zoom_windows(t.frames@, 0, 101);
    spec_z_fold(
        ws,
        ws.len() as int,
        st.max_zoom_milli as nat,
        spec_ramp_ms(st.ramp_in_ms),
        spec_ramp_ms(st.ramp_out_ms),
    )
}

/// The x anchors of a track, with the fallback pair when empty.
pub open spec fn spec_x_pairs(t: ZoomTrack) -> Seq<(u64, u32)> {
    let d = spec_decimate_x(t.frames@, 0, None, 0);
    if d.len() == 0 {
        spec_default_pairs()
    } else {
        d
    }
}

/// The y anchors of a track, with the fallback pair when empty.
pub open spec fn spec_y_pairs(t: ZoomTrack) -> Seq<(u64, u32)> {
    let d = spec_decimate_y(t.frames@, 0, None, 0);
    if d.len() == 0 {
        spec_default_pairs()
    } else {
        d
    }
}

/// The complete x crop expression of a track.
pub open spec fn spec_zoom_override_x(t: ZoomTrack) -> Seq<char> {
    spec_clip_x(spec_coord_fold(spec_x_pairs(t), 0), spec_zoom_override_z(t))
}

/// The complete y crop expression of a track.
pub open spec fn spec_zoom_override_y(t: ZoomTrack) -> Seq<char> {
    spec_clip_y(spec_coord_fold(spec_y_pairs(t), 0), spec_zoom_override_z(t))
}

/// Frame times and settings are within the supported ranges.
pub open spec fn zoom_track_wf(t: ZoomTrack) -> bool {
    &&& forall|i: int|
        0 <= i < t.frames@.len() ==> (#[trigger] t.frames@[i]).time_ms <= 0x40000000000u64
    &&& match t.settings {
        Some(st) => st.max_zoom_milli <= 1000000 && st.ramp_in_ms <= 1000000
            && st.ramp_out_ms <= 1000000,
        None => true,
    }
}

/// Builds one window's zoom branch around the accumulated expression.
fn zoom_wrap(s: u64, e: u64, mz: u32, ri: u64, ro: u64, fallback: String) -> (r: String)
    requires
        s <= 0x40000000000u64,
        e <= 0x40000000000u64,
        1 <= ri <= 1000000,
        1 <= ro <= 1000000,
    ensures
        r@ == spec_zoom_wrap(s as nat, e as nat, mz as nat, ri as nat, ro as nat, fallback@),
{
    let mut up = String::from_str("(1+(");
    push_milli(&mut up, mz as u64);
    up.append("-1)*(1-pow(1-((time-");
    push_milli(&mut up, s);
    up.append(")/");
    push_milli(&mut up, ri);
    up.append(" ),3)))");
    let mut down = String::from_str("(1+(");
    push_milli(&mut down, mz as u64);
    down.append("-1)*(1-pow(1-((");
    push_milli(&mut down, e);
    down.append("-time)/");
    push_milli(&mut down, ro);
    down.append("),3)))");
    let e_dn: i64 = e as i64 - ro as i64;
    let mut r = String::from_str("if(between(time,");
    push_milli(&mut r, s);
    r.append(",");
    push_milli(&mut r, s + ri);
    r.append("),");
    r.append(up.as_str());
    r.append(",if(between(time,");
    push_milli(&mut r, s + ri);
    r.append(",");
    push_milli_signed(&mut r, e_dn);
    r.append("),");
    push_milli(&mut r, mz as u64);
    r.append(",if(between(time,");
    push_milli_signed(&mut r, e_dn);
    r.append(",");
    push_milli(&mut r, e);
    r.append("),");
    r.append(down.as_str());
    r.append(",");
    r.append(fallback.as_str());
    r.append(")))");
    r
}

/// Builds the linear interpolation term between two anchors.
fn lerp_expr(t0: u64, v0: u32, t1: u64, v1: u32) -> (r: String)
    ensures
        r@ == spec_lerp_expr(t0 as nat, v0 as nat, t1 as nat, v1 as nat),
{
    let dt: u64 = if t0 < u64::MAX && t1 >= t0 + 1 {
        t1 - t0
    } else {
        1
    };
    let mut r = String::from_str("((");
    push_ppm(&mut r, v0 as u64);
    r.append(")*(1-((time-");
    push_milli(&mut r, t0);
    r.append(")/(");
    push_milli(&mut r, dt);
    r.append(")))+(");
    push_ppm(&mut r, v1 as u64);
    r.append(")*(((time-");
    push_milli(&mut r, t0);
    r.append(")/(");
    push_milli(&mut r, dt);
    r.append("))))");
    r
}

/// Builds the coordinate expression over anchors from pair `k` on.
fn coord_expr(a: &Vec<(u64, u32)>, k: usize) -> (r: String)
    requires
        a@.len() >= 1,
    ensures
        r@ == spec_coord_fold(a@, k as int),
    decreases a@.len() - k,
{
    if k >= a.len() || k + 1 >= a.len() {
        let last = a[a.len() - 1];
        let mut r = String::new();
        push_ppm(&mut r, last.1 as u64);
        proof {
            assert(r@ =~= spec_coord_fold(a@, k as int));
        }
        r
    } else {
        let (t0, v0) = a[k];
        let (t1, v1) = a[k + 1];
        let le = lerp_expr(t0, v0, t1, v1);
        let tail = coord_expr(a, k + 1);
        let mut r = String::from_str("if(between(time,");
        push_milli(&mut r, t0);
        r.append(",");
        push_milli(&mut r, t1);
        r.append("),");
        r.append(le.as_str());
        r.append(",");
        r.append(tail.as_str());
        r.append(")");
        r
    }
}

/// Finds the zoomed spans of a track's frames.
#[verifier::loop_isolation(false)]
fn zoom_windows_of(frames: &Vec<ZoomFrame>) -> (r: Vec<(u64, u64)>)
    requires
        forall|i: int|
            0 <= i < frames@.len() ==> (#[trigger] frames@[i]).time_ms <= 0x40000000000u64,
    ensures
        r@ == spec_zoom_windows(frames@, 0, 101),
        forall|q: int|
            0 <= q < r@.len() ==> (#[trigger] r@[q]).0 <= 0x40000000000u64 && r@[q].1
                <= 0x40000000000u64,
{
    let n = frames.len();
    let mut windows: Vec<(u64, u64)> = Vec::new();
    let ghost ws_goal = spec_zoom_windows(frames@, 0, 101);
    let mut i: usize = 0;
    while i < n && windows.len() <= 100
        invariant
            i <= n,
            windows@.len() <= 101,
            ws_goal == windows@ + spec_zoom_windows(
                frames@,
                i as int,
                (101 - windows@.len()) as nat,
            ),
            forall|q: int|
                0 <= q < windows@.len() ==> (#[trigger] windows@[q]).0 <= 0x40000000000u64
                    && windows@[q].1 <= 0x40000000000u64,
        decreases n - i,
    {
        let ghost i0 = i as int;
        while i < n && frames[i].zoom_milli <= 1000
            invariant
                i0 <= i as int <= n,
                spec_zw_skip(frames@, i0) == spec_zw_skip(frames@, i as int),
            decreases n - i,
        {
            i = i + 1;
        }
        proof {
            assert(spec_zw_skip(frames@, i0) == i as int);
            assert(spec_zoom_windows(frames@, i0, (101 - windows@.len()) as nat)
                == spec_zoom_windows(frames@, i as int, (101 - windows@.len()) as nat));
        }
        if i >= n {
            break;
        }
        let s = frames[i].time_ms;
        let mut j: usize = i;
        while j < n && frames[j].zoom_milli > 1000
            invariant
                i <= j <= n,
                spec_zw_run(frames@, i as int) == spec_zw_run(frames@, j as int),
            decreases n - j,
        {
            j = j + 1;
        }
        proof {
            assert(spec_zw_run(frames@, i as int) == j as int);
            assert(j as int > i as int);
        }
        let e = frames[j - 1].time_ms;
        windows.push((s, e));
        proof {
            assert(ws_goal =~= windows@ + spec_zoom_windows(
                frames@,
                j as int,
                (101 - windows@.len()) as nat,
            ));
        }
        i = j;
    }
    proof {
        assert(spec_zoom_windows(frames@, i as int, (101 - windows@.len()) as nat)
            =~= Seq::<(u64, u64)>::empty());
        assert(ws_goal =~= windows@);
    }
    windows
}

/// Folds the zoom branches of all windows over the constant `1`.
#[verifier::loop_isolation(false)]
fn z_expr_of(windows: &Vec<(u64, u64)>, mz: u32, ri: u64, ro: u64) -> (z: String)
    requires
        1 <= ri <= 1000000,
        1 <= ro <= 1000000,
        forall|q: int|
            0 <= q < windows@.len() ==> (#[trigger] windows@[q]).0 <= 0x40000000000u64
                && windows@[q].1 <= 0x40000000000u64,
    ensures
        z@ == spec_z_fold(windows@, windows@.len() as int, mz as nat, ri as nat, ro as nat),
{
    let mut z = String::from_str("1");
    let mut k: usize = 0;
    while k < windows.len()
        invariant
            k <= windows@.len(),
            z@ == spec_z_fold(windows@, k as int, mz as nat, ri as nat, ro as nat),
        decreases windows@.len() - k,
    {
        let (s, e) = windows[k];
        z = zoom_wrap(s, e, mz, ri, ro, z);
        k = k + 1;
    }
    z
}

/// Decimates a track's frames into the x and y anchor pair lists.
#[verifier::loop_isolation(false)]
fn decimate_pairs(frames: &Vec<ZoomFrame>) -> (r: (Vec<(u64, u32)>, Vec<(u64, u32)>))
    requires
        forall|i: int|
            0 <= i < frames@.len() ==> (#[trigger] frames@[i]).time_ms <= 0x40000000000u64,
    ensures
        r.0@ == spec_decimate_x(frames@, 0, None, 0),
        r.1@ == spec_decimate_y(frames@, 0, None, 0),
        r.0@.len() == r.1@.len(),
{
    let n = frames.len();
    let mut ax: Vec<(u64, u32)> = Vec::new();
    let mut ay: Vec<(u64, u32)> = Vec::new();
    let ghost ax_goal = spec_decimate_x(frames@, 0, None, 0);
    let ghost ay_goal = spec_decimate_y(frames@, 0, None, 0);
    let mut prev: Option<u64> = None;
    let mut m: usize = 0;
    let mut full: bool = false;
    while m < n && !full
        invariant
            m <= n,
            ax@.len() == ay@.len(),
            ax@.len() <= 151,
            !full ==> ax@.len() <= 150,
            prev matches Some(p) ==> p <= 0x40000000000u64,
            !full ==> ax_goal == ax@ + spec_decimate_x(
                frames@,
                m as int,
                prev,
                ax@.len() as nat,
            ),
            !full ==> ay_goal == ay@ + spec_decimate_y(
                frames@,
                m as int,
                prev,
                ay@.len() as nat,
            ),
            full ==> ax_goal == ax@ && ay_goal == ay@,
        decreases n - m, (if full { 0int } else { 1int }),
    {
        let f = frames[m];
        let accept = match prev {
            None => true,
            Some(p) => f.time_ms >= p + 120,
        };
        if accept {
            ax.push((f.time_ms, f.axn_ppm));
            ay.push((f.time_ms, f.ayn_ppm));
            prev = Some(f.time_ms);
            if ax.len() > 150 {
                full = true;
                proof {
                    assert(ax_goal =~= ax@);
                    assert(ay_goal =~= ay@);
                }
            } else {
                m = m + 1;
                proof {
                    assert(ax_goal =~= ax@ + spec_decimate_x(
                        frames@,
                        m as int,
                        prev,
                        ax@.len() as nat,
                    ));
                    assert(ay_goal =~= ay@ + spec_decimate_y(
                        frames@,
                        m as int,
                        prev,
                        ay@.len() as nat,
                    ));
                }
            }
        } else {
            m = m + 1;
        }
    }
    proof {
        if !full {
            assert(ax_goal =~= ax@);
            assert(ay_goal =~= ay@);
        }
    }
    (ax, ay)
}

/// Derives the per-frame zoom, x and y crop expressions from a zoom
/// track: `None` when the track has no frames, else the nested
/// window-by-window expressions over `time`.
pub fn derive_zoom_override(track: &ZoomTrack) -> (r: Option<(String, String, String)>)
    requires
        zoom_track_wf(*track),
    ensures
        track.frames@.len() == 0 <==> r is None,
        r matches Some(t3) ==> t3.0@ == spec_zoom_override_z(*track) && t3.1@
            == spec_zoom_override_x(*track) && t3.2@ == spec_zoom_override_y(*track),
{
    if track.frames.len() == 0 {
        return None;
    }
    let frames = &track.frames;
    let (mz, ri, ro): (u32, u64, u64) = match &track.settings {
        Some(st) => (
            st.max_zoom_milli,
            if st.ramp_in_ms < 1 { 1 } else { st.ramp_in_ms as u64 },
            if st.ramp_out_ms < 1 { 1 } else { st.ramp_out_ms as u64 },
        ),
        None => (2000, 500, 500),
    };
    proof {
        assert(mz as nat == spec_track_settings(*track).max_zoom_milli as nat);
        assert(ri as nat == spec_ramp_ms(spec_track_settings(*track).ramp_in_ms));
        assert(ro as nat == spec_ramp_ms(spec_track_settings(*track).ramp_out_ms));
    }
    let windows = zoom_windows_of(frames);
    let z = z_expr_of(&windows, mz, ri, ro);
    let (mut ax, mut ay) = decimate_pairs(frames);
    if ax.len() == 0 {
        ax.push((0, 500000));
        ax.push((1000, 500000));
        ay.push((0, 500000));
        ay.push((1000, 500000));
        proof {
            assert(ax@ =~= spec_default_pairs());
            assert(ay@ =~= spec_default_pairs());
        }
    }
    proof {
        assert(ax@ == spec_x_pairs(*track));
        assert(ay@ == spec_y_pairs(*track));
    }
    let ax_expr = coord_expr(&ax, 0);
    let ay_expr = coord_expr(&ay, 0);
    let mut x = String::from_str("clip((");
    x.append(ax_expr.as_str());
    x.append(")*iw - (iw/(");
    x.append(z.as_str());
    x.append("))/2, 0, iw - iw/(");
    x.append(z.as_str());
    x.append("))");
    let mut y = String::from_str("clip((");
    y.append(ay_expr.as_str());
    y.append(")*ih - (ih/(");
    y.append(z.as_str());
    y.append("))/2, 0, ih - ih/(");
    y.append(z.as_str());
    y.append("))");
    Some((z, x, y))
}

/// Rounds `a / b` to the nearest integer, halves away from zero, for
/// non-negative `a` and positive `b`.
pub open spec fn spec_round_div(a: int, b: int) -> int {
    (2 * a + b) / (2 * b)
}

/// The larger of two values.
pub open spec fn spec_imax(a: int, b: int) -> int {
    if a >= b {
        a
    } else {
        b
    }
}

/// The smaller of two values.
pub open spec fn spec_imin(a: int, b: int) -> int {
    if a <= b {
        a
    } else {
        b
    }
}

/// The composition geometry derived from the edit state and output size:
/// the even-aligned inner content box, its position, the corner radius,
/// the aspect-trimmed target size and its supersampled double.
pub struct FilterGeom {
    pub inner_w: int,
    pub inner_h: int,
    pub pos_x: int,
    pub pos_y: int,
    pub radius: int,
    pub target_w: int,
    pub target_h: int,
    pub super_w: int,
    pub super_h: int,
}

/// Computes the composition geometry.
pub open spec fn spec_filter_geom(es: EditState, ow: int, oh: int) -> FilterGeom {
    let an = match es.aspect {
        Aspect::Ratio16x9 => 16int,
        Aspect::Ratio1x1 => 1int,
        Aspect::Ratio9x16 => 9int,
    };
    let ad = match es.aspect {
        Aspect::Ratio16x9 => 9int,
        Aspect::Ratio1x1 => 1int,
        Aspect::Ratio9x16 => 16int,
    };
    let over = ow * ad > oh * an;
    let fw = if over {
        spec_round_div(oh * an, ad)
    } else {
        ow
    };
    let fh = if over {
        oh
    } else {
        spec_round_div(ow * ad, an)
    };
    let iw = spec_evenize(spec_imax(fw - 2 * es.padding, 2));
    let ih = spec_evenize(spec_imax(fh - 2 * es.padding, 2));
    let px = spec_evenize((ow - iw) / 2);
    let py = spec_evenize((oh - ih) / 2);
    let radius = spec_imin(es.radius as int, spec_imin(iw, ih) / 2);
    let tw = match es.aspect {
        Aspect::Ratio16x9 => spec_imax(spec_evenize(spec_round_div(iw * 94, 100)), 2),
        Aspect::Ratio1x1 => spec_imax(iw, 2),
        Aspect::Ratio9x16 => spec_imax(iw, 2),
    };
    let th = match es.aspect {
        Aspect::Ratio16x9 => spec_imax(ih, 2),
        Aspect::Ratio1x1 => spec_imax(spec_evenize(spec_round_div(ih * 76, 100)), 2),
        Aspect::Ratio9x16 => spec_imax(spec_evenize(spec_round_div(ih * 64, 100)), 2),
    };
    FilterGeom {
        inner_w: iw,
        inner_h: ih,
        pos_x: px,
        pos_y: py,
        radius: radius,
        target_w: tw,
        target_h: th,
        super_w: spec_evenize(spec_imax(tw * 2, 2)),
        super_h: spec_evenize(spec_imax(th * 2, 2)),
    }
}

/// The geometry with every field known to sit in `[0, 32768]`.
pub open spec fn geom_in_range(g: FilterGeom) -> bool {
    &&& 0 <= g.inner_w <= 32768
    &&& 0 <= g.inner_h <= 32768
    &&& 0 <= g.pos_x <= 32768
    &&& 0 <= g.pos_y <= 32768
    &&& 0 <= g.radius <= 16384
    &&& 0 <= g.target_w <= 32768
    &&& 0 <= g.target_h <= 32768
    &&& 0 <= g.super_w <= 65536
    &&& 0 <= g.super_h <= 65536
}

/// The executable geometry record.
#[derive(Clone, Copy, Debug)]
pub struct Geom {
    pub inner_w: i64,
    pub inner_h: i64,
    pub pos_x: i64,
    pub pos_y: i64,
    pub radius: i64,
    pub target_w: i64,
    pub target_h: i64,
    pub super_w: i64,
    pub super_h: i64,
}

/// With `a <= c * b`, the rounded quotient of `a` by `b` is at most `c`.
proof fn lemma_round_div_le(a: int, b: int, c: int)
    requires
        b >= 1,
        0 <= a,
        0 <= c,
        a <= c * b,
    ensures
        0 <= spec_round_div(a, b) <= c,
{
    assert((2 * a + b) / (2 * b) >= 0) by (nonlinear_arith)
        requires b >= 1, 0 <= a,
    ;
    assert((2 * a + b) / (2 * b) <= c) by (nonlinear_arith)
        requires b >= 1, 0 <= a, 0 <= c, a <= c * b,
    ;
}

/// Rounds `a / b` to the nearest integer.
fn round_div(a: i64, b: i64) -> (r: i64)
    requires
        0 <= a <= 0x40000000,
        1 <= b <= 0x10000,
    ensures
        r == spec_round_div(a as int, b as int),
        0 <= r,
{
    proof {
        assert(2 * (a as int) + b <= 0x80010000);
        assert((2 * (a as int) + b) / (2 * (b as int)) >= 0);
    }
    (2 * a + b) / (2 * b)
}

/// Largest even value at most `value`, over i64.
fn evenize64(value: i64) -> (r: i64)
    requires
        i64::MIN < value,
    ensures
        r == spec_evenize(value as int),
{
    if value % 2 == 0 {
        value
    } else {
        value - 1
    }
}

/// Computes the composition geometry of an edit state at an output size.
#[verifier::rlimit(100)]
pub fn filter_geom(es: &EditState, profile: &ExportProfile) -> (g: Geom)
    requires
        es.wf(),
        profile.wf(),
    ensures
        ({
            let sg = spec_filter_geom(*es, profile.width as int, profile.height as int);
            g.inner_w == sg.inner_w && g.inner_h == sg.inner_h && g.pos_x == sg.pos_x && g.pos_y
                == sg.pos_y && g.radius == sg.radius && g.target_w == sg.target_w && g.target_h
                == sg.target_h && g.super_w == sg.super_w && g.super_h == sg.super_h
                && geom_in_range(sg)
        }),
{
    let ow = profile.width as i64;
    let oh = profile.height as i64;
    let (an, ad): (i64, i64) = match es.aspect {
        Aspect::Ratio16x9 => (16, 9),
        Aspect::Ratio1x1 => (1, 1),
        Aspect::Ratio9x16 => (9, 16),
    };
    proof {
        assert(ow * ad <= 16384 * 16 && 0 <= ow * ad) by (nonlinear_arith)
            requires 2 <= ow <= 16384, 1 <= ad <= 16,
        ;
        assert(oh * an <= 16384 * 16 && 0 <= oh * an) by (nonlinear_arith)
            requires 2 <= oh <= 16384, 1 <= an <= 16,
        ;
    }
    let over = ow * ad > oh * an;
    let fw = if over { round_div(oh * an, ad) } else { ow };
    let fh = if over { oh } else { round_div(ow * ad, an) };
    proof {
        if over {
            lemma_round_div_le(oh * an, ad as int, ow as int);
        } else {
            lemma_round_div_le(ow * ad, an as int, oh as int);
        }
        assert(fw <= 16384 && fh <= 16384);
    }
    let iw0 = fw - 2 * (es.padding as i64);
    let ih0 = fh - 2 * (es.padding as i64);
    let iw = evenize64(if iw0 >= 2 { iw0 } else { 2 });
    let ih = evenize64(if ih0 >= 2 { ih0 } else { 2 });
    proof {
        assert(1 <= iw <= 16384 && 1 <= ih <= 16384);
    }
    let px = evenize64((ow - iw) / 2);
    let py = evenize64((oh - ih) / 2);
    let half = if iw <= ih { iw } else { ih } / 2;
    let radius = if (es.radius as i64) <= half { es.radius as i64 } else { half };
    let (tw, th): (i64, i64) = match es.aspect {
        Aspect::Ratio16x9 => {
            proof {
                assert(iw * 94 <= iw * 100 && 0 <= iw * 94 && iw * 94 <= 0x40000000)
                    by (nonlinear_arith)
                    requires 1 <= iw <= 16384,
                ;
                lemma_round_div_le(iw as int * 94, 100, iw as int);
            }
            let t = evenize64(round_div(iw * 94, 100));
            (if t >= 2 { t } else { 2 }, if ih >= 2 { ih } else { 2 })
        },
        Aspect::Ratio1x1 => {
            proof {
                assert(ih * 76 <= ih * 100 && 0 <= ih * 76 && ih * 76 <= 0x40000000)
                    by (nonlinear_arith)
                    requires 1 <= ih <= 16384,
                ;
                lemma_round_div_le(ih as int * 76, 100, ih as int);
            }
            let t = evenize64(round_div(ih * 76, 100));
            (if iw >= 2 { iw } else { 2 }, if t >= 2 { t } else { 2 })
        },
        Aspect::Ratio9x16 => {
            proof {
                assert(ih * 64 <= ih * 100 && 0 <= ih * 64 && ih * 64 <= 0x40000000)
                    by (nonlinear_arith)
                    requires 1 <= ih <= 16384,
                ;
                lemma_round_div_le(ih as int * 64, 100, ih as int);
            }
            let t = evenize64(round_div(ih * 64, 100));
            (if iw >= 2 { iw } else { 2 }, if t >= 2 { t } else { 2 })
        },
    };
    proof {
        assert(2 <= tw <= 16384 && 2 <= th <= 16384);
    }
    let sw = evenize64(if tw * 2 >= 2 { tw * 2 } else { 2 });
    let sh = evenize64(if th * 2 >= 2 { th * 2 } else { 2 });
    Geom {
        inner_w: iw,
        inner_h: ih,
        pos_x: px,
        pos_y: py,
        radius: radius,
        target_w: tw,
        target_h: th,
        super_w: sw,
        super_h: sh,
    }
}

/// The `:enable=` suffix of a camera overlay, when an enable expression
/// is present.
pub open spec fn spec_enable(o: Option<Seq<char>>) -> Seq<char> {
    match o {
        None => Seq::<char>::empty(),
        Some(e) => ":enable="@ + e,
    }
}

/// The clip-select suffix: keeps the selected spans and re-bases the
/// timeline at the output rate.
pub open spec fn spec_select_suffix(o: Option<Seq<char>>, fps: int) -> Seq<char> {
    match o {
        None => Seq::<char>::empty(),
        Some(e) => ",select='"@ + e + "',setpts=N/("@ + spec_i64_str(fps) + "*TB)"@,
    }
}

/// The corner-rounding suffix, when the radius is positive.
pub open spec fn spec_rounded_suffix(radius: int) -> Seq<char> {
    if radius > 0 {
        ",geq=r='r(X,Y)':g='g(X,Y)':b='b(X,Y)':a='"@ + spec_rounded_alpha_expr(radius) + "'"@
    } else {
        Seq::<char>::empty()
    }
}

/// The main content chain: background, the recording scaled (and zoomed
/// and clipped when requested), rounded, shadowed, and overlaid onto the
/// background under the given output label.
pub open spec fn spec_base_chain(
    es: EditState,
    profile: ExportProfile,
    g: FilterGeom,
    zov: Option<(Seq<char>, Seq<char>, Seq<char>)>,
    clip: Option<Seq<char>>,
    label: Seq<char>,
) -> Seq<char> {
    let fps = profile.fps as int;
    let bg = spec_background_source(es, profile.width as int, profile.height as int, fps);
    let scaled = match zov {
        Some(z3) => bg + "[bg];[0:v]scale="@ + spec_i64_str(g.super_w) + ":"@ + spec_i64_str(
            g.super_h,
        ) + ":force_original_aspect_ratio=decrease,format=rgba,zoompan=z='"@ + z3.0 + "':x='"@
            + z3.1 + "':y='"@ + z3.2 + "':d=1:s="@ + spec_i64_str(g.target_w) + "x"@
            + spec_i64_str(g.target_h) + ":fps="@ + spec_i64_str(fps),
        None => bg + "[bg];[0:v]scale="@ + spec_i64_str(g.target_w) + ":"@ + spec_i64_str(
            g.target_h,
        ) + ":force_original_aspect_ratio=decrease,format=rgba,fps="@ + spec_i64_str(fps),
    };
    let based = scaled + spec_select_suffix(clip, fps) + spec_rounded_suffix(g.radius);
    let sblur = spec_imax(es.shadow as int / 4, 1);
    let salpha = spec_imin(es.shadow as int * 1000 / 120, 600);
    let soff = es.shadow as int / 6;
    if es.shadow > 0 {
        based + ",split=2[fg][shadow];[shadow]boxblur="@ + spec_i64_str(sblur)
            + ":1,colorchannelmixer=aa="@ + spec_milli_str(salpha as nat) + "[shadow];[bg][shadow]overlay=x="@
            + spec_i64_str(g.pos_x) + "+("@ + spec_i64_str(g.inner_w) + "-overlay_w)/2+"@
            + spec_i64_str(soff) + ":y="@ + spec_i64_str(g.pos_y) + "+("@ + spec_i64_str(g.inner_h)
            + "-overlay_h)/2+"@ + spec_i64_str(soff) + ":shortest=1[bg2];[bg2][fg]overlay=x="@
            + spec_i64_str(g.pos_x) + "+("@ + spec_i64_str(g.inner_w) + "-overlay_w)/2:y="@
            + spec_i64_str(g.pos_y) + "+("@ + spec_i64_str(g.inner_h) + "-overlay_h)/2:shortest=1["@
            + label + "]"@
    } else {
        based + "[fg];[bg][fg]overlay=x="@ + spec_i64_str(g.pos_x) + "+("@ + spec_i64_str(
            g.inner_w,
        ) + "-overlay_w)/2:y="@ + spec_i64_str(g.pos_y) + "+("@ + spec_i64_str(g.inner_h)
            + "-overlay_h)/2:shortest=1["@ + label + "]"@
    }
}

/// The camera overlay size for an edit state: the configured size in
/// portrait, a tenth of the inner width otherwise.
pub open spec fn spec_camera_size(es: EditState, g: FilterGeom) -> int {
    match es.aspect {
        Aspect::Ratio9x16 => spec_evenize(spec_imax(es.camera_size as int, 2)),
        _ => spec_imax(spec_evenize(spec_round_div(g.inner_w, 10)), 2),
    }
}

/// The camera overlay inset from the frame edge.
pub open spec fn spec_camera_offset(es: EditState) -> int {
    match es.aspect {
        Aspect::Ratio9x16 => 16int,
        _ => 12int,
    }
}

/// The camera overlay corner position.
pub open spec fn spec_camera_xy(es: EditState, ow: int, oh: int, cs: int) -> (int, int) {
    let off = spec_camera_offset(es);
    match es.camera_position {
        CameraPosition::TopLeft => (off, off),
        CameraPosition::TopRight => (spec_imax(ow - cs - off, 0), off),
        CameraPosition::BottomRight => (spec_imax(ow - cs - off, 0), spec_imax(oh - cs - off, 0)),
        CameraPosition::BottomLeft => (off, spec_imax(oh - cs - off, 0)),
    }
}

/// The camera corner radius for the configured shape, capped at half the
/// overlay size.
pub open spec fn spec_camera_radius(es: EditState, g: FilterGeom, cs: int) -> int {
    let raw = match es.camera_shape {
        CameraShape::Circle => cs / 2,
        CameraShape::Rounded => spec_evenize(spec_imax(g.inner_w / 24, 4)),
        CameraShape::Sharp => spec_evenize(spec_imax(g.inner_w / 64, 2)),
    };
    spec_imin(raw, cs / 2)
}

/// The camera pipeline appended to the main chain: the camera input
/// mirrored, square-cropped, scaled, rounded, optionally shadowed, and
/// overlaid at its corner, gated by the enable expression.
pub open spec fn spec_camera_chain(
    es: EditState,
    profile: ExportProfile,
    g: FilterGeom,
    enable: Option<Seq<char>>,
    base: Seq<char>,
) -> Seq<char> {
    let ow = profile.width as int;
    let oh = profile.height as int;
    let cs = spec_camera_size(es, g);
    let cxy = spec_camera_xy(es, ow, oh, cs);
    let cradius = spec_camera_radius(es, g, cs);
    let cblur = spec_imax(es.camera_shadow as int / 4, 1);
    let calpha = spec_imin(es.camera_shadow as int * 1000 / 120, 600);
    let coff = es.camera_shadow as int / 6;
    let mir = if es.camera_mirror {
        "hflip,"@
    } else {
        ""@
    };
    let cam_rounded = "[1:v]"@ + mir + "scale="@ + spec_i64_str(cs) + ":"@ + spec_i64_str(cs)
        + ":force_original_aspect_ratio=increase,crop="@ + spec_i64_str(cs) + ":"@ + spec_i64_str(
        cs,
    ) + ",format=rgba"@ + spec_rounded_suffix(cradius);
    let en = spec_enable(enable);
    if es.camera_shadow > 0 {
        base + ";"@ + cam_rounded + ",split=2[cam][camshadow];[camshadow]boxblur="@ + spec_i64_str(
            cblur,
        ) + ":1,colorchannelmixer=aa="@ + spec_milli_str(calpha as nat)
            + "[camshadow];[base][camshadow]overlay=x="@ + spec_i64_str(cxy.0 + coff) + ":y="@
            + spec_i64_str(cxy.1 + coff) + ":shortest=1"@ + en + "[bg2];[bg2][cam]overlay=x="@
            + spec_i64_str(cxy.0) + ":y="@ + spec_i64_str(cxy.1) + ":shortest=1"@ + en + "[v]"@
    } else {
        base + ";"@ + cam_rounded + "[cam];[base][cam]overlay=x="@ + spec_i64_str(cxy.0) + ":y="@
            + spec_i64_str(cxy.1) + ":shortest=1"@ + en + "[v]"@
    }
}

/// The view of an optional expression triple.
pub open spec fn opt3_view(o: Option<(String, String, String)>) -> Option<
    (Seq<char>, Seq<char>, Seq<char>),
> {
    match o {
        None => None,
        Some(t3) => Some((t3.0@, t3.1@, t3.2@)),
    }
}

/// The complete export filter: the main content chain, and the camera
/// pipeline on top when a camera recording takes part.
pub open spec fn spec_build_export_filter(
    es: EditState,
    profile: ExportProfile,
    has_camera: bool,
    zov: Option<(Seq<char>, Seq<char>, Seq<char>)>,
    enable: Option<Seq<char>>,
    clip: Option<Seq<char>>,
) -> Seq<char> {
    let g = spec_filter_geom(es, profile.width as int, profile.height as int);
    let label = if has_camera {
        "base"@
    } else {
        "v"@
    };
    let base = spec_base_chain(es, profile, g, zov, clip, label);
    if has_camera {
        spec_camera_chain(es, profile, g, enable, base)
    } else {
        base
    }
}

/// Builds the `:enable=` suffix.
fn enable_str(o: &Option<String>) -> (r: String)
    ensures
        r@ == spec_enable(opt_view(*o)),
{
    match o {
        None => String::new(),
        Some(e) => {
            let mut r = String::from_str(":enable=");
            r.append(e.as_str());
            r
        },
    }
}

/// Builds the clip-select suffix.
fn select_str(o: &Option<String>, fps: u32) -> (r: String)
    ensures
        r@ == spec_select_suffix(opt_view(*o), fps as int),
{
    match o {
        None => String::new(),
        Some(e) => {
            let mut r = String::from_str(",select='");
            r.append(e.as_str());
            r.append("',setpts=N/(");
            push_i64(&mut r, fps as i64);
            r.append("*TB)");
            r
        },
    }
}

/// Builds the corner-rounding suffix.
fn rounded_suffix(radius: i64) -> (r: String)
    requires
        0 <= radius <= 16384,
    ensures
        r@ == spec_rounded_suffix(radius as int),
{
    if radius > 0 {
        let alpha = rounded_alpha_expr(radius as i32);
        let mut r = String::from_str(",geq=r='r(X,Y)':g='g(X,Y)':b='b(X,Y)':a='");
        r.append(alpha.as_str());
        r.append("'");
        r
    } else {
        String::new()
    }
}

/// Builds the main content chain under the given output label.
#[verifier::rlimit(100)]
fn base_chain(
    es: &EditState,
    profile: &ExportProfile,
    g: Geom,
    zoom_override: &Option<(String, String, String)>,
    clip_select: &Option<String>,
    label: &str,
) -> (r: String)
    requires
        es.wf(),
        profile.wf(),
        ({
            let sg = spec_filter_geom(*es, profile.width as int, profile.height as int);
            g.inner_w == sg.inner_w && g.inner_h == sg.inner_h && g.pos_x == sg.pos_x && g.pos_y
                == sg.pos_y && g.radius == sg.radius && g.target_w == sg.target_w && g.target_h
                == sg.target_h && g.super_w == sg.super_w && g.super_h == sg.super_h
                && geom_in_range(sg)
        }),
    ensures
        r@ == spec_base_chain(
            *es,
            *profile,
            spec_filter_geom(*es, profile.width as int, profile.height as int),
            opt3_view(*zoom_override),
            opt_view(*clip_select),
            label@,
        ),
{
    let fps = profile.fps;
    let mut r = background_source(es, profile.width as i32, profile.height as i32, fps);
    match zoom_override {
        Some(z3) => {
            r.append("[bg];[0:v]scale=");
            push_i64(&mut r, g.super_w);
            r.append(":");
            push_i64(&mut r, g.super_h);
            r.append(":force_original_aspect_ratio=decrease,format=rgba,zoompan=z='");
            r.append(z3.0.as_str());
            r.append("':x='");
            r.append(z3.1.as_str());
            r.append("':y='");
            r.append(z3.2.as_str());
            r.append("':d=1:s=");
            push_i64(&mut r, g.target_w);
            r.append("x");
            push_i64(&mut r, g.target_h);
            r.append(":fps=");
            push_i64(&mut r, fps as i64);
        },
        None => {
            r.append("[bg];[0:v]scale=");
            push_i64(&mut r, g.target_w);
            r.append(":");
            push_i64(&mut r, g.target_h);
            r.append(":force_original_aspect_ratio=decrease,format=rgba,fps=");
            push_i64(&mut r, fps as i64);
        },
    }
    let sel = select_str(clip_select, fps);
    r.append(sel.as_str());
    let rnd = rounded_suffix(g.radius);
    r.append(rnd.as_str());
    let shadow = es.shadow as i64;
    let sblur = if shadow / 4 >= 1 { shadow / 4 } else { 1 };
    let salpha = if shadow * 1000 / 120 <= 600 { shadow * 1000 / 120 } else { 600 };
    let soff = shadow / 6;
    if es.shadow > 0 {
        r.append(",split=2[fg][shadow];[shadow]boxblur=");
        push_i64(&mut r, sblur);
        r.append(":1,colorchannelmixer=aa=");
        push_milli(&mut r, salpha as u64);
        r.append("[shadow];[bg][shadow]overlay=x=");
        push_i64(&mut r, g.pos_x);
        r.append("+(");
        push_i64(&mut r, g.inner_w);
        r.append("-overlay_w)/2+");
        push_i64(&mut r, soff);
        r.append(":y=");
        push_i64(&mut r, g.pos_y);
        r.append("+(");
        push_i64(&mut r, g.inner_h);
        r.append("-overlay_h)/2+");
        push_i64(&mut r, soff);
        r.append(":shortest=1[bg2];[bg2][fg]overlay=x=");
        push_i64(&mut r, g.pos_x);
        r.append("+(");
        push_i64(&mut r, g.inner_w);
        r.append("-overlay_w)/2:y=");
        push_i64(&mut r, g.pos_y);
        r.append("+(");
        push_i64(&mut r, g.inner_h);
        r.append("-overlay_h)/2:shortest=1[");
        r.append(label);
        r.append("]");
    } else {
        r.append("[fg];[bg][fg]overlay=x=");
        push_i64(&mut r, g.pos_x);
        r.append("+(");
        push_i64(&mut r, g.inner_w);
        r.append("-overlay_w)/2:y=");
        push_i64(&mut r, g.pos_y);
        r.append("+(");
        push_i64(&mut r, g.inner_h);
        r.append("-overlay_h)/2:shortest=1[");
        r.append(label);
        r.append("]");
    }
    r
}

/// Appends the camera pipeline to the main chain.
#[verifier::rlimit(100)]
fn camera_chain(
    es: &EditState,
    profile: &ExportProfile,
    g: Geom,
    camera_enable: &Option<String>,
    base: String,
) -> (r: String)
    requires
        es.wf(),
        profile.wf(),
        ({
            let sg = spec_filter_geom(*es, profile.width as int, profile.height as int);
            g.inner_w == sg.inner_w && geom_in_range(sg)
        }),
    ensures
        r@ == spec_camera_chain(
            *es,
            *profile,
            spec_filter_geom(*es, profile.width as int, profile.height as int),
            opt_view(*camera_enable),
            base@,
        ),
{
    let ow = profile.width as i64;
    let oh = profile.height as i64;
    let cs: i64 = match es.aspect {
        Aspect::Ratio9x16 => evenize64(
            if (es.camera_size as i64) >= 2 { es.camera_size as i64 } else { 2 },
        ),
        _ => {
            let t = evenize64(round_div(g.inner_w, 10));
            if t >= 2 { t } else { 2 }
        },
    };
    let off: i64 = match es.aspect {
        Aspect::Ratio9x16 => 16,
        _ => 12,
    };
    let (cx, cy): (i64, i64) = match es.camera_position {
        CameraPosition::TopLeft => (off, off),
        CameraPosition::TopRight => (
            if ow - cs - off >= 0 { ow - cs - off } else { 0 },
            off,
        ),
        CameraPosition::BottomRight => (
            if ow - cs - off >= 0 { ow - cs - off } else { 0 },
            if oh - cs - off >= 0 { oh - cs - off } else { 0 },
        ),
        CameraPosition::BottomLeft => (
            off,
            if oh - cs - off >= 0 { oh - cs - off } else { 0 },
        ),
    };
    let raw: i64 = match es.camera_shape {
        CameraShape::Circle => cs / 2,
        CameraShape::Rounded => evenize64(if g.inner_w / 24 >= 4 { g.inner_w / 24 } else { 4 }),
        CameraShape::Sharp => evenize64(if g.inner_w / 64 >= 2 { g.inner_w / 64 } else { 2 }),
    };
    let cradius = if raw <= cs / 2 { raw } else { cs / 2 };
    let cshadow = es.camera_shadow as i64;
    let cblur = if cshadow / 4 >= 1 { cshadow / 4 } else { 1 };
    let calpha = if cshadow * 1000 / 120 <= 600 { cshadow * 1000 / 120 } else { 600 };
    let coff = cshadow / 6;
    let mir: &str = if es.camera_mirror { "hflip," } else { "" };
    let mut cam = String::from_str("[1:v]");
    cam.append(mir);
    cam.append("scale=");
    push_i64(&mut cam, cs);
    cam.append(":");
    push_i64(&mut cam, cs);
    cam.append(":force_original_aspect_ratio=increase,crop=");
    push_i64(&mut cam, cs);
    cam.append(":");
    push_i64(&mut cam, cs);
    cam.append(",format=rgba");
    let crnd = rounded_suffix(cradius);
    cam.append(crnd.as_str());
    let en = enable_str(camera_enable);
    let mut r = base;
    r.append(";");
    r.append(cam.as_str());
    if es.camera_shadow > 0 {
        r.append(",split=2[cam][camshadow];[camshadow]boxblur=");
        push_i64(&mut r, cblur);
        r.append(":1,colorchannelmixer=aa=");
        push_milli(&mut r, calpha as u64);
        r.append("[camshadow];[base][camshadow]overlay=x=");
        push_i64(&mut r, cx + coff);
        r.append(":y=");
        push_i64(&mut r, cy + coff);
        r.append(":shortest=1");
        r.append(en.as_str());
        r.append("[bg2];[bg2][cam]overlay=x=");
        push_i64(&mut r, cx);
        r.append(":y=");
        push_i64(&mut r, cy);
        r.append(":shortest=1");
        r.append(en.as_str());
        r.append("[v]");
    } else {
        r.append("[cam];[base][cam]overlay=x=");
        push_i64(&mut r, cx);
        r.append(":y=");
        push_i64(&mut r, cy);
        r.append(":shortest=1");
        r.append(en.as_str());
        r.append("[v]");
    }
    r
}

/// Builds the complete export filter expression from the edit state, the
/// profile, the presence of a camera recording, and the derived zoom,
/// camera-enable and clip-select expressions.
pub fn build_export_filter(
    edit_state: &EditState,
    profile: &ExportProfile,
    has_camera: bool,
    zoom_override: Option<(String, String, String)>,
    camera_enable: Option<String>,
    clip_select: Option<String>,
) -> (r: String)
    requires
        edit_state.wf(),
        profile.wf(),
    ensures
        r@ == spec_build_export_filter(
            *edit_state,
            *profile,
            has_camera,
            opt3_view(zoom_override),
            opt_view(camera_enable),
            opt_view(clip_select),
        ),
{
    let g = filter_geom(edit_state, profile);
    let label: &str = if has_camera { "base" } else { "v" };
    let base = base_chain(edit_state, profile, g, &zoom_override, &clip_select, label);
    if has_camera {
        camera_chain(edit_state, profile, g, &camera_enable, base)
    } else {
        base
    }
}

/// The camera chain up to (and excluding) the first overlay's enable
/// gate; independent of the enable expression.
pub open spec fn spec_camera_chain_head(
    es: EditState,
    profile: ExportProfile,
    g: FilterGeom,
    base: Seq<char>,
) -> Seq<char> {
    let ow = profile.width as int;
    let oh = profile.height as int;
    let cs = spec_camera_size(es, g);
    let cxy = spec_camera_xy(es, ow, oh, cs);
    let cradius = spec_camera_radius(es, g, cs);
    let cblur = spec_imax(es.camera_shadow as int / 4, 1);
    let calpha = spec_imin(es.camera_shadow as int * 1000 / 120, 600);
    let coff = es.camera_shadow as int / 6;
    let mir = if es.camera_mirror {
        "hflip,"@
    } else {
        ""@
    };
    let cam_rounded = "[1:v]"@ + mir + "scale="@ + spec_i64_str(cs) + ":"@ + spec_i64_str(cs)
        + ":force_original_aspect_ratio=increase,crop="@ + spec_i64_str(cs) + ":"@ + spec_i64_str(
        cs,
    ) + ",format=rgba"@ + spec_rounded_suffix(cradius);
    if es.camera_shadow > 0 {
        base + ";"@ + cam_rounded + ",split=2[cam][camshadow];[camshadow]boxblur="@ + spec_i64_str(
            cblur,
        ) + ":1,colorchannelmixer=aa="@ + spec_milli_str(calpha as nat)
            + "[camshadow];[base][camshadow]overlay=x="@ + spec_i64_str(cxy.0 + coff) + ":y="@
            + spec_i64_str(cxy.1 + coff) + ":shortest=1"@
    } else {
        base + ";"@ + cam_rounded + "[cam];[base][cam]overlay=x="@ + spec_i64_str(cxy.0) + ":y="@
            + spec_i64_str(cxy.1) + ":shortest=1"@
    }
}

/// The camera chain between the first and second enable gates (the
/// second overlay stage); independent of the enable expression.
pub open spec fn spec_camera_chain_mid(
    es: EditState,
    profile: ExportProfile,
    g: FilterGeom,
) -> Seq<char> {
    let ow = profile.width as int;
    let oh = profile.height as int;
    let cs = spec_camera_size(es, g);
    let cxy = spec_camera_xy(es, ow, oh, cs);
    "[bg2];[bg2][cam]overlay=x="@ + spec_i64_str(cxy.0) + ":y="@ + spec_i64_str(cxy.1)
        + ":shortest=1"@
}

/// The camera overlays are gated by exactly the enable expression: with
/// an expression, `:enable=` plus that text follows each overlay stage
/// (both the shadow and the camera when a shadow is drawn); with none,
/// the very same chain is emitted with the two gates removed, so the
/// overlay composites into `[v]` only where the expression selects.
#[verifier::rlimit(100)]
pub proof fn lemma_camera_enable_gates_overlays(
    es: EditState,
    profile: ExportProfile,
    g: FilterGeom,
    e: Seq<char>,
    base: Seq<char>,
)
    ensures
        es.camera_shadow > 0 ==> spec_camera_chain(es, profile, g, Some(e), base)
            == spec_camera_chain_head(es, profile, g, base) + (":enable="@ + e)
            + spec_camera_chain_mid(es, profile, g) + (":enable="@ + e) + "[v]"@,
        es.camera_shadow > 0 ==> spec_camera_chain(es, profile, g, None, base)
            == spec_camera_chain_head(es, profile, g, base) + spec_camera_chain_mid(
            es,
            profile,
            g,
        ) + "[v]"@,
        es.camera_shadow == 0 ==> spec_camera_chain(es, profile, g, Some(e), base)
            == spec_camera_chain_head(es, profile, g, base) + (":enable="@ + e) + "[v]"@,
        es.camera_shadow == 0 ==> spec_camera_chain(es, profile, g, None, base)
            == spec_camera_chain_head(es, profile, g, base) + "[v]"@,
{
    if es.camera_shadow > 0 {
        assert(spec_camera_chain(es, profile, g, Some(e), base) =~= spec_camera_chain_head(
            es,
            profile,
            g,
            base,
        ) + (":enable="@ + e) + spec_camera_chain_mid(es, profile, g) + (":enable="@ + e)
            + "[v]"@);
        assert(spec_camera_chain(es, profile, g, None, base) =~= spec_camera_chain_head(
            es,
            profile,
            g,
            base,
        ) + spec_camera_chain_mid(es, profile, g) + "[v]"@);
    } else {
        assert(spec_camera_chain(es, profile, g, Some(e), base) =~= spec_camera_chain_head(
            es,
            profile,
            g,
            base,
        ) + (":enable="@ + e) + "[v]"@);
        assert(spec_camera_chain(es, profile, g, None, base) =~= spec_camera_chain_head(
            es,
            profile,
            g,
            base,
        ) + "[v]"@);
    }
}

} // verus!
