//! The cursor-event to zoom-track pipeline: click-window coalescing,
//! follow-threshold detection, pan anchors, and dense resampled frames.
//!
//! All arithmetic is in fixed point: times in milliseconds, normalized
//! coordinates in millionths (ppm), zoom factors in thousandths (milli),
//! pointer travel in thousandths of a device pixel (milli-pixels).

use vstd::prelude::*;
use crate::tracks::{
    spec_default_zoom_settings,
    CursorEvent,
    CursorKind,
    ZoomFrame,
    ZoomSettings,
    ZoomTrack,
};

verus! {

/// How long a click keeps its zoom window open.
pub const WINDOW_MS: u64 = 5000;

/// Ramp length of the ease-in and ease-out, in ms.
pub const RAMP_MS: u64 = 500;

/// Zoom factor reached inside a window, in thousandths.
pub const MAX_ZOOM_MILLI: u32 = 2000;

/// Most windows a session may produce.
pub const MAX_WINDOWS: usize = 100;

/// Anchor budget per window.
pub const MAX_ANCHORS: usize = 4000;

/// Minimum spacing of sampled pan anchors, in ms.
pub const SAMPLE_MS: u64 = 120;

/// Pointer travel that starts the follow phase, in milli-pixels.
pub const FOLLOW_THRESHOLD_MPX: u64 = 160000;

/// Frame rate of the generated track.
pub const TRACK_FPS: u32 = 30;

/// A pan anchor: at `t_ms` the pan center is at the given normalized
/// position.
#[derive(Clone, Copy, Debug, PartialEq, Eq, Structural)]
pub struct Anchor {
    pub t_ms: u64,
    pub axn_ppm: u32,
    pub ayn_ppm: u32,
}

/// `r` is the integer square root of `n`.
pub open spec fn is_sqrt(n: nat, r: nat) -> bool {
    r * r <= n < (r + 1) * (r + 1)
}

/// The integer square root of `n`.
pub open spec fn spec_isqrt(n: nat) -> nat {
    choose|r: nat| is_sqrt(n, r)
}

/// Two integer square roots of the same number are equal.
proof fn lemma_sqrt_unique(n: nat, r1: nat, r2: nat)
    requires
        is_sqrt(n, r1),
        is_sqrt(n, r2),
    ensures
        r1 == r2,
{
    if r1 < r2 {
        assert((r1 + 1) * (r1 + 1) <= r2 * r2) by (nonlinear_arith)
            requires r1 + 1 <= r2,
        ;
    }
    if r2 < r1 {
        assert((r2 + 1) * (r2 + 1) <= r1 * r1) by (nonlinear_arith)
            requires r2 + 1 <= r1,
        ;
    }
}

/// Floor integer square root by bisection.
pub fn isqrt(n: u128) -> (r: u64)
    requires
        n < (1u128 << 84),
    ensures
        r as nat == spec_isqrt(n as nat),
        is_sqrt(n as nat, r as nat),
{
    if n == 0 {
        proof {
            assert(0nat * 0nat == 0 && (0nat + 1) * (0nat + 1) == 1) by (nonlinear_arith);
            assert(is_sqrt(0, 0));
            lemma_sqrt_unique(0, spec_isqrt(0), 0);
        }
        return 0;
    }
    let mut lo: u64 = 0;
    let mut hi: u64 = 1u64 << 42;
    proof {
        assert((1u64 << 42) == 0x40000000000u64) by (bit_vector);
        assert((1u128 << 84) == 0x1000000000000000000000u128) by (bit_vector);
        assert((0x40000000000u128) * (0x40000000000u128) == 0x1000000000000000000000u128);
    }
    while lo + 1 < hi
        invariant
            lo < hi,
            hi <= 0x40000000000u64,
            (lo as nat) * (lo as nat) <= n as nat,
            (n as nat) < (hi as nat) * (hi as nat),
        decreases hi - lo,
    {
        let mid = lo + (hi - lo) / 2;
        proof {
            assert((mid as int) * (mid as int) <= 0x40000000000 * 0x40000000000)
                by (nonlinear_arith)
                requires mid <= 0x40000000000u64,
            ;
        }
        let m2: u128 = (mid as u128) * (mid as u128);
        if m2 <= n {
            lo = mid;
        } else {
            hi = mid;
        }
    }
    proof {
        assert(is_sqrt(n as nat, lo as nat));
        lemma_sqrt_unique(n as nat, spec_isqrt(n as nat), lo as nat);
    }
    lo
}

/// The eased zoom factor `d_ms` into a ramp: an ease-out cubic from 1.0
/// to the maximum zoom over [`0`, `RAMP_MS`], in thousandths.
pub open spec fn spec_ease_zoom(d_ms: int) -> u32 {
    let u = if d_ms < 0 {
        0int
    } else if d_ms > 500 {
        1000int
    } else {
        d_ms * 2
    };
    let v = 1000 - u;
    (1000 + (1000000000 - v * v * v) / 1000000) as u32
}

/// Computes the eased zoom factor for a point `d_ms` into a ramp.
pub fn ease_zoom(d_ms: u64) -> (z: u32)
    ensures
        z == spec_ease_zoom(d_ms as int),
        1000 <= z <= 2000,
{
    let u: u64 = if d_ms > 500 { 1000 } else { d_ms * 2 };
    let v: u64 = 1000 - u;
    proof {
        assert(v * v <= 1000000) by (nonlinear_arith)
            requires v <= 1000,
        ;
        assert(v * v * v <= 1000000000) by (nonlinear_arith)
            requires v <= 1000,
        ;
    }
    let cube: u64 = v * v * v;
    let z64: u64 = 1000 + (1000000000 - cube) / 1000000;
    z64 as u32
}

/// The zoom factor at `t` for a window `[s, e]`: easing in on
/// `[s, s + RAMP_MS)`, easing out on `(e - RAMP_MS, e]`, flat at the
/// maximum in between.
pub open spec fn spec_zoom_at(t: int, s: int, e: int) -> u32 {
    if t >= s && t < s + 500 {
        spec_ease_zoom(t - s)
    } else if t > e - 500 && t <= e {
        spec_ease_zoom(e - t)
    } else {
        2000
    }
}

/// Computes the zoom factor at `t` inside the window `[s, e]`.
pub fn zoom_at(t: u64, s: u64, e: u64) -> (z: u32)
    requires
        t <= e,
    ensures
        z == spec_zoom_at(t as int, s as int, e as int),
        1000 <= z <= 2000,
{
    if t >= s && t - s < RAMP_MS {
        ease_zoom(t - s)
    } else if e - t < RAMP_MS {
        ease_zoom(e - t)
    } else {
        2000
    }
}

/// Linear interpolation between two anchors at time `t`, clamped to the
/// segment; a degenerate or reversed segment counts as one millisecond.
pub open spec fn spec_lerp(a0: Anchor, a1: Anchor, t: int) -> (u32, u32) {
    let dt = if a1.t_ms as int - a0.t_ms as int >= 1 {
        a1.t_ms as int - a0.t_ms as int
    } else {
        1int
    };
    let d = if t - a0.t_ms < 0 {
        0int
    } else if t - a0.t_ms > dt {
        dt
    } else {
        t - a0.t_ms
    };
    (
        (((a0.axn_ppm as int) * (dt - d) + (a1.axn_ppm as int) * d) / dt) as u32,
        (((a0.ayn_ppm as int) * (dt - d) + (a1.ayn_ppm as int) * d) / dt) as u32,
    )
}

/// A weighted average of two values stays between them (in particular,
/// within the coordinate range when both ends are).
proof fn lemma_lerp_bound(x0: int, x1: int, d: int, dt: int)
    requires
        0 <= x0 <= 1000000,
        0 <= x1 <= 1000000,
        0 < dt,
        0 <= d <= dt,
    ensures
        0 <= (x0 * (dt - d) + x1 * d) / dt <= 1000000,
{
    assert(x0 * (dt - d) + x1 * d <= 1000000 * dt) by (nonlinear_arith)
        requires 0 <= x0 <= 1000000, 0 <= x1 <= 1000000, 0 < dt, 0 <= d <= dt,
    ;
    assert(x0 * (dt - d) + x1 * d >= 0) by (nonlinear_arith)
        requires 0 <= x0, 0 <= x1, 0 < dt, 0 <= d <= dt,
    ;
    assert((1000000 * dt) / dt == 1000000) by (nonlinear_arith)
        requires 0 < dt,
    ;
    assert((x0 * (dt - d) + x1 * d) / dt <= (1000000 * dt) / dt) by (nonlinear_arith)
        requires 0 < dt, x0 * (dt - d) + x1 * d <= 1000000 * dt, 0 <= x0 * (dt - d) + x1 * d,
    ;
}

/// Computes the clamped linear interpolation between two anchors.
pub fn lerp(a0: &Anchor, a1: &Anchor, t: u64) -> (r: (u32, u32))
    requires
        a0.axn_ppm <= 1000000,
        a0.ayn_ppm <= 1000000,
        a1.axn_ppm <= 1000000,
        a1.ayn_ppm <= 1000000,
    ensures
        r == spec_lerp(*a0, *a1, t as int),
        r.0 <= 1000000,
        r.1 <= 1000000,
{
    let dt: u64 = if a1.t_ms > a0.t_ms { a1.t_ms - a0.t_ms } else { 1 };
    let d: u64 = if t < a0.t_ms {
        0
    } else if t - a0.t_ms > dt {
        dt
    } else {
        t - a0.t_ms
    };
    proof {
        lemma_lerp_bound(a0.axn_ppm as int, a1.axn_ppm as int, d as int, dt as int);
        lemma_lerp_bound(a0.ayn_ppm as int, a1.ayn_ppm as int, d as int, dt as int);
        assert((a0.axn_ppm as int) * ((dt - d) as int) + (a1.axn_ppm as int) * (d as int)
            <= 1000000 * (dt as int)) by (nonlinear_arith)
            requires
                a0.axn_ppm <= 1000000,
                a1.axn_ppm <= 1000000,
                0 <= d <= dt,
        ;
        assert((a0.ayn_ppm as int) * ((dt - d) as int) + (a1.ayn_ppm as int) * (d as int)
            <= 1000000 * (dt as int)) by (nonlinear_arith)
            requires
                a0.ayn_ppm <= 1000000,
                a1.ayn_ppm <= 1000000,
                0 <= d <= dt,
        ;
        assert(1000000 * (dt as int) <= 1000000 * (u64::MAX as int)) by (nonlinear_arith)
            requires dt <= u64::MAX,
        ;
    }
    let x: u128 = ((a0.axn_ppm as u128) * ((dt - d) as u128) + (a1.axn_ppm as u128) * (d as u128))
        / (dt as u128);
    let y: u128 = ((a0.ayn_ppm as u128) * ((dt - d) as u128) + (a1.ayn_ppm as u128) * (d as u128))
        / (dt as u128);
    (x as u32, y as u32)
}

/// The pan center at time `t` over an anchor list, scanned in order as the
/// builder does: the first segment containing `t` interpolates; segments
/// wholly before `t` move the running value to their right end.
pub open spec fn spec_interp_from(anchors: Seq<Anchor>, k: int, cur: (u32, u32), t: int) -> (
    u32,
    u32,
)
    decreases anchors.len() - k,
{
    if k < 0 || k + 1 >= anchors.len() {
        cur
    } else {
        let a0 = anchors[k];
        let a1 = anchors[k + 1];
        if a0.t_ms <= t <= a1.t_ms {
            spec_lerp(a0, a1, t)
        } else if t > a1.t_ms {
            spec_interp_from(anchors, k + 1, (a1.axn_ppm, a1.ayn_ppm), t)
        } else {
            spec_interp_from(anchors, k + 1, cur, t)
        }
    }
}

/// The pan center at time `t` over an anchor list.
pub open spec fn spec_interp(anchors: Seq<Anchor>, t: int) -> (u32, u32) {
    if anchors.len() == 0 {
        (500000u32, 500000u32)
    } else {
        spec_interp_from(anchors, 0, (anchors[0].axn_ppm, anchors[0].ayn_ppm), t)
    }
}

/// Every coordinate of every anchor is a normalized position.
pub open spec fn anchors_in_range(anchors: Seq<Anchor>) -> bool {
    forall|i: int|
        0 <= i < anchors.len() ==> ((#[trigger] anchors[i]).axn_ppm <= 1000000 && anchors[
            i
        ].ayn_ppm <= 1000000)
}

/// Helper for `interp`: scan from pair `k` with running value `cur`.
fn interp_from(anchors: &Vec<Anchor>, k: usize, cur: (u32, u32), t: u64) -> (r: (u32, u32))
    requires
        anchors_in_range(anchors@),
        cur.0 <= 1000000,
        cur.1 <= 1000000,
    ensures
        r == spec_interp_from(anchors@, k as int, cur, t as int),
        r.0 <= 1000000,
        r.1 <= 1000000,
    decreases anchors@.len() - k,
{
    if k >= anchors.len() || k + 1 >= anchors.len() {
        cur
    } else {
        let a0 = anchors[k];
        let a1 = anchors[k + 1];
        if a0.t_ms <= t && t <= a1.t_ms {
            lerp(&a0, &a1, t)
        } else if t > a1.t_ms {
            interp_from(anchors, k + 1, (a1.axn_ppm, a1.ayn_ppm), t)
        } else {
            interp_from(anchors, k + 1, cur, t)
        }
    }
}

/// The pan center at time `t` over an anchor list.
pub fn interp(anchors: &Vec<Anchor>, t: u64) -> (r: (u32, u32))
    requires
        anchors_in_range(anchors@),
    ensures
        r == spec_interp(anchors@, t as int),
        r.0 <= 1000000,
        r.1 <= 1000000,
{
    if anchors.len() == 0 {
        (500000, 500000)
    } else {
        let a0 = anchors[0];
        interp_from(anchors, 0, (a0.axn_ppm, a0.ayn_ppm), t)
    }
}

/// A zoom window as the ghost model sees it: its span and its pan anchors.
pub struct WindowView {
    pub s_ms: u64,
    pub e_ms: u64,
    pub anchors: Seq<Anchor>,
}

/// A zoom window: the span `[s_ms, e_ms]` and the pan anchors inside it.
#[derive(Clone, Debug)]
pub struct Window {
    pub s_ms: u64,
    pub e_ms: u64,
    pub anchors: Vec<Anchor>,
}

impl View for Window {
    type V = WindowView;

    open spec fn view(&self) -> WindowView {
        WindowView { s_ms: self.s_ms, e_ms: self.e_ms, anchors: self.anchors@ }
    }
}

/// Indices of the `down` events, in order.
pub open spec fn spec_down_indices(events: Seq<CursorEvent>) -> Seq<int>
    decreases events.len(),
{
    if events.len() == 0 {
        Seq::<int>::empty()
    } else {
        spec_down_indices(events.drop_last()) + if events.last().kind is Down {
            seq![events.len() - 1]
        } else {
            Seq::<int>::empty()
        }
    }
}

/// Every down index points at a `down` event within bounds.
pub proof fn lemma_down_indices_in_bounds(events: Seq<CursorEvent>)
    ensures
        forall|k: int|
            0 <= k < spec_down_indices(events).len() ==> {
                let di = #[trigger] spec_down_indices(events)[k];
                0 <= di < events.len() && events[di].kind is Down
            },
    decreases events.len(),
{
    if events.len() > 0 {
        lemma_down_indices_in_bounds(events.drop_last());
        assert(forall|k: int|
            0 <= k < spec_down_indices(events.drop_last()).len() ==> {
                let di = #[trigger] spec_down_indices(events.drop_last())[k];
                0 <= di < events.len() - 1 && events.drop_last()[di].kind is Down
            });
        assert(forall|di: int|
            0 <= di < events.len() - 1 ==> events.drop_last()[di] == events[di]);
    }
}

/// Collects the indices of the `down` events.
pub fn down_indices(events: &Vec<CursorEvent>) -> (r: Vec<usize>)
    ensures
        r@.map_values(|v: usize| v as int) == spec_down_indices(events@),
{
    let mut r: Vec<usize> = Vec::new();
    let mut i: usize = 0;
    while i < events.len()
        invariant
            i <= events.len(),
            r@.map_values(|v: usize| v as int) == spec_down_indices(events@.take(i as int)),
        decreases events.len() - i,
    {
        proof {
            assert(events@.take(i as int + 1).drop_last() =~= events@.take(i as int));
            assert(events@.take(i as int + 1).last() == events@[i as int]);
        }
        match events[i].kind {
            CursorKind::Down => {
                r.push(i);
            },
            _ => {},
        }
        proof {
            assert(r@.map_values(|v: usize| v as int) =~= spec_down_indices(
                events@.take(i as int + 1),
            ));
        }
        i = i + 1;
    }
    proof {
        assert(events@.take(events@.len() as int) =~= events@);
    }
    r
}

/// The absolute difference of two coordinates.
pub open spec fn spec_abs_diff(a: u32, b: u32) -> int {
    if a >= b {
        a - b
    } else {
        b - a
    }
}

/// The pointer travel, in milli-pixels, from the last position to a move
/// event, on a capture surface of `rw` by `rh` device pixels.
pub open spec fn spec_step_mpx(ev: CursorEvent, lx: u32, ly: u32, rw: int, rh: int) -> int {
    let dx = spec_abs_diff(ev.axn_ppm, lx) * rw / 1000;
    let dy = spec_abs_diff(ev.ayn_ppm, ly) * rh / 1000;
    spec_isqrt((dx * dx + dy * dy) as nat) as int
}

/// The index of the first move event, scanning from `k` while events stay
/// inside the window, at which cumulative pointer travel reaches the
/// follow threshold; `path` is the travel so far, `(lx, ly)` the last
/// position.
pub open spec fn spec_follow_idx(
    events: Seq<CursorEvent>,
    k: int,
    e: int,
    rw: int,
    rh: int,
    path: int,
    lx: u32,
    ly: u32,
) -> Option<int>
    decreases events.len() - k,
{
    if k < 0 || k >= events.len() || events[k].offset_ms > e {
        None
    } else if events[k].kind is Move {
        let p2 = path + spec_step_mpx(events[k], lx, ly, rw, rh);
        if p2 >= 160000 {
            Some(k)
        } else {
            spec_follow_idx(events, k + 1, e, rw, rh, p2, events[k].axn_ppm, events[k].ayn_ppm)
        }
    } else {
        spec_follow_idx(events, k + 1, e, rw, rh, path, lx, ly)
    }
}

/// Pan anchors sampled from move events every `SAMPLE_MS`, scanning from
/// `k` inside the window; `len0` is how many anchors stand before these,
/// counted against the anchor budget.
pub open spec fn spec_samples(
    events: Seq<CursorEvent>,
    k: int,
    next: int,
    e: int,
    len0: nat,
) -> Seq<Anchor>
    decreases events.len() - k,
{
    if k < 0 || k >= events.len() || events[k].offset_ms > e {
        Seq::<Anchor>::empty()
    } else if events[k].kind is Move && events[k].offset_ms >= next {
        let a = Anchor {
            t_ms: events[k].offset_ms,
            axn_ppm: events[k].axn_ppm,
            ayn_ppm: events[k].ayn_ppm,
        };
        if len0 + 1 > 4000 {
            seq![a]
        } else {
            seq![a] + spec_samples(
                events,
                k + 1,
                events[k].offset_ms + 120,
                e,
                (len0 + 1) as nat,
            )
        }
    } else {
        spec_samples(events, k + 1, next, e, len0)
    }
}

/// The anchor list of a window triggered by the down event at `di`: the
/// click point at `s`; if the follow threshold is reached, the follow
/// point and then sampled moves; finally the last position held at `e`.
pub open spec fn spec_anchors(
    events: Seq<CursorEvent>,
    di: int,
    s: int,
    e: int,
    rw: int,
    rh: int,
) -> Seq<Anchor> {
    let d = events[di];
    let base = seq![Anchor { t_ms: s as u64, axn_ppm: d.axn_ppm, ayn_ppm: d.ayn_ppm }];
    let grown = match spec_follow_idx(events, di + 1, e, rw, rh, 0, d.axn_ppm, d.ayn_ppm) {
        Some(fi) => {
            let f = events[fi];
            let b2 = base + seq![
                Anchor { t_ms: f.offset_ms, axn_ppm: f.axn_ppm, ayn_ppm: f.ayn_ppm },
            ];
            b2 + spec_samples(events, di + 1, f.offset_ms + 120, e, b2.len())
        },
        None => base,
    };
    grown + seq![
        Anchor { t_ms: e as u64, axn_ppm: grown.last().axn_ppm, ayn_ppm: grown.last().ayn_ppm },
    ]
}

/// Extends a window end over every later down that falls inside it: while
/// the down at `j` starts no later than `e`, the end moves to that down
/// plus the window length.
pub open spec fn spec_consume(
    events: Seq<CursorEvent>,
    downs: Seq<int>,
    j: int,
    e: int,
) -> (int, int)
    decreases downs.len() - j,
{
    if j < 0 || j >= downs.len() {
        (j, e)
    } else {
        let t = events[downs[j]].offset_ms as int;
        if t <= e {
            spec_consume(events, downs, j + 1, t + 5000)
        } else {
            (j, e)
        }
    }
}

/// The coalesced zoom windows: each unvisited down opens a window of
/// `WINDOW_MS`, later downs inside it extend the end without restarting
/// the ramp, and at most `cap` windows are produced.
pub open spec fn spec_windows(
    events: Seq<CursorEvent>,
    downs: Seq<int>,
    wi: int,
    cap: nat,
    rw: int,
    rh: int,
) -> Seq<WindowView>
    decreases cap,
{
    if wi < 0 || wi >= downs.len() || cap == 0 {
        Seq::<WindowView>::empty()
    } else {
        let di = downs[wi];
        let s = events[di].offset_ms as int;
        let je = spec_consume(events, downs, wi + 1, s + 5000);
        let w = WindowView {
            s_ms: s as u64,
            e_ms: je.1 as u64,
            anchors: spec_anchors(events, di, s, je.1, rw, rh),
        };
        seq![w] + spec_windows(events, downs, je.0, (cap - 1) as nat, rw, rh)
    }
}

/// Every event's coordinates are normalized positions and its offset is
/// within the supported range.
pub open spec fn events_wf(events: Seq<CursorEvent>) -> bool {
    forall|i: int|
        0 <= i < events.len() ==> {
            let ev = #[trigger] events[i];
            ev.offset_ms <= 0x40000000000u64 && ev.axn_ppm <= 1000000 && ev.ayn_ppm <= 1000000
        }
}

/// Computes the pointer travel of one move event, in milli-pixels.
fn step_mpx(ev: &CursorEvent, lx: u32, ly: u32, rw: u64, rh: u64) -> (s: u64)
    requires
        ev.axn_ppm <= 1000000,
        ev.ayn_ppm <= 1000000,
        lx <= 1000000,
        ly <= 1000000,
        1 <= rw <= 0x80000000,
        1 <= rh <= 0x80000000,
    ensures
        s as int == spec_step_mpx(*ev, lx, ly, rw as int, rh as int),
        s < 0x40000000000u64,
{
    let dxa: u64 = if ev.axn_ppm >= lx { (ev.axn_ppm - lx) as u64 } else { (lx - ev.axn_ppm) as u64 };
    let dya: u64 = if ev.ayn_ppm >= ly { (ev.ayn_ppm - ly) as u64 } else { (ly - ev.ayn_ppm) as u64 };
    proof {
        assert(dxa * rw <= 1000000 * 0x80000000u64) by (nonlinear_arith)
            requires dxa <= 1000000, rw <= 0x80000000u64,
        ;
        assert(dya * rh <= 1000000 * 0x80000000u64) by (nonlinear_arith)
            requires dya <= 1000000, rh <= 0x80000000u64,
        ;
    }
    let dx: u64 = dxa * rw / 1000;
    let dy: u64 = dya * rh / 1000;
    proof {
        assert(dx <= 0x20000000000u64 && dy <= 0x20000000000u64);
        assert((dx as int) * (dx as int) <= 0x20000000000 * 0x20000000000) by (nonlinear_arith)
            requires dx <= 0x20000000000u64,
        ;
        assert((dy as int) * (dy as int) <= 0x20000000000 * 0x20000000000) by (nonlinear_arith)
            requires dy <= 0x20000000000u64,
        ;
        assert(0x20000000000 * 0x20000000000 + 0x20000000000 * 0x20000000000 < (1u128 << 84))
            by (bit_vector);
    }
    let n: u128 = (dx as u128) * (dx as u128) + (dy as u128) * (dy as u128);
    let s = isqrt(n);
    proof {
        if s >= 0x40000000000u64 {
            assert((s as int) * (s as int) >= 0x40000000000 * 0x40000000000) by (nonlinear_arith)
                requires s >= 0x40000000000u64,
            ;
            assert((s as int) * (s as int) <= n as int);
            assert(n < (1u128 << 84));
            assert((1u128 << 84) == 0x1000000000000000000000u128) by (bit_vector);
        }
    }
    s
}

/// Scans from the event after the down at `di` for the first move that
/// brings cumulative pointer travel to the follow threshold.
#[verifier::loop_isolation(false)]
#[verifier::rlimit(100)]
fn find_follow(events: &Vec<CursorEvent>, di: usize, e: u64, rw: u64, rh: u64) -> (r: Option<
    usize,
>)
    requires
        events_wf(events@),
        di < events@.len(),
        1 <= rw <= 0x80000000,
        1 <= rh <= 0x80000000,
    ensures
        ({
            let d = events@[di as int];
            let goal = spec_follow_idx(
                events@,
                di + 1,
                e as int,
                rw as int,
                rh as int,
                0,
                d.axn_ppm,
                d.ayn_ppm,
            );
            match r {
                Some(fi) => goal == Some(fi as int) && fi < events@.len(),
                None => goal is None,
            }
        }),
{
    let ghost d = events@[di as int];
    let ghost goal = spec_follow_idx(
        events@,
        di + 1,
        e as int,
        rw as int,
        rh as int,
        0,
        d.axn_ppm,
        d.ayn_ppm,
    );
    let n = events.len();
    let mut k: usize = di + 1;
    let mut path: u64 = 0;
    let mut lx: u32 = events[di].axn_ppm;
    let mut ly: u32 = events[di].ayn_ppm;
    while k < events.len()
        invariant
            events_wf(events@),
            di + 1 <= k,
            1 <= rw <= 0x80000000,
            1 <= rh <= 0x80000000,
            lx <= 1000000,
            ly <= 1000000,
            path < 160000,
            goal == spec_follow_idx(
                events@,
                k as int,
                e as int,
                rw as int,
                rh as int,
                path as int,
                lx,
                ly,
            ),
        decreases events@.len() - k,
    {
        let ev = events[k];
        if ev.offset_ms > e {
            proof {
                assert(ev == events@[k as int]);
                assert(spec_follow_idx(
                    events@,
                    k as int,
                    e as int,
                    rw as int,
                    rh as int,
                    path as int,
                    lx,
                    ly,
                ) is None);
            }
            return None;
        }
        match ev.kind {
            CursorKind::Move => {
                let step = step_mpx(&ev, lx, ly, rw, rh);
                let p2 = path + step;
                if p2 >= FOLLOW_THRESHOLD_MPX {
                    proof {
                        assert(spec_follow_idx(
                            events@,
                            k as int,
                            e as int,
                            rw as int,
                            rh as int,
                            path as int,
                            lx,
                            ly,
                        ) == Some(k as int));
                    }
                    return Some(k);
                }
                path = p2;
                lx = ev.axn_ppm;
                ly = ev.ayn_ppm;
            },
            _ => {},
        }
        k = k + 1;
    }
    None
}

/// Builds the anchor list of one window.
#[verifier::loop_isolation(false)]
#[verifier::rlimit(100)]
fn collect_anchors(events: &Vec<CursorEvent>, di: usize, s: u64, e: u64, rw: u64, rh: u64) -> (r:
    Vec<Anchor>)
    requires
        events_wf(events@),
        di < events@.len(),
        e <= 0x80000000000u64,
        1 <= rw <= 0x80000000,
        1 <= rh <= 0x80000000,
    ensures
        r@ == spec_anchors(events@, di as int, s as int, e as int, rw as int, rh as int),
        anchors_in_range(r@),
        r@.len() >= 2,
{
    let d = events[di];
    let mut anchors: Vec<Anchor> = Vec::new();
    anchors.push(Anchor { t_ms: s, axn_ppm: d.axn_ppm, ayn_ppm: d.ayn_ppm });
    proof {
        assert(d == events@[di as int]);
        assert(anchors_in_range(anchors@));
    }
    let follow = find_follow(events, di, e, rw, rh);
    if let Some(fi) = follow {
        let f = events[fi];
        anchors.push(Anchor { t_ms: f.offset_ms, axn_ppm: f.axn_ppm, ayn_ppm: f.ayn_ppm });
        let ghost b2 = anchors@;
        let ghost target = b2 + spec_samples(
            events@,
            di + 1,
            f.offset_ms + 120,
            e as int,
            b2.len(),
        );
        let n = events.len();
        let mut k: usize = di + 1;
        let mut next: u64 = f.offset_ms + 120;
        let mut done: bool = false;
        while k < events.len() && !done
            invariant
                events_wf(events@),
                di + 1 <= k,
                e <= 0x80000000000u64,
                anchors@.len() >= 2,
                anchors_in_range(anchors@),
                !done ==> target == anchors@ + spec_samples(
                    events@,
                    k as int,
                    next as int,
                    e as int,
                    anchors@.len(),
                ),
                done ==> target == anchors@,
            decreases events@.len() - k, (if done { 0int } else { 1int }),
        {
            let ev = events[k];
            if ev.offset_ms > e {
                proof {
                    assert(spec_samples(events@, k as int, next as int, e as int, anchors@.len())
                        =~= Seq::<Anchor>::empty());
                    assert(target =~= anchors@);
                }
                done = true;
            } else {
                match ev.kind {
                    CursorKind::Move => {
                        if ev.offset_ms >= next {
                            anchors.push(Anchor {
                                t_ms: ev.offset_ms,
                                axn_ppm: ev.axn_ppm,
                                ayn_ppm: ev.ayn_ppm,
                            });
                            proof {
                                assert forall|q: int|
                                    0 <= q < anchors@.len() implies (#[trigger] anchors@[q]).axn_ppm
                                    <= 1000000 && anchors@[q].ayn_ppm <= 1000000 by {
                                    if q < anchors@.len() - 1 {
                                        assert(anchors@[q] == anchors@.drop_last()[q]);
                                    }
                                }
                            }
                            next = ev.offset_ms + 120;
                            if anchors.len() > MAX_ANCHORS {
                                proof {
                                    assert(target =~= anchors@);
                                }
                                done = true;
                            } else {
                                proof {
                                    assert(target =~= anchors@ + spec_samples(
                                        events@,
                                        k as int + 1,
                                        next as int,
                                        e as int,
                                        anchors@.len(),
                                    ));
                                }
                            }
                        }
                    },
                    _ => {},
                }
                if !done {
                    k = k + 1;
                }
            }
        }
        proof {
            if !done {
                assert(spec_samples(events@, k as int, next as int, e as int, anchors@.len())
                    =~= Seq::<Anchor>::empty());
            }
            assert(target =~= anchors@);
        }
    }
    let last = anchors[anchors.len() - 1];
    let ghost prior = anchors@;
    proof {
        assert(anchors_in_range(prior));
        assert(last == prior[prior.len() - 1]);
        assert(last.axn_ppm <= 1000000 && last.ayn_ppm <= 1000000);
    }
    anchors.push(Anchor { t_ms: e, axn_ppm: last.axn_ppm, ayn_ppm: last.ayn_ppm });
    proof {
        assert forall|q: int|
            0 <= q < anchors@.len() implies (#[trigger] anchors@[q]).axn_ppm <= 1000000
            && anchors@[q].ayn_ppm <= 1000000 by {
            if q < anchors@.len() - 1 {
                assert(anchors@[q] == prior[q]);
                assert(prior[q].axn_ppm <= 1000000 && prior[q].ayn_ppm <= 1000000);
            } else {
                assert(anchors@[q] == Anchor {
                    t_ms: e,
                    axn_ppm: last.axn_ppm,
                    ayn_ppm: last.ayn_ppm,
                });
            }
        }
        assert(anchors@ =~= spec_anchors(
            events@,
            di as int,
            s as int,
            e as int,
            rw as int,
            rh as int,
        ));
    }
    anchors
}

/// The window views of a built window list.
pub open spec fn win_views(v: Seq<Window>) -> Seq<WindowView> {
    Seq::new(v.len(), |i: int| v[i]@)
}

/// Every window's anchors are normalized and non-empty.
pub open spec fn windows_wf(ws: Seq<WindowView>) -> bool {
    forall|i: int|
        0 <= i < ws.len() ==> anchors_in_range(#[trigger] ws[i].anchors) && ws[i].anchors.len()
            >= 1
}

/// Builds the coalesced zoom windows of a session.
#[verifier::loop_isolation(false)]
#[verifier::rlimit(100)]
pub fn build_windows(events: &Vec<CursorEvent>, rw: u64, rh: u64) -> (r: Vec<Window>)
    requires
        events_wf(events@),
        1 <= rw <= 0x80000000,
        1 <= rh <= 0x80000000,
    ensures
        win_views(r@) == spec_windows(
            events@,
            spec_down_indices(events@),
            0,
            100,
            rw as int,
            rh as int,
        ),
        windows_wf(win_views(r@)),
{
    let downs = down_indices(events);
    let ghost downs_i = spec_down_indices(events@);
    proof {
        lemma_down_indices_in_bounds(events@);
        assert(forall|k: int|
            0 <= k < downs@.len() ==> downs_i[k] == #[trigger] downs@[k] as int);
    }
    let ghost target = spec_windows(events@, downs_i, 0, 100, rw as int, rh as int);
    let mut windows: Vec<Window> = Vec::new();
    let mut wi: usize = 0;
    while wi < downs.len() && windows.len() < MAX_WINDOWS
        invariant
            windows@.len() <= 100,
            target == win_views(windows@) + spec_windows(
                events@,
                downs_i,
                wi as int,
                (100 - windows@.len()) as nat,
                rw as int,
                rh as int,
            ),
            windows_wf(win_views(windows@)),
        decreases downs@.len() - wi,
    {
        let di = downs[wi];
        proof {
            assert(downs_i[wi as int] == di as int);
            assert((di as int) < events@.len() && events@[di as int].kind is Down);
        }
        let s = events[di].offset_ms;
        let mut e: u64 = s + WINDOW_MS;
        let mut wj: usize = wi + 1;
        while wj < downs.len() && events[downs[wj]].offset_ms <= e
            invariant
                wi + 1 <= wj,
                wj <= downs@.len(),
                e <= 0x40000001388u64,
                spec_consume(events@, downs_i, wi as int + 1, s as int + 5000) == spec_consume(
                    events@,
                    downs_i,
                    wj as int,
                    e as int,
                ),
            decreases downs@.len() - wj,
        {
            proof {
                assert(downs_i[wj as int] == downs@[wj as int] as int);
            }
            e = events[downs[wj]].offset_ms + WINDOW_MS;
            wj = wj + 1;
        }
        proof {
            if wj < downs@.len() {
                assert(downs_i[wj as int] == downs@[wj as int] as int);
            }
            assert(spec_consume(events@, downs_i, wj as int, e as int) == (wj as int, e as int));
        }
        let anchors = collect_anchors(events, di, s, e, rw, rh);
        let ghost anch = anchors@;
        let ghost w_view = WindowView { s_ms: s, e_ms: e, anchors: anch };
        let ghost before = windows@;
        let w = Window { s_ms: s, e_ms: e, anchors };
        windows.push(w);
        proof {
            assert(win_views(windows@) =~= win_views(before) + seq![w_view]);
            assert(target =~= win_views(windows@) + spec_windows(
                events@,
                downs_i,
                wj as int,
                (100 - windows@.len()) as nat,
                rw as int,
                rh as int,
            ));
            assert forall|ii: int| 0 <= ii < win_views(windows@).len() implies anchors_in_range(
                #[trigger] win_views(windows@)[ii].anchors,
            ) && win_views(windows@)[ii].anchors.len() >= 1 by {
                if ii < before.len() {
                    assert(win_views(windows@)[ii] == win_views(before)[ii]);
                    assert(anchors_in_range(win_views(before)[ii].anchors));
                } else {
                    assert(win_views(windows@)[ii] == w_view);
                }
            }
        }
        wi = wj;
    }
    proof {
        assert(spec_windows(
            events@,
            downs_i,
            wi as int,
            (100 - windows@.len()) as nat,
            rw as int,
            rh as int,
        ) =~= Seq::<WindowView>::empty());
        assert(target =~= win_views(windows@));
    }
    windows
}

/// The first window, scanning from `k`, whose span contains `t`.
pub open spec fn spec_first_window(ws: Seq<WindowView>, k: int, t: int) -> Option<WindowView>
    decreases ws.len() - k,
{
    if k < 0 || k >= ws.len() {
        None
    } else if ws[k].s_ms <= t <= ws[k].e_ms {
        Some(ws[k])
    } else {
        spec_first_window(ws, k + 1, t)
    }
}

/// Finds the first window whose span contains `t`.
#[verifier::loop_isolation(false)]
fn first_window(windows: &Vec<Window>, t: u64) -> (r: Option<usize>)
    ensures
        ({
            let goal = spec_first_window(win_views(windows@), 0, t as int);
            match r {
                Some(i) => i < windows@.len() && goal == Some(windows@[i as int]@)
                    && windows@[i as int].s_ms <= t <= windows@[i as int].e_ms,
                None => goal is None,
            }
        }),
{
    let ghost views = win_views(windows@);
    let mut k: usize = 0;
    while k < windows.len()
        invariant
            k <= windows@.len(),
            spec_first_window(views, 0, t as int) == spec_first_window(views, k as int, t as int),
        decreases windows@.len() - k,
    {
        proof {
            assert(views[k as int] == windows@[k as int]@);
        }
        if windows[k].s_ms <= t && t <= windows[k].e_ms {
            return Some(k);
        }
        k = k + 1;
    }
    None
}

/// The frame at time `t`: inside a window the pan center interpolates the
/// anchors and the zoom follows the ramps; outside every window the frame
/// is flat.
pub open spec fn spec_frame(ws: Seq<WindowView>, t: int) -> ZoomFrame {
    match spec_first_window(ws, 0, t) {
        Some(w) => {
            let c = spec_interp(w.anchors, t);
            ZoomFrame {
                time_ms: t as u64,
                axn_ppm: c.0,
                ayn_ppm: c.1,
                zoom_milli: spec_zoom_at(t, w.s_ms as int, w.e_ms as int),
            }
        },
        None => ZoomFrame { time_ms: t as u64, axn_ppm: 500000, ayn_ppm: 500000, zoom_milli: 1000 },
    }
}

/// Computes the frame at time `t` over the built windows.
fn frame_at(windows: &Vec<Window>, t: u64) -> (r: ZoomFrame)
    requires
        windows_wf(win_views(windows@)),
    ensures
        r == spec_frame(win_views(windows@), t as int),
{
    match first_window(windows, t) {
        Some(i) => {
            proof {
                assert(win_views(windows@)[i as int] == windows@[i as int]@);
                assert(anchors_in_range(win_views(windows@)[i as int].anchors));
                assert(anchors_in_range(windows@[i as int].anchors@));
            }
            let c = interp(&windows[i].anchors, t);
            let z = zoom_at(t, windows[i].s_ms, windows[i].e_ms);
            ZoomFrame { time_ms: t, axn_ppm: c.0, ayn_ppm: c.1, zoom_milli: z }
        },
        None => ZoomFrame { time_ms: t, axn_ppm: 500000, ayn_ppm: 500000, zoom_milli: 1000 },
    }
}

/// The time of frame `i` at the track rate: `i / TRACK_FPS` seconds,
/// rounded to the millisecond.
pub open spec fn spec_frame_time(i: int) -> int {
    (i * 1000 + 15) / 30
}

/// The index of the last frame: with no cursor events a frame per track
/// tick over whole seconds; otherwise the ceiling of duration times rate.
pub open spec fn spec_total_frames(n_events: int, duration_ms: int) -> int {
    if n_events == 0 {
        (duration_ms / 1000) * 30
    } else {
        (duration_ms * 30 + 999) / 1000
    }
}

/// The resampled zoom frames of a session: flat when there are no cursor
/// events, else derived from the coalesced windows.
pub open spec fn spec_zoom_frames(
    events: Seq<CursorEvent>,
    rect_w: int,
    rect_h: int,
    duration_ms: int,
) -> Seq<ZoomFrame> {
    let rw = if rect_w < 1 { 1int } else { rect_w };
    let rh = if rect_h < 1 { 1int } else { rect_h };
    let n = spec_total_frames(events.len() as int, duration_ms) + 1;
    if events.len() == 0 {
        Seq::new(
            n as nat,
            |i: int| ZoomFrame {
                time_ms: spec_frame_time(i) as u64,
                axn_ppm: 500000,
                ayn_ppm: 500000,
                zoom_milli: 1000,
            },
        )
    } else {
        let ws = spec_windows(events, spec_down_indices(events), 0, 100, rw, rh);
        Seq::new(n as nat, |i: int| spec_frame(ws, spec_frame_time(i)))
    }
}

/// Derives the zoom-and-pan track of a session from its cursor events,
/// its capture surface, and the media duration. Frames run at the track
/// rate from zero through the ceiling of the duration; with no events the
/// track is flat at zoom 1 centered on the surface.
#[verifier::loop_isolation(false)]
pub fn build_zoom_track(
    events: &Vec<CursorEvent>,
    rect_w: i32,
    rect_h: i32,
    duration_ms: u64,
) -> (t: ZoomTrack)
    requires
        events_wf(events@),
        duration_ms <= 0x40000000000u64,
    ensures
        t.fps == 30,
        t.settings == Some(spec_default_zoom_settings()),
        t.frames@ == spec_zoom_frames(events@, rect_w as int, rect_h as int, duration_ms as int),
        t.frames@.len() == spec_total_frames(events@.len() as int, duration_ms as int) + 1,
        forall|i: int|
            0 <= i < t.frames@.len() ==> (#[trigger] t.frames@[i]).time_ms == spec_frame_time(
                i,
            ) as u64,
{
    let rw: u64 = if rect_w < 1 { 1 } else { rect_w as u64 };
    let rh: u64 = if rect_h < 1 { 1 } else { rect_h as u64 };
    let ghost goal = spec_zoom_frames(events@, rect_w as int, rect_h as int, duration_ms as int);
    let mut frames: Vec<ZoomFrame> = Vec::new();
    if events.len() == 0 {
        let total: u64 = (duration_ms / 1000) * 30;
        let mut i: u64 = 0;
        while i <= total
            invariant
                i <= total + 1,
                frames@.len() == i,
                forall|j: int| 0 <= j < i ==> #[trigger] frames@[j] == goal[j],
            decreases total + 1 - i,
        {
            let t_ms = (i * 1000 + 15) / 30;
            frames.push(ZoomFrame { time_ms: t_ms, axn_ppm: 500000, ayn_ppm: 500000, zoom_milli: 1000 });
            i = i + 1;
        }
        proof {
            assert(frames@ =~= goal);
        }
    } else {
        let windows = build_windows(events, rw, rh);
        let total: u64 = (duration_ms * 30 + 999) / 1000;
        let mut i: u64 = 0;
        while i <= total
            invariant
                i <= total + 1,
                frames@.len() == i,
                forall|j: int| 0 <= j < i ==> #[trigger] frames@[j] == goal[j],
            decreases total + 1 - i,
        {
            let t_ms = (i * 1000 + 15) / 30;
            let f = frame_at(&windows, t_ms);
            frames.push(f);
            i = i + 1;
        }
        proof {
            assert(frames@ =~= goal);
        }
    }
    ZoomTrack { fps: TRACK_FPS, frames, settings: Some(ZoomSettings::default()) }
}

/// A `down` arriving at or before the current window end only extends
/// the end: the window keeps its original start, so the ease-in ramp
/// (anchored at the start) does not restart.
pub proof fn lemma_down_at_window_end_extends(
    events: Seq<CursorEvent>,
    downs: Seq<int>,
    rw: int,
    rh: int,
)
    requires
        events_wf(events),
        downs.len() == 2,
        0 <= downs[0] < events.len(),
        0 <= downs[1] < events.len(),
        events[downs[1]].offset_ms as int <= events[downs[0]].offset_ms as int + 5000,
    ensures
        ({
            let t0 = events[downs[0]].offset_ms as int;
            let t1 = events[downs[1]].offset_ms as int;
            let ws = spec_windows(events, downs, 0, 100, rw, rh);
            ws.len() == 1 && ws[0].s_ms as int == t0 && ws[0].e_ms as int == t1 + 5000
        }),
{
    let t0 = events[downs[0]].offset_ms as int;
    let t1 = events[downs[1]].offset_ms as int;
    assert(spec_consume(events, downs, 2, t1 + 5000) == (2int, t1 + 5000));
    assert(spec_consume(events, downs, 1, t0 + 5000) == (2int, t1 + 5000));
    assert(spec_windows(events, downs, 2, 99, rw, rh) =~= Seq::<WindowView>::empty());
}

/// When the pointer never travels the follow threshold inside a window,
/// the pan anchors stay at the click point: the center is stationary at
/// every time while the zoom still animates.
pub proof fn lemma_below_threshold_center_fixed(
    events: Seq<CursorEvent>,
    di: int,
    s: int,
    e: int,
    rw: int,
    rh: int,
)
    requires
        0 <= di < events.len(),
        events[di].axn_ppm <= 1000000,
        events[di].ayn_ppm <= 1000000,
        spec_follow_idx(
            events,
            di + 1,
            e,
            rw,
            rh,
            0,
            events[di].axn_ppm,
            events[di].ayn_ppm,
        ) is None,
    ensures
        ({
            let a = spec_anchors(events, di, s, e, rw, rh);
            a.len() == 2 && a[0].axn_ppm == events[di].axn_ppm && a[0].ayn_ppm == events[
                di
            ].ayn_ppm && a[1].axn_ppm == events[di].axn_ppm && a[1].ayn_ppm == events[di].ayn_ppm
                && forall|t: int|
                #[trigger] spec_interp(a, t) == (events[di].axn_ppm, events[di].ayn_ppm)
        }),
{
    let a = spec_anchors(events, di, s, e, rw, rh);
    let vx = events[di].axn_ppm;
    let vy = events[di].ayn_ppm;
    assert(a.len() == 2);
    assert(a[0].axn_ppm == vx && a[0].ayn_ppm == vy);
    assert(a[1].axn_ppm == vx && a[1].ayn_ppm == vy);
    assert forall|t: int| #[trigger] spec_interp(a, t) == (vx, vy) by {
        let a0 = a[0];
        let a1 = a[1];
        if a0.t_ms <= t <= a1.t_ms {
            let dt = if a1.t_ms as int - a0.t_ms as int >= 1 {
                a1.t_ms as int - a0.t_ms as int
            } else {
                1int
            };
            let d = if t - a0.t_ms < 0 {
                0int
            } else if t - a0.t_ms > dt {
                dt
            } else {
                t - a0.t_ms
            };
            assert((vx as int) * (dt - d) + (vx as int) * d == (vx as int) * dt)
                by (nonlinear_arith);
            assert((vy as int) * (dt - d) + (vy as int) * d == (vy as int) * dt)
                by (nonlinear_arith);
            assert((vx as int) * dt / dt == vx as int) by (nonlinear_arith)
                requires dt >= 1,
            ;
            assert((vy as int) * dt / dt == vy as int) by (nonlinear_arith)
                requires dt >= 1,
            ;
            assert(spec_lerp(a0, a1, t) == (vx, vy));
        } else if t > a1.t_ms {
            assert(spec_interp_from(a, 1, (a1.axn_ppm, a1.ayn_ppm), t) == (vx, vy));
        } else {
            assert(spec_interp_from(a, 1, (a0.axn_ppm, a0.ayn_ppm), t) == (vx, vy));
        }
    }
}

} // verus!
