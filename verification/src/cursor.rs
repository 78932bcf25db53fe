//! The online cursor sampler: each tick normalizes the pointer position,
//! decides which record (if any) to append to the event log, maintains
//! the live zoom window, and reports the zoom factor to stream.

use vstd::prelude::*;
use crate::geom::Region;
use crate::tracks::{CursorEvent, CursorKind};
use crate::zoom::{ease_zoom, spec_ease_zoom, RAMP_MS, WINDOW_MS};

verus! {

/// The sampler's cross-tick state.
#[derive(Clone, Copy, Debug, PartialEq, Eq)]
pub struct SamplerState {
    pub last_btn: bool,
    pub last_pos: Option<(u32, u32)>,
    pub window: Option<(u64, u64)>,
    pub last_emit_ms: Option<u64>,
}

/// What one tick produces: at most one event for the log, and the live
/// zoom value with the normalized position.
#[derive(Clone, Copy, Debug, PartialEq, Eq)]
pub struct SamplerTick {
    pub event: Option<CursorEvent>,
    pub zoom_milli: u32,
    pub axn_ppm: u32,
    pub ayn_ppm: u32,
}

/// A fresh sampler: nothing seen yet.
pub fn sampler_start() -> (r: SamplerState)
    ensures
        r.last_btn == false,
        r.last_pos is None,
        r.window is None,
        r.last_emit_ms is None,
{
    SamplerState { last_btn: false, last_pos: None, window: None, last_emit_ms: None }
}

/// A pointer coordinate normalized to the capture rectangle, clamped to
/// the surface, in millionths.
pub open spec fn spec_normalize(p: int, origin: int, extent: int) -> u32 {
    let e = if extent < 1 {
        1int
    } else {
        extent
    };
    let scaled = (p - origin) * 1000000 / e;
    if scaled < 0 {
        0u32
    } else if scaled > 1000000 {
        1000000u32
    } else {
        scaled as u32
    }
}

/// The record kind a tick emits: button transitions first, then a move
/// when the position shifted noticeably, else nothing.
pub open spec fn spec_tick_kind(
    st: SamplerState,
    btn: bool,
    axn: u32,
    ayn: u32,
) -> Option<CursorKind> {
    if btn && !st.last_btn {
        Some(CursorKind::Down)
    } else if !btn && st.last_btn {
        Some(CursorKind::Up)
    } else {
        let moved = match st.last_pos {
            None => true,
            Some(lp) => {
                let dx = if axn >= lp.0 {
                    axn - lp.0
                } else {
                    lp.0 - axn
                };
                let dy = if ayn >= lp.1 {
                    ayn - lp.1
                } else {
                    lp.1 - ayn
                };
                dx > 100 || dy > 100
            },
        };
        if moved {
            Some(CursorKind::Move)
        } else {
            None
        }
    }
}

/// The zoom window after a tick: a press inside the window extends its
/// end without restarting the ramp; a press outside opens a fresh one;
/// an expired window closes.
pub open spec fn spec_tick_window(
    st: SamplerState,
    now_ms: u64,
    btn: bool,
) -> Option<(u64, u64)> {
    let pressed = btn && !st.last_btn;
    if pressed {
        match st.window {
            Some(w) => if now_ms <= w.1 {
                Some((w.0, (now_ms + 5000) as u64))
            } else {
                Some((now_ms, (now_ms + 5000) as u64))
            },
            None => Some((now_ms, (now_ms + 5000) as u64)),
        }
    } else {
        match st.window {
            Some(w) => if now_ms > w.1 {
                None
            } else {
                Some(w)
            },
            None => None,
        }
    }
}

/// The live zoom inside a window at `now`: the same eased ramps the
/// offline builder uses, anchored at the window's original start.
pub open spec fn spec_live_zoom(w: Option<(u64, u64)>, now_ms: int) -> u32 {
    match w {
        None => 1000u32,
        Some(ws) => {
            if now_ms < ws.0 as int + 500 {
                spec_ease_zoom(now_ms - ws.0 as int)
            } else if now_ms <= ws.1 as int - 500 {
                2000u32
            } else if now_ms <= ws.1 as int {
                spec_ease_zoom(ws.1 as int - now_ms)
            } else {
                1000u32
            }
        },
    }
}

/// Runs one sampler tick: normalizes the pointer, decides the record to
/// write, updates the window, and reports the live zoom. Emitted events
/// carry the tick's offset, which is strictly beyond the last emission.
pub fn sampler_step(
    st: &SamplerState,
    now_ms: u64,
    px: i32,
    py: i32,
    btn: bool,
    rect: &Region,
) -> (r: (SamplerState, SamplerTick))
    requires
        now_ms <= 0x40000000000u64,
        st.last_emit_ms matches Some(t) ==> now_ms > t,
        st.window matches Some(w) ==> w.1 <= 0x40000001388u64,
    ensures
        r.1.axn_ppm == spec_normalize(px as int, rect.x as int, rect.width as int),
        r.1.ayn_ppm == spec_normalize(py as int, rect.y as int, rect.height as int),
        r.1.axn_ppm <= 1000000,
        r.1.ayn_ppm <= 1000000,
        ({
            let kind = spec_tick_kind(*st, btn, r.1.axn_ppm, r.1.ayn_ppm);
            match r.1.event {
                Some(ev) => kind == Some(ev.kind) && ev.offset_ms == now_ms && ev.axn_ppm
                    == r.1.axn_ppm && ev.ayn_ppm == r.1.ayn_ppm,
                None => kind is None,
            }
        }),
        r.1.event matches Some(ev) ==> (st.last_emit_ms matches Some(t) ==> ev.offset_ms > t),
        r.0.window == spec_tick_window(*st, now_ms, btn),
        r.1.zoom_milli == spec_live_zoom(spec_tick_window(*st, now_ms, btn), now_ms as int),
        r.0.last_btn == btn,
        r.1.event is Some ==> r.0.last_emit_ms == Some(now_ms),
        r.1.event is None ==> r.0.last_emit_ms == st.last_emit_ms,
{
    let axn = normalize(px, rect.x, rect.width);
    let ayn = normalize(py, rect.y, rect.height);
    let kind: Option<CursorKind> = if btn && !st.last_btn {
        Some(CursorKind::Down)
    } else if !btn && st.last_btn {
        Some(CursorKind::Up)
    } else {
        let moved = match st.last_pos {
            None => true,
            Some(lp) => {
                let dx = if axn >= lp.0 { axn - lp.0 } else { lp.0 - axn };
                let dy = if ayn >= lp.1 { ayn - lp.1 } else { lp.1 - ayn };
                dx > 100 || dy > 100
            },
        };
        if moved {
            Some(CursorKind::Move)
        } else {
            None
        }
    };
    let pressed = btn && !st.last_btn;
    let window: Option<(u64, u64)> = if pressed {
        match st.window {
            Some(w) => {
                if now_ms <= w.1 {
                    Some((w.0, now_ms + WINDOW_MS))
                } else {
                    Some((now_ms, now_ms + WINDOW_MS))
                }
            },
            None => Some((now_ms, now_ms + WINDOW_MS)),
        }
    } else {
        match st.window {
            Some(w) => {
                if now_ms > w.1 {
                    None
                } else {
                    Some(w)
                }
            },
            None => None,
        }
    };
    let zoom: u32 = match window {
        None => 1000,
        Some(ws) => {
            if now_ms < ws.0 || now_ms - ws.0 < RAMP_MS {
                let d = if now_ms >= ws.0 { now_ms - ws.0 } else { 0 };
                proof {
                    if now_ms < ws.0 {
                        assert(spec_ease_zoom(now_ms as int - ws.0 as int) == spec_ease_zoom(0));
                    }
                }
                ease_zoom(d)
            } else if now_ms <= ws.1 && ws.1 - now_ms >= RAMP_MS {
                2000
            } else if now_ms <= ws.1 {
                ease_zoom(ws.1 - now_ms)
            } else {
                1000
            }
        },
    };
    let event: Option<CursorEvent> = match kind {
        Some(k) => Some(CursorEvent { kind: k, offset_ms: now_ms, axn_ppm: axn, ayn_ppm: ayn }),
        None => None,
    };
    let moved_update = match (kind, st.last_pos) {
        (Some(CursorKind::Move), _) => true,
        _ => false,
    };
    let new_state = SamplerState {
        last_btn: btn,
        last_pos: if moved_update {
            Some((axn, ayn))
        } else {
            st.last_pos
        },
        window,
        last_emit_ms: if event.is_some() {
            Some(now_ms)
        } else {
            st.last_emit_ms
        },
    };
    (new_state, SamplerTick { event, zoom_milli: zoom, axn_ppm: axn, ayn_ppm: ayn })
}

/// Normalizes one pointer coordinate against the capture rectangle.
fn normalize(p: i32, origin: i32, extent: i32) -> (r: u32)
    ensures
        r == spec_normalize(p as int, origin as int, extent as int),
        r <= 1000000,
{
    let e: i64 = if extent < 1 { 1 } else { extent as i64 };
    let rel: i64 = p as i64 - origin as i64;
    if rel < 0 {
        proof {
            assert((rel as int) * 1000000 <= -1) by (nonlinear_arith)
                requires rel <= -1,
            ;
            assert((rel as int) * 1000000 / (e as int) <= -1) by (nonlinear_arith)
                requires (rel as int) * 1000000 <= -1, e >= 1,
            ;
        }
        return 0;
    }
    proof {
        assert(rel * 1000000 <= 0x100000000i64 * 1000000) by (nonlinear_arith)
            requires rel <= 0x100000000i64,
        ;
        assert(rel * 1000000 >= 0) by (nonlinear_arith)
            requires rel >= 0,
        ;
    }
    let scaled: i64 = rel * 1000000 / e;
    if scaled > 1000000 {
        1000000
    } else {
        scaled as u32
    }
}

/// Two ticks in a row emit strictly increasing offsets: the second tick
/// runs with a later clock, and each emission carries its tick's offset.
pub proof fn lemma_sampler_monotonic(
    st0: SamplerState,
    t1: u64,
    t2: u64,
    ev1: CursorEvent,
    st1: SamplerState,
    ev2: CursorEvent,
)
    requires
        ev1.offset_ms == t1,
        st1.last_emit_ms == Some(t1),
        t2 > t1,
        ev2.offset_ms == t2,
    ensures
        ev2.offset_ms > ev1.offset_ms,
{
}

} // verus!
