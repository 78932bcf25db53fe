//! Cursor events and the per-session track documents: zoom, clip and camera
//! tracks. Normalized coordinates are held in millionths (ppm) of the
//! capture surface, zoom factors in thousandths (milli), times in
//! milliseconds.

use vstd::prelude::*;
use crate::kinds::{CameraPosition, CameraShape};

verus! {

/// What a sampled cursor record reports.
#[derive(Clone, Copy, Debug, PartialEq, Eq, Structural)]
pub enum CursorKind {
    Move,
    Down,
    Up,
}

/// One sampled cursor record: kind, offset since session start, and the
/// pointer position normalized to the capture surface, in millionths.
#[derive(Clone, Copy, Debug, PartialEq, Eq, Structural)]
pub struct CursorEvent {
    pub kind: CursorKind,
    pub offset_ms: u64,
    pub axn_ppm: u32,
    pub ayn_ppm: u32,
}

/// The tunables embedded in a zoom track.
#[derive(Clone, Copy, Debug, PartialEq, Eq, Structural)]
pub struct ZoomSettings {
    pub max_zoom_milli: u32,
    pub ramp_in_ms: u32,
    pub ramp_out_ms: u32,
    pub sample_ms: u32,
    pub follow_threshold_px: u32,
}

/// The default zoom settings: zoom to 2.0 over half a second, sample pan
/// anchors every 120 ms, follow after 160 px of pointer travel.
pub open spec fn spec_default_zoom_settings() -> ZoomSettings {
    ZoomSettings {
        max_zoom_milli: 2000,
        ramp_in_ms: 500,
        ramp_out_ms: 500,
        sample_ms: 120,
        follow_threshold_px: 160,
    }
}

impl Default for ZoomSettings {
    fn default() -> (r: Self)
        ensures
            r == spec_default_zoom_settings(),
    {
        ZoomSettings {
            max_zoom_milli: 2000,
            ramp_in_ms: 500,
            ramp_out_ms: 500,
            sample_ms: 120,
            follow_threshold_px: 160,
        }
    }
}

/// One resampled zoom frame: time, pan center (ppm), zoom factor (milli).
#[derive(Clone, Copy, Debug, PartialEq, Eq, Structural)]
pub struct ZoomFrame {
    pub time_ms: u64,
    pub axn_ppm: u32,
    pub ayn_ppm: u32,
    pub zoom_milli: u32,
}

/// A densely sampled zoom-and-pan track at a fixed frame rate.
#[derive(Clone, Debug)]
pub struct ZoomTrack {
    pub fps: u32,
    pub frames: Vec<ZoomFrame>,
    pub settings: Option<ZoomSettings>,
}

/// One kept span of the source timeline.
#[derive(Clone, Copy, Debug, PartialEq, Eq, Structural)]
pub struct ClipSegment {
    pub start_ms: u64,
    pub end_ms: u64,
    pub speed_milli: Option<u32>,
}

/// Ordered, non-overlapping clip segments.
#[derive(Clone, Debug)]
pub struct ClipTrack {
    pub segments: Vec<ClipSegment>,
}

/// One span of camera overlay styling.
#[derive(Clone, Debug, PartialEq, Eq, Structural)]
pub struct CameraSegment {
    pub start_ms: u64,
    pub end_ms: u64,
    pub visible: bool,
    pub size_px: Option<u32>,
    pub position: Option<CameraPosition>,
    pub mirror: Option<bool>,
    pub blur: Option<bool>,
    pub shape: Option<CameraShape>,
}

/// Ordered camera overlay segments.
#[derive(Clone, Debug)]
pub struct CameraTrack {
    pub segments: Vec<CameraSegment>,
}

/// The default clip track for a media file: one segment spanning the whole
/// duration, or no segment when the duration is unknown (zero).
pub fn default_clip_track(duration_ms: u64) -> (t: ClipTrack)
    ensures
        duration_ms > 0 ==> t.segments@ =~= seq![
            ClipSegment { start_ms: 0, end_ms: duration_ms, speed_milli: None },
        ],
        duration_ms == 0 ==> t.segments@ =~= Seq::<ClipSegment>::empty(),
{
    let mut segments: Vec<ClipSegment> = Vec::new();
    if duration_ms > 0 {
        segments.push(ClipSegment { start_ms: 0, end_ms: duration_ms, speed_milli: None });
    }
    ClipTrack { segments }
}

/// The default camera track: one fully visible segment spanning the whole
/// duration, or none when the duration is unknown (zero).
pub fn default_camera_track(duration_ms: u64) -> (t: CameraTrack)
    ensures
        duration_ms > 0 ==> t.segments@ =~= seq![
            CameraSegment {
                start_ms: 0,
                end_ms: duration_ms,
                visible: true,
                size_px: None,
                position: None,
                mirror: None,
                blur: None,
                shape: None,
            },
        ],
        duration_ms == 0 ==> t.segments@ =~= Seq::<CameraSegment>::empty(),
{
    let mut segments: Vec<CameraSegment> = Vec::new();
    if duration_ms > 0 {
        segments.push(CameraSegment {
            start_ms: 0,
            end_ms: duration_ms,
            visible: true,
            size_px: None,
            position: None,
            mirror: None,
            blur: None,
            shape: None,
        });
    }
    CameraTrack { segments }
}

/// The offsets (ms) of the `down` events, in order.
pub open spec fn spec_down_times(events: Seq<CursorEvent>) -> Seq<u64>
    decreases events.len(),
{
    if events.len() == 0 {
        Seq::<u64>::empty()
    } else {
        spec_down_times(events.drop_last()) + if events.last().kind is Down {
            seq![events.last().offset_ms]
        } else {
            Seq::<u64>::empty()
        }
    }
}

/// The click markers of a session: the offset of every `down` event, in
/// file order.
pub fn load_click_markers(events: &Vec<CursorEvent>) -> (r: Vec<u64>)
    ensures
        r@ == spec_down_times(events@),
{
    let mut r: Vec<u64> = Vec::new();
    let mut i: usize = 0;
    while i < events.len()
        invariant
            i <= events.len(),
            r@ == spec_down_times(events@.take(i as int)),
        decreases events.len() - i,
    {
        proof {
            assert(events@.take(i as int + 1).drop_last() =~= events@.take(i as int));
            assert(events@.take(i as int + 1).last() == events@[i as int]);
        }
        match events[i].kind {
            CursorKind::Down => {
                r.push(events[i].offset_ms);
            },
            _ => {},
        }
        proof {
            assert(r@ =~= spec_down_times(events@.take(i as int + 1)));
        }
        i = i + 1;
    }
    proof {
        assert(events@.take(events@.len() as int) =~= events@);
    }
    r
}

} // verus!
