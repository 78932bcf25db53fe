//! Scenarios for the zoom pipeline, the filter synthesizer, the export
//! manager and the capture controller.

use recorder_core::capture::{
    build_capture_args, camera_needs_probe, select_camera_device, select_mic_device,
    PreviewCell, PreviewSession, RecordingCell, RecordingSession, StartRecordingRequest,
};
use recorder_core::cursor::{sampler_start, sampler_step};
use recorder_core::edit_state::{EditState, ExportProfile};
use recorder_core::errors::RecError;
use recorder_core::export::{
    build_export_args, cancel_export, ensure_worker, finish_job, get_export_status,
    mark_running, poll_cancelled, preview_encode_args, record_progress, start_export,
    take_next_job, ExportJobState, ExportManager, ExportRequest,
};
use recorder_core::filter::{
    background_source, build_export_filter, derive_camera_enable, derive_clip_select,
    derive_zoom_override,
};
use recorder_core::geom::Region;
use recorder_core::kinds::{CaptureMode, VideoFormat};
use recorder_core::tracks::{
    default_camera_track, default_clip_track, load_click_markers, CameraSegment, CameraTrack,
    ClipSegment, ClipTrack, CursorEvent, CursorKind, ZoomTrack,
};
use recorder_core::zoom::build_zoom_track;

fn ev(kind: CursorKind, offset_ms: u64, axn_ppm: u32, ayn_ppm: u32) -> CursorEvent {
    CursorEvent { kind, offset_ms, axn_ppm, ayn_ppm }
}

fn frame_at(track: &ZoomTrack, time_ms: u64) -> recorder_core::tracks::ZoomFrame {
    *track
        .frames
        .iter()
        .find(|f| f.time_ms == time_ms)
        .unwrap_or_else(|| panic!("no frame at {time_ms}"))
}

#[test]
fn empty_cursor_log_gives_flat_track() {
    let track = build_zoom_track(&Vec::new(), 1920, 1080, 15000);
    assert_eq!(track.fps, 30);
    assert_eq!(track.frames.len(), 451);
    assert!(track.frames.iter().all(|f| f.zoom_milli == 1000));
    assert!(track.frames.iter().all(|f| f.axn_ppm == 500000 && f.ayn_ppm == 500000));
}

#[test]
fn zero_duration_no_events_gives_single_flat_frame() {
    let track = build_zoom_track(&Vec::new(), 1920, 1080, 0);
    assert_eq!(track.frames.len(), 1);
    assert_eq!(track.frames[0].time_ms, 0);
    assert_eq!(track.frames[0].zoom_milli, 1000);
    assert_eq!(track.frames[0].axn_ppm, 500000);
}

#[test]
fn frames_run_at_track_rate_over_duration() {
    let events = vec![ev(CursorKind::Down, 1000, 500000, 500000)];
    let track = build_zoom_track(&events, 1920, 1080, 10000);
    // ceil(10000 * 30 / 1000) = 300 intervals, so 301 frames covering [0, 10s].
    assert_eq!(track.frames.len(), 301);
    assert_eq!(track.frames[0].time_ms, 0);
    assert_eq!(track.frames[30].time_ms, 1000);
    assert_eq!(track.frames[300].time_ms, 10000);
    for w in track.frames.windows(2) {
        assert!(w[0].time_ms < w[1].time_ms);
    }
}

#[test]
fn two_click_coalesce_extends_window_without_ramp_restart() {
    let events = vec![
        ev(CursorKind::Down, 1000, 500000, 500000),
        ev(CursorKind::Up, 1200, 500000, 500000),
        ev(CursorKind::Down, 4000, 500000, 500000),
    ];
    let track = build_zoom_track(&events, 1920, 1080, 10000);
    // Window [1.0s, 9.0s]: 1 at 0.9s, easing on [1.0, 1.5], flat to 8.5, easing out, 1 at 9.1s.
    assert_eq!(frame_at(&track, 900).zoom_milli, 1000);
    assert_eq!(frame_at(&track, 1000).zoom_milli, 1000);
    let mid_ramp = frame_at(&track, 1233).zoom_milli;
    assert!(mid_ramp > 1000 && mid_ramp < 2000, "mid ramp {mid_ramp}");
    assert_eq!(frame_at(&track, 1500).zoom_milli, 2000);
    // No ramp restart at the second click: still flat right after 4.0s.
    assert_eq!(frame_at(&track, 4000).zoom_milli, 2000);
    assert_eq!(frame_at(&track, 4500).zoom_milli, 2000);
    assert_eq!(frame_at(&track, 8500).zoom_milli, 2000);
    let easing_out = frame_at(&track, 8767).zoom_milli;
    assert!(easing_out > 1000 && easing_out < 2000, "easing out {easing_out}");
    assert_eq!(frame_at(&track, 9100).zoom_milli, 1000);
}

#[test]
fn down_exactly_at_window_end_extends() {
    let events = vec![
        ev(CursorKind::Down, 0, 500000, 500000),
        ev(CursorKind::Down, 5000, 500000, 500000),
    ];
    let track = build_zoom_track(&events, 1920, 1080, 12000);
    // One window [0, 10s]: flat in the middle, no second ease-in at 5s.
    assert_eq!(frame_at(&track, 5000).zoom_milli, 2000);
    assert_eq!(frame_at(&track, 5200).zoom_milli, 2000);
    assert_eq!(frame_at(&track, 9500).zoom_milli, 2000);
    assert_eq!(frame_at(&track, 10000).zoom_milli, 1000);
    assert_eq!(frame_at(&track, 10500).zoom_milli, 1000);
}

#[test]
fn follow_threshold_anchors_pan_near_crossing() {
    // Down at (0.2, 0.2), pointer moves to (0.8, 0.2) over 1s on 1920x1080:
    // follow starts once travel reaches 160px, near axn = 0.283.
    let mut events = vec![ev(CursorKind::Down, 0, 200000, 200000)];
    for i in 1..=1000u64 {
        events.push(ev(CursorKind::Move, i, 200000 + (i as u32) * 600, 200000));
    }
    let track = build_zoom_track(&events, 1920, 1080, 6000);
    assert_eq!(frame_at(&track, 0).axn_ppm, 200000);
    // At the follow crossing the center has tracked from the click point
    // towards the pointer, staying between them.
    let early = frame_at(&track, 67).axn_ppm;
    assert!(early >= 200000 && early <= 283400, "early {early}");
    // Once following, the center tracks the pointer closely (sampled anchors).
    let mid = frame_at(&track, 500).axn_ppm;
    assert!(mid > 283400 && mid < 800000, "mid {mid}");
    assert!(frame_at(&track, 500).zoom_milli == 2000);
    let y = frame_at(&track, 500).ayn_ppm;
    assert_eq!(y, 200000);
}

#[test]
fn below_follow_threshold_center_stays_at_click_point() {
    let mut events = vec![ev(CursorKind::Down, 0, 400000, 600000)];
    // Tiny jitters: far below 160px of travel.
    for i in 1..=50u64 {
        events.push(ev(CursorKind::Move, i * 20, 400000 + ((i % 2) as u32) * 200, 600000));
    }
    let track = build_zoom_track(&events, 1920, 1080, 6000);
    for t in [0u64, 1000, 2500, 4000, 5000] {
        let f = frame_at(&track, t);
        assert_eq!(f.axn_ppm, 400000, "t={t}");
        assert_eq!(f.ayn_ppm, 600000, "t={t}");
    }
    assert_eq!(frame_at(&track, 2500).zoom_milli, 2000);
}

#[test]
fn click_markers_list_down_offsets() {
    let events = vec![
        ev(CursorKind::Move, 10, 1, 1),
        ev(CursorKind::Down, 1000, 1, 1),
        ev(CursorKind::Up, 1100, 1, 1),
        ev(CursorKind::Down, 4000, 1, 1),
    ];
    assert_eq!(load_click_markers(&events), vec![1000, 4000]);
}

#[test]
fn default_tracks_span_duration() {
    let clip = default_clip_track(12000);
    assert_eq!(clip.segments.len(), 1);
    assert_eq!((clip.segments[0].start_ms, clip.segments[0].end_ms), (0, 12000));
    assert!(default_clip_track(0).segments.is_empty());
    let cam = default_camera_track(12000);
    assert_eq!(cam.segments.len(), 1);
    assert!(cam.segments[0].visible);
}

#[test]
fn camera_enable_sums_visible_segments() {
    let track = CameraTrack {
        segments: vec![
            CameraSegment {
                start_ms: 0,
                end_ms: 5000,
                visible: true,
                size_px: None,
                position: None,
                mirror: None,
                blur: None,
                shape: None,
            },
            CameraSegment {
                start_ms: 5000,
                end_ms: 10000,
                visible: false,
                size_px: None,
                position: None,
                mirror: None,
                blur: None,
                shape: None,
            },
            CameraSegment {
                start_ms: 10000,
                end_ms: 20000,
                visible: true,
                size_px: None,
                position: None,
                mirror: None,
                blur: None,
                shape: None,
            },
        ],
    };
    let expr = derive_camera_enable(&track).unwrap();
    assert_eq!(expr, "between(t,0,5)+between(t,10,20)");
    let empty = CameraTrack { segments: Vec::new() };
    assert_eq!(derive_camera_enable(&empty), None);
}

#[test]
fn clip_select_sums_all_segments() {
    let track = ClipTrack {
        segments: vec![
            ClipSegment { start_ms: 0, end_ms: 2500, speed_milli: None },
            ClipSegment { start_ms: 4000, end_ms: 9000, speed_milli: None },
        ],
    };
    assert_eq!(derive_clip_select(&track).unwrap(), "between(t,0,2.5)+between(t,4,9)");
    assert_eq!(derive_clip_select(&ClipTrack { segments: Vec::new() }), None);
}

#[test]
fn gradient_background_preset_zero() {
    let filter = background_source(&EditState::default(), 1920, 1080, 30);
    assert!(filter.contains("nullsrc=s=1920x1080:r=30"));
    assert!(filter.contains("a='255'"));
    assert!(filter.contains("((X/1919)+(Y/1079))/2"));
    // #6ee7ff -> #a855f7 (mid 0.5) -> #f97316, red channel stops.
    assert!(filter.contains("110+(168-110)*"));
    assert!(filter.contains("168+(249-168)*"));
    assert!(filter.contains(",0.5)"));
}

#[test]
fn full_filter_without_camera_overlays_once() {
    let es = EditState::default();
    let profile = ExportProfile {
        format: VideoFormat::H264,
        width: 1920,
        height: 1080,
        fps: 30,
        bitrate_kbps: 8000,
    };
    let filter = build_export_filter(&es, &profile, false, None, None, None);
    assert!(filter.contains("nullsrc=s=1920x1080"));
    assert!(filter.contains("[bg];[0:v]scale="));
    assert!(filter.contains("overlay"));
    assert!(filter.ends_with("[v]"));
    assert!(!filter.contains("[cam]"));
}

#[test]
fn full_filter_with_camera_gates_overlay_on_enable() {
    let es = EditState::default();
    let profile = ExportProfile {
        format: VideoFormat::H264,
        width: 1920,
        height: 1080,
        fps: 30,
        bitrate_kbps: 8000,
    };
    let enable = Some("between(t,0,5)+between(t,10,20)".to_string());
    let filter = build_export_filter(&es, &profile, true, None, enable, None);
    assert!(filter.contains("[1:v]"));
    assert!(filter.contains(":enable=between(t,0,5)+between(t,10,20)"));
    assert!(filter.contains("[base]"));
    assert!(filter.ends_with("[v]"));
}

#[test]
fn zoom_override_from_flat_track_is_constant() {
    let track = build_zoom_track(&Vec::new(), 1920, 1080, 2000);
    let (z, x, y) = derive_zoom_override(&track).unwrap();
    assert_eq!(z, "1");
    assert!(x.starts_with("clip(("));
    assert!(x.contains(")*iw - (iw/(1))/2, 0, iw - iw/(1))"));
    assert!(y.contains(")*ih"));
}

#[test]
fn zoom_override_nests_window_branches() {
    let events = vec![ev(CursorKind::Down, 1000, 500000, 500000)];
    let track = build_zoom_track(&events, 1920, 1080, 8000);
    let (z, _x, _y) = derive_zoom_override(&track).unwrap();
    assert!(z.starts_with("if(between(time,"));
    assert!(z.contains("pow(1-((time-"));
    assert!(z.contains(",2,if(between(time,"));
    let empty = ZoomTrack { fps: 30, frames: Vec::new(), settings: None };
    assert!(derive_zoom_override(&empty).is_none());
}

#[test]
fn export_queue_is_fifo_and_worker_single() {
    let mut mgr = ExportManager::new();
    let req = |out: &str| ExportRequest {
        input_path: "work/1/recording.mp4".to_string(),
        output_path: out.to_string(),
        edit_state: EditState::default(),
        profile: ExportProfile {
            format: VideoFormat::H264,
            width: 1280,
            height: 720,
            fps: 30,
            bitrate_kbps: 4000,
        },
        camera_path: None,
    };
    start_export(&mut mgr, 1, req("a.mp4"));
    start_export(&mut mgr, 2, req("b.mp4"));
    assert!(ensure_worker(&mut mgr));
    assert!(!ensure_worker(&mut mgr));
    let first = take_next_job(&mut mgr).unwrap();
    assert_eq!(first.job_id, 1);
    let second = take_next_job(&mut mgr).unwrap();
    assert_eq!(second.job_id, 2);
    assert!(take_next_job(&mut mgr).is_none());
    assert!(ensure_worker(&mut mgr));
}

#[test]
fn export_progress_is_monotonic_and_clamped() {
    let mut mgr = ExportManager::new();
    let st1 = record_progress(&mut mgr, 7, 2000, 10000, "o.mp4");
    assert_eq!(st1.progress_milli, 200);
    let st2 = record_progress(&mut mgr, 7, 4000, 10000, "o.mp4");
    assert_eq!(st2.progress_milli, 400);
    let st3 = record_progress(&mut mgr, 7, 20000, 10000, "o.mp4");
    assert_eq!(st3.progress_milli, 1000);
    assert!(st1.progress_milli <= st2.progress_milli);
    assert!(st2.progress_milli <= st3.progress_milli);
}

#[test]
fn cancel_mid_export_ends_failed_with_cancelled_error() {
    let mut mgr = ExportManager::new();
    let req = ExportRequest {
        input_path: "work/9/recording.mp4".to_string(),
        output_path: "out.mp4".to_string(),
        edit_state: EditState::default(),
        profile: ExportProfile {
            format: VideoFormat::H264,
            width: 1280,
            height: 720,
            fps: 30,
            bitrate_kbps: 4000,
        },
        camera_path: None,
    };
    start_export(&mut mgr, 42, req);
    ensure_worker(&mut mgr);
    let job = take_next_job(&mut mgr).unwrap();
    mark_running(&mut mgr, job.job_id, "out.mp4");
    let st = record_progress(&mut mgr, 42, 4000, 10000, "out.mp4");
    assert_eq!(st.state, ExportJobState::Running);
    assert_eq!(st.progress_milli, 400);
    assert!(!poll_cancelled(&mgr, 42));
    cancel_export(&mut mgr, 42);
    assert!(poll_cancelled(&mgr, 42));
    finish_job(
        &mut mgr,
        42,
        false,
        Some(RecError::ExportCancelled.code()),
        400,
        "out.mp4",
    );
    assert!(!poll_cancelled(&mgr, 42));
    let final_status = get_export_status(&mgr, 42).unwrap();
    assert_eq!(final_status.state, ExportJobState::Failed);
    assert_eq!(final_status.error.as_deref(), Some("export_cancelled"));
    assert_eq!(final_status.progress_milli, 400);
    assert_eq!(get_export_status(&mgr, 77), Err(RecError::ExportNotFound));
}

#[test]
fn export_args_mirror_request() {
    let req = ExportRequest {
        input_path: "in.mp4".to_string(),
        output_path: "out.mp4".to_string(),
        edit_state: EditState::default(),
        profile: ExportProfile {
            format: VideoFormat::H265,
            width: 1920,
            height: 1080,
            fps: 60,
            bitrate_kbps: 0,
        },
        camera_path: Some("cam.mp4".to_string()),
    };
    let args = build_export_args(&req, "FILTER".to_string(), true);
    let expect: Vec<String> = [
        "-y", "-i", "in.mp4", "-i", "cam.mp4", "-filter_complex", "FILTER", "-map", "[v]",
        "-map", "0:a?", "-r", "60", "-c:v", "libx265", "-preset", "fast", "-b:v", "1k",
        "-c:a", "aac", "-b:a", "160k", "-progress", "pipe:1", "-nostats", "out.mp4",
    ]
    .iter()
    .map(|s| s.to_string())
    .collect();
    assert_eq!(args, expect);
}

#[test]
fn capture_args_default_fps_and_screen() {
    let req = StartRecordingRequest {
        resolution: "1080p".to_string(),
        fps: 0,
        format: VideoFormat::H264,
        mic_device: None,
        camera_device: None,
        capture_mode: CaptureMode::Screen,
        window_title: None,
        region: None,
    };
    let (args, preview) = build_capture_args(&req, &None, &None, "rec.mp4", "cam.mp4").unwrap();
    assert_eq!(args[8], "60");
    assert_eq!(args[0], "-y");
    assert_eq!(args[1], "-thread_queue_size");
    assert_eq!(args[2], "512");
    assert_eq!(args[9], "-i");
    assert_eq!(args[10], "desktop");
    assert!(args.contains(&"-an".to_string()));
    assert!(preview.is_none());
    assert!(!args.contains(&"rtp".to_string()));
}

#[test]
fn capture_args_region_aligns_and_camera_adds_preview() {
    let req = StartRecordingRequest {
        resolution: "auto".to_string(),
        fps: 30,
        format: VideoFormat::H265,
        mic_device: Some("Mic A".to_string()),
        camera_device: Some("Cam B".to_string()),
        capture_mode: CaptureMode::Region,
        window_title: None,
        region: Some(Region { x: 3, y: 5, width: 101, height: 100 }),
    };
    let cam = select_camera_device(&req.camera_device, None);
    let mic = select_mic_device(&req.mic_device, None);
    let (args, preview) = build_capture_args(&req, &cam, &mic, "rec.mp4", "cam.mp4").unwrap();
    assert_eq!(args[8], "30");
    let ox = args.iter().position(|a| a == "-offset_x").unwrap();
    assert_eq!(args[ox + 1], "4");
    let vs = args.iter().position(|a| a == "-video_size").unwrap();
    assert_eq!(args[vs + 1], "100x98");
    assert!(args.contains(&"video=Cam B".to_string()));
    assert!(args.contains(&"audio=Mic A".to_string()));
    assert!(args.contains(&"rtp://127.0.0.1:19000?pkt_size=1200".to_string()));
    assert_eq!(preview.as_deref(), Some("webrtc://local"));
}

#[test]
fn capture_args_window_requires_title() {
    let req = StartRecordingRequest {
        resolution: String::new(),
        fps: 30,
        format: VideoFormat::H264,
        mic_device: Some("mute".to_string()),
        camera_device: Some("off".to_string()),
        capture_mode: CaptureMode::Window,
        window_title: None,
        region: None,
    };
    assert_eq!(
        build_capture_args(&req, &None, &None, "r.mp4", "c.mp4"),
        Err(RecError::WindowTitleRequired)
    );
    let req2 = StartRecordingRequest { capture_mode: CaptureMode::Region, region: None, ..req };
    assert_eq!(
        build_capture_args(&req2, &None, &None, "r.mp4", "c.mp4"),
        Err(RecError::RegionRequired)
    );
}

#[test]
fn device_selection_rules() {
    assert_eq!(
        select_camera_device(&None, Some("First".to_string())),
        Some("First".to_string())
    );
    assert_eq!(select_camera_device(&Some("off".to_string()), Some("First".to_string())), None);
    assert_eq!(select_camera_device(&Some("no-camera".to_string()), None), None);
    assert_eq!(select_camera_device(&Some("  ".to_string()), None), None);
    assert_eq!(
        select_camera_device(&Some("HD Cam".to_string()), None),
        Some("HD Cam".to_string())
    );
    assert!(camera_needs_probe(&Some("default".to_string())));
    assert!(!camera_needs_probe(&Some("HD Cam".to_string())));
    assert_eq!(select_mic_device(&Some("mute".to_string()), Some("M".to_string())), None);
}

#[test]
fn single_recording_session_cell() {
    let mut cell = RecordingCell::new();
    let s1 = RecordingSession { id: 1, child: 100, started_at_ms: 0 };
    assert_eq!(cell.begin(s1), Ok(()));
    let s2 = RecordingSession { id: 2, child: 200, started_at_ms: 5 };
    assert_eq!(cell.begin(s2), Err(RecError::RecordingAlreadyRunning));
    let taken = cell.take().unwrap();
    assert_eq!(taken.child, 100);
    assert_eq!(cell.take(), Err(RecError::NoActiveRecording));
    assert_eq!(cell.begin(s2), Ok(()));
}

#[test]
fn single_preview_session_cell() {
    let mut cell = PreviewCell::new();
    assert_eq!(cell.replace(PreviewSession { peer: 1, udp_task: 2 }), None);
    let old = cell.replace(PreviewSession { peer: 3, udp_task: 4 });
    assert_eq!(old, Some(PreviewSession { peer: 1, udp_task: 2 }));
    assert_eq!(cell.take(), Some(PreviewSession { peer: 3, udp_task: 4 }));
    assert_eq!(cell.take(), None);
}

#[test]
fn sampler_emits_strictly_monotonic_events() {
    let rect = Region { x: 0, y: 0, width: 1920, height: 1080 };
    let st0 = sampler_start();
    let (st1, t1) = sampler_step(&st0, 10, 960, 540, false, &rect);
    let e1 = t1.event.expect("first tick records the position");
    assert_eq!(e1.kind, CursorKind::Move);
    assert_eq!(e1.offset_ms, 10);
    assert_eq!(e1.axn_ppm, 500000);
    let (st2, t2) = sampler_step(&st1, 40, 960, 540, true, &rect);
    let e2 = t2.event.expect("press records a down");
    assert_eq!(e2.kind, CursorKind::Down);
    assert!(e2.offset_ms > e1.offset_ms);
    let (st3, t3) = sampler_step(&st2, 70, 960, 540, true, &rect);
    assert!(t3.event.is_none(), "no motion, no transition");
    assert_eq!(t3.zoom_milli, 1169);
    let (_st4, t4) = sampler_step(&st3, 640, 960, 540, true, &rect);
    assert_eq!(t4.zoom_milli, 2000);
}

#[test]
fn preview_encode_args_shape() {
    let args = preview_encode_args("work/5/recording.mp4", "exp/p.mp4");
    let expect: Vec<String> = [
        "-y", "-i", "work/5/recording.mp4", "-vf", "scale=1024:-2", "-r", "30", "-c:v",
        "libx264", "-preset", "veryfast", "-pix_fmt", "yuv420p", "-an", "exp/p.mp4",
    ]
    .iter()
    .map(|s| s.to_string())
    .collect();
    assert_eq!(args, expect);
}
