//! Units for the parsers, paths, geometry and persisted formats.

use recorder_core::color::parse_hex_color;
use recorder_core::duration::{get_media_duration_ms, parse_duration_ms};
use recorder_core::devices::{parse_dshow_audio_devices, parse_dshow_video_devices};
use recorder_core::edit_state::EditState;
use recorder_core::errors::RecError;
use recorder_core::geom::{even_align_region, evenize, Region};
use recorder_core::json::{edit_state_from_json, edit_state_to_json};
use recorder_core::kinds::{Aspect, CameraPosition, CameraShape, LayoutMode};
use recorder_core::num::{i64_to_string, milli_to_string, ppm_to_string, u64_to_string};
use recorder_core::devices::dedupe_titles;
use recorder_core::export::tail_lines;
use recorder_core::paths::{
    app_data_root, edit_state_path, encoder_candidates, ensure_zoom_track,
    normalize_export_output_path, preview_path, work_base_dir, zoom_track_path,
};

#[test]
fn numbers_render_as_decimals() {
    assert_eq!(u64_to_string(0), "0");
    assert_eq!(u64_to_string(1234567890), "1234567890");
    assert_eq!(i64_to_string(-42), "-42");
    assert_eq!(milli_to_string(5000), "5");
    assert_eq!(milli_to_string(500), "0.5");
    assert_eq!(milli_to_string(550), "0.55");
    assert_eq!(milli_to_string(166), "0.166");
    assert_eq!(milli_to_string(2000), "2");
    assert_eq!(ppm_to_string(500000), "0.5");
    assert_eq!(ppm_to_string(283400), "0.2834");
    assert_eq!(ppm_to_string(1000000), "1");
}

#[test]
fn evenize_floors_to_even() {
    assert_eq!(evenize(100), 100);
    assert_eq!(evenize(101), 100);
    assert_eq!(evenize(0), 0);
    assert_eq!(evenize(-3), -4);
}

#[test]
fn region_even_align_normalizes_odd_rect() {
    // Odd origins move inward and consume one pixel of the dimension,
    // then dimensions floor to even.
    let r = Region { x: 3, y: 5, width: 101, height: 100 };
    let a = even_align_region(&r).unwrap();
    assert_eq!(a, Region { x: 4, y: 6, width: 100, height: 98 });
    let r2 = Region { x: 3, y: 6, width: 101, height: 100 };
    let a2 = even_align_region(&r2).unwrap();
    assert_eq!(a2, Region { x: 4, y: 6, width: 100, height: 100 });
}

#[test]
fn region_even_align_is_idempotent() {
    let r = Region { x: 4, y: 6, width: 100, height: 100 };
    let a = even_align_region(&r).unwrap();
    assert_eq!(a, r);
    let b = even_align_region(&a).unwrap();
    assert_eq!(b, a);
}

#[test]
fn region_even_align_rejects_degenerate() {
    let r = Region { x: 0, y: 0, width: 0, height: 10 };
    assert_eq!(even_align_region(&r), Err(RecError::InvalidRegion));
    let r = Region { x: 1, y: 0, width: 1, height: 10 };
    assert_eq!(even_align_region(&r), Err(RecError::InvalidRegion));
}

#[test]
fn hex_colors_parse_componentwise() {
    assert_eq!(parse_hex_color("#6ee7ff"), (110, 231, 255));
    assert_eq!(parse_hex_color("#f97316"), (249, 115, 22));
    assert_eq!(parse_hex_color("0f172a"), (15, 23, 42));
    assert_eq!(parse_hex_color("#bad"), (0, 0, 0));
    assert_eq!(parse_hex_color("#zzzzzz"), (0, 0, 0));
}

#[test]
fn duration_parses_banner_line() {
    let text = "Input #0, mov\n  Duration: 00:00:05.04, start: 0.0, bitrate: 1000 kb/s\n";
    assert_eq!(parse_duration_ms(text), Some(5040));
    assert_eq!(get_media_duration_ms(text), Some(5040));
}

#[test]
fn duration_parses_hours_and_rounds() {
    assert_eq!(parse_duration_ms("Duration: 01:02:03.50,"), Some(3_723_500));
    assert_eq!(parse_duration_ms("Duration: 00:00:00.00,"), Some(0));
    assert_eq!(parse_duration_ms("Duration: 00:01:00"), Some(60_000));
}

#[test]
fn duration_rejects_malformed() {
    assert_eq!(parse_duration_ms("no marker here"), None);
    assert_eq!(parse_duration_ms("Duration: N/A,"), None);
    assert_eq!(parse_duration_ms("Duration: 00:00,"), None);
}

#[test]
fn dshow_audio_devices_parse_and_dedupe() {
    let out = "\
[dshow @ 0] DirectShow video devices (including none)\n\
[dshow @ 0]  \"Integrated Camera\" (video)\n\
[dshow @ 0] DirectShow audio devices\n\
[dshow @ 0]  \"Microphone (Realtek)\" (audio)\n\
[dshow @ 0]  \"Microphone (Realtek)\" (audio)\n\
[dshow @ 0]  \"Line In\" (audio)\n";
    let audio = parse_dshow_audio_devices(out);
    assert_eq!(audio, vec!["Microphone (Realtek)".to_string(), "Line In".to_string()]);
    let video = parse_dshow_video_devices(out);
    assert_eq!(video, vec!["Integrated Camera".to_string()]);
}

#[test]
fn dshow_skips_none_entries() {
    let out = "DirectShow audio devices\n \"(none)\" (audio)\n";
    assert_eq!(parse_dshow_audio_devices(out).len(), 0);
}

#[test]
fn paths_derive_siblings() {
    assert_eq!(edit_state_path("work/123/recording.mp4"), "work/123/edit_state.json");
    assert_eq!(edit_state_path("recording.mp4"), "edit_state.json");
    assert_eq!(
        zoom_track_path("work/123/recording.mp4").unwrap(),
        "work/123/zoom_track.json"
    );
    assert_eq!(zoom_track_path("recording.mp4"), Err(RecError::InvalidInputPath));
}

#[test]
fn ensure_zoom_track_is_idempotent_on_existing() {
    let first = ensure_zoom_track("work/123/recording.mp4", false).unwrap();
    assert_eq!(first.0, "work/123/zoom_track.json");
    assert!(first.1);
    let second = ensure_zoom_track("work/123/recording.mp4", true).unwrap();
    assert_eq!(second.0, first.0);
    assert!(!second.1);
}

#[test]
fn data_dirs_join() {
    assert_eq!(app_data_root("C:/app"), "C:/app");
    assert_eq!(work_base_dir("C:/app"), "C:/app/work");
}

#[test]
fn preview_path_names_after_session() {
    assert_eq!(
        preview_path("work/1712/recording.mp4", "C:/app/recordings"),
        "C:/app/recordings/Flash Recorder_1712_preview.mp4"
    );
    assert_eq!(
        preview_path("recording.mp4", "out"),
        "out/Flash Recorder_preview_preview.mp4"
    );
}

#[test]
fn export_output_path_normalizes() {
    assert_eq!(
        normalize_export_output_path("/abs/out.mp4", "work/1/recording.mp4", "exp"),
        "/abs/out.mp4"
    );
    assert_eq!(
        normalize_export_output_path("", "work/1712/recording.mp4", "exp"),
        "exp/1712.mp4"
    );
    assert_eq!(
        normalize_export_output_path("relative.mp4", "recording.mp4", "exp"),
        "exp/export.mp4"
    );
}

#[test]
fn edit_state_round_trips_through_json() {
    let es = EditState::default();
    let text = edit_state_to_json(&es);
    let back = edit_state_from_json(text.as_str());
    assert_eq!(back, Some(es));
}

#[test]
fn edit_state_round_trips_with_custom_values() {
    let mut es = EditState::default();
    es.aspect = Aspect::Ratio9x16;
    es.padding = 24;
    es.radius = 0;
    es.camera_shape = CameraShape::Sharp;
    es.camera_position = CameraPosition::TopRight;
    es.camera_mirror = true;
    es.background_preset = 3;
    es.shrink_9_16_cent = 85;
    es.mode_9_16 = LayoutMode::Shrink;
    es.subtitle_safe_9_16_cent = 100;
    let text = edit_state_to_json(&es);
    let back = edit_state_from_json(text.as_str());
    assert_eq!(back, Some(es));
}

#[test]
fn edit_state_default_document_shape() {
    let text = edit_state_to_json(&EditState::default());
    assert!(text.starts_with("{\"aspect\":\"16:9\",\"padding\":0,"));
    assert!(text.contains("\"shrink_16_9\":0.94"));
    assert!(text.contains("\"subtitle_safe_16_9\":0.1,"));
    assert!(text.contains("\"portrait_split\":true"));
    assert!(text.ends_with("\"subtitle_safe_9_16\":0.1}"));
}

#[test]
fn edit_state_loader_rejects_other_text() {
    assert_eq!(edit_state_from_json("{}"), None);
    assert_eq!(edit_state_from_json(""), None);
    let es = EditState::default();
    let mut text = edit_state_to_json(&es);
    text.push(' ');
    assert_eq!(edit_state_from_json(text.as_str()), None);
}

#[test]
fn error_codes_match_taxonomy() {
    assert_eq!(RecError::RecordingAlreadyRunning.code(), "recording_already_running");
    assert_eq!(RecError::ExportCancelled.code(), "export_cancelled");
    assert_eq!(RecError::WindowTitleRequired.code(), "window_title_required");
    assert_eq!(RecError::ExportNotFound.code(), "export_not_found");
}

#[test]
fn save_then_load_returns_the_saved_state() {
    // Loading exactly what was saved yields the saved state again.
    let mut es = EditState::default();
    es.background_preset = 2;
    es.shadow = 35;
    es.subtitle_safe_1_1_cent = 7;
    let saved = edit_state_to_json(&es);
    assert_eq!(edit_state_from_json(saved.as_str()), Some(es));
}

#[test]
fn tail_lines_keeps_the_last_lines() {
    let text = "one\ntwo\r\nthree\nfour\n";
    assert_eq!(tail_lines(text, 2), "three\nfour");
    assert_eq!(tail_lines(text, 12), "one\ntwo\nthree\nfour");
    assert_eq!(tail_lines("", 12), "");
    assert_eq!(tail_lines("solo", 1), "solo");
}

#[test]
fn titles_dedupe_in_insertion_order() {
    let raw = vec![
        "Editor".to_string(),
        "Browser".to_string(),
        "Editor".to_string(),
        "Terminal".to_string(),
        "Browser".to_string(),
    ];
    assert_eq!(
        dedupe_titles(&raw),
        vec!["Editor".to_string(), "Browser".to_string(), "Terminal".to_string()]
    );
}

#[test]
fn encoder_candidates_probe_order() {
    let c = encoder_candidates("ffmpeg");
    assert_eq!(
        c,
        vec![
            "resources/ffmpeg/ffmpeg".to_string(),
            "src-tauri/ffmpeg/ffmpeg".to_string(),
            "ffmpeg/ffmpeg".to_string(),
            "resources/ffmpeg/ffmpeg".to_string(),
        ]
    );
}
