//! The error taxonomy: every failure surfaces as a short string code.

use vstd::prelude::*;

verus! {

/// A failure of one of the library's operations, identified by a short code.
#[derive(Clone, Copy, Debug, PartialEq, Eq, Structural)]
pub enum RecError {
    RecordingAlreadyRunning,
    NoActiveRecording,
    PreviewNotReady,
    InvalidInputPath,
    InvalidRegion,
    RegionRequired,
    WindowTitleRequired,
    ExportNotFound,
    FfmpegNotFound,
    ExportStdoutUnavailable,
    ExportStderrUnavailable,
    CursorEventsMissing,
    CaptureMetaMissing,
    CaptureMetaParseFailed,
    StateLockFailed,
    PreviewStateLockFailed,
    ExportStateLockFailed,
    ExportFailed,
    ExportCancelled,
    ExportTaskJoinFailed,
    PreviewFailed,
    TrackWriteFailed,
    TrackSerializeFailed,
    UnsupportedPlatform,
}

/// The short string code of each error.
pub open spec fn spec_code(e: RecError) -> Seq<char> {
    match e {
        RecError::RecordingAlreadyRunning => "recording_already_running"@,
        RecError::NoActiveRecording => "no_active_recording"@,
        RecError::PreviewNotReady => "preview_not_ready"@,
        RecError::InvalidInputPath => "invalid_input_path"@,
        RecError::InvalidRegion => "invalid_region"@,
        RecError::RegionRequired => "region_required"@,
        RecError::WindowTitleRequired => "window_title_required"@,
        RecError::ExportNotFound => "export_not_found"@,
        RecError::FfmpegNotFound => "ffmpeg_not_found"@,
        RecError::ExportStdoutUnavailable => "export_stdout_unavailable"@,
        RecError::ExportStderrUnavailable => "export_stderr_unavailable"@,
        RecError::CursorEventsMissing => "cursor_events_missing"@,
        RecError::CaptureMetaMissing => "capture_meta_missing"@,
        RecError::CaptureMetaParseFailed => "capture_meta_parse_failed"@,
        RecError::StateLockFailed => "state_lock_failed"@,
        RecError::PreviewStateLockFailed => "preview_state_lock_failed"@,
        RecError::ExportStateLockFailed => "export_state_lock_failed"@,
        RecError::ExportFailed => "export_failed"@,
        RecError::ExportCancelled => "export_cancelled"@,
        RecError::ExportTaskJoinFailed => "export_task_join_failed"@,
        RecError::PreviewFailed => "preview_failed"@,
        RecError::TrackWriteFailed => "track_write_failed"@,
        RecError::TrackSerializeFailed => "track_serialize_failed"@,
        RecError::UnsupportedPlatform => "unsupported_platform"@,
    }
}

impl RecError {
    /// The short string code of this error.
    pub fn code(&self) -> (r: String)
        ensures
            r@ == spec_code(*self),
    {
        let s: &str = match self {
            RecError::RecordingAlreadyRunning => "recording_already_running",
            RecError::NoActiveRecording => "no_active_recording",
            RecError::PreviewNotReady => "preview_not_ready",
            RecError::InvalidInputPath => "invalid_input_path",
            RecError::InvalidRegion => "invalid_region",
            RecError::RegionRequired => "region_required",
            RecError::WindowTitleRequired => "window_title_required",
            RecError::ExportNotFound => "export_not_found",
            RecError::FfmpegNotFound => "ffmpeg_not_found",
            RecError::ExportStdoutUnavailable => "export_stdout_unavailable",
            RecError::ExportStderrUnavailable => "export_stderr_unavailable",
            RecError::CursorEventsMissing => "cursor_events_missing",
            RecError::CaptureMetaMissing => "capture_meta_missing",
            RecError::CaptureMetaParseFailed => "capture_meta_parse_failed",
            RecError::StateLockFailed => "state_lock_failed",
            RecError::PreviewStateLockFailed => "preview_state_lock_failed",
            RecError::ExportStateLockFailed => "export_state_lock_failed",
            RecError::ExportFailed => "export_failed",
            RecError::ExportCancelled => "export_cancelled",
            RecError::ExportTaskJoinFailed => "export_task_join_failed",
            RecError::PreviewFailed => "preview_failed",
            RecError::TrackWriteFailed => "track_write_failed",
            RecError::TrackSerializeFailed => "track_serialize_failed",
            RecError::UnsupportedPlatform => "unsupported_platform",
        };
        String::from_str(s)
    }
}

} // verus!
