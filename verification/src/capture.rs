//! The capture session controller: request validation, encoder argument
//! assembly, session-directory paths, capture metadata, and the
//! single-session cells for recording and preview.

use vstd::prelude::*;
use crate::errors::RecError;
use crate::filter::opt_view;
use crate::geom::{spec_even_align, Region};
use crate::kinds::{CaptureMode, VideoFormat};
use crate::num::{push_i64, push_u64, spec_i64_str, spec_u64_str, u64_to_string};
use crate::strutil::{is_blank, spec_is_blank, str_eq};

verus! {

/// The loopback port the preview stream is pushed to.
pub const PREVIEW_RTP_PORT: u16 = 19000;

/// What a recording request asks for.
#[derive(Clone, Debug)]
pub struct StartRecordingRequest {
    pub resolution: String,
    pub fps: u32,
    pub format: VideoFormat,
    pub mic_device: Option<String>,
    pub camera_device: Option<String>,
    pub capture_mode: CaptureMode,
    pub window_title: Option<String>,
    pub region: Option<Region>,
}

/// Capture metadata persisted once per session: how the surface was
/// selected, its rectangle, and the wall-clock start.
#[derive(Clone, Debug)]
pub struct CaptureMeta {
    pub mode: CaptureMode,
    pub rect: Region,
    pub started_at_ms: u64,
}

/// The view of an optional string, empty when absent.
pub open spec fn opt_seq(o: Option<String>) -> Seq<char> {
    match o {
        Some(s) => s@,
        None => Seq::<char>::empty(),
    }
}

/// The capture frame rate actually used: a zero request means 60.
pub open spec fn spec_effective_fps(fps: u32) -> nat {
    if fps == 0 {
        60nat
    } else {
        fps as nat
    }
}

/// The views of an argument vector.
pub open spec fn argv_view(v: Vec<String>) -> Seq<Seq<char>> {
    Seq::new(v@.len(), |i: int| v@[i]@)
}

/// Appends one argument.
fn push_arg(args: &mut Vec<String>, s: &str)
    ensures
        argv_view(*final(args)) == argv_view(*old(args)) + seq![s@],
{
    args.push(String::from_str(s));
    proof {
        assert(argv_view(*args) =~= argv_view(*old(args)) + seq![s@]);
    }
}

/// Appends one owned argument.
fn push_arg_string(args: &mut Vec<String>, s: String)
    ensures
        argv_view(*final(args)) == argv_view(*old(args)) + seq![s@],
{
    let ghost v = s@;
    args.push(s);
    proof {
        assert(argv_view(*args) =~= argv_view(*old(args)) + seq![v]);
    }
}

/// The camera filter that splits the camera into the low-latency preview
/// and the sidecar avatar stream.
pub open spec fn spec_cam_filter() -> Seq<char> {
    "[1:v]crop='min(iw,ih)':'min(iw,ih)',hflip,split=2[cam_preview][cam_avatar];[cam_preview]fps=20,scale=240:240:force_original_aspect_ratio=increase,crop=240:240,format=yuv420p[preview];[cam_avatar]fps=30,scale=240:240:force_original_aspect_ratio=increase,crop=240:240,format=yuv420p[avatar]"@
}

/// The fixed leading capture arguments through the frame rate.
pub open spec fn spec_base_args(fps: u32) -> Seq<Seq<char>> {
    seq![
        "-y"@,
        "-thread_queue_size"@,
        "512"@,
        "-rtbufsize"@,
        "256M"@,
        "-f"@,
        "gdigrab"@,
        "-framerate"@,
        spec_u64_str(spec_effective_fps(fps)),
    ]
}

/// The capture-source arguments for the selected mode.
pub open spec fn spec_mode_args(req: StartRecordingRequest) -> Seq<Seq<char>> {
    match req.capture_mode {
        CaptureMode::Window => seq!["-i"@, "title="@ + opt_seq(req.window_title)],
        CaptureMode::Region => {
            let a = match spec_even_align(
                match req.region {
                    Some(rg) => rg,
                    None => Region { x: 0, y: 0, width: 0, height: 0 },
                },
            ) {
                Some(a) => a,
                None => Region { x: 0, y: 0, width: 0, height: 0 },
            };
            seq![
                "-offset_x"@,
                spec_i64_str(a.x as int),
                "-offset_y"@,
                spec_i64_str(a.y as int),
                "-video_size"@,
                spec_i64_str(a.width as int) + "x"@ + spec_i64_str(a.height as int),
                "-i"@,
                "desktop"@,
            ]
        },
        CaptureMode::Screen => seq!["-i"@, "desktop"@],
    }
}

/// The camera input arguments, when a camera was selected.
pub open spec fn spec_camera_args(cam: Option<Seq<char>>) -> Seq<Seq<char>> {
    match cam {
        Some(name) => seq![
            "-thread_queue_size"@,
            "512"@,
            "-f"@,
            "dshow"@,
            "-i"@,
            "video="@ + name,
        ],
        None => Seq::<Seq<char>>::empty(),
    }
}

/// The microphone input arguments, or `-an` when no audio is captured.
pub open spec fn spec_audio_args(mic: Option<Seq<char>>) -> Seq<Seq<char>> {
    match mic {
        Some(name) => seq![
            "-thread_queue_size"@,
            "512"@,
            "-f"@,
            "dshow"@,
            "-i"@,
            "audio="@ + name,
        ],
        None => seq!["-an"@],
    }
}

/// The filter and mapping arguments used when a camera takes part.
pub open spec fn spec_filter_args(cam: Option<Seq<char>>, mic: Option<Seq<char>>) -> Seq<
    Seq<char>,
> {
    match cam {
        Some(_) => seq!["-filter_complex"@, spec_cam_filter(), "-map"@, "0:v"@] + (match mic {
            Some(_) => seq!["-map"@, "2:a"@],
            None => Seq::<Seq<char>>::empty(),
        }),
        None => Seq::<Seq<char>>::empty(),
    }
}

/// The main video codec arguments for the requested format.
pub open spec fn spec_codec_args(format: VideoFormat) -> Seq<Seq<char>> {
    match format {
        VideoFormat::H265 => seq!["-c:v"@, "libx265"@, "-preset"@, "fast"@],
        VideoFormat::H264 => seq![
            "-c:v"@,
            "libx264"@,
            "-preset"@,
            "ultrafast"@,
            "-pix_fmt"@,
            "yuv420p"@,
        ],
    }
}

/// The audio codec arguments, present only with a microphone.
pub open spec fn spec_audio_codec_args(mic: Option<Seq<char>>) -> Seq<Seq<char>> {
    match mic {
        Some(_) => seq!["-c:a"@, "aac"@, "-b:a"@, "160k"@],
        None => Seq::<Seq<char>>::empty(),
    }
}

/// The camera sidecar output arguments.
pub open spec fn spec_sidecar_args(cam: Option<Seq<char>>, camp: Seq<char>) -> Seq<Seq<char>> {
    match cam {
        Some(_) => seq![
            "-map"@,
            "[avatar]"@,
            "-c:v"@,
            "libx264"@,
            "-preset"@,
            "veryfast"@,
            "-crf"@,
            "23"@,
            "-pix_fmt"@,
            "yuv420p"@,
            camp,
        ],
        None => Seq::<Seq<char>>::empty(),
    }
}

/// The preview RTP output arguments.
pub open spec fn spec_preview_args(cam: Option<Seq<char>>) -> Seq<Seq<char>> {
    match cam {
        Some(_) => seq![
            "-map"@,
            "[preview]"@,
            "-c:v"@,
            "libx264"@,
            "-preset"@,
            "ultrafast"@,
            "-tune"@,
            "zerolatency"@,
            "-pix_fmt"@,
            "yuv420p"@,
            "-profile:v"@,
            "baseline"@,
            "-g"@,
            "30"@,
            "-keyint_min"@,
            "30"@,
            "-bf"@,
            "0"@,
            "-f"@,
            "rtp"@,
            "rtp://127.0.0.1:19000?pkt_size=1200"@,
        ],
        None => Seq::<Seq<char>>::empty(),
    }
}

/// The complete capture argument list for a valid request.
pub open spec fn spec_capture_args(
    req: StartRecordingRequest,
    cam: Option<Seq<char>>,
    mic: Option<Seq<char>>,
    out: Seq<char>,
    camp: Seq<char>,
) -> Seq<Seq<char>> {
    spec_base_args(req.fps) + spec_mode_args(req) + spec_camera_args(cam) + spec_audio_args(mic)
        + spec_filter_args(cam, mic) + spec_codec_args(req.format) + spec_audio_codec_args(mic)
        + seq![out] + spec_sidecar_args(cam, camp) + spec_preview_args(cam)
}

/// Why a capture request is rejected, if it is.
pub open spec fn spec_capture_error(req: StartRecordingRequest) -> Option<RecError> {
    match req.capture_mode {
        CaptureMode::Window => {
            if req.window_title is None {
                Some(RecError::WindowTitleRequired)
            } else {
                None
            }
        },
        CaptureMode::Region => {
            match req.region {
                None => Some(RecError::RegionRequired),
                Some(rg) => {
                    if spec_even_align(rg) is None {
                        Some(RecError::InvalidRegion)
                    } else {
                        None
                    }
                },
            }
        },
        CaptureMode::Screen => None,
    }
}

/// Appends a group of arguments.
fn append_args(args: &mut Vec<String>, g: Vec<String>)
    ensures
        argv_view(*final(args)) == argv_view(*old(args)) + argv_view(g),
{
    let ghost gv = argv_view(g);
    let mut g = g;
    args.append(&mut g);
    proof {
        assert(argv_view(*args) =~= argv_view(*old(args)) + gv);
    }
}

/// Builds the fixed leading capture arguments.
fn base_args(fps: u32) -> (r: Vec<String>)
    ensures
        argv_view(r) == spec_base_args(fps),
{
    let eff: u32 = if fps == 0 { 60 } else { fps };
    let mut args: Vec<String> = Vec::new();
    push_arg(&mut args, "-y");
    push_arg(&mut args, "-thread_queue_size");
    push_arg(&mut args, "512");
    push_arg(&mut args, "-rtbufsize");
    push_arg(&mut args, "256M");
    push_arg(&mut args, "-f");
    push_arg(&mut args, "gdigrab");
    push_arg(&mut args, "-framerate");
    push_arg_string(&mut args, u64_to_string(eff as u64));
    proof {
        assert(argv_view(args) =~= spec_base_args(fps));
    }
    args
}

/// Builds the capture-source arguments, validating the mode's inputs.
fn mode_args(request: &StartRecordingRequest) -> (r: Result<Vec<String>, RecError>)
    requires
        request.region matches Some(rg) ==> rg.x < i32::MAX && rg.y < i32::MAX,
    ensures
        r matches Err(e) ==> spec_capture_error(*request) == Some(e),
        r is Err <==> spec_capture_error(*request) is Some,
        r matches Ok(v) ==> argv_view(v) == spec_mode_args(*request),
{
    let mut args: Vec<String> = Vec::new();
    match &request.capture_mode {
        CaptureMode::Window => {
            match &request.window_title {
                Some(title) => {
                    push_arg(&mut args, "-i");
                    let mut t = String::from_str("title=");
                    t.append(title.as_str());
                    push_arg_string(&mut args, t);
                },
                None => {
                    return Err(RecError::WindowTitleRequired);
                },
            }
        },
        CaptureMode::Region => {
            match &request.region {
                Some(rg) => {
                    let aligned = match crate::geom::even_align_region(rg) {
                        Ok(a) => a,
                        Err(e) => {
                            return Err(e);
                        },
                    };
                    push_arg(&mut args, "-offset_x");
                    push_arg_string(&mut args, crate::num::i64_to_string(aligned.x as i64));
                    push_arg(&mut args, "-offset_y");
                    push_arg_string(&mut args, crate::num::i64_to_string(aligned.y as i64));
                    push_arg(&mut args, "-video_size");
                    let mut sz = String::new();
                    push_i64(&mut sz, aligned.width as i64);
                    sz.append("x");
                    push_i64(&mut sz, aligned.height as i64);
                    proof {
                        assert(sz@ =~= spec_i64_str(aligned.width as int) + "x"@ + spec_i64_str(
                            aligned.height as int,
                        ));
                    }
                    push_arg_string(&mut args, sz);
                    push_arg(&mut args, "-i");
                    push_arg(&mut args, "desktop");
                },
                None => {
                    return Err(RecError::RegionRequired);
                },
            }
        },
        CaptureMode::Screen => {
            push_arg(&mut args, "-i");
            push_arg(&mut args, "desktop");
        },
    }
    proof {
        assert(argv_view(args) =~= spec_mode_args(*request));
    }
    Ok(args)
}

/// Builds the camera input arguments.
fn camera_args(selected_camera: &Option<String>) -> (r: Vec<String>)
    ensures
        argv_view(r) == spec_camera_args(opt_view(*selected_camera)),
{
    let mut args: Vec<String> = Vec::new();
    match selected_camera {
        Some(name) => {
            push_arg(&mut args, "-thread_queue_size");
            push_arg(&mut args, "512");
            push_arg(&mut args, "-f");
            push_arg(&mut args, "dshow");
            push_arg(&mut args, "-i");
            let mut v = String::from_str("video=");
            v.append(name.as_str());
            push_arg_string(&mut args, v);
        },
        None => {},
    }
    proof {
        assert(argv_view(args) =~= spec_camera_args(opt_view(*selected_camera)));
    }
    args
}

/// Builds the microphone input arguments.
fn audio_args(selected_mic: &Option<String>) -> (r: Vec<String>)
    ensures
        argv_view(r) == spec_audio_args(opt_view(*selected_mic)),
{
    let mut args: Vec<String> = Vec::new();
    match selected_mic {
        Some(name) => {
            push_arg(&mut args, "-thread_queue_size");
            push_arg(&mut args, "512");
            push_arg(&mut args, "-f");
            push_arg(&mut args, "dshow");
            push_arg(&mut args, "-i");
            let mut v = String::from_str("audio=");
            v.append(name.as_str());
            push_arg_string(&mut args, v);
        },
        None => {
            push_arg(&mut args, "-an");
        },
    }
    proof {
        assert(argv_view(args) =~= spec_audio_args(opt_view(*selected_mic)));
    }
    args
}

/// Builds the filter and mapping arguments.
fn filter_args(selected_camera: &Option<String>, selected_mic: &Option<String>) -> (r: Vec<
    String,
>)
    ensures
        argv_view(r) == spec_filter_args(opt_view(*selected_camera), opt_view(*selected_mic)),
{
    let mut args: Vec<String> = Vec::new();
    if selected_camera.is_some() {
        push_arg(&mut args, "-filter_complex");
        push_arg(
            &mut args,
            "[1:v]crop='min(iw,ih)':'min(iw,ih)',hflip,split=2[cam_preview][cam_avatar];[cam_preview]fps=20,scale=240:240:force_original_aspect_ratio=increase,crop=240:240,format=yuv420p[preview];[cam_avatar]fps=30,scale=240:240:force_original_aspect_ratio=increase,crop=240:240,format=yuv420p[avatar]",
        );
        push_arg(&mut args, "-map");
        push_arg(&mut args, "0:v");
        if selected_mic.is_some() {
            push_arg(&mut args, "-map");
            push_arg(&mut args, "2:a");
        }
    }
    proof {
        assert(argv_view(args) =~= spec_filter_args(
            opt_view(*selected_camera),
            opt_view(*selected_mic),
        ));
    }
    args
}

/// Builds the main codec arguments.
fn codec_args(format: VideoFormat) -> (r: Vec<String>)
    ensures
        argv_view(r) == spec_codec_args(format),
{
    let mut args: Vec<String> = Vec::new();
    match format {
        VideoFormat::H265 => {
            push_arg(&mut args, "-c:v");
            push_arg(&mut args, "libx265");
            push_arg(&mut args, "-preset");
            push_arg(&mut args, "fast");
        },
        VideoFormat::H264 => {
            push_arg(&mut args, "-c:v");
            push_arg(&mut args, "libx264");
            push_arg(&mut args, "-preset");
            push_arg(&mut args, "ultrafast");
            push_arg(&mut args, "-pix_fmt");
            push_arg(&mut args, "yuv420p");
        },
    }
    proof {
        assert(argv_view(args) =~= spec_codec_args(format));
    }
    args
}

/// Builds the audio codec arguments.
fn audio_codec_args(selected_mic: &Option<String>) -> (r: Vec<String>)
    ensures
        argv_view(r) == spec_audio_codec_args(opt_view(*selected_mic)),
{
    let mut args: Vec<String> = Vec::new();
    if selected_mic.is_some() {
        push_arg(&mut args, "-c:a");
        push_arg(&mut args, "aac");
        push_arg(&mut args, "-b:a");
        push_arg(&mut args, "160k");
    }
    proof {
        assert(argv_view(args) =~= spec_audio_codec_args(opt_view(*selected_mic)));
    }
    args
}

/// Builds the camera sidecar output arguments.
fn sidecar_args(selected_camera: &Option<String>, camera_path: &str) -> (r: Vec<String>)
    ensures
        argv_view(r) == spec_sidecar_args(opt_view(*selected_camera), camera_path@),
{
    let mut args: Vec<String> = Vec::new();
    if selected_camera.is_some() {
        push_arg(&mut args, "-map");
        push_arg(&mut args, "[avatar]");
        push_arg(&mut args, "-c:v");
        push_arg(&mut args, "libx264");
        push_arg(&mut args, "-preset");
        push_arg(&mut args, "veryfast");
        push_arg(&mut args, "-crf");
        push_arg(&mut args, "23");
        push_arg(&mut args, "-pix_fmt");
        push_arg(&mut args, "yuv420p");
        push_arg(&mut args, camera_path);
    }
    proof {
        assert(argv_view(args) =~= spec_sidecar_args(
            opt_view(*selected_camera),
            camera_path@,
        ));
    }
    args
}

/// Builds the preview RTP output arguments.
fn preview_args(selected_camera: &Option<String>) -> (r: Vec<String>)
    ensures
        argv_view(r) == spec_preview_args(opt_view(*selected_camera)),
{
    let mut args: Vec<String> = Vec::new();
    if selected_camera.is_some() {
        push_arg(&mut args, "-map");
        push_arg(&mut args, "[preview]");
        push_arg(&mut args, "-c:v");
        push_arg(&mut args, "libx264");
        push_arg(&mut args, "-preset");
        push_arg(&mut args, "ultrafast");
        push_arg(&mut args, "-tune");
        push_arg(&mut args, "zerolatency");
        push_arg(&mut args, "-pix_fmt");
        push_arg(&mut args, "yuv420p");
        push_arg(&mut args, "-profile:v");
        push_arg(&mut args, "baseline");
        push_arg(&mut args, "-g");
        push_arg(&mut args, "30");
        push_arg(&mut args, "-keyint_min");
        push_arg(&mut args, "30");
        push_arg(&mut args, "-bf");
        push_arg(&mut args, "0");
        push_arg(&mut args, "-f");
        push_arg(&mut args, "rtp");
        push_arg(&mut args, "rtp://127.0.0.1:19000?pkt_size=1200");
    }
    proof {
        assert(argv_view(args) =~= spec_preview_args(opt_view(*selected_camera)));
    }
    args
}

/// Assembles the encoder argument list of a capture session from the
/// request and the resolved devices, together with the preview URL when a
/// camera takes part. A window capture needs a title; a region capture
/// needs a region that survives even-alignment.
#[verifier::rlimit(100)]
pub fn build_capture_args(
    request: &StartRecordingRequest,
    selected_camera: &Option<String>,
    selected_mic: &Option<String>,
    output_path: &str,
    camera_path: &str,
) -> (r: Result<(Vec<String>, Option<String>), RecError>)
    requires
        request.region matches Some(rg) ==> rg.x < i32::MAX && rg.y < i32::MAX,
    ensures
        r matches Err(e) ==> spec_capture_error(*request) == Some(e),
        r is Err <==> spec_capture_error(*request) is Some,
        r matches Ok(p) ==> argv_view(p.0) == spec_capture_args(
            *request,
            opt_view(*selected_camera),
            opt_view(*selected_mic),
            output_path@,
            camera_path@,
        ) && opt_view(p.1) == (if selected_camera is Some {
            Some("webrtc://local"@)
        } else {
            None
        }) && argv_view(p.0)[8] == spec_u64_str(spec_effective_fps(request.fps)),
{
    let mut args = base_args(request.fps);
    let mode = match mode_args(request) {
        Ok(v) => v,
        Err(e) => {
            return Err(e);
        },
    };
    append_args(&mut args, mode);
    append_args(&mut args, camera_args(selected_camera));
    append_args(&mut args, audio_args(selected_mic));
    append_args(&mut args, filter_args(selected_camera, selected_mic));
    append_args(&mut args, codec_args(request.format));
    append_args(&mut args, audio_codec_args(selected_mic));
    push_arg(&mut args, output_path);
    append_args(&mut args, sidecar_args(selected_camera, camera_path));
    append_args(&mut args, preview_args(selected_camera));
    let preview_url: Option<String> = if selected_camera.is_some() {
        Some(String::from_str("webrtc://local"))
    } else {
        None
    };
    proof {
        assert(argv_view(args)[8] == spec_base_args(request.fps)[8]);
    }
    Ok((args, preview_url))
}

/// Picks the camera to record: `auto`/`default` ask for the first probed
/// device; `off`, `none`, `no-camera` and blank names disable it; any
/// other name is used as given.
pub open spec fn spec_selected_camera(
    requested: Option<Seq<char>>,
    first: Option<Seq<char>>,
) -> Option<Seq<char>> {
    let req = match requested {
        Some(s) => s,
        None => "auto"@,
    };
    if req == "auto"@ || req == "default"@ {
        first
    } else if req == "off"@ || req == "none"@ || req == "no-camera"@ || spec_is_blank(req) {
        None
    } else {
        Some(req)
    }
}

/// Whether a camera request needs the device probe.
pub open spec fn spec_camera_needs_probe(requested: Option<Seq<char>>) -> bool {
    let req = match requested {
        Some(s) => s,
        None => "auto"@,
    };
    req == "auto"@ || req == "default"@
}

/// Picks the microphone: `auto`/`default` ask for the first probed
/// device; `mute` and blank names disable audio; any other name is used
/// as given.
pub open spec fn spec_selected_mic(
    requested: Option<Seq<char>>,
    first: Option<Seq<char>>,
) -> Option<Seq<char>> {
    let req = match requested {
        Some(s) => s,
        None => "auto"@,
    };
    if req == "auto"@ || req == "default"@ {
        first
    } else if req == "mute"@ || spec_is_blank(req) {
        None
    } else {
        Some(req)
    }
}

/// Whether a microphone request needs the device probe.
pub open spec fn spec_mic_needs_probe(requested: Option<Seq<char>>) -> bool {
    let req = match requested {
        Some(s) => s,
        None => "auto"@,
    };
    req == "auto"@ || req == "default"@
}

/// Resolves the camera request against the first probed device.
pub fn select_camera_device(requested: &Option<String>, first_available: Option<String>) -> (r:
    Option<String>)
    ensures
        opt_view(r) == spec_selected_camera(opt_view(*requested), opt_view(first_available)),
{
    match requested {
        None => first_available,
        Some(name) => {
            if str_eq(name.as_str(), "auto") || str_eq(name.as_str(), "default") {
                first_available
            } else if str_eq(name.as_str(), "off") || str_eq(name.as_str(), "none") || str_eq(
                name.as_str(),
                "no-camera",
            ) || is_blank(name.as_str()) {
                None
            } else {
                Some(name.clone())
            }
        },
    }
}

/// Whether the camera request asks for the device probe.
pub fn camera_needs_probe(requested: &Option<String>) -> (r: bool)
    ensures
        r == spec_camera_needs_probe(opt_view(*requested)),
{
    match requested {
        None => true,
        Some(name) => str_eq(name.as_str(), "auto") || str_eq(name.as_str(), "default"),
    }
}

/// Resolves the microphone request against the first probed device.
pub fn select_mic_device(requested: &Option<String>, first_available: Option<String>) -> (r:
    Option<String>)
    ensures
        opt_view(r) == spec_selected_mic(opt_view(*requested), opt_view(first_available)),
{
    match requested {
        None => first_available,
        Some(name) => {
            if str_eq(name.as_str(), "auto") || str_eq(name.as_str(), "default") {
                first_available
            } else if str_eq(name.as_str(), "mute") || is_blank(name.as_str()) {
                None
            } else {
                Some(name.clone())
            }
        },
    }
}

/// Whether the microphone request asks for the device probe.
pub fn mic_needs_probe(requested: &Option<String>) -> (r: bool)
    ensures
        r == spec_mic_needs_probe(opt_view(*requested)),
{
    match requested {
        None => true,
        Some(name) => str_eq(name.as_str(), "auto") || str_eq(name.as_str(), "default"),
    }
}

/// The rectangle persisted in the capture metadata: the requested region
/// as given (unaligned) for a region capture, the full screen otherwise.
pub fn capture_rect(request: &StartRecordingRequest, screen_rect: Region) -> (r: Result<
    Region,
    RecError,
>)
    ensures
        request.capture_mode is Region ==> (match request.region {
            Some(rg) => r == Ok::<Region, RecError>(rg),
            None => r == Err::<Region, RecError>(RecError::RegionRequired),
        }),
        !(request.capture_mode is Region) ==> r == Ok::<Region, RecError>(screen_rect),
{
    match &request.capture_mode {
        CaptureMode::Region => {
            match &request.region {
                Some(rg) => Ok(*rg),
                None => Err(RecError::RegionRequired),
            }
        },
        _ => Ok(screen_rect),
    }
}

/// The per-session artifact paths under the work directory.
pub struct SessionPaths {
    pub dir: String,
    pub output: String,
    pub camera: String,
    pub log: String,
    pub cursor: String,
}

/// Builds the artifact paths of a session.
pub fn session_paths(work_base: &str, session_id: u64) -> (r: SessionPaths)
    ensures
        r.dir@ == work_base@ + "/"@ + spec_u64_str(session_id as nat),
        r.output@ == r.dir@ + "/recording.mp4"@,
        r.camera@ == r.dir@ + "/camera.mp4"@,
        r.log@ == r.dir@ + "/ffmpeg.log"@,
        r.cursor@ == r.dir@ + "/cursor.jsonl"@,
{
    let mut dir = String::from_str(work_base);
    dir.append("/");
    push_u64(&mut dir, session_id);
    let mut output = dir.clone();
    output.append("/recording.mp4");
    let mut camera = dir.clone();
    camera.append("/camera.mp4");
    let mut log = dir.clone();
    log.append("/ffmpeg.log");
    let mut cursor = dir.clone();
    cursor.append("/cursor.jsonl");
    SessionPaths { dir, output, camera, log, cursor }
}

/// One live recording session: its id, the opaque handle of the encoder
/// child the application owns for it, and its start instant.
#[derive(Clone, Copy, Debug, PartialEq, Eq, Structural)]
pub struct RecordingSession {
    pub id: u64,
    pub child: u64,
    pub started_at_ms: u64,
}

/// The single-session cell: at most one recording session exists at any
/// instant, and it owns exactly one encoder child from the moment a
/// start succeeds until the stop that removes it.
pub struct RecordingCell {
    pub active: Option<RecordingSession>,
}

impl RecordingCell {
    /// An empty cell: no session.
    pub fn new() -> (r: Self)
        ensures
            r.active is None,
    {
        RecordingCell { active: None }
    }

    /// Installs a session; fails, changing nothing, while one is active.
    pub fn begin(&mut self, session: RecordingSession) -> (r: Result<(), RecError>)
        ensures
            old(self).active is Some ==> r == Err::<(), RecError>(
                RecError::RecordingAlreadyRunning,
            ) && final(self).active == old(self).active,
            old(self).active is None ==> r == Ok::<(), RecError>(()) && final(self).active
                == Some(session),
    {
        match &self.active {
            Some(_) => Err(RecError::RecordingAlreadyRunning),
            None => {
                self.active = Some(session);
                Ok(())
            },
        }
    }

    /// Removes and returns the active session; fails when none is.
    pub fn take(&mut self) -> (r: Result<RecordingSession, RecError>)
        ensures
            old(self).active matches Some(s) ==> r == Ok::<RecordingSession, RecError>(s),
            old(self).active is None ==> r == Err::<RecordingSession, RecError>(
                RecError::NoActiveRecording,
            ),
            final(self).active is None,
    {
        let taken = self.active.take();
        match taken {
            Some(s) => Ok(s),
            None => Err(RecError::NoActiveRecording),
        }
    }
}

/// The duration of a session that started at `started_at_ms` and stops
/// at `now_ms`; zero if the clock ran backwards.
pub fn session_duration_ms(now_ms: u64, started_at_ms: u64) -> (r: u64)
    ensures
        now_ms >= started_at_ms ==> r == now_ms - started_at_ms,
        now_ms < started_at_ms ==> r == 0,
{
    if now_ms >= started_at_ms {
        now_ms - started_at_ms
    } else {
        0
    }
}

/// One live preview relay: the opaque handles of the peer connection and
/// the ingress task the application owns for it.
#[derive(Clone, Copy, Debug, PartialEq, Eq, Structural)]
pub struct PreviewSession {
    pub peer: u64,
    pub udp_task: u64,
}

/// The single-preview cell: at most one preview session exists at any
/// instant; installing a new one hands back the old one to be torn down.
pub struct PreviewCell {
    pub active: Option<PreviewSession>,
}

impl PreviewCell {
    /// An empty cell: no preview.
    pub fn new() -> (r: Self)
        ensures
            r.active is None,
    {
        PreviewCell { active: None }
    }

    /// Installs a preview session, returning the one it displaces.
    pub fn replace(&mut self, session: PreviewSession) -> (r: Option<PreviewSession>)
        ensures
            r == old(self).active,
            final(self).active == Some(session),
    {
        let prior = self.active.take();
        self.active = Some(session);
        prior
    }

    /// Removes and returns the active preview session.
    pub fn take(&mut self) -> (r: Option<PreviewSession>)
        ensures
            r == old(self).active,
            final(self).active is None,
    {
        self.active.take()
    }
}

} // verus!
