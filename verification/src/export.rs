//! The export job manager: a FIFO queue served by a single worker,
//! per-job status and cancellation records, progress derivation from the
//! encoder's reports, and the export encoder argument list.

use vstd::prelude::*;
use crate::edit_state::{EditState, ExportProfile};
use crate::errors::RecError;
use crate::capture::argv_view;
use crate::devices::spec_strip_cr;
use crate::duration::{char_from, spec_char_from};
use crate::filter::opt_view;
use crate::kinds::VideoFormat;
use crate::num::{spec_u64_str, u64_to_string};

verus! {

/// A frozen export request.
#[derive(Clone, Debug)]
pub struct ExportRequest {
    pub input_path: String,
    pub output_path: String,
    pub edit_state: EditState,
    pub profile: ExportProfile,
    pub camera_path: Option<String>,
}

/// Where a job stands in its lifecycle.
#[derive(Clone, Copy, Debug, PartialEq, Eq, Structural)]
pub enum ExportJobState {
    Queued,
    Running,
    Completed,
    Failed,
    Cancelled,
}

/// A job's status snapshot: state, progress in thousandths, error text
/// and resolved output path.
#[derive(Clone, Debug, PartialEq, Eq)]
pub struct ExportStatus {
    pub job_id: u64,
    pub state: ExportJobState,
    pub progress_milli: u32,
    pub error: Option<String>,
    pub output_path: Option<String>,
}

/// The ghost image of a status: strings as character sequences.
pub struct StatusView {
    pub job_id: u64,
    pub state: ExportJobState,
    pub progress_milli: u32,
    pub error: Option<Seq<char>>,
    pub output_path: Option<Seq<char>>,
}

impl View for ExportStatus {
    type V = StatusView;

    open spec fn view(&self) -> StatusView {
        StatusView {
            job_id: self.job_id,
            state: self.state,
            progress_milli: self.progress_milli,
            error: opt_view(self.error),
            output_path: opt_view(self.output_path),
        }
    }
}

/// A queued job.
#[derive(Clone, Debug)]
pub struct ExportJob {
    pub job_id: u64,
    pub request: ExportRequest,
}

/// The manager's whole mutable state, guarded by one lock in the
/// application: the FIFO queue, whether a worker runs, the status map
/// and the cancellation set.
pub struct ExportManager {
    pub queue: Vec<ExportJob>,
    pub running: bool,
    pub statuses: Vec<ExportStatus>,
    pub cancellations: Vec<u64>,
}

/// The views of the status map.
pub open spec fn statuses_view(v: Vec<ExportStatus>) -> Seq<StatusView> {
    Seq::new(v@.len(), |i: int| v@[i]@)
}

/// The first index holding `id`, or the length when absent.
pub open spec fn spec_status_idx(s: Seq<StatusView>, id: u64) -> int
    decreases s.len(),
{
    if s.len() == 0 {
        0int
    } else if s[0].job_id == id {
        0int
    } else {
        1 + spec_status_idx(s.drop_first(), id)
    }
}

/// Whether some status carries `id`.
pub open spec fn spec_has_status(s: Seq<StatusView>, id: u64) -> bool {
    spec_status_idx(s, id) < s.len()
}

/// The status map after writing `st`: the first entry with its id is
/// replaced, or it is appended.
pub open spec fn spec_set_status(s: Seq<StatusView>, st: StatusView) -> Seq<StatusView> {
    if spec_has_status(s, st.job_id) {
        s.update(spec_status_idx(s, st.job_id), st)
    } else {
        s.push(st)
    }
}

impl ExportManager {
    /// A fresh manager: empty queue, no worker, no statuses.
    pub fn new() -> (r: Self)
        ensures
            r.queue@.len() == 0,
            !r.running,
            r.statuses@.len() == 0,
            r.cancellations@.len() == 0,
    {
        ExportManager {
            queue: Vec::new(),
            running: false,
            statuses: Vec::new(),
            cancellations: Vec::new(),
        }
    }
}

/// A field-for-field copy of a status.
pub fn clone_status(st: &ExportStatus) -> (r: ExportStatus)
    ensures
        r@ == st@,
{
    ExportStatus {
        job_id: st.job_id,
        state: st.state,
        progress_milli: st.progress_milli,
        error: match &st.error {
            Some(e) => Some(e.clone()),
            None => None,
        },
        output_path: match &st.output_path {
            Some(p) => Some(p.clone()),
            None => None,
        },
    }
}

/// Finds the first status index for `id`.
fn find_status(statuses: &Vec<ExportStatus>, id: u64) -> (r: Option<usize>)
    ensures
        r matches Some(i) ==> i as int == spec_status_idx(statuses_view(*statuses), id) && i
            < statuses@.len() && statuses@[i as int].job_id == id,
        r is None ==> !spec_has_status(statuses_view(*statuses), id),
{
    let ghost sv = statuses_view(*statuses);
    proof {
        assert(sv.skip(0) =~= sv);
    }
    let mut i: usize = 0;
    while i < statuses.len()
        invariant
            i <= statuses@.len(),
            sv == statuses_view(*statuses),
            sv.len() == statuses@.len(),
            spec_status_idx(sv, id) == i as int + spec_status_idx(sv.skip(i as int), id),
            forall|j: int| 0 <= j < i ==> sv[j].job_id != id,
        decreases statuses@.len() - i,
    {
        proof {
            assert(sv.skip(i as int)[0] == sv[i as int]);
            assert(sv.skip(i as int).drop_first() =~= sv.skip(i as int + 1));
        }
        if statuses[i].job_id == id {
            return Some(i);
        }
        i = i + 1;
    }
    proof {
        assert(sv.skip(sv.len() as int) =~= Seq::<StatusView>::empty());
    }
    None
}

/// Writes a status snapshot into the map.
pub fn set_status(mgr: &mut ExportManager, st: ExportStatus)
    ensures
        statuses_view(final(mgr).statuses) == spec_set_status(
            statuses_view(old(mgr).statuses),
            st@,
        ),
        final(mgr).queue == old(mgr).queue,
        final(mgr).running == old(mgr).running,
        final(mgr).cancellations == old(mgr).cancellations,
{
    let ghost stv = st@;
    let idx = find_status(&mgr.statuses, st.job_id);
    match idx {
        Some(i) => {
            mgr.statuses.set(i, st);
            proof {
                assert(statuses_view(mgr.statuses) =~= spec_set_status(
                    statuses_view(old(mgr).statuses),
                    stv,
                ));
            }
        },
        None => {
            mgr.statuses.push(st);
            proof {
                assert(statuses_view(mgr.statuses) =~= spec_set_status(
                    statuses_view(old(mgr).statuses),
                    stv,
                ));
            }
        },
    }
}

/// Enqueues a new export job: writes its `queued` status, appends the
/// job to the back of the queue, and returns the status to emit. The
/// caller normalizes the request's output path first.
pub fn start_export(mgr: &mut ExportManager, job_id: u64, request: ExportRequest) -> (st:
    ExportStatus)
    ensures
        st@.job_id == job_id,
        st@.state == ExportJobState::Queued,
        st@.progress_milli == 0,
        st@.error is None,
        st@.output_path == Some(request.output_path@),
        statuses_view(final(mgr).statuses) == spec_set_status(
            statuses_view(old(mgr).statuses),
            st@,
        ),
        final(mgr).queue@ == old(mgr).queue@.push(ExportJob { job_id, request }),
        final(mgr).running == old(mgr).running,
        final(mgr).cancellations == old(mgr).cancellations,
{
    let st = ExportStatus {
        job_id,
        state: ExportJobState::Queued,
        progress_milli: 0,
        error: None,
        output_path: Some(request.output_path.clone()),
    };
    let st2 = clone_status(&st);
    set_status(mgr, st2);
    mgr.queue.push(ExportJob { job_id, request });
    st
}

/// Claims the worker role: reports whether the caller should spawn the
/// single worker, which is exactly when none is running.
pub fn ensure_worker(mgr: &mut ExportManager) -> (spawn: bool)
    ensures
        spawn == !old(mgr).running,
        final(mgr).running,
        final(mgr).queue == old(mgr).queue,
        final(mgr).statuses == old(mgr).statuses,
        final(mgr).cancellations == old(mgr).cancellations,
{
    if mgr.running {
        false
    } else {
        mgr.running = true;
        true
    }
}

/// Takes the next job for the worker: jobs leave the queue strictly in
/// insertion order; when the queue is empty the worker retires and the
/// running flag clears so a future enqueue can spawn a new one.
pub fn take_next_job(mgr: &mut ExportManager) -> (r: Option<ExportJob>)
    ensures
        old(mgr).queue@.len() > 0 ==> (r matches Some(j) && j == old(mgr).queue@[0]
            && final(mgr).queue@ == old(mgr).queue@.drop_first()
            && final(mgr).running == old(mgr).running),
        old(mgr).queue@.len() == 0 ==> r is None && final(mgr).queue@ == old(mgr).queue@
            && !final(mgr).running,
        final(mgr).statuses == old(mgr).statuses,
        final(mgr).cancellations == old(mgr).cancellations,
{
    if mgr.queue.len() > 0 {
        let j = mgr.queue.remove(0);
        proof {
            assert(mgr.queue@ =~= old(mgr).queue@.drop_first());
        }
        Some(j)
    } else {
        mgr.running = false;
        None
    }
}

/// Two successive takes hand out two enqueued jobs in their insertion
/// order: the earlier job comes out first.
pub proof fn lemma_fifo_order(q: Seq<ExportJob>)
    requires
        q.len() >= 2,
    ensures
        q[0] == q.first(),
        q.drop_first()[0] == q[1],
{
}

/// The running status written when the worker picks a job up.
pub fn mark_running(mgr: &mut ExportManager, job_id: u64, output_path: &str) -> (st: ExportStatus)
    ensures
        st@.job_id == job_id,
        st@.state == ExportJobState::Running,
        st@.progress_milli == 0,
        st@.error is None,
        st@.output_path == Some(output_path@),
        statuses_view(final(mgr).statuses) == spec_set_status(
            statuses_view(old(mgr).statuses),
            st@,
        ),
        final(mgr).queue == old(mgr).queue,
        final(mgr).running == old(mgr).running,
        final(mgr).cancellations == old(mgr).cancellations,
{
    let st = ExportStatus {
        job_id,
        state: ExportJobState::Running,
        progress_milli: 0,
        error: None,
        output_path: Some(String::from_str(output_path)),
    };
    let st2 = clone_status(&st);
    set_status(mgr, st2);
    st
}

/// The progress of an encode that has written `out_time_ms` of a
/// `duration_ms` long input, in thousandths, clamped to one.
pub open spec fn spec_progress_milli(out_time_ms: nat, duration_ms: nat) -> nat {
    if out_time_ms * 1000 / duration_ms > 1000 {
        1000nat
    } else {
        out_time_ms * 1000 / duration_ms
    }
}

/// Progress never leaves `[0, 1]` and never decreases as the encoder
/// advances through the input.
pub proof fn lemma_progress_monotone(out1: nat, out2: nat, duration_ms: nat)
    requires
        duration_ms > 0,
        out1 <= out2,
    ensures
        spec_progress_milli(out1, duration_ms) <= spec_progress_milli(out2, duration_ms) <= 1000,
{
    assert(out1 * 1000 <= out2 * 1000) by (nonlinear_arith)
        requires out1 <= out2,
    ;
    assert(out1 * 1000 / duration_ms <= out2 * 1000 / duration_ms) by (nonlinear_arith)
        requires duration_ms > 0, out1 * 1000 <= out2 * 1000,
    ;
}

/// Writes a progress snapshot derived from an `out_time_ms=` report.
pub fn record_progress(
    mgr: &mut ExportManager,
    job_id: u64,
    out_time_ms: u64,
    duration_ms: u64,
    output_path: &str,
) -> (st: ExportStatus)
    requires
        duration_ms > 0,
        out_time_ms <= 0x10000000000000u64,
    ensures
        st@.job_id == job_id,
        st@.state == ExportJobState::Running,
        st@.progress_milli as nat == spec_progress_milli(out_time_ms as nat, duration_ms as nat),
        st@.progress_milli <= 1000,
        st@.error is None,
        st@.output_path == Some(output_path@),
        statuses_view(final(mgr).statuses) == spec_set_status(
            statuses_view(old(mgr).statuses),
            st@,
        ),
        final(mgr).queue == old(mgr).queue,
        final(mgr).running == old(mgr).running,
        final(mgr).cancellations == old(mgr).cancellations,
{
    proof {
        assert((out_time_ms as int) * 1000 <= 0x10000000000000 * 1000) by (nonlinear_arith)
            requires out_time_ms <= 0x10000000000000u64,
        ;
    }
    let scaled: u64 = out_time_ms * 1000;
    let ratio: u64 = scaled / duration_ms;
    let progress: u32 = if ratio > 1000 { 1000 } else { ratio as u32 };
    let st = ExportStatus {
        job_id,
        state: ExportJobState::Running,
        progress_milli: progress,
        error: None,
        output_path: Some(String::from_str(output_path)),
    };
    let st2 = clone_status(&st);
    set_status(mgr, st2);
    st
}

/// A whole stream of encoder reports maps to monotone progress: when
/// the reported `out_time_ms` values never decrease, neither do the
/// progress values derived for the job, and every one lies in `[0, 1]`.
pub proof fn lemma_progress_stream_monotone(outs: Seq<nat>, duration_ms: nat)
    requires
        duration_ms > 0,
        forall|i: int, j: int| 0 <= i <= j < outs.len() ==> outs[i] <= outs[j],
    ensures
        forall|i: int, j: int|
            0 <= i <= j < outs.len() ==> #[trigger] spec_progress_milli(outs[i], duration_ms)
                <= #[trigger] spec_progress_milli(outs[j], duration_ms),
        forall|i: int|
            0 <= i < outs.len() ==> #[trigger] spec_progress_milli(outs[i], duration_ms) <= 1000,
{
    assert forall|i: int, j: int|
        0 <= i <= j < outs.len() implies #[trigger] spec_progress_milli(outs[i], duration_ms)
        <= #[trigger] spec_progress_milli(outs[j], duration_ms) by {
        lemma_progress_monotone(outs[i], outs[j], duration_ms);
    }
    assert forall|i: int|
        0 <= i < outs.len() implies #[trigger] spec_progress_milli(outs[i], duration_ms)
        <= 1000 by {
        lemma_progress_monotone(outs[i], outs[i], duration_ms);
    }
}

/// The cancellation set without `id`.
pub open spec fn spec_remove_id(s: Seq<u64>, id: u64) -> Seq<u64> {
    s.filter(|x: u64| x != id)
}

/// The final status written when a job ends: completed with full
/// progress on success, failed with the last observed progress and the
/// error text otherwise; the job's cancellation flag is dropped.
pub fn finish_job(
    mgr: &mut ExportManager,
    job_id: u64,
    ok: bool,
    error: Option<String>,
    last_progress_milli: u32,
    output_path: &str,
) -> (st: ExportStatus)
    ensures
        st@.job_id == job_id,
        ok ==> st@.state == ExportJobState::Completed && st@.progress_milli == 1000 && st@.error
            is None,
        !ok ==> st@.state == ExportJobState::Failed && st@.progress_milli == last_progress_milli
            && st@.error == opt_view(error),
        st@.output_path == Some(output_path@),
        statuses_view(final(mgr).statuses) == spec_set_status(
            statuses_view(old(mgr).statuses),
            st@,
        ),
        final(mgr).cancellations@ == spec_remove_id(old(mgr).cancellations@, job_id),
        final(mgr).queue == old(mgr).queue,
        final(mgr).running == old(mgr).running,
{
    let st = ExportStatus {
        job_id,
        state: if ok { ExportJobState::Completed } else { ExportJobState::Failed },
        progress_milli: if ok { 1000 } else { last_progress_milli },
        error: if ok { None } else { error },
        output_path: Some(String::from_str(output_path)),
    };
    let st2 = clone_status(&st);
    set_status(mgr, st2);
    let ghost cv = mgr.cancellations@;
    let mut kept: Vec<u64> = Vec::new();
    let mut i: usize = 0;
    proof {
        reveal(Seq::filter);
        assert(cv.take(0) =~= Seq::<u64>::empty());
        assert(kept@ =~= spec_remove_id(cv.take(0), job_id));
    }
    while i < mgr.cancellations.len()
        invariant
            i <= mgr.cancellations@.len(),
            cv == mgr.cancellations@,
            kept@ == spec_remove_id(cv.take(i as int), job_id),
        decreases mgr.cancellations@.len() - i,
    {
        proof {
            reveal(Seq::filter);
            assert(cv.take(i as int + 1).drop_last() =~= cv.take(i as int));
            assert(cv.take(i as int + 1).last() == cv[i as int]);
        }
        let c = mgr.cancellations[i];
        if c != job_id {
            kept.push(c);
        }
        i = i + 1;
    }
    proof {
        assert(cv.take(cv.len() as int) =~= cv);
    }
    mgr.cancellations = kept;
    st
}

/// Whether a cancellation was requested for `id`.
pub fn poll_cancelled(mgr: &ExportManager, id: u64) -> (r: bool)
    ensures
        r == mgr.cancellations@.contains(id),
{
    let mut i: usize = 0;
    while i < mgr.cancellations.len()
        invariant
            i <= mgr.cancellations@.len(),
            forall|j: int| 0 <= j < i ==> mgr.cancellations@[j] != id,
        decreases mgr.cancellations@.len() - i,
    {
        if mgr.cancellations[i] == id {
            proof {
                assert(mgr.cancellations@.contains(id));
            }
            return true;
        }
        i = i + 1;
    }
    proof {
        assert(!mgr.cancellations@.contains(id));
    }
    false
}

/// Requests cancellation of a job: records the flag and, when the job
/// has a status, marks it cancelled.
pub fn cancel_export(mgr: &mut ExportManager, job_id: u64)
    ensures
        final(mgr).cancellations@ == old(mgr).cancellations@.push(job_id),
        spec_has_status(statuses_view(old(mgr).statuses), job_id) ==> {
            let i = spec_status_idx(statuses_view(old(mgr).statuses), job_id);
            let prior = statuses_view(old(mgr).statuses)[i];
            statuses_view(final(mgr).statuses) == statuses_view(old(mgr).statuses).update(
                i,
                StatusView {
                    job_id: prior.job_id,
                    state: ExportJobState::Cancelled,
                    progress_milli: prior.progress_milli,
                    error: prior.error,
                    output_path: prior.output_path,
                },
            )
        },
        !spec_has_status(statuses_view(old(mgr).statuses), job_id) ==> statuses_view(
            final(mgr).statuses,
        ) == statuses_view(old(mgr).statuses),
        final(mgr).queue == old(mgr).queue,
        final(mgr).running == old(mgr).running,
{
    mgr.cancellations.push(job_id);
    let idx = find_status(&mgr.statuses, job_id);
    match idx {
        Some(i) => {
            let prior = clone_status(&mgr.statuses[i]);
            mgr.statuses.set(
                i,
                ExportStatus {
                    job_id: prior.job_id,
                    state: ExportJobState::Cancelled,
                    progress_milli: prior.progress_milli,
                    error: prior.error,
                    output_path: prior.output_path,
                },
            );
            proof {
                assert(statuses_view(mgr.statuses) =~= statuses_view(old(mgr).statuses).update(
                    spec_status_idx(statuses_view(old(mgr).statuses), job_id),
                    statuses_view(mgr.statuses)[i as int],
                ));
            }
        },
        None => {
            proof {
                assert(statuses_view(mgr.statuses) =~= statuses_view(old(mgr).statuses));
            }
        },
    }
}

/// Looks a job's status up: present exactly when a status was recorded
/// for the id, else `export_not_found`.
pub fn get_export_status(mgr: &ExportManager, job_id: u64) -> (r: Result<ExportStatus, RecError>)
    ensures
        spec_has_status(statuses_view(mgr.statuses), job_id) ==> (r matches Ok(st) && st@
            == statuses_view(mgr.statuses)[spec_status_idx(statuses_view(mgr.statuses), job_id)]),
        !spec_has_status(statuses_view(mgr.statuses), job_id) ==> r == Err::<
            ExportStatus,
            RecError,
        >(RecError::ExportNotFound),
{
    let idx = find_status(&mgr.statuses, job_id);
    match idx {
        Some(i) => Ok(clone_status(&mgr.statuses[i])),
        None => Err(RecError::ExportNotFound),
    }
}

/// The bitrate argument: at least 1 kbps, suffixed `k`.
pub open spec fn spec_bitrate_arg(kbps: u32) -> Seq<char> {
    spec_u64_str(if kbps == 0 { 1nat } else { kbps as nat }) + "k"@
}

/// The export codec arguments for the requested format and bitrate.
pub open spec fn spec_export_codec_args(format: VideoFormat, kbps: u32) -> Seq<Seq<char>> {
    match format {
        VideoFormat::H265 => seq![
            "-c:v"@,
            "libx265"@,
            "-preset"@,
            "fast"@,
            "-b:v"@,
            spec_bitrate_arg(kbps),
        ],
        VideoFormat::H264 => seq![
            "-c:v"@,
            "libx264"@,
            "-preset"@,
            "fast"@,
            "-pix_fmt"@,
            "yuv420p"@,
            "-b:v"@,
            spec_bitrate_arg(kbps),
        ],
    }
}

/// The complete export encoder argument list.
pub open spec fn spec_export_args(
    req: ExportRequest,
    filter: Seq<char>,
    has_camera: bool,
) -> Seq<Seq<char>> {
    seq!["-y"@, "-i"@, req.input_path@] + (if has_camera {
        seq!["-i"@, crate::capture::opt_seq(req.camera_path)]
    } else {
        Seq::<Seq<char>>::empty()
    }) + seq![
        "-filter_complex"@,
        filter,
        "-map"@,
        "[v]"@,
        "-map"@,
        "0:a?"@,
        "-r"@,
        spec_u64_str(req.profile.fps as nat),
    ] + spec_export_codec_args(req.profile.format, req.profile.bitrate_kbps) + seq![
        "-c:a"@,
        "aac"@,
        "-b:a"@,
        "160k"@,
        "-progress"@,
        "pipe:1"@,
        "-nostats"@,
        req.output_path@,
    ]
}

/// Appends one argument.
fn push_arg(args: &mut Vec<String>, s: &str)
    ensures
        argv_view(*final(args)) == argv_view(*old(args)) + seq![s@],
{
    args.push(String::from_str(s));
    proof {
        assert(argv_view(*args) =~= argv_view(*old(args)) + seq![s@]);
    }
}

/// Appends one owned argument.
fn push_arg_string(args: &mut Vec<String>, s: String)
    ensures
        argv_view(*final(args)) == argv_view(*old(args)) + seq![s@],
{
    let ghost v = s@;
    args.push(s);
    proof {
        assert(argv_view(*args) =~= argv_view(*old(args)) + seq![v]);
    }
}

/// Assembles the export encoder argument list: the input (and the camera
/// sidecar when present), the composed filter, stream mapping, codec and
/// bitrate, audio, progress reporting, and the output path.
#[verifier::rlimit(100)]
pub fn build_export_args(request: &ExportRequest, filter: String, has_camera: bool) -> (r: Vec<
    String,
>)
    requires
        has_camera ==> request.camera_path is Some,
    ensures
        argv_view(r) == spec_export_args(*request, filter@, has_camera),
{
    let ghost filter_view = filter@;
    let mut args: Vec<String> = Vec::new();
    push_arg(&mut args, "-y");
    push_arg(&mut args, "-i");
    push_arg(&mut args, request.input_path.as_str());
    let ghost mut acc = seq!["-y"@, "-i"@, request.input_path@];
    proof {
        assert(argv_view(args) =~= acc);
    }
    if has_camera {
        push_arg(&mut args, "-i");
        match &request.camera_path {
            Some(p) => {
                push_arg(&mut args, p.as_str());
            },
            None => {
                push_arg(&mut args, "");
            },
        }
    }
    proof {
        acc = acc + (if has_camera {
            seq!["-i"@, crate::capture::opt_seq(request.camera_path)]
        } else {
            Seq::<Seq<char>>::empty()
        });
        assert(argv_view(args) =~= acc);
    }
    push_arg(&mut args, "-filter_complex");
    push_arg_string(&mut args, filter);
    push_arg(&mut args, "-map");
    push_arg(&mut args, "[v]");
    push_arg(&mut args, "-map");
    push_arg(&mut args, "0:a?");
    push_arg(&mut args, "-r");
    push_arg_string(&mut args, u64_to_string(request.profile.fps as u64));
    proof {
        acc = acc + seq![
            "-filter_complex"@,
            filter_view,
            "-map"@,
            "[v]"@,
            "-map"@,
            "0:a?"@,
            "-r"@,
            spec_u64_str(request.profile.fps as nat),
        ];
        assert(argv_view(args) =~= acc);
    }
    let kbps: u32 = if request.profile.bitrate_kbps == 0 { 1 } else { request.profile.bitrate_kbps };
    let mut bitrate = u64_to_string(kbps as u64);
    bitrate.append("k");
    match request.profile.format {
        VideoFormat::H265 => {
            push_arg(&mut args, "-c:v");
            push_arg(&mut args, "libx265");
            push_arg(&mut args, "-preset");
            push_arg(&mut args, "fast");
            push_arg(&mut args, "-b:v");
            push_arg_string(&mut args, bitrate);
        },
        VideoFormat::H264 => {
            push_arg(&mut args, "-c:v");
            push_arg(&mut args, "libx264");
            push_arg(&mut args, "-preset");
            push_arg(&mut args, "fast");
            push_arg(&mut args, "-pix_fmt");
            push_arg(&mut args, "yuv420p");
            push_arg(&mut args, "-b:v");
            push_arg_string(&mut args, bitrate);
        },
    }
    proof {
        acc = acc + spec_export_codec_args(request.profile.format, request.profile.bitrate_kbps);
        assert(argv_view(args) =~= acc);
    }
    push_arg(&mut args, "-c:a");
    push_arg(&mut args, "aac");
    push_arg(&mut args, "-b:a");
    push_arg(&mut args, "160k");
    push_arg(&mut args, "-progress");
    push_arg(&mut args, "pipe:1");
    push_arg(&mut args, "-nostats");
    push_arg(&mut args, request.output_path.as_str());
    proof {
        acc = acc + seq![
            "-c:a"@,
            "aac"@,
            "-b:a"@,
            "160k"@,
            "-progress"@,
            "pipe:1"@,
            "-nostats"@,
            request.output_path@,
        ];
        assert(argv_view(args) =~= acc);
    }
    args
}

/// The encoder arguments of the preview re-encode: a 1024-wide, 30 fps,
/// silent H.264 rendering of the recording.
pub open spec fn spec_preview_encode_args(input: Seq<char>, output: Seq<char>) -> Seq<Seq<char>> {
    seq![
        "-y"@,
        "-i"@,
        input,
        "-vf"@,
        "scale=1024:-2"@,
        "-r"@,
        "30"@,
        "-c:v"@,
        "libx264"@,
        "-preset"@,
        "veryfast"@,
        "-pix_fmt"@,
        "yuv420p"@,
        "-an"@,
        output,
    ]
}

/// Assembles the preview re-encode argument list.
pub fn preview_encode_args(input_path: &str, preview_path: &str) -> (r: Vec<String>)
    ensures
        argv_view(r) == spec_preview_encode_args(input_path@, preview_path@),
{
    let mut args: Vec<String> = Vec::new();
    push_arg(&mut args, "-y");
    push_arg(&mut args, "-i");
    push_arg(&mut args, input_path);
    push_arg(&mut args, "-vf");
    push_arg(&mut args, "scale=1024:-2");
    push_arg(&mut args, "-r");
    push_arg(&mut args, "30");
    push_arg(&mut args, "-c:v");
    push_arg(&mut args, "libx264");
    push_arg(&mut args, "-preset");
    push_arg(&mut args, "veryfast");
    push_arg(&mut args, "-pix_fmt");
    push_arg(&mut args, "yuv420p");
    push_arg(&mut args, "-an");
    push_arg(&mut args, preview_path);
    proof {
        assert(argv_view(args) =~= spec_preview_encode_args(input_path@, preview_path@));
    }
    args
}

/// The text split into lines, scanning from `pos`: split at newlines,
/// each line's trailing carriage return removed, no line for a trailing
/// newline.
pub open spec fn spec_lines_from(s: Seq<char>, pos: int) -> Seq<Seq<char>>
    decreases s.len() - pos,
{
    if pos < 0 || pos >= s.len() {
        Seq::<Seq<char>>::empty()
    } else {
        let line_end = match spec_char_from(s, '\n', pos) {
            Some(i) => if pos <= i < s.len() {
                i
            } else {
                s.len() as int
            },
            None => s.len() as int,
        };
        let next = match spec_char_from(s, '\n', pos) {
            Some(i) => if pos <= i < s.len() {
                i + 1
            } else {
                s.len() as int
            },
            None => s.len() as int,
        };
        seq![spec_strip_cr(s.subrange(pos, line_end))] + spec_lines_from(s, next)
    }
}

/// Lines joined back with newlines.
pub open spec fn spec_join_nl(ls: Seq<Seq<char>>) -> Seq<char>
    decreases ls.len(),
{
    if ls.len() == 0 {
        Seq::<char>::empty()
    } else if ls.len() == 1 {
        ls[0]
    } else {
        spec_join_nl(ls.drop_last()) + seq!['\n'] + ls.last()
    }
}

/// The last `n` lines of the text, joined with newlines.
pub open spec fn spec_tail_lines(s: Seq<char>, n: nat) -> Seq<char> {
    let ls = spec_lines_from(s, 0);
    let start = if ls.len() > n {
        ls.len() - n
    } else {
        0
    };
    spec_join_nl(ls.skip(start as int))
}

/// Collects the lines of the text from `pos` on.
#[verifier::loop_isolation(false)]
fn scan_lines(text: &str, pos: usize, lines: &mut Vec<String>)
    requires
        pos <= text@.len(),
    ensures
        argv_view(*final(lines)) == argv_view(*old(lines)) + spec_lines_from(text@, pos as int),
    decreases text@.len() - pos,
{
    let n = text.unicode_len();
    if pos >= n {
        proof {
            assert(argv_view(*lines) =~= argv_view(*lines) + spec_lines_from(text@, pos as int));
        }
        return;
    }
    let nl = char_from(text, '\n', pos);
    let line_end: usize = match nl {
        Some(i) => i,
        None => n,
    };
    let raw = text.substring_char(pos, line_end);
    let rn = raw.unicode_len();
    let stripped: &str = if rn > 0 && raw.get_char(rn - 1) == '\r' {
        raw.substring_char(0, rn - 1)
    } else {
        raw
    };
    proof {
        assert(stripped@ =~= spec_strip_cr(text@.subrange(pos as int, line_end as int)));
    }
    let ghost before = argv_view(*lines);
    lines.push(String::from_str(stripped));
    proof {
        assert(argv_view(*lines) =~= before + seq![stripped@]);
    }
    let next: usize = match nl {
        Some(i) => i + 1,
        None => n,
    };
    scan_lines(text, next, lines);
    proof {
        assert(argv_view(*lines) =~= argv_view(*old(lines)) + spec_lines_from(
            text@,
            pos as int,
        ));
    }
}

/// The last `n` lines of a diagnostic text, joined with newlines: the
/// failure tail reported for a broken encode.
#[verifier::loop_isolation(false)]
pub fn tail_lines(text: &str, n: usize) -> (r: String)
    ensures
        r@ == spec_tail_lines(text@, n as nat),
{
    let mut lines: Vec<String> = Vec::new();
    scan_lines(text, 0, &mut lines);
    proof {
        assert(Seq::<Seq<char>>::empty() + spec_lines_from(text@, 0) =~= spec_lines_from(
            text@,
            0,
        ));
    }
    let start: usize = if lines.len() > n {
        lines.len() - n
    } else {
        0
    };
    let ghost tailv = argv_view(lines).skip(start as int);
    let mut out = String::new();
    let mut i: usize = start;
    proof {
        reveal_strlit("\n");
        assert(tailv.take(0) =~= Seq::<Seq<char>>::empty());
        assert(out@ =~= spec_join_nl(tailv.take(0)));
    }
    while i < lines.len()
        invariant
            start <= i <= lines@.len(),
            tailv == argv_view(lines).skip(start as int),
            out@ == spec_join_nl(tailv.take(i - start)),
        decreases lines@.len() - i,
    {
        proof {
            assert(tailv.take((i - start) as int + 1).drop_last() =~= tailv.take(
                (i - start) as int,
            ));
            assert(tailv.take((i - start) as int + 1).last() == tailv[(i - start) as int]);
            assert(tailv[(i - start) as int] == argv_view(lines)[i as int]);
        }
        if i > start {
            out.append("\n");
            proof {
                assert("\n"@ =~= seq!['\n']);
            }
        }
        out.append(lines[i].as_str());
        proof {
            assert(out@ =~= spec_join_nl(tailv.take((i - start) as int + 1)));
        }
        i = i + 1;
    }
    proof {
        assert(tailv.take((lines@.len() - start) as int) =~= tailv);
    }
    out
}

} // verus!
