//! Textual path derivation for the per-session artifacts and export
//! outputs. Paths are plain text here: a separator is `/` or `\`, and
//! joining uses `/`.

use vstd::prelude::*;
use crate::errors::RecError;
use crate::num::spec_u64_str;

verus! {

/// A path separator character.
pub open spec fn spec_is_sep(c: char) -> bool {
    c == '/' || c == '\\'
}

/// The index of the last separator, or `-1` when there is none.
pub open spec fn spec_last_sep(s: Seq<char>) -> int
    decreases s.len(),
{
    if s.len() == 0 {
        -1int
    } else if spec_is_sep(s.last()) {
        s.len() - 1
    } else {
        spec_last_sep(s.drop_last())
    }
}

/// The parent directory of a path, textually: `None` when the path has
/// no separator, the root itself when the last separator is the first
/// character, the prefix before the last separator otherwise.
pub open spec fn spec_parent_dir(s: Seq<char>) -> Option<Seq<char>> {
    let i = spec_last_sep(s);
    if i < 0 {
        None
    } else if i == 0 {
        Some(s.take(1))
    } else {
        Some(s.take(i))
    }
}

/// The name of the directory that holds the path: the last component of
/// its parent. Empty when that cannot be determined.
pub open spec fn spec_session_name(s: Seq<char>) -> Seq<char> {
    match spec_parent_dir(s) {
        None => Seq::<char>::empty(),
        Some(p) => p.skip(spec_last_sep(p) + 1),
    }
}

/// Finds the last separator of a path.
fn last_sep(s: &str) -> (r: Option<usize>)
    ensures
        r matches Some(i) ==> i as int == spec_last_sep(s@) && i < s@.len(),
        r is None ==> spec_last_sep(s@) == -1,
{
    let n = s.unicode_len();
    let mut i: usize = n;
    proof {
        assert(s@.take(n as int) =~= s@);
    }
    while i > 0
        invariant
            i <= n,
            n == s@.len(),
            spec_last_sep(s@) == spec_last_sep(s@.take(i as int)),
        decreases i,
    {
        let c = s.get_char(i - 1);
        proof {
            assert(s@.take(i as int).last() == s@[i as int - 1]);
            assert(s@.take(i as int).drop_last() =~= s@.take(i as int - 1));
        }
        if c == '/' || c == '\\' {
            return Some(i - 1);
        }
        i = i - 1;
    }
    proof {
        assert(s@.take(0) =~= Seq::<char>::empty());
    }
    None
}

/// The parent directory of a path, textually.
pub fn parent_dir(s: &str) -> (r: Option<String>)
    ensures
        ({
            let goal = spec_parent_dir(s@);
            match r {
                Some(p) => goal == Some(p@),
                None => goal is None,
            }
        }),
{
    match last_sep(s) {
        None => None,
        Some(i) => {
            if i == 0 {
                Some(String::from_str(s.substring_char(0, 1)))
            } else {
                Some(String::from_str(s.substring_char(0, i)))
            }
        },
    }
}

/// The name of the directory that holds the path.
pub fn session_name(s: &str) -> (r: String)
    ensures
        r@ == spec_session_name(s@),
{
    match parent_dir(s) {
        None => String::new(),
        Some(p) => {
            match last_sep(p.as_str()) {
                None => {
                    proof {
                        assert(p@.skip(0) =~= p@);
                    }
                    p
                },
                Some(i) => {
                    let n = p.as_str().unicode_len();
                    String::from_str(p.as_str().substring_char(i + 1, n))
                },
            }
        },
    }
}

/// The sidecar path `name` beside `path`: in the parent directory when
/// there is one, bare otherwise.
pub open spec fn spec_sibling(path: Seq<char>, name: Seq<char>) -> Seq<char> {
    match spec_parent_dir(path) {
        None => name,
        Some(p) => p + "/"@ + name,
    }
}

/// The edit state document beside an output file.
pub fn edit_state_path(output_path: &str) -> (r: String)
    ensures
        r@ == spec_sibling(output_path@, "edit_state.json"@),
{
    match parent_dir(output_path) {
        None => String::from_str("edit_state.json"),
        Some(p) => {
            let mut r = p;
            r.append("/");
            r.append("edit_state.json");
            r
        },
    }
}

/// The sidecar track document beside an input file; rejects a path whose
/// directory cannot be determined.
fn track_path(input_path: &str, name: &str) -> (r: Result<String, RecError>)
    ensures
        spec_parent_dir(input_path@) is Some ==> (r matches Ok(p) && p@ == spec_sibling(
            input_path@,
            name@,
        )),
        spec_parent_dir(input_path@) is None ==> r == Err::<String, RecError>(
            RecError::InvalidInputPath,
        ),
{
    match parent_dir(input_path) {
        None => Err(RecError::InvalidInputPath),
        Some(p) => {
            let mut r = p;
            r.append("/");
            r.append(name);
            Ok(r)
        },
    }
}

/// The zoom track document beside an input file.
pub fn zoom_track_path(input_path: &str) -> (r: Result<String, RecError>)
    ensures
        spec_parent_dir(input_path@) is Some ==> (r matches Ok(p) && p@ == spec_sibling(
            input_path@,
            "zoom_track.json"@,
        )),
        spec_parent_dir(input_path@) is None ==> r == Err::<String, RecError>(
            RecError::InvalidInputPath,
        ),
{
    track_path(input_path, "zoom_track.json")
}

/// The clip track document beside an input file.
pub fn clip_track_path(input_path: &str) -> (r: Result<String, RecError>)
    ensures
        spec_parent_dir(input_path@) is Some ==> (r matches Ok(p) && p@ == spec_sibling(
            input_path@,
            "clip_track.json"@,
        )),
        spec_parent_dir(input_path@) is None ==> r == Err::<String, RecError>(
            RecError::InvalidInputPath,
        ),
{
    track_path(input_path, "clip_track.json")
}

/// The camera track document beside an input file.
pub fn camera_track_path(input_path: &str) -> (r: Result<String, RecError>)
    ensures
        spec_parent_dir(input_path@) is Some ==> (r matches Ok(p) && p@ == spec_sibling(
            input_path@,
            "camera_track.json"@,
        )),
        spec_parent_dir(input_path@) is None ==> r == Err::<String, RecError>(
            RecError::InvalidInputPath,
        ),
{
    track_path(input_path, "camera_track.json")
}

/// Whether the zoom track is reused or must be derived: an existing
/// document is returned as is, never rebuilt, so a second call gives the
/// same path with no further work.
pub fn ensure_zoom_track(input_path: &str, already_built: bool) -> (r: Result<
    (String, bool),
    RecError,
>)
    ensures
        spec_parent_dir(input_path@) is Some ==> (r matches Ok(p) && p.0@ == spec_sibling(
            input_path@,
            "zoom_track.json"@,
        ) && p.1 == !already_built),
        spec_parent_dir(input_path@) is None ==> r == Err::<(String, bool), RecError>(
            RecError::InvalidInputPath,
        ),
{
    match zoom_track_path(input_path) {
        Ok(p) => Ok((p, !already_built)),
        Err(e) => Err(e),
    }
}

/// The application data root: the installation directory itself.
pub fn app_data_root(install_dir: &str) -> (r: String)
    ensures
        r@ == install_dir@,
{
    String::from_str(install_dir)
}

/// The work directory holding raw session artifacts.
pub fn work_base_dir(install_dir: &str) -> (r: String)
    ensures
        r@ == install_dir@ + "/work"@,
{
    let mut r = String::from_str(install_dir);
    r.append("/work");
    r
}

/// The re-encoded preview file for an output: named after the session
/// directory, in the export directory.
pub fn preview_path(output_path: &str, export_dir: &str) -> (r: String)
    ensures
        r@ == export_dir@ + "/Flash Recorder_"@ + (if spec_session_name(output_path@).len() > 0 {
            spec_session_name(output_path@)
        } else {
            "preview"@
        }) + "_preview.mp4"@,
{
    let session = session_name(output_path);
    let mut r = String::from_str(export_dir);
    r.append("/Flash Recorder_");
    if session.as_str().unicode_len() > 0 {
        r.append(session.as_str());
    } else {
        r.append("preview");
    }
    r.append("_preview.mp4");
    r
}

/// Whether a path is absolute: it starts at a root or a drive.
pub open spec fn spec_is_absolute(s: Seq<char>) -> bool {
    (s.len() >= 1 && spec_is_sep(s[0])) || (s.len() >= 3 && s[1] == ':' && spec_is_sep(s[2]))
}

/// Whether a path is absolute.
pub fn is_absolute(s: &str) -> (r: bool)
    ensures
        r == spec_is_absolute(s@),
{
    let n = s.unicode_len();
    if n >= 1 {
        let c0 = s.get_char(0);
        if c0 == '/' || c0 == '\\' {
            return true;
        }
    }
    if n >= 3 {
        let c1 = s.get_char(1);
        let c2 = s.get_char(2);
        if c1 == ':' && (c2 == '/' || c2 == '\\') {
            return true;
        }
    }
    false
}

/// The resolved output path of an export: an absolute requested path
/// with a parent is kept; anything else lands in the export directory,
/// named after the input's session directory (or `export`).
pub open spec fn spec_normalized_output(
    out: Seq<char>,
    input: Seq<char>,
    export_dir: Seq<char>,
) -> Seq<char> {
    if spec_is_absolute(out) && spec_parent_dir(out) is Some {
        out
    } else {
        export_dir + "/"@ + (if spec_session_name(input).len() > 0 {
            spec_session_name(input)
        } else {
            "export"@
        }) + ".mp4"@
    }
}

/// Resolves the output path of an export request.
pub fn normalize_export_output_path(output_path: &str, input_path: &str, export_dir: &str) -> (r:
    String)
    ensures
        r@ == spec_normalized_output(output_path@, input_path@, export_dir@),
{
    if is_absolute(output_path) {
        let has_parent = match parent_dir(output_path) {
            Some(_) => true,
            None => false,
        };
        if has_parent {
            return String::from_str(output_path);
        }
    }
    let session = session_name(input_path);
    let mut r = String::from_str(export_dir);
    r.append("/");
    if session.as_str().unicode_len() > 0 {
        r.append(session.as_str());
    } else {
        r.append("export");
    }
    r.append(".mp4");
    r
}

/// The session directory for a new recording: the work directory plus
/// the millisecond session id.
pub fn session_dir(work_base: &str, session_id: u64) -> (r: String)
    ensures
        r@ == work_base@ + "/"@ + spec_u64_str(session_id as nat),
{
    let mut r = String::from_str(work_base);
    r.append("/");
    crate::num::push_u64(&mut r, session_id);
    r
}

/// The export directory preference: the recordings directory under the
/// data root; the caller falls back to the user's video directory when
/// it cannot be created.
pub fn preferred_export_dir(install_dir: &str) -> (r: String)
    ensures
        r@ == install_dir@ + "/recordings"@,
{
    let mut r = String::from_str(install_dir);
    r.append("/recordings");
    r
}

/// The candidate locations of the encoder binary, probed in order: the
/// bundled copy beside the executable, the development tree's copy, the
/// current directory's copies, and finally the bundled relative path as
/// given.
pub fn encoder_candidates(bin_name: &str) -> (r: Vec<String>)
    ensures
        r@.len() == 4,
        r@[0]@ == "resources/ffmpeg/"@ + bin_name@,
        r@[1]@ == "src-tauri/ffmpeg/"@ + bin_name@,
        r@[2]@ == "ffmpeg/"@ + bin_name@,
        r@[3]@ == "resources/ffmpeg/"@ + bin_name@,
{
    let mut r: Vec<String> = Vec::new();
    let mut a = String::from_str("resources/ffmpeg/");
    a.append(bin_name);
    r.push(a);
    let mut b = String::from_str("src-tauri/ffmpeg/");
    b.append(bin_name);
    r.push(b);
    let mut c = String::from_str("ffmpeg/");
    c.append(bin_name);
    r.push(c);
    let mut d = String::from_str("resources/ffmpeg/");
    d.append(bin_name);
    r.push(d);
    r
}

} // verus!
