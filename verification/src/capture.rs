//! Screen, camera and portal capture: which tools to try with which arguments, how their
//! results are judged, and the errors reported.
use vstd::prelude::*;
use crate::device_auth::views;
use crate::encoding::{decimal, decimal_string, exit_code_debug, exit_code_debug_string};
use crate::text::{chars_of, has_prefix_in, strip_prefix, string_from_chars, sub_vec};

verus! {

/// Why a capture failed.
#[derive(Debug, Clone)]
pub enum CaptureError {
    Portal(String),
    Failed(String),
    NotImplemented(String),
}

/// The message of a capture error.
pub open spec fn capture_error_text(e: CaptureError) -> Seq<char> {
    match e {
        CaptureError::Portal(m) => "portal unavailable: "@ + m@,
        CaptureError::Failed(m) => "capture failed: "@ + m@,
        CaptureError::NotImplemented(m) => "not implemented on this session: "@ + m@,
    }
}

impl CaptureError {
    /// The message shown for this error.
    pub fn message(&self) -> (r: String)
        ensures
            r@ == capture_error_text(*self),
    {
        let (mut s, m) = match self {
            CaptureError::Portal(m) => (String::from_str("portal unavailable: "), m),
            CaptureError::Failed(m) => (String::from_str("capture failed: "), m),
            CaptureError::NotImplemented(m) => (
                String::from_str("not implemented on this session: "),
                m,
            ),
        };
        s.append(m.as_str());
        s
    }
}

/// Captured bytes as standard base64, which decodes back to the bytes.
pub fn bytes_to_base64(bytes: &[u8]) -> (r: String)
    ensures
        r@ == crate::encoding::b64_standard(bytes@),
        crate::crypto::b64_standard_decoded(r@) == Some(bytes@),
{
    crate::crypto::base64_standard_encode(bytes)
}

/// The bytes of a capture attempt that produced output.
pub open spec fn usable(r: Result<Vec<u8>, CaptureError>) -> Option<Seq<u8>> {
    match r {
        Ok(b) => if b@.len() > 0 {
            Some(b@)
        } else {
            None
        },
        Err(_) => None,
    }
}

/// The bytes of a capture attempt, when it succeeded with output; the next tool is
/// tried otherwise.
pub fn usable_capture(r: Result<Vec<u8>, CaptureError>) -> (out: Option<Vec<u8>>)
    ensures
        match usable(r) {
            Some(b) => out matches Some(v) && v@ == b,
            None => out is None,
        },
{
    match r {
        Ok(b) => if b.len() > 0 {
            Some(b)
        } else {
            None
        },
        Err(_) => None,
    }
}

/// Builds a list of owned strings from literals.
fn owned_strings(items: &[&str]) -> (r: Vec<String>)
    ensures
        views(r@) == Seq::new(items@.len(), |i: int| items@[i]@),
{
    let mut out: Vec<String> = Vec::new();
    let mut i: usize = 0;
    while i < items.len()
        invariant
            i <= items.len(),
            out@.len() == i,
            forall|k: int| 0 <= k < i ==> #[trigger] out@[k]@ == items@[k]@,
        decreases items.len() - i,
    {
        out.push(String::from_str(items[i]));
        i = i + 1;
    }
    assert(views(out@) =~= Seq::new(items@.len(), |i: int| items@[i]@));
    out
}

/// The screen capture tools tried after the portal, in order, with their arguments:
/// `grim`, `gnome-screenshot`, then ImageMagick's `import`.
pub open spec fn screen_tools() -> Seq<(Seq<char>, Seq<Seq<char>>)> {
    seq![
        ("grim"@, seq!["-"@]),
        ("gnome-screenshot"@, seq!["-f"@, "-"@]),
        ("import"@, seq!["-window"@, "root"@, "png:-"@]),
    ]
}

/// The screen capture tools to try after the portal (see `screen_tools`).
pub fn screen_capture_tools() -> (r: Vec<(String, Vec<String>)>)
    ensures
        r@.len() == screen_tools().len(),
        forall|i: int|
            0 <= i < r@.len() ==> (#[trigger] r@[i]).0@ == screen_tools()[i].0 && views(r@[i].1@)
                == screen_tools()[i].1,
{
    let mut out: Vec<(String, Vec<String>)> = Vec::new();
    let a = owned_strings(&["-"]);
    out.push((String::from_str("grim"), a));
    let b = owned_strings(&["-f", "-"]);
    out.push((String::from_str("gnome-screenshot"), b));
    let c = owned_strings(&["-window", "root", "png:-"]);
    out.push((String::from_str("import"), c));
    proof {
        assert(views(out@[0].1@) =~= screen_tools()[0].1);
        assert(views(out@[1].1@) =~= screen_tools()[1].1);
        assert(views(out@[2].1@) =~= screen_tools()[2].1);
    }
    out
}

/// The `fswebcam` arguments for one 1280x720 JPEG frame on standard output.
pub open spec fn fswebcam_arg_list() -> Seq<Seq<char>> {
    seq!["-q"@, "-r"@, "1280x720"@, "--no-banner"@, "-"@]
}

/// The `fswebcam` arguments (see `fswebcam_arg_list`).
pub fn fswebcam_args() -> (r: Vec<String>)
    ensures
        views(r@) == fswebcam_arg_list(),
{
    let r = owned_strings(&["-q", "-r", "1280x720", "--no-banner", "-"]);
    assert(views(r@) =~= fswebcam_arg_list());
    r
}

/// The video inputs `ffmpeg` tries for a camera clip, in order.
pub open spec fn ffmpeg_input_list() -> Seq<Seq<char>> {
    seq!["/dev/video0"@, "default"@]
}

/// The video inputs for a camera clip (see `ffmpeg_input_list`).
pub fn ffmpeg_inputs() -> (r: Vec<String>)
    ensures
        views(r@) == ffmpeg_input_list(),
{
    let r = owned_strings(&["/dev/video0", "default"]);
    assert(views(r@) =~= ffmpeg_input_list());
    r
}

/// The `ffmpeg` arguments that grab a 1.5 s clip from `input` and write one MJPEG frame to
/// standard output.
pub open spec fn ffmpeg_clip_arg_list(input: Seq<char>) -> Seq<Seq<char>> {
    seq![
        "-hide_banner"@,
        "-loglevel"@,
        "error"@,
        "-f"@,
        "v4l2"@,
        "-i"@,
        input,
        "-t"@,
        "1.5"@,
        "-frames:v"@,
        "1"@,
        "-f"@,
        "image2pipe"@,
        "-vcodec"@,
        "mjpeg"@,
        "pipe:1"@,
    ]
}

/// The `ffmpeg` arguments for a clip from `input` (see `ffmpeg_clip_arg_list`).
pub fn ffmpeg_clip_args(input: &str) -> (r: Vec<String>)
    ensures
        views(r@) == ffmpeg_clip_arg_list(input@),
{
    let mut r: Vec<String> = Vec::new();
    r.push(String::from_str("-hide_banner"));
    r.push(String::from_str("-loglevel"));
    r.push(String::from_str("error"));
    r.push(String::from_str("-f"));
    r.push(String::from_str("v4l2"));
    r.push(String::from_str("-i"));
    r.push(String::from_str(input));
    r.push(String::from_str("-t"));
    r.push(String::from_str("1.5"));
    r.push(String::from_str("-frames:v"));
    r.push(String::from_str("1"));
    r.push(String::from_str("-f"));
    r.push(String::from_str("image2pipe"));
    r.push(String::from_str("-vcodec"));
    r.push(String::from_str("mjpeg"));
    r.push(String::from_str("pipe:1"));
    assert(views(r@) =~= ffmpeg_clip_arg_list(input@));
    r
}

/// The error for a capture tool that could not be started.
pub fn capture_spawn_error(bin: &str, err: &str) -> (r: CaptureError)
    ensures
        r matches CaptureError::Failed(m) && m@ == bin@ + ": "@ + err@,
{
    let mut m = String::from_str(bin);
    m.append(": ");
    m.append(err);
    CaptureError::Failed(m)
}

/// The outcome of a finished capture tool: its output when it succeeded with some, else
/// a failure naming the tool and its exit code.
pub fn capture_command_result(bin: &str, success: bool, code: Option<i32>, stdout: Vec<u8>) -> (r:
    Result<Vec<u8>, CaptureError>)
    ensures
        success && stdout@.len() > 0 ==> (r matches Ok(b) && b@ == stdout@),
        !(success && stdout@.len() > 0) ==> (r matches Err(CaptureError::Failed(m)) && m@ == bin@
            + " exit "@ + exit_code_debug(code)),
{
    if success && stdout.len() > 0 {
        return Ok(stdout);
    }
    let mut m = String::from_str(bin);
    m.append(" exit ");
    let c = exit_code_debug_string(code);
    m.append(c.as_str());
    Err(CaptureError::Failed(m))
}

/// The last usable frame of a burst.
pub open spec fn last_usable(frames: Seq<Result<Vec<u8>, CaptureError>>) -> Option<Seq<u8>>
    decreases frames.len(),
{
    if frames.len() == 0 {
        None
    } else {
        match usable(frames.last()) {
            Some(b) => Some(b),
            None => last_usable(frames.drop_last()),
        }
    }
}

/// The result of an `fswebcam` burst: the last frame that came out, else a failure.
pub fn burst_result(frames: Vec<Result<Vec<u8>, CaptureError>>) -> (r: Result<Vec<u8>, CaptureError>)
    ensures
        last_usable(frames@) is Some ==> (r matches Ok(v) && Some(v@) == last_usable(frames@)),
        last_usable(frames@) is None ==> (r matches Err(CaptureError::Failed(m)) && m@
            == "fswebcam burst produced no frames"@),
{
    let ghost all = frames@;
    let mut fs = frames;
    let mut n: usize = fs.len();
    assert(all.take(n as int) =~= all);
    while n > 0
        invariant
            n <= fs@.len(),
            fs@ == all,
            all == frames@,
            last_usable(all) == last_usable(all.take(n as int)),
        decreases n,
    {
        let ok = match &fs[n - 1] {
            Ok(b) => b.len() > 0,
            Err(_) => false,
        };
        proof {
            assert(all.take(n as int).drop_last() =~= all.take(n - 1));
            assert(all.take(n as int).last() == all[n - 1]);
        }
        if ok {
            proof {
                assert(usable(all[n - 1]) is Some);
                assert(last_usable(all.take(n as int)) == usable(all[n - 1]));
            }
            let f = fs.remove(n - 1);
            match f {
                Ok(b) => return Ok(b),
                Err(e) => return Err(e),
            }
        }
        n = n - 1;
    }
    Err(CaptureError::Failed(String::from_str("fswebcam burst produced no frames")))
}

/// No screen capture tool worked.
pub fn screen_snapshot_unavailable() -> (r: CaptureError)
    ensures
        r matches CaptureError::Failed(m) && m@
            == "no screen capture tool found (install grim, gnome-screenshot, or ImageMagick)"@,
{
    CaptureError::Failed(
        String::from_str(
            "no screen capture tool found (install grim, gnome-screenshot, or ImageMagick)",
        ),
    )
}

/// Neither `ffmpeg` nor `fswebcam` produced a clip.
pub fn camera_clip_unavailable() -> (r: CaptureError)
    ensures
        r matches CaptureError::Failed(m) && m@
            == "camera.clip: install ffmpeg (v4l2) or fswebcam for a short JPEG burst"@,
{
    CaptureError::Failed(
        String::from_str("camera.clip: install ffmpeg (v4l2) or fswebcam for a short JPEG burst"),
    )
}

/// No `ffmpeg` input produced a frame.
pub fn ffmpeg_clip_unavailable() -> (r: CaptureError)
    ensures
        r matches CaptureError::Failed(m) && m@ == "ffmpeg camera clip produced no frames"@,
{
    CaptureError::Failed(String::from_str("ffmpeg camera clip produced no frames"))
}

/// `fswebcam` produced no snapshot.
pub fn camera_snap_unavailable() -> (r: CaptureError)
    ensures
        r matches CaptureError::Failed(m) && m@
            == "no camera tool found (install fswebcam or use portal capture)"@,
{
    CaptureError::Failed(
        String::from_str("no camera tool found (install fswebcam or use portal capture)"),
    )
}

/// Neither gpsd nor GeoClue gave a position.
pub fn location_unavailable() -> (r: CaptureError)
    ensures
        r matches CaptureError::NotImplemented(m) && m@
            == "install gpsd+gpspipe or geoclue2 demo tools for location.get"@,
{
    CaptureError::NotImplemented(
        String::from_str("install gpsd+gpspipe or geoclue2 demo tools for location.get"),
    )
}

/// The tool that records the screen.
#[derive(Debug, Clone, Copy, PartialEq, Eq, Structural)]
pub enum ScreenRecorder {
    /// `wf-recorder` on a Wayland session, writing WebM.
    WfRecorder,
    /// `ffmpeg` grabbing the X11 display, writing MP4.
    FfmpegX11,
}

/// How long a screen recording runs, in milliseconds.
pub const SCREEN_RECORD_MS: u64 = 2000;

/// A finished screen recording.
#[derive(Debug, Clone)]
pub struct ScreenRecording {
    pub format: String,
    pub bytes: Vec<u8>,
    pub duration_ms: u64,
    pub has_audio: bool,
}

/// Which recorder to use: `wf-recorder` on Wayland when it is installed, else `ffmpeg`
/// when it is installed and an X11 display is set; none otherwise.
pub open spec fn recorder_choice(
    wayland: bool,
    x11_display: Option<Seq<char>>,
    has_wf_recorder: bool,
    has_ffmpeg: bool,
) -> Option<ScreenRecorder> {
    if wayland && has_wf_recorder {
        Some(ScreenRecorder::WfRecorder)
    } else if has_ffmpeg && (x11_display matches Some(d) && d.len() > 0) {
        Some(ScreenRecorder::FfmpegX11)
    } else {
        None
    }
}

/// The message when no screen recorder can run.
pub open spec fn no_recorder_text() -> Seq<char> {
    "screen.record needs wf-recorder (Wayland) or ffmpeg with an X11 display"@
}

/// The recorder for this session (see `recorder_choice`); not implemented here when
/// there is none.
pub fn choose_screen_recorder(
    wayland: bool,
    x11_display: Option<&str>,
    has_wf_recorder: bool,
    has_ffmpeg: bool,
) -> (r: Result<ScreenRecorder, CaptureError>)
    ensures
        match recorder_choice(wayland, crate::text::opt_view(x11_display), has_wf_recorder, has_ffmpeg) {
            Some(rec) => r == Ok::<ScreenRecorder, CaptureError>(rec),
            None => r matches Err(CaptureError::NotImplemented(m)) && m@ == no_recorder_text(),
        },
{
    if wayland && has_wf_recorder {
        return Ok(ScreenRecorder::WfRecorder);
    }
    if has_ffmpeg {
        match x11_display {
            Some(d) => {
                if !d.is_empty() {
                    return Ok(ScreenRecorder::FfmpegX11);
                }
            },
            None => {},
        }
    }
    Err(
        CaptureError::NotImplemented(
            String::from_str("screen.record needs wf-recorder (Wayland) or ffmpeg with an X11 display"),
        ),
    )
}

/// The program a recorder runs.
pub open spec fn recorder_bin(rec: ScreenRecorder) -> Seq<char> {
    match rec {
        ScreenRecorder::WfRecorder => "wf-recorder"@,
        ScreenRecorder::FfmpegX11 => "ffmpeg"@,
    }
}

/// The container a recorder writes.
pub open spec fn recorder_format(rec: ScreenRecorder) -> Seq<char> {
    match rec {
        ScreenRecorder::WfRecorder => "webm"@,
        ScreenRecorder::FfmpegX11 => "mp4"@,
    }
}

/// The arguments of a recording into `out`: `wf-recorder` encodes VP8 into the file and
/// is stopped after `SCREEN_RECORD_MS`; `ffmpeg` grabs `display` for two seconds into an
/// MP4 file.
pub open spec fn screen_record_arg_list(rec: ScreenRecorder, display: Seq<char>, out: Seq<char>) -> Seq<
    Seq<char>,
> {
    match rec {
        ScreenRecorder::WfRecorder => seq!["-c"@, "libvpx"@, "-f"@, out],
        ScreenRecorder::FfmpegX11 => seq![
            "-hide_banner"@,
            "-loglevel"@,
            "error"@,
            "-y"@,
            "-f"@,
            "x11grab"@,
            "-i"@,
            display,
            "-t"@,
            "2"@,
            "-pix_fmt"@,
            "yuv420p"@,
            "-f"@,
            "mp4"@,
            out,
        ],
    }
}

/// The container a recorder writes (see `recorder_format`).
pub fn screen_record_format(rec: ScreenRecorder) -> (r: String)
    ensures
        r@ == recorder_format(rec),
{
    match rec {
        ScreenRecorder::WfRecorder => String::from_str("webm"),
        ScreenRecorder::FfmpegX11 => String::from_str("mp4"),
    }
}

/// The program and arguments that record the screen into `out` (see
/// `screen_record_arg_list`).
pub fn screen_record_command(rec: ScreenRecorder, display: &str, out: &str) -> (r: (String, Vec<String>))
    ensures
        r.0@ == recorder_bin(rec),
        views(r.1@) == screen_record_arg_list(rec, display@, out@),
{
    match rec {
        ScreenRecorder::WfRecorder => {
            let mut v: Vec<String> = Vec::new();
            v.push(String::from_str("-c"));
            v.push(String::from_str("libvpx"));
            v.push(String::from_str("-f"));
            v.push(String::from_str(out));
            assert(views(v@) =~= screen_record_arg_list(rec, display@, out@));
            (String::from_str("wf-recorder"), v)
        },
        ScreenRecorder::FfmpegX11 => {
            let mut v: Vec<String> = Vec::new();
            v.push(String::from_str("-hide_banner"));
            v.push(String::from_str("-loglevel"));
            v.push(String::from_str("error"));
            v.push(String::from_str("-y"));
            v.push(String::from_str("-f"));
            v.push(String::from_str("x11grab"));
            v.push(String::from_str("-i"));
            v.push(String::from_str(display));
            v.push(String::from_str("-t"));
            v.push(String::from_str("2"));
            v.push(String::from_str("-pix_fmt"));
            v.push(String::from_str("yuv420p"));
            v.push(String::from_str("-f"));
            v.push(String::from_str("mp4"));
            v.push(String::from_str(out));
            assert(views(v@) =~= screen_record_arg_list(rec, display@, out@));
            (String::from_str("ffmpeg"), v)
        },
    }
}

/// What a recording gives: the recorded file's bytes, when there are any, as a recording
/// of `SCREEN_RECORD_MS` without sound in the recorder's format; a failure naming the
/// recorder when the file is empty; the capture error when recording or reading failed.
pub fn screen_record(rec: ScreenRecorder, recorded: Result<Vec<u8>, CaptureError>) -> (r: Result<
    ScreenRecording,
    CaptureError,
>)
    ensures
        match recorded {
            Ok(b) => if b@.len() > 0 {
                r matches Ok(x) && x.bytes@ == b@ && x.format@ == recorder_format(rec)
                    && x.duration_ms == SCREEN_RECORD_MS && !x.has_audio
            } else {
                r matches Err(CaptureError::Failed(m)) && m@ == "screen.record: "@
                    + recorder_bin(rec) + " produced no output"@
            },
            Err(e) => r matches Err(e2) && e2 == e,
        },
{
    match recorded {
        Ok(b) => {
            if b.len() > 0 {
                Ok(
                    ScreenRecording {
                        format: screen_record_format(rec),
                        bytes: b,
                        duration_ms: SCREEN_RECORD_MS,
                        has_audio: false,
                    },
                )
            } else {
                let mut m = String::from_str("screen.record: ");
                match rec {
                    ScreenRecorder::WfRecorder => m.append("wf-recorder"),
                    ScreenRecorder::FfmpegX11 => m.append("ffmpeg"),
                }
                m.append(" produced no output");
                Err(CaptureError::Failed(m))
            }
        },
        Err(e) => Err(e),
    }
}

/// The cameras on offer: the default device only.
pub fn list_cameras() -> (r: Result<Vec<String>, CaptureError>)
    ensures
        r matches Ok(v) && views(v@) == seq!["default"@],
{
    let v = owned_strings(&["default"]);
    assert(views(v@) =~= seq!["default"@]);
    Ok(v)
}

/// The file path of a portal screenshot URI: the part after `file://` (given a leading
/// `/` when it lacks one), or the URI itself when it is not a `file://` URI.
pub open spec fn portal_path_of(uri: Seq<char>) -> Seq<char> {
    match strip_prefix(uri, "file://"@) {
        None => uri,
        Some(rest) => if rest.len() > 0 && rest[0] == '/' {
            rest
        } else {
            "/"@ + rest
        },
    }
}

/// The file path of a portal screenshot URI (see `portal_path_of`).
pub fn portal_uri_path(uri: &str) -> (r: String)
    ensures
        r@ == portal_path_of(uri@),
{
    let v = chars_of(uri);
    let p = chars_of("file://");
    if !has_prefix_in(&v, 0, v.len(), &p) {
        proof {
            assert(v@.subrange(0, v@.len() as int) =~= v@);
        }
        return String::from_str(uri);
    }
    proof {
        assert(v@.subrange(0, v@.len() as int) =~= v@);
    }
    let rest = sub_vec(&v, p.len(), v.len());
    if rest.len() > 0 && rest[0] == '/' {
        string_from_chars(&rest)
    } else {
        let mut out = String::from_str("/");
        let r = string_from_chars(&rest);
        out.append(r.as_str());
        out
    }
}

/// Reads the portal's answer to a screenshot request: the image URI when the user
/// allowed it and the portal sent one.
pub fn portal_response_uri(response: u32, uri: Option<String>) -> (r: Result<String, CaptureError>)
    ensures
        response != 0 ==> (r matches Err(CaptureError::Portal(m)) && m@ == "portal denied (code "@
            + decimal(response as nat) + ")"@),
        response == 0 && uri is None ==> (r matches Err(CaptureError::Portal(m)) && m@
            == "portal response missing uri"@),
        response == 0 && uri is Some ==> (r matches Ok(u) && uri == Some(u)),
{
    if response != 0 {
        let mut m = String::from_str("portal denied (code ");
        let d = decimal_string(response as u64);
        m.append(d.as_str());
        m.append(")");
        return Err(CaptureError::Portal(m));
    }
    match uri {
        Some(u) => Ok(u),
        None => Err(CaptureError::Portal(String::from_str("portal response missing uri"))),
    }
}

/// The error when the portal's screenshot file cannot be read.
pub fn portal_read_error(err: &str) -> (r: CaptureError)
    ensures
        r matches CaptureError::Failed(m) && m@ == "read portal screenshot: "@ + err@,
{
    let mut m = String::from_str("read portal screenshot: ");
    m.append(err);
    CaptureError::Failed(m)
}

} // verus!
