use openclaw_linux::capture::{
    burst_result, bytes_to_base64, capture_command_result, capture_spawn_error, ffmpeg_clip_args, ffmpeg_inputs,
    fswebcam_args, list_cameras, portal_response_uri, portal_uri_path, screen_capture_tools,
    choose_screen_recorder, screen_record, screen_record_command, usable_capture, CaptureError,
    ScreenRecorder,
};

#[test]
fn error_messages() {
    assert_eq!(CaptureError::Portal("x".into()).message(), "portal unavailable: x");
    assert_eq!(CaptureError::Failed("y".into()).message(), "capture failed: y");
    assert_eq!(
        CaptureError::NotImplemented("z".into()).message(),
        "not implemented on this session: z"
    );
    match capture_spawn_error("grim", "not found") {
        CaptureError::Failed(m) => assert_eq!(m, "grim: not found"),
        other => panic!("unexpected {:?}", other),
    }
}

#[test]
fn portal_uri_becomes_a_path() {
    assert_eq!(portal_uri_path("file:///tmp/shot.png"), "/tmp/shot.png");
    assert_eq!(portal_uri_path("file://tmp/shot.png"), "/tmp/shot.png");
    assert_eq!(portal_uri_path("/already/a/path.png"), "/already/a/path.png");
    assert_eq!(portal_uri_path("file://"), "/");
}

#[test]
fn portal_response_needs_consent_and_uri() {
    match portal_response_uri(1, Some("file:///x".into())) {
        Err(CaptureError::Portal(m)) => assert_eq!(m, "portal denied (code 1)"),
        other => panic!("unexpected {:?}", other),
    }
    match portal_response_uri(0, None) {
        Err(CaptureError::Portal(m)) => assert_eq!(m, "portal response missing uri"),
        other => panic!("unexpected {:?}", other),
    }
    assert_eq!(portal_response_uri(0, Some("file:///x".into())).unwrap(), "file:///x");
}

#[test]
fn tool_results_are_judged() {
    assert_eq!(capture_command_result("grim", true, Some(0), vec![1, 2]).unwrap(), vec![1, 2]);
    match capture_command_result("grim", true, Some(0), vec![]) {
        Err(CaptureError::Failed(m)) => assert_eq!(m, "grim exit Some(0)"),
        other => panic!("unexpected {:?}", other),
    }
    match capture_command_result("import", false, None, vec![9]) {
        Err(CaptureError::Failed(m)) => assert_eq!(m, "import exit None"),
        other => panic!("unexpected {:?}", other),
    }
    assert_eq!(usable_capture(Ok(vec![7])), Some(vec![7]));
    assert_eq!(usable_capture(Ok(vec![])), None);
    assert_eq!(usable_capture(Err(CaptureError::Failed("x".into()))), None);
}

#[test]
fn burst_keeps_last_frame() {
    let frames = vec![Ok(vec![1]), Ok(vec![2]), Ok(vec![]), Err(CaptureError::Failed("x".into()))];
    assert_eq!(burst_result(frames).unwrap(), vec![2]);
    match burst_result(vec![Ok(vec![]), Err(CaptureError::Failed("x".into()))]) {
        Err(CaptureError::Failed(m)) => assert_eq!(m, "fswebcam burst produced no frames"),
        other => panic!("unexpected {:?}", other),
    }
}

#[test]
fn tool_tables() {
    let tools = screen_capture_tools();
    assert_eq!(tools.len(), 3);
    assert_eq!(tools[0].0, "grim");
    assert_eq!(tools[1].1, vec!["-f", "-"]);
    assert_eq!(tools[2].1, vec!["-window", "root", "png:-"]);
    assert_eq!(fswebcam_args(), vec!["-q", "-r", "1280x720", "--no-banner", "-"]);
    assert_eq!(ffmpeg_inputs(), vec!["/dev/video0", "default"]);
    let args = ffmpeg_clip_args("/dev/video0");
    assert_eq!(args.len(), 16);
    assert_eq!(args[6], "/dev/video0");
    assert_eq!(args[15], "pipe:1");
}

#[test]
fn record_and_cameras() {
    assert_eq!(choose_screen_recorder(true, Some(":0"), true, true).unwrap(), ScreenRecorder::WfRecorder);
    assert_eq!(choose_screen_recorder(true, Some(":0"), false, true).unwrap(), ScreenRecorder::FfmpegX11);
    assert_eq!(choose_screen_recorder(false, Some(":1"), true, true).unwrap(), ScreenRecorder::FfmpegX11);
    match choose_screen_recorder(false, None, true, true) {
        Err(CaptureError::NotImplemented(m)) => {
            assert_eq!(m, "screen.record needs wf-recorder (Wayland) or ffmpeg with an X11 display")
        }
        other => panic!("unexpected {:?}", other),
    }
    let rec = screen_record(ScreenRecorder::WfRecorder, Ok(vec![0x1a, 0x45])).unwrap();
    assert_eq!(rec.format, "webm");
    assert_eq!(rec.bytes, vec![0x1a, 0x45]);
    assert_eq!(rec.duration_ms, 2000);
    assert!(!rec.has_audio);
    match screen_record(ScreenRecorder::FfmpegX11, Ok(vec![])) {
        Err(CaptureError::Failed(m)) => assert_eq!(m, "screen.record: ffmpeg produced no output"),
        other => panic!("unexpected {:?}", other),
    }
    let (bin, args) = screen_record_command(ScreenRecorder::FfmpegX11, ":0", "/tmp/o.mp4");
    assert_eq!(bin, "ffmpeg");
    assert_eq!(args[7], ":0");
    assert_eq!(args.last().unwrap(), "/tmp/o.mp4");
    assert_eq!(list_cameras().unwrap(), vec!["default"]);
}

#[test]
fn captured_bytes_as_base64() {
    assert_eq!(bytes_to_base64(&[0x89, 0x50, 0x4e, 0x47]), "iVBORw==");
    assert_eq!(bytes_to_base64(&[]), "");
}
