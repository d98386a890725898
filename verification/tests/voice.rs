use openclaw_linux::gateway_config::GatewayConnectionSettings;
use openclaw_linux::voice::{
    apply_voice_config, collect_voice_diagnostics, recorded_bytes, recorder_active, recorder_args,
    select_ptt_recorder, synthesize_talk_stub, temp_wav_name, wav_bytes_to_base64, PttError,
    PttState, VoiceRuntime, VoiceWakeConfig, ptt_stop_result,
};

#[test]
fn select_recorder_prefers_pw_record() {
    assert_eq!(select_ptt_recorder(true, true), Some("pw-record"));
    assert_eq!(select_ptt_recorder(true, false), Some("pw-record"));
    assert_eq!(select_ptt_recorder(false, true), Some("parecord"));
    assert_eq!(select_ptt_recorder(false, false), None);
}

#[test]
fn wav_base64_roundtrip() {
    assert_eq!(wav_bytes_to_base64(b"RIFF"), "UklGRg==");
}

#[test]
fn diagnostics_include_ptt_state_label() {
    let diag = collect_voice_diagnostics(true, false, PttState::Recording, true, false, true);
    assert!(diag.voice_wake_enabled);
    assert!(!diag.talk_enabled);
    assert_eq!(diag.ptt_state, "recording");
    assert!(diag.ptt_recorder_active);
    assert!(!diag.pw_record);
    assert!(diag.parecord);
}

fn config() -> VoiceWakeConfig {
    VoiceWakeConfig {
        enabled: true,
        talk_enabled: false,
        phrases: vec!["open claw".into()],
        locale: "en-US".into(),
    }
}

#[test]
fn ptt_start_stop_cycle() {
    let mut rt: VoiceRuntime<u32> = VoiceRuntime::new(config());
    assert_eq!(rt.ptt_state(), PttState::Idle);
    assert!(rt.start_ptt(|| Ok(7)).is_ok());
    assert_eq!(rt.ptt_state(), PttState::Recording);
    assert!(matches!(rt.start_ptt(|| Ok(8)), Err(PttError::AlreadyRecording)));
    let result = rt.stop_ptt(|rec| {
        assert_eq!(rec, 7);
        Ok(b"RIFF".to_vec())
    });
    assert_eq!(result.audio_base64.as_deref(), Some("UklGRg=="));
    assert_eq!(result.transcript, "");
    assert_eq!(rt.ptt_state(), PttState::Idle);
    let idle = rt.stop_ptt(|_| Ok(vec![1]));
    assert!(idle.audio_base64.is_none());
}

#[test]
fn ptt_failures_leave_it_idle() {
    let mut rt: VoiceRuntime<u32> = VoiceRuntime::new(config());
    assert!(matches!(rt.start_ptt(|| Err(PttError::NoRecorder)), Err(PttError::NoRecorder)));
    assert_eq!(rt.ptt_state(), PttState::Idle);
    rt.start_ptt(|| Ok(1)).unwrap();
    let r = rt.stop_ptt(|_| Err(PttError::Recorder("empty WAV capture".into())));
    assert!(r.audio_base64.is_none());
    rt.start_ptt(|| Ok(2)).unwrap();
    rt.cancel_ptt(|rec| assert_eq!(rec, 2));
    assert_eq!(rt.ptt_state(), PttState::Idle);
    assert!(rt.process_wake_audio(&[0, 1, 2]).is_none());
}

#[test]
fn recorder_helpers() {
    assert_eq!(recorder_args("pw-record", "/tmp/a.wav"), Ok(vec!["-q".to_string(), "/tmp/a.wav".to_string()]));
    assert_eq!(recorder_args("parecord", "/tmp/a.wav"), Ok(vec!["--file=/tmp/a.wav".to_string()]));
    assert_eq!(recorder_args("arecord", "/tmp/a.wav"), Err("unknown recorder arecord".to_string()));
    assert_eq!(temp_wav_name("abc"), "openclaw-ptt-abc.wav");
    assert!(matches!(recorded_bytes(vec![]), Err(PttError::Recorder(m)) if m == "empty WAV capture"));
    assert_eq!(recorded_bytes(vec![1]).unwrap(), vec![1]);
    assert!(synthesize_talk_stub("hi").is_empty());
    assert!(recorder_active(PttState::Recording));
    assert!(!recorder_active(PttState::Idle));
    assert_eq!(PttError::AlreadyRecording.message(), "PTT already recording");
}

#[test]
fn voice_settings_apply_to_connection_settings() {
    let mut s = GatewayConnectionSettings::default();
    let c = VoiceWakeConfig {
        enabled: true,
        talk_enabled: true,
        phrases: vec!["hey".into(), "yo".into()],
        locale: "en-US".into(),
    };
    apply_voice_config(&mut s, &c);
    assert!(s.voice_wake_enabled);
    assert!(s.talk_enabled);
    assert_eq!(s.voice_wake_phrases, vec!["hey".to_string(), "yo".to_string()]);
    assert_eq!(s.port, 18789);
}

#[test]
fn stop_result_carries_recorded_audio() {
    let ok = ptt_stop_result(Ok(b"RIFF".to_vec()));
    assert_eq!(ok.transcript, "");
    assert_eq!(ok.audio_base64.as_deref(), Some("UklGRg=="));
    let failed = ptt_stop_result(Err(PttError::Recorder("empty WAV capture".into())));
    assert_eq!(failed.transcript, "");
    assert!(failed.audio_base64.is_none());
}
