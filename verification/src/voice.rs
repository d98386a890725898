//! Voice wake and push-to-talk settings and status.
use vstd::prelude::*;
use crate::crypto::base64_standard_encode;
use crate::encoding::b64_standard;
use crate::gateway_config::GatewayConnectionSettings;

verus! {

/// Why push-to-talk could not run.
#[derive(Debug, Clone)]
pub enum PttError {
    NoRecorder,
    AlreadyRecording,
    NotRecording,
    Recorder(String),
}

/// Voice wake and talk settings.
#[derive(Debug, Clone)]
pub struct VoiceWakeConfig {
    pub enabled: bool,
    pub talk_enabled: bool,
    pub phrases: Vec<String>,
    pub locale: String,
}

/// Whether push-to-talk is recording.
#[derive(Debug, Clone, Copy, PartialEq, Eq, Structural)]
pub enum PttState {
    Idle,
    Recording,
}

/// What stopping push-to-talk yields.
#[derive(Debug, Clone)]
pub struct PttStopResult {
    pub transcript: String,
    pub audio_base64: Option<String>,
}

/// Voice tool and state report for the settings window.
#[derive(Debug, Clone)]
pub struct VoiceDiagnostics {
    pub voice_wake_enabled: bool,
    pub talk_enabled: bool,
    pub pw_record: bool,
    pub parecord: bool,
    pub ptt_state: String,
    pub ptt_recorder_active: bool,
}

/// The recorder program to use: PipeWire `pw-record` first, else PulseAudio `parecord`.
pub open spec fn chosen_recorder(pw_record: bool, parecord: bool) -> Option<Seq<char>> {
    if pw_record {
        Some("pw-record"@)
    } else if parecord {
        Some("parecord"@)
    } else {
        None
    }
}

/// The label of a push-to-talk state.
pub open spec fn ptt_label(s: PttState) -> Seq<char> {
    match s {
        PttState::Idle => "idle"@,
        PttState::Recording => "recording"@,
    }
}

/// The user-facing message of a push-to-talk error.
pub open spec fn ptt_error_text(e: PttError) -> Seq<char> {
    match e {
        PttError::NoRecorder => "no recorder on PATH (install pipewire-pulse/pw-record or pulseaudio-utils/parecord)"@,
        PttError::AlreadyRecording => "PTT already recording"@,
        PttError::NotRecording => "PTT not recording"@,
        PttError::Recorder(m) => "recorder failed: "@ + m@,
    }
}

impl PttError {
    /// The message shown for this error.
    pub fn message(&self) -> (r: String)
        ensures
            r@ == ptt_error_text(*self),
    {
        match self {
            PttError::NoRecorder => String::from_str(
                "no recorder on PATH (install pipewire-pulse/pw-record or pulseaudio-utils/parecord)",
            ),
            PttError::AlreadyRecording => String::from_str("PTT already recording"),
            PttError::NotRecording => String::from_str("PTT not recording"),
            PttError::Recorder(m) => {
                let mut s = String::from_str("recorder failed: ");
                s.append(m.as_str());
                s
            },
        }
    }
}

/// The default speech locale.
pub fn default_locale() -> (r: String)
    ensures
        r@ == "en-US"@,
{
    String::from_str("en-US")
}

/// Prefer PipeWire `pw-record`, else PulseAudio `parecord`.
pub fn select_ptt_recorder(pw_record: bool, parecord: bool) -> (r: Option<&'static str>)
    ensures
        match r {
            Some(s) => chosen_recorder(pw_record, parecord) == Some(s@),
            None => chosen_recorder(pw_record, parecord) is None,
        },
{
    if pw_record {
        Some("pw-record")
    } else if parecord {
        Some("parecord")
    } else {
        None
    }
}

/// The label of a push-to-talk state (`idle` or `recording`).
pub fn ptt_state_label(state: PttState) -> (r: String)
    ensures
        r@ == ptt_label(state),
{
    match state {
        PttState::Idle => String::from_str("idle"),
        PttState::Recording => String::from_str("recording"),
    }
}

/// The voice report from settings, push-to-talk state and recorder availability.
pub fn collect_voice_diagnostics(
    voice_wake_enabled: bool,
    talk_enabled: bool,
    ptt: PttState,
    ptt_recorder_active: bool,
    pw_record: bool,
    parecord: bool,
) -> (r: VoiceDiagnostics)
    ensures
        r.voice_wake_enabled == voice_wake_enabled,
        r.talk_enabled == talk_enabled,
        r.pw_record == pw_record,
        r.parecord == parecord,
        r.ptt_state@ == ptt_label(ptt),
        r.ptt_recorder_active == ptt_recorder_active,
{
    VoiceDiagnostics {
        voice_wake_enabled,
        talk_enabled,
        pw_record,
        parecord,
        ptt_state: ptt_state_label(ptt),
        ptt_recorder_active,
    }
}

/// The voice settings that the connection settings imply: wake and talk flags, the
/// saved phrases (or `open claw` when there are none) and the `en-US` locale.
pub fn config_from_connection(settings: &GatewayConnectionSettings) -> (r: VoiceWakeConfig)
    ensures
        r.enabled == settings.voice_wake_enabled,
        r.talk_enabled == settings.talk_enabled,
        settings.voice_wake_phrases@.len() == 0 ==> r.phrases@.len() == 1 && r.phrases@[0]@
            == "open claw"@,
        settings.voice_wake_phrases@.len() > 0 ==> r.phrases@.len()
            == settings.voice_wake_phrases@.len() && forall|i: int|
            0 <= i < r.phrases@.len() ==> #[trigger] r.phrases@[i]@
                == settings.voice_wake_phrases@[i]@,
        r.locale@ == "en-US"@,
{
    let mut phrases: Vec<String> = Vec::new();
    if settings.voice_wake_phrases.len() == 0 {
        phrases.push(String::from_str("open claw"));
    } else {
        let mut i: usize = 0;
        while i < settings.voice_wake_phrases.len()
            invariant
                i <= settings.voice_wake_phrases.len(),
                phrases@.len() == i,
                forall|k: int|
                    0 <= k < i ==> #[trigger] phrases@[k]@ == settings.voice_wake_phrases@[k]@,
            decreases settings.voice_wake_phrases.len() - i,
        {
            phrases.push(settings.voice_wake_phrases[i].clone());
            i = i + 1;
        }
    }
    VoiceWakeConfig {
        enabled: settings.voice_wake_enabled,
        talk_enabled: settings.talk_enabled,
        phrases,
        locale: default_locale(),
    }
}

/// A WAV capture as standard base64, which decodes back to the capture.
pub fn wav_bytes_to_base64(bytes: &[u8]) -> (r: String)
    ensures
        r@ == b64_standard(bytes@),
        crate::crypto::b64_standard_decoded(r@) == Some(bytes@),
{
    base64_standard_encode(bytes)
}

/// The arguments that record to `path` with the recorder `bin`; an unknown recorder is
/// an error.
pub fn recorder_args(bin: &str, path: &str) -> (r: Result<Vec<String>, String>)
    ensures
        bin@ == "pw-record"@ ==> (r matches Ok(v) && v@.len() == 2 && v@[0]@ == "-q"@ && v@[1]@
            == path@),
        bin@ == "parecord"@ ==> (r matches Ok(v) && v@.len() == 1 && v@[0]@ == "--file="@
            + path@),
        bin@ != "pw-record"@ && bin@ != "parecord"@ ==> (r matches Err(e) && e@
            == "unknown recorder "@ + bin@),
{
    if crate::text::str_eq(bin, "pw-record") {
        proof {
            reveal_strlit("pw-record");
            reveal_strlit("parecord");
            assert("pw-record"@.len() != "parecord"@.len());
        }
        let mut v: Vec<String> = Vec::new();
        v.push(String::from_str("-q"));
        v.push(String::from_str(path));
        Ok(v)
    } else if crate::text::str_eq(bin, "parecord") {
        let mut a = String::from_str("--file=");
        a.append(path);
        let mut v: Vec<String> = Vec::new();
        v.push(a);
        Ok(v)
    } else {
        let mut e = String::from_str("unknown recorder ");
        e.append(bin);
        Err(e)
    }
}

/// The temporary WAV file name for a recording with id `id`.
pub fn temp_wav_name(id: &str) -> (r: String)
    ensures
        r@ == "openclaw-ptt-"@ + id@ + ".wav"@,
{
    let mut s = String::from_str("openclaw-ptt-");
    s.append(id);
    s.append(".wav");
    s
}

/// What a stopped recorder read back: the WAV bytes, or an error for an empty capture.
pub fn recorded_bytes(bytes: Vec<u8>) -> (r: Result<Vec<u8>, PttError>)
    ensures
        bytes@.len() > 0 ==> (r matches Ok(b) && b@ == bytes@),
        bytes@.len() == 0 ==> (r matches Err(PttError::Recorder(m)) && m@ == "empty WAV capture"@),
{
    if bytes.len() == 0 {
        Err(PttError::Recorder(String::from_str("empty WAV capture")))
    } else {
        Ok(bytes)
    }
}

/// The audio a stop hands on for what the recorder read back: the WAV bytes as base64,
/// or nothing when reading failed.
pub open spec fn ptt_audio_of(read: Result<Vec<u8>, PttError>) -> Option<Seq<char>> {
    match read {
        Ok(b) => Some(b64_standard(b@)),
        Err(_) => None,
    }
}

/// The view of an optional owned string.
pub open spec fn opt_text(a: Option<String>) -> Option<Seq<char>> {
    match a {
        Some(v) => Some(v@),
        None => None,
    }
}

/// The result of stopping a recording whose recorder read back `read`: an empty
/// transcript (transcription is not wired) and the audio of `ptt_audio_of`.
pub fn ptt_stop_result(read: Result<Vec<u8>, PttError>) -> (r: PttStopResult)
    ensures
        r.transcript@.len() == 0,
        opt_text(r.audio_base64) == ptt_audio_of(read),
{
    match read {
        Ok(bytes) => {
            let a = wav_bytes_to_base64(bytes.as_slice());
            PttStopResult { transcript: String::new(), audio_base64: Some(a) }
        },
        Err(_) => PttStopResult { transcript: String::new(), audio_base64: None },
    }
}

/// Push-to-talk and voice wake: the settings, and the recorder while one runs.
pub struct VoiceRuntime<R> {
    pub config: VoiceWakeConfig,
    pub recorder: Option<R>,
}

impl<R> VoiceRuntime<R> {
    /// A recording is running.
    pub open spec fn recording(&self) -> bool {
        self.recorder is Some
    }

    /// The recorder of the running recording.
    pub open spec fn active_recorder(&self) -> R {
        self.recorder->0
    }

    /// Idle, with the given settings.
    pub fn new(config: VoiceWakeConfig) -> (r: Self)
        ensures
            !r.recording(),
            r.config == config,
    {
        VoiceRuntime { config, recorder: None }
    }

    /// Whether push-to-talk is recording.
    pub fn ptt_state(&self) -> (r: PttState)
        ensures
            r == (if self.recording() {
                PttState::Recording
            } else {
                PttState::Idle
            }),
    {
        if self.recorder.is_some() {
            PttState::Recording
        } else {
            PttState::Idle
        }
    }

    /// Starts recording with the recorder that `start` launches; while a recording runs
    /// it refuses without launching another.
    pub fn start_ptt<F: FnOnce() -> Result<R, PttError>>(&mut self, start: F) -> (r: Result<
        (),
        PttError,
    >)
        requires
            call_requires(start, ()),
        ensures
            final(self).config == old(self).config,
            old(self).recording() ==> r == Err::<(), PttError>(PttError::AlreadyRecording)
                && final(self).recording(),
            !old(self).recording() ==> (r is Ok <==> final(self).recording()),
            !old(self).recording() ==> (r matches Err(e) ==> call_ensures(
                start,
                (),
                Err::<R, PttError>(e),
            )),
    {
        if self.recorder.is_some() {
            return Err(PttError::AlreadyRecording);
        }
        match start() {
            Ok(rec) => {
                self.recorder = Some(rec);
                Ok(())
            },
            Err(e) => Err(e),
        }
    }

    /// Stops recording and hands the recorder to `stop`, which reads back its WAV bytes:
    /// the audio as base64 with an empty transcript; nothing when idle or when reading
    /// failed. Idle afterwards.
    pub fn stop_ptt<F: FnOnce(R) -> Result<Vec<u8>, PttError>>(&mut self, stop: F) -> (r:
        PttStopResult)
        requires
            forall|rec: R| call_requires(stop, (rec,)),
        ensures
            !final(self).recording(),
            final(self).config == old(self).config,
            r.transcript@.len() == 0,
            !old(self).recording() ==> r.audio_base64 is None,
            old(self).recording() ==> exists|read: Result<Vec<u8>, PttError>|
                call_ensures(stop, (old(self).active_recorder(),), read) && opt_text(r.audio_base64)
                    == #[trigger] ptt_audio_of(read),
    {
        let rec = self.recorder.take();
        match rec {
            None => PttStopResult { transcript: String::new(), audio_base64: None },
            Some(r) => {
                let read = stop(r);
                ptt_stop_result(read)
            },
        }
    }

    /// Drops a running recording, handing its recorder to `cancel`. Idle afterwards.
    pub fn cancel_ptt<F: FnOnce(R)>(&mut self, cancel: F)
        requires
            forall|rec: R| call_requires(cancel, (rec,)),
        ensures
            !final(self).recording(),
            final(self).config == old(self).config,
    {
        let rec = self.recorder.take();
        match rec {
            Some(r) => cancel(r),
            None => {},
        }
    }

    /// Voice wake detection on a PCM frame: no phrase is ever detected yet.
    pub fn process_wake_audio(&self, pcm: &[i8]) -> (r: Option<String>)
        ensures
            r is None,
    {
        if !self.config.enabled {
            return None;
        }
        None
    }
}

/// Text-to-speech for talk mode: no audio is produced yet.
pub fn synthesize_talk_stub(text: &str) -> (r: Vec<u8>)
    ensures
        r@.len() == 0,
{
    Vec::new()
}

/// The connection settings with the voice settings of `config` applied: wake, talk and
/// phrases; everything else unchanged.
pub fn apply_voice_config(settings: &mut GatewayConnectionSettings, config: &VoiceWakeConfig)
    ensures
        final(settings).voice_wake_enabled == config.enabled,
        final(settings).talk_enabled == config.talk_enabled,
        final(settings)@.voice_wake_phrases == crate::device_auth::views(config.phrases@),
        final(settings)@ == (crate::gateway_config::SettingsView {
            voice_wake_enabled: config.enabled,
            talk_enabled: config.talk_enabled,
            voice_wake_phrases: crate::device_auth::views(config.phrases@),
            ..old(settings)@
        }),
{
    settings.voice_wake_enabled = config.enabled;
    settings.talk_enabled = config.talk_enabled;
    let mut phrases: Vec<String> = Vec::new();
    let mut i: usize = 0;
    while i < config.phrases.len()
        invariant
            i <= config.phrases.len(),
            phrases@.len() == i,
            forall|k: int| 0 <= k < i ==> #[trigger] phrases@[k]@ == config.phrases@[k]@,
        decreases config.phrases.len() - i,
    {
        phrases.push(config.phrases[i].clone());
        i = i + 1;
    }
    settings.voice_wake_phrases = phrases;
    assert(settings@.voice_wake_phrases =~= crate::device_auth::views(config.phrases@));
}

/// Whether the recorder is active for the diagnostics report: push-to-talk is recording.
pub fn recorder_active(state: PttState) -> (r: bool)
    ensures
        r == (state == PttState::Recording),
{
    state == PttState::Recording
}

} // verus!
