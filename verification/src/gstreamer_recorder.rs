//! The pipeline capture backend: preferred on hosts with a graph-based
//! multimedia framework and a modern low-latency audio server.
//!
//! The backend runs the shared session state machine; the process layer
//! builds the source → convert → resample → format-filter → sink graph
//! around it and feeds the sink's pull callback into
//! [`GStreamerRecorder::deliver_samples`]. Which source element the graph
//! should use, and how a named device is addressed, is decided here by
//! [`plan_audio_source`] from the device name and from which source elements
//! the host offers.

use crate::errors::RecorderError;
use crate::recorder::{
    spec_close_view, spec_deliver_view, spec_init_view, spec_resolved_rate, spec_stop_view,
    AudioRecording, CaptureCore, CoreView, SessionView, SESSION_CHANNELS,
};
use crate::wav::{spec_duration_millis, spec_wav_container_ok, spec_wav_header, valid_format};
use vstd::prelude::*;
use vstd::string::StrSliceExecFns;

verus! {

/// Whether `c` reads as the lowercase ASCII letter `l`, exactly or as its
/// uppercase form.
pub open spec fn spec_char_matches_lower(c: char, l: char) -> bool {
    c == l || (c as u32) + 32 == l as u32
}

/// Whether `s` spells `lit` without regard to ASCII case; `lit` is spelled
/// in lowercase ASCII.
pub open spec fn spec_eq_ignore_ascii_case(s: Seq<char>, lit: Seq<char>) -> bool {
    &&& s.len() == lit.len()
    &&& forall|i: int|
        0 <= i < s.len() ==> spec_char_matches_lower(#[trigger] s[i], lit[i])
}

/// Compares a string against a lowercase ASCII literal without regard to
/// ASCII case.
fn eq_ignore_ascii_case(s: &str, lit: &str) -> (r: bool)
    ensures
        r == spec_eq_ignore_ascii_case(s@, lit@),
{
    let n = s.unicode_len();
    if n != lit.unicode_len() {
        return false;
    }
    let mut i: usize = 0;
    while i < n
        invariant
            i <= n,
            n == s@.len(),
            n == lit@.len(),
            forall|j: int| 0 <= j < i ==> spec_char_matches_lower(#[trigger] s@[j], lit@[j]),
        decreases n - i,
    {
        let c = s.get_char(i);
        let l = lit.get_char(i);
        let cu = c as u32;
        let lu = l as u32;
        if !(cu == lu || cu + 32 == lu) {
            return false;
        }
        i = i + 1;
    }
    true
}

/// The source element a capture graph starts from: the low-latency server's
/// client, the legacy server's client, or automatic selection.
#[derive(Clone, Copy, Debug, PartialEq, Eq, Structural)]
pub enum SourceKind {
    Pipewire,
    Pulse,
    Auto,
}

/// How the capture graph should acquire audio: which source element to
/// build, and the device it should be pointed at, if any. The addressing
/// property the target goes into depends on the kind: the low-latency
/// server addresses a target object, the legacy server a device name.
#[derive(Debug, PartialEq, Eq)]
pub struct SourcePlan {
    pub kind: SourceKind,
    pub target_device: Option<String>,
}

/// The source decision: well-known names pick their server with no device
/// target, `default` prefers the low-latency server and falls back to the
/// legacy one and then to automatic selection, and any other name targets a
/// specific device on whichever server is available. `None` when a specific
/// device is asked for but no addressable source element exists.
pub open spec fn spec_source_plan(name: Seq<char>, pipewire_ok: bool, pulse_ok: bool) -> Option<
    (SourceKind, Option<Seq<char>>),
> {
    if spec_eq_ignore_ascii_case(name, "default"@) {
        if pipewire_ok {
            Some((SourceKind::Pipewire, None))
        } else if pulse_ok {
            Some((SourceKind::Pulse, None))
        } else {
            Some((SourceKind::Auto, None))
        }
    } else if spec_eq_ignore_ascii_case(name, "pipewire"@) {
        Some((SourceKind::Pipewire, None))
    } else if spec_eq_ignore_ascii_case(name, "pulse"@) {
        Some((SourceKind::Pulse, None))
    } else if pipewire_ok {
        Some((SourceKind::Pipewire, Some(name)))
    } else if pulse_ok {
        Some((SourceKind::Pulse, Some(name)))
    } else {
        None
    }
}

/// Decides which source element the capture graph should be built from.
///
/// `pipewire_ok` and `pulse_ok` say which source elements the host's
/// framework could construct; the process layer probes for them and
/// performs the build. A specific device that no addressable source can
/// reach is a configuration failure rather than a silent fallback.
pub fn plan_audio_source(device_name: &str, pipewire_ok: bool, pulse_ok: bool) -> (r: Result<
    SourcePlan,
    RecorderError,
>)
    ensures
        spec_source_plan(device_name@, pipewire_ok, pulse_ok) matches Some(plan) ==> (r matches Ok(
            p,
        ) && p.kind == plan.0 && match (p.target_device, plan.1) {
            (Some(t), Some(q)) => t@ == q,
            (None, None) => true,
            _ => false,
        }),
        spec_source_plan(device_name@, pipewire_ok, pulse_ok) is None ==> (r matches Err(e) && e
            == RecorderError::Configuration),
{
    if eq_ignore_ascii_case(device_name, "default") {
        if pipewire_ok {
            Ok(SourcePlan { kind: SourceKind::Pipewire, target_device: None })
        } else if pulse_ok {
            Ok(SourcePlan { kind: SourceKind::Pulse, target_device: None })
        } else {
            Ok(SourcePlan { kind: SourceKind::Auto, target_device: None })
        }
    } else if eq_ignore_ascii_case(device_name, "pipewire") {
        Ok(SourcePlan { kind: SourceKind::Pipewire, target_device: None })
    } else if eq_ignore_ascii_case(device_name, "pulse") {
        Ok(SourcePlan { kind: SourceKind::Pulse, target_device: None })
    } else if pipewire_ok {
        Ok(SourcePlan { kind: SourceKind::Pipewire, target_device: Some(device_name.to_owned()) })
    } else if pulse_ok {
        Ok(SourcePlan { kind: SourceKind::Pulse, target_device: Some(device_name.to_owned()) })
    } else {
        Err(RecorderError::Configuration)
    }
}

/// The pipeline capture backend.
pub struct GStreamerRecorder {
    core: CaptureCore,
}

impl View for GStreamerRecorder {
    type V = CoreView;

    closed spec fn view(&self) -> CoreView {
        self.core@
    }
}

impl GStreamerRecorder {
    /// The backend's invariant: the shared machine's.
    pub open spec fn wf(&self) -> bool {
        match self@.session {
            Some(s) => {
                &&& crate::wav::wav_view_wf(s.writer)
                &&& s.writer.channels == SESSION_CHANNELS
            },
            None => true,
        }
    }

    /// A backend with no session. The framework's process-wide
    /// initialization happens in the process layer before this backend is
    /// chosen; the facade falls back to the generic backend when it fails.
    pub fn new() -> (r: Result<GStreamerRecorder, RecorderError>)
        ensures
            r matches Ok(g) && g.wf() && g@.session is None,
    {
        Ok(GStreamerRecorder { core: CaptureCore::new() })
    }

    /// The device names this backend always offers: the default selection
    /// and the two audio servers. Enumeration never touches session state.
    pub fn enumerate_devices(&self) -> (r: Result<Vec<String>, RecorderError>)
        ensures
            r matches Ok(v) && v@.len() == 3 && v@[0]@ == "default"@ && v@[1]@ == "pipewire"@
                && v@[2]@ == "pulse"@,
    {
        let mut devices: Vec<String> = Vec::new();
        devices.push("default".to_owned());
        devices.push("pipewire".to_owned());
        devices.push("pulse".to_owned());
        Ok(devices)
    }

    /// See [`CaptureCore::init_session`].
    pub fn init_session(
        &mut self,
        device_name: String,
        output_folder: String,
        recording_id: String,
        preferred_sample_rate: Option<u32>,
    ) -> (r: Result<(), RecorderError>)
        requires
            old(self).wf(),
        ensures
            final(self).wf(),
            valid_format(spec_resolved_rate(preferred_sample_rate), SESSION_CHANNELS) ==> (r
                matches Ok(_) && final(self)@ == spec_init_view(
                device_name@,
                output_folder@,
                recording_id@,
                preferred_sample_rate,
            )),
            !valid_format(spec_resolved_rate(preferred_sample_rate), SESSION_CHANNELS) ==> (r
                matches Err(e) && e == RecorderError::Configuration && final(self)@.session
                is None),
    {
        self.core.init_session(device_name, output_folder, recording_id, preferred_sample_rate)
    }

    /// See [`CaptureCore::start_recording`].
    pub fn start_recording(&mut self) -> (r: Result<(), RecorderError>)
        requires
            old(self).wf(),
        ensures
            final(self).wf(),
            old(self)@.has_session() ==> (r matches Ok(_) && final(self)@.session is Some && {
                let s = final(self)@.session->0;
                let o = old(self)@.session->0;
                s == SessionView { recording: true, ..o }
            }),
            !old(self)@.has_session() ==> (r matches Err(e) && e == RecorderError::InvalidState
                && final(self)@ == old(self)@),
    {
        self.core.start_recording()
    }

    /// See [`CaptureCore::deliver_samples`]. The sink's pull callback lands
    /// here with each buffer's raw bytes.
    pub fn deliver_samples(&mut self, samples: &[u8])
        requires
            old(self).wf(),
        ensures
            final(self).wf(),
            final(self)@ == spec_deliver_view(old(self)@, samples@),
    {
        self.core.deliver_samples(samples)
    }

    /// See [`CaptureCore::stop_recording`].
    pub fn stop_recording(&mut self) -> (r: Result<AudioRecording, RecorderError>)
        requires
            old(self).wf(),
        ensures
            final(self).wf(),
            final(self)@ == spec_stop_view(old(self)@),
            r matches Ok(rec),
            old(self)@.has_session() ==> (r matches Ok(rec) && {
                let s = old(self)@.session->0;
                &&& rec@.sample_rate == s.writer.rate
                &&& rec@.channels == s.writer.channels
                &&& rec@.duration_millis == spec_duration_millis(
                    s.writer.data.len(),
                    s.writer.rate,
                    s.writer.channels,
                )
                &&& rec@.audio_data == spec_wav_header(
                    s.writer.rate,
                    s.writer.channels,
                    s.writer.data.len() as u32,
                ) + s.writer.data
                &&& rec@.audio_data.len() == 44 + s.writer.data.len()
                &&& spec_wav_container_ok(rec@.audio_data)
                &&& rec@.file_path == Some(s.path)
            }),
            !old(self)@.has_session() ==> (r matches Ok(rec) && {
                &&& rec@.sample_rate == 0
                &&& rec@.channels == 0
                &&& rec@.duration_millis == 0
                &&& rec@.audio_data == Seq::<u8>::empty()
                &&& rec@.file_path is None
            }),
    {
        self.core.stop_recording()
    }

    /// See [`CaptureCore::cancel_recording`].
    pub fn cancel_recording(&mut self) -> (r: Result<(), RecorderError>)
        requires
            old(self).wf(),
        ensures
            final(self).wf(),
            r matches Ok(_),
            final(self)@ == spec_close_view(old(self)@),
            !final(self)@.is_recording(),
    {
        self.core.cancel_recording()
    }

    /// See [`CaptureCore::close_session`].
    pub fn close_session(&mut self) -> (r: Result<(), RecorderError>)
        requires
            old(self).wf(),
        ensures
            final(self).wf(),
            r matches Ok(_),
            final(self)@ == spec_close_view(old(self)@),
    {
        self.core.close_session()
    }

    /// See [`CaptureCore::get_current_recording_id`].
    pub fn get_current_recording_id(&self) -> (r: Option<String>)
        ensures
            r is Some <==> self@.is_recording(),
            self@.is_recording() ==> (r matches Some(id) && id@ == self@.session->0.id),
    {
        self.core.get_current_recording_id()
    }
}

} // verus!
