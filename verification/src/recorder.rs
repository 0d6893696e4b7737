//! The capture session state machine shared by the backend variants, and the
//! generic backend built on it.
//!
//! A backend holds at most one session. The session walks
//! uninitialized → initialized → recording → stopped, and
//! [`CaptureCore::close_session`] returns any state to uninitialized. Sample
//! buffers arrive through [`CaptureCore::deliver_samples`], the path the
//! platform driver's callback feeds; they reach the encoder exactly while the
//! recording flag is set.

use crate::errors::RecorderError;
use crate::wav::{
    spec_duration_millis, spec_wav_container_ok, spec_wav_header, spec_write_accepts, valid_format,
    WavWriter, WavWriterView,
};
use vstd::prelude::*;

verus! {

/// The engine records speech; absent a caller preference the session runs at
/// this rate.
pub const DEFAULT_SAMPLE_RATE: u32 = 16000;

/// Every session is mono.
pub const SESSION_CHANNELS: u16 = 1;

/// The sample rate a session resolves to: the caller's preference when one
/// was given, the speech default otherwise.
pub open spec fn spec_resolved_rate(preferred: Option<u32>) -> u32 {
    match preferred {
        Some(r) => r,
        None => DEFAULT_SAMPLE_RATE,
    }
}

/// The destination path of a session: `<folder>/<id>.wav`.
pub open spec fn spec_wav_path(folder: Seq<char>, id: Seq<char>) -> Seq<char> {
    folder + "/"@ + id + ".wav"@
}

/// Relies on std's string formatting: `format!("{}/{}.wav", folder, id)`
/// returns the folder, a slash, the identifier and the `.wav` extension,
/// concatenated in that order.
#[verifier::external_body]
fn join_wav_path(folder: &str, id: &str) -> (r: String)
    ensures
        r@ == spec_wav_path(folder@, id@),
{
    format!("{}/{}.wav", folder, id)
}

/// The observable state of one session.
#[verifier::ext_equal]
pub ghost struct SessionView {
    pub device: Seq<char>,
    pub id: Seq<char>,
    pub path: Seq<char>,
    pub writer: WavWriterView,
    pub recording: bool,
}

/// The observable state of a backend: its session, if one exists.
#[verifier::ext_equal]
pub ghost struct CoreView {
    pub session: Option<SessionView>,
}

impl CoreView {
    /// Whether a session exists in any phase.
    pub open spec fn has_session(self) -> bool {
        self.session is Some
    }

    /// Whether the recording flag is set: the single condition under which
    /// delivered sample buffers are persisted.
    pub open spec fn is_recording(self) -> bool {
        match self.session {
            Some(s) => s.recording,
            None => false,
        }
    }

    /// The sample bytes captured so far; empty without a session.
    pub open spec fn captured(self) -> Seq<u8> {
        match self.session {
            Some(s) => s.writer.data,
            None => Seq::empty(),
        }
    }
}

/// The state after closing a session: uninitialized, whatever held before.
pub open spec fn spec_close_view(v: CoreView) -> CoreView {
    CoreView { session: None }
}

/// The state after a successful initialization. It is built from the
/// arguments alone — no prior state enters — so a second initialization
/// observably supersedes whatever session existed before it.
pub open spec fn spec_init_view(
    device: Seq<char>,
    folder: Seq<char>,
    id: Seq<char>,
    preferred: Option<u32>,
) -> CoreView {
    CoreView {
        session: Some(
            SessionView {
                device: device,
                id: id,
                path: spec_wav_path(folder, id),
                writer: WavWriterView {
                    rate: spec_resolved_rate(preferred),
                    channels: SESSION_CHANNELS,
                    data: Seq::empty(),
                    finalized: false,
                },
                recording: false,
            },
        ),
    }
}

/// The state after a delivered sample buffer: the bytes are appended exactly
/// when the recording flag is set and the writer accepts them; any other
/// buffer is dropped without a trace.
pub open spec fn spec_deliver_view(v: CoreView, buf: Seq<u8>) -> CoreView {
    match v.session {
        Some(s) => {
            if s.recording && spec_write_accepts(s.writer, buf.len()) {
                CoreView {
                    session: Some(
                        SessionView {
                            writer: WavWriterView { data: s.writer.data + buf, ..s.writer },
                            ..s
                        },
                    ),
                }
            } else {
                v
            }
        },
        None => v,
    }
}

/// The state after stopping: the recording flag is down and the writer is
/// finalized; the session's identity and captured bytes stay.
pub open spec fn spec_stop_view(v: CoreView) -> CoreView {
    match v.session {
        Some(s) => CoreView {
            session: Some(
                SessionView {
                    writer: WavWriterView { finalized: true, ..s.writer },
                    recording: false,
                    ..s
                },
            ),
        },
        None => v,
    }
}

/// A finished recording, handed to the caller by a successful stop.
///
/// `audio_data` holds the complete container image — header and samples —
/// for the surrounding process layer to persist at `file_path`. A stop
/// without a session yields the empty recording: no bytes, no path, a zero
/// format.
pub struct AudioRecording {
    pub audio_data: Vec<u8>,
    pub sample_rate: u32,
    pub channels: u16,
    pub duration_millis: u64,
    pub file_path: Option<String>,
}

/// The observable content of a finished recording.
#[verifier::ext_equal]
pub ghost struct AudioRecordingView {
    pub audio_data: Seq<u8>,
    pub sample_rate: u32,
    pub channels: u16,
    pub duration_millis: u64,
    pub file_path: Option<Seq<char>>,
}

impl View for AudioRecording {
    type V = AudioRecordingView;

    open spec fn view(&self) -> AudioRecordingView {
        AudioRecordingView {
            audio_data: self.audio_data@,
            sample_rate: self.sample_rate,
            channels: self.channels,
            duration_millis: self.duration_millis,
            file_path: match self.file_path {
                Some(p) => Some(p@),
                None => None,
            },
        }
    }
}

/// One session of a backend: its identity, destination, encoder and the
/// recording flag the delivery path consults.
pub struct Session {
    device_name: String,
    recording_id: String,
    file_path: String,
    writer: WavWriter,
    recording: bool,
}

impl View for Session {
    type V = SessionView;

    closed spec fn view(&self) -> SessionView {
        SessionView {
            device: self.device_name@,
            id: self.recording_id@,
            path: self.file_path@,
            writer: self.writer@,
            recording: self.recording,
        }
    }
}

/// The session state machine every backend variant runs.
pub struct CaptureCore {
    session: Option<Session>,
}

impl View for CaptureCore {
    type V = CoreView;

    closed spec fn view(&self) -> CoreView {
        CoreView {
            session: match self.session {
                Some(s) => Some(s@),
                None => None,
            },
        }
    }
}

impl CaptureCore {
    /// The machine's invariant: an existing session has a well-formed mono
    /// encoder.
    pub open spec fn wf(&self) -> bool {
        match self@.session {
            Some(s) => {
                &&& crate::wav::wav_view_wf(s.writer)
                &&& s.writer.channels == SESSION_CHANNELS
            },
            None => true,
        }
    }

    /// A machine with no session.
    pub fn new() -> (r: CaptureCore)
        ensures
            r.wf(),
            r@.session is None,
    {
        CaptureCore { session: None }
    }

    /// Opens a session: closes any prior one, resolves the sample rate,
    /// fixes the channel count to mono, computes the destination path and
    /// opens the encoder. An unrepresentable sample rate is refused and
    /// leaves the machine uninitialized.
    pub fn init_session(
        &mut self,
        device_name: String,
        output_folder: String,
        recording_id: String,
        preferred_sample_rate: Option<u32>,
    ) -> (r: Result<(), RecorderError>)
        requires
            old(self).wf(),
        ensures
            final(self).wf(),
            valid_format(spec_resolved_rate(preferred_sample_rate), SESSION_CHANNELS) ==> (r
                matches Ok(_) && final(self)@ == spec_init_view(
                device_name@,
                output_folder@,
                recording_id@,
                preferred_sample_rate,
            )),
            !valid_format(spec_resolved_rate(preferred_sample_rate), SESSION_CHANNELS) ==> (r
                matches Err(e) && e == RecorderError::Configuration && final(self)@.session
                is None),
    {
        let _ = self.close_session();
        let rate = match preferred_sample_rate {
            Some(r) => r,
            None => DEFAULT_SAMPLE_RATE,
        };
        match WavWriter::new(rate, SESSION_CHANNELS) {
            Ok(writer) => {
                let file_path = join_wav_path(output_folder.as_str(), recording_id.as_str());
                self.session = Some(
                    Session {
                        device_name,
                        recording_id,
                        file_path,
                        writer,
                        recording: false,
                    },
                );
                proof {
                    assert(self@ =~= spec_init_view(
                        device_name@,
                        output_folder@,
                        recording_id@,
                        preferred_sample_rate,
                    ));
                }
                Ok(())
            },
            Err(e) => Err(e),
        }
    }

    /// Raises the recording flag so the delivery path begins persisting
    /// buffers. Without a session there is nothing to record: the machine
    /// is left unchanged and the call is out of sequence.
    pub fn start_recording(&mut self) -> (r: Result<(), RecorderError>)
        requires
            old(self).wf(),
        ensures
            final(self).wf(),
            old(self)@.has_session() ==> (r matches Ok(_) && final(self)@.session is Some && {
                let s = final(self)@.session->0;
                let o = old(self)@.session->0;
                s == SessionView { recording: true, ..o }
            }),
            !old(self)@.has_session() ==> (r matches Err(e) && e == RecorderError::InvalidState
                && final(self)@ == old(self)@),
    {
        match &mut self.session {
            Some(sess) => {
                sess.recording = true;
                Ok(())
            },
            None => Err(RecorderError::InvalidState),
        }
    }

    /// The delivery path: the platform driver's callback hands each sample
    /// buffer here. The buffer reaches the encoder exactly when the
    /// recording flag is up and the encoder accepts it; otherwise it is
    /// dropped and the machine is unchanged. Delivery itself never fails:
    /// a refused buffer is not an error of the session.
    pub fn deliver_samples(&mut self, samples: &[u8])
        requires
            old(self).wf(),
        ensures
            final(self).wf(),
            final(self)@ == spec_deliver_view(old(self)@, samples@),
    {
        match &mut self.session {
            Some(sess) => {
                if sess.recording {
                    let _ = sess.writer.write_samples(samples);
                    proof {
                        assert(self@ =~= spec_deliver_view(old(self)@, samples@));
                    }
                } else {
                    proof {
                        assert(self@ =~= spec_deliver_view(old(self)@, samples@));
                    }
                }
            },
            None => {},
        }
    }

    /// Stops the session: lowers the recording flag, finalizes the encoder
    /// and returns the finished recording — the complete container image,
    /// its format, its duration and its destination path. A stop without a
    /// session succeeds with the empty recording.
    pub fn stop_recording(&mut self) -> (r: Result<AudioRecording, RecorderError>)
        requires
            old(self).wf(),
        ensures
            final(self).wf(),
            final(self)@ == spec_stop_view(old(self)@),
            r matches Ok(rec),
            old(self)@.has_session() ==> (r matches Ok(rec) && {
                let s = old(self)@.session->0;
                &&& rec@.sample_rate == s.writer.rate
                &&& rec@.channels == s.writer.channels
                &&& rec@.duration_millis == spec_duration_millis(
                    s.writer.data.len(),
                    s.writer.rate,
                    s.writer.channels,
                )
                &&& rec@.audio_data == spec_wav_header(
                    s.writer.rate,
                    s.writer.channels,
                    s.writer.data.len() as u32,
                ) + s.writer.data
                &&& rec@.audio_data.len() == 44 + s.writer.data.len()
                &&& spec_wav_container_ok(rec@.audio_data)
                &&& rec@.file_path == Some(s.path)
            }),
            !old(self)@.has_session() ==> (r matches Ok(rec) && {
                &&& rec@.sample_rate == 0
                &&& rec@.channels == 0
                &&& rec@.duration_millis == 0
                &&& rec@.audio_data == Seq::<u8>::empty()
                &&& rec@.file_path is None
            }),
    {
        match &mut self.session {
            Some(sess) => {
                sess.recording = false;
                let _ = sess.writer.finalize();
                let (sample_rate, channels, duration_millis) = sess.writer.get_metadata();
                let audio_data = sess.writer.container_bytes();
                let file_path = Some(sess.file_path.clone());
                proof {
                    assert(self@ =~= spec_stop_view(old(self)@));
                }
                Ok(
                    AudioRecording {
                        audio_data,
                        sample_rate,
                        channels,
                        duration_millis,
                        file_path,
                    },
                )
            },
            None => Ok(
                AudioRecording {
                    audio_data: Vec::new(),
                    sample_rate: 0,
                    channels: 0,
                    duration_millis: 0,
                    file_path: None,
                },
            ),
        }
    }

    /// Discards the session: lowers the recording flag and clears all
    /// session state, so no partial recording remains reachable. The
    /// destination file is only ever materialized by a successful stop, so
    /// after a cancel it does not exist. Cancelling never fails.
    pub fn cancel_recording(&mut self) -> (r: Result<(), RecorderError>)
        requires
            old(self).wf(),
        ensures
            final(self).wf(),
            r matches Ok(_),
            final(self)@ == spec_close_view(old(self)@),
            !final(self)@.is_recording(),
    {
        self.close_session()
    }

    /// Tears the session down: any state returns to uninitialized. Safe to
    /// call with no session at all, and a second call changes nothing.
    pub fn close_session(&mut self) -> (r: Result<(), RecorderError>)
        requires
            old(self).wf(),
        ensures
            final(self).wf(),
            r matches Ok(_),
            final(self)@ == spec_close_view(old(self)@),
    {
        self.session = None;
        Ok(())
    }

    /// A point-in-time snapshot: the session's identifier while the
    /// recording flag is up, `None` otherwise.
    pub fn get_current_recording_id(&self) -> (r: Option<String>)
        ensures
            r is Some <==> self@.is_recording(),
            self@.is_recording() ==> (r matches Some(id) && id@ == self@.session->0.id),
    {
        match &self.session {
            Some(sess) => {
                if sess.recording {
                    Some(sess.recording_id.clone())
                } else {
                    None
                }
            },
            None => None,
        }
    }
}

/// A buffer delivered while the recording flag is down leaves the captured
/// bytes untouched: nothing reaches the file before `start_recording` or
/// after `stop_recording`/`cancel_recording`, which lower the flag.
pub proof fn lemma_deliver_ignored_outside_recording(v: CoreView, buf: Seq<u8>)
    requires
        !v.is_recording(),
    ensures
        spec_deliver_view(v, buf) == v,
{
}

/// There is only one closed state: two machines whose sessions are gone are
/// indistinguishable. With `close_session`'s postcondition this makes
/// closing idempotent — a second close, or a close of a machine that never
/// held a session, lands in the very same state.
pub proof fn lemma_closed_states_equal(a: CoreView, b: CoreView)
    requires
        a.session is None,
        b.session is None,
    ensures
        a == b,
{
}

/// The state after a successful initialization is a function of the
/// arguments alone: it holds exactly the fresh session — empty capture,
/// flag down — and nothing of any session that existed before.
pub proof fn lemma_init_yields_fresh_session(
    device: Seq<char>,
    folder: Seq<char>,
    id: Seq<char>,
    preferred: Option<u32>,
)
    ensures
        ({
            let v = spec_init_view(device, folder, id, preferred);
            &&& v.session is Some
            &&& v.session->0.id == id
            &&& v.session->0.path == spec_wav_path(folder, id)
            &&& v.captured() == Seq::<u8>::empty()
            &&& !v.is_recording()
        }),
{
}

/// After a cancel the machine reports no current recording: the snapshot
/// the control path reads is `None`.
pub proof fn lemma_cancelled_has_no_current_id(v: CoreView)
    requires
        v.session is None,
    ensures
        !v.is_recording(),
{
}

/// The generic capture backend: available on every platform, fed by the
/// host audio driver's callback. It runs the shared state machine
/// unchanged; the driver wiring around it lives with the process layer.
pub struct RecorderState {
    core: CaptureCore,
}

impl View for RecorderState {
    type V = CoreView;

    closed spec fn view(&self) -> CoreView {
        self.core@
    }
}

impl RecorderState {
    /// The backend's invariant: the shared machine's.
    pub open spec fn wf(&self) -> bool {
        match self@.session {
            Some(s) => {
                &&& crate::wav::wav_view_wf(s.writer)
                &&& s.writer.channels == SESSION_CHANNELS
            },
            None => true,
        }
    }

    /// A backend with no session.
    pub fn new() -> (r: RecorderState)
        ensures
            r.wf(),
            r@.session is None,
    {
        RecorderState { core: CaptureCore::new() }
    }

    /// The input devices this backend can name. Enumeration never touches
    /// session state; the generic backend always offers the system default.
    pub fn enumerate_devices(&self) -> (r: Result<Vec<String>, RecorderError>)
        ensures
            r matches Ok(v) && v@.len() == 1 && v@[0]@ == "default"@,
    {
        let mut devices: Vec<String> = Vec::new();
        devices.push("default".to_owned());
        Ok(devices)
    }

    /// See [`CaptureCore::init_session`].
    pub fn init_session(
        &mut self,
        device_name: String,
        output_folder: String,
        recording_id: String,
        preferred_sample_rate: Option<u32>,
    ) -> (r: Result<(), RecorderError>)
        requires
            old(self).wf(),
        ensures
            final(self).wf(),
            valid_format(spec_resolved_rate(preferred_sample_rate), SESSION_CHANNELS) ==> (r
                matches Ok(_) && final(self)@ == spec_init_view(
                device_name@,
                output_folder@,
                recording_id@,
                preferred_sample_rate,
            )),
            !valid_format(spec_resolved_rate(preferred_sample_rate), SESSION_CHANNELS) ==> (r
                matches Err(e) && e == RecorderError::Configuration && final(self)@.session
                is None),
    {
        self.core.init_session(device_name, output_folder, recording_id, preferred_sample_rate)
    }

    /// See [`CaptureCore::start_recording`].
    pub fn start_recording(&mut self) -> (r: Result<(), RecorderError>)
        requires
            old(self).wf(),
        ensures
            final(self).wf(),
            old(self)@.has_session() ==> (r matches Ok(_) && final(self)@.session is Some && {
                let s = final(self)@.session->0;
                let o = old(self)@.session->0;
                s == SessionView { recording: true, ..o }
            }),
            !old(self)@.has_session() ==> (r matches Err(e) && e == RecorderError::InvalidState
                && final(self)@ == old(self)@),
    {
        self.core.start_recording()
    }

    /// See [`CaptureCore::deliver_samples`].
    pub fn deliver_samples(&mut self, samples: &[u8])
        requires
            old(self).wf(),
        ensures
            final(self).wf(),
            final(self)@ == spec_deliver_view(old(self)@, samples@),
    {
        self.core.deliver_samples(samples)
    }

    /// See [`CaptureCore::stop_recording`].
    pub fn stop_recording(&mut self) -> (r: Result<AudioRecording, RecorderError>)
        requires
            old(self).wf(),
        ensures
            final(self).wf(),
            final(self)@ == spec_stop_view(old(self)@),
            r matches Ok(rec),
            old(self)@.has_session() ==> (r matches Ok(rec) && {
                let s = old(self)@.session->0;
                &&& rec@.sample_rate == s.writer.rate
                &&& rec@.channels == s.writer.channels
                &&& rec@.duration_millis == spec_duration_millis(
                    s.writer.data.len(),
                    s.writer.rate,
                    s.writer.channels,
                )
                &&& rec@.audio_data == spec_wav_header(
                    s.writer.rate,
                    s.writer.channels,
                    s.writer.data.len() as u32,
                ) + s.writer.data
                &&& rec@.audio_data.len() == 44 + s.writer.data.len()
                &&& spec_wav_container_ok(rec@.audio_data)
                &&& rec@.file_path == Some(s.path)
            }),
            !old(self)@.has_session() ==> (r matches Ok(rec) && {
                &&& rec@.sample_rate == 0
                &&& rec@.channels == 0
                &&& rec@.duration_millis == 0
                &&& rec@.audio_data == Seq::<u8>::empty()
                &&& rec@.file_path is None
            }),
    {
        self.core.stop_recording()
    }

    /// See [`CaptureCore::cancel_recording`].
    pub fn cancel_recording(&mut self) -> (r: Result<(), RecorderError>)
        requires
            old(self).wf(),
        ensures
            final(self).wf(),
            r matches Ok(_),
            final(self)@ == spec_close_view(old(self)@),
            !final(self)@.is_recording(),
    {
        self.core.cancel_recording()
    }

    /// See [`CaptureCore::close_session`].
    pub fn close_session(&mut self) -> (r: Result<(), RecorderError>)
        requires
            old(self).wf(),
        ensures
            final(self).wf(),
            r matches Ok(_),
            final(self)@ == spec_close_view(old(self)@),
    {
        self.core.close_session()
    }

    /// See [`CaptureCore::get_current_recording_id`].
    pub fn get_current_recording_id(&self) -> (r: Option<String>)
        ensures
            r is Some <==> self@.is_recording(),
            self@.is_recording() ==> (r matches Some(id) && id@ == self@.session->0.id),
    {
        self.core.get_current_recording_id()
    }
}

} // verus!
