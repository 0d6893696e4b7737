//! The backend facade: one capability surface over the two capture
//! implementations, selected once at construction with an explicit fallback
//! rule.
//!
//! Construction prefers the pipeline backend wherever the host's multimedia
//! framework came up; when it did not, the generic backend is used instead,
//! and construction itself never fails. Every lifecycle operation is
//! forwarded unchanged to whichever variant is held.

use crate::errors::RecorderError;
use crate::gstreamer_recorder::GStreamerRecorder;
use crate::recorder::{
    spec_close_view, spec_deliver_view, spec_init_view, spec_resolved_rate, spec_stop_view,
    AudioRecording, CoreView, RecorderState, SessionView, SESSION_CHANNELS,
};
use crate::wav::{spec_duration_millis, spec_wav_container_ok, spec_wav_header, valid_format};
use vstd::prelude::*;

verus! {

/// The capture backend in use: the generic implementation, available
/// everywhere, or the pipeline implementation, preferred where the host's
/// multimedia framework is up.
pub enum AudioRecorderImpl {
    Cpal(RecorderState),
    GStreamer(GStreamerRecorder),
}

impl View for AudioRecorderImpl {
    type V = CoreView;

    closed spec fn view(&self) -> CoreView {
        match self {
            AudioRecorderImpl::Cpal(r) => r@,
            AudioRecorderImpl::GStreamer(r) => r@,
        }
    }
}

impl AudioRecorderImpl {
    /// The facade's invariant: the held variant's.
    pub open spec fn wf(&self) -> bool {
        match self@.session {
            Some(s) => {
                &&& crate::wav::wav_view_wf(s.writer)
                &&& s.writer.channels == SESSION_CHANNELS
            },
            None => true,
        }
    }

    /// Whether the pipeline variant is the one held.
    pub open spec fn uses_pipeline(&self) -> bool {
        self is GStreamer
    }

    /// Selects the backend. `pipeline_available` reports whether the
    /// host's multimedia framework initialized; the process layer probes
    /// that before constructing the facade. When it is up the pipeline
    /// variant is chosen, otherwise the generic variant — construction
    /// never fails outright.
    pub fn new(pipeline_available: bool) -> (r: Result<AudioRecorderImpl, RecorderError>)
        ensures
            r matches Ok(a) && a.wf() && a@.session is None && a.uses_pipeline()
                == pipeline_available,
    {
        if pipeline_available {
            match GStreamerRecorder::new() {
                Ok(recorder) => Ok(AudioRecorderImpl::GStreamer(recorder)),
                Err(_) => Ok(AudioRecorderImpl::Cpal(RecorderState::new())),
            }
        } else {
            Ok(AudioRecorderImpl::Cpal(RecorderState::new()))
        }
    }

    /// Forwards device enumeration to the held variant; never mutates
    /// session state, and always offers at least the default device.
    pub fn enumerate_devices(&self) -> (r: Result<Vec<String>, RecorderError>)
        ensures
            r matches Ok(v) && v@.len() >= 1 && v@[0]@ == "default"@,
            self.uses_pipeline() ==> (r matches Ok(v) && v@.len() == 3 && v@[1]@ == "pipewire"@
                && v@[2]@ == "pulse"@),
            !self.uses_pipeline() ==> (r matches Ok(v) && v@.len() == 1),
    {
        match self {
            AudioRecorderImpl::Cpal(recorder) => recorder.enumerate_devices(),
            AudioRecorderImpl::GStreamer(recorder) => recorder.enumerate_devices(),
        }
    }

    /// See [`crate::recorder::CaptureCore::init_session`].
    pub fn init_session(
        &mut self,
        device_name: String,
        output_folder: String,
        recording_id: String,
        preferred_sample_rate: Option<u32>,
    ) -> (r: Result<(), RecorderError>)
        requires
            old(self).wf(),
        ensures
            final(self).wf(),
            final(self).uses_pipeline() == old(self).uses_pipeline(),
            valid_format(spec_resolved_rate(preferred_sample_rate), SESSION_CHANNELS) ==> (r
                matches Ok(_) && final(self)@ == spec_init_view(
                device_name@,
                output_folder@,
                recording_id@,
                preferred_sample_rate,
            )),
            !valid_format(spec_resolved_rate(preferred_sample_rate), SESSION_CHANNELS) ==> (r
                matches Err(e) && e == RecorderError::Configuration && final(self)@.session
                is None),
    {
        match self {
            AudioRecorderImpl::Cpal(recorder) => recorder.init_session(
                device_name,
                output_folder,
                recording_id,
                preferred_sample_rate,
            ),
            AudioRecorderImpl::GStreamer(recorder) => recorder.init_session(
                device_name,
                output_folder,
                recording_id,
                preferred_sample_rate,
            ),
        }
    }

    /// See [`crate::recorder::CaptureCore::start_recording`].
    pub fn start_recording(&mut self) -> (r: Result<(), RecorderError>)
        requires
            old(self).wf(),
        ensures
            final(self).wf(),
            final(self).uses_pipeline() == old(self).uses_pipeline(),
            old(self)@.has_session() ==> (r matches Ok(_) && final(self)@.session is Some && {
                let s = final(self)@.session->0;
                let o = old(self)@.session->0;
                s == SessionView { recording: true, ..o }
            }),
            !old(self)@.has_session() ==> (r matches Err(e) && e == RecorderError::InvalidState
                && final(self)@ == old(self)@),
    {
        match self {
            AudioRecorderImpl::Cpal(recorder) => recorder.start_recording(),
            AudioRecorderImpl::GStreamer(recorder) => recorder.start_recording(),
        }
    }

    /// See [`crate::recorder::CaptureCore::deliver_samples`].
    pub fn deliver_samples(&mut self, samples: &[u8])
        requires
            old(self).wf(),
        ensures
            final(self).wf(),
            final(self).uses_pipeline() == old(self).uses_pipeline(),
            final(self)@ == spec_deliver_view(old(self)@, samples@),
    {
        match self {
            AudioRecorderImpl::Cpal(recorder) => recorder.deliver_samples(samples),
            AudioRecorderImpl::GStreamer(recorder) => recorder.deliver_samples(samples),
        }
    }

    /// See [`crate::recorder::CaptureCore::stop_recording`].
    pub fn stop_recording(&mut self) -> (r: Result<AudioRecording, RecorderError>)
        requires
            old(self).wf(),
        ensures
            final(self).wf(),
            final(self).uses_pipeline() == old(self).uses_pipeline(),
            final(self)@ == spec_stop_view(old(self)@),
            r matches Ok(rec),
            old(self)@.has_session() ==> (r matches Ok(rec) && {
                let s = old(self)@.session->0;
                &&& rec@.sample_rate == s.writer.rate
                &&& rec@.channels == s.writer.channels
                &&& rec@.duration_millis == spec_duration_millis(
                    s.writer.data.len(),
                    s.writer.rate,
                    s.writer.channels,
                )
                &&& rec@.audio_data == spec_wav_header(
                    s.writer.rate,
                    s.writer.channels,
                    s.writer.data.len() as u32,
                ) + s.writer.data
                &&& rec@.audio_data.len() == 44 + s.writer.data.len()
                &&& spec_wav_container_ok(rec@.audio_data)
                &&& rec@.file_path == Some(s.path)
            }),
            !old(self)@.has_session() ==> (r matches Ok(rec) && {
                &&& rec@.sample_rate == 0
                &&& rec@.channels == 0
                &&& rec@.duration_millis == 0
                &&& rec@.audio_data == Seq::<u8>::empty()
                &&& rec@.file_path is None
            }),
    {
        match self {
            AudioRecorderImpl::Cpal(recorder) => recorder.stop_recording(),
            AudioRecorderImpl::GStreamer(recorder) => recorder.stop_recording(),
        }
    }

    /// See [`crate::recorder::CaptureCore::cancel_recording`].
    pub fn cancel_recording(&mut self) -> (r: Result<(), RecorderError>)
        requires
            old(self).wf(),
        ensures
            final(self).wf(),
            final(self).uses_pipeline() == old(self).uses_pipeline(),
            r matches Ok(_),
            final(self)@ == spec_close_view(old(self)@),
            !final(self)@.is_recording(),
    {
        match self {
            AudioRecorderImpl::Cpal(recorder) => recorder.cancel_recording(),
            AudioRecorderImpl::GStreamer(recorder) => recorder.cancel_recording(),
        }
    }

    /// See [`crate::recorder::CaptureCore::close_session`].
    pub fn close_session(&mut self) -> (r: Result<(), RecorderError>)
        requires
            old(self).wf(),
        ensures
            final(self).wf(),
            final(self).uses_pipeline() == old(self).uses_pipeline(),
            r matches Ok(_),
            final(self)@ == spec_close_view(old(self)@),
    {
        match self {
            AudioRecorderImpl::Cpal(recorder) => recorder.close_session(),
            AudioRecorderImpl::GStreamer(recorder) => recorder.close_session(),
        }
    }

    /// See [`crate::recorder::CaptureCore::get_current_recording_id`].
    pub fn get_current_recording_id(&self) -> (r: Option<String>)
        ensures
            r is Some <==> self@.is_recording(),
            self@.is_recording() ==> (r matches Some(id) && id@ == self@.session->0.id),
    {
        match self {
            AudioRecorderImpl::Cpal(recorder) => recorder.get_current_recording_id(),
            AudioRecorderImpl::GStreamer(recorder) => recorder.get_current_recording_id(),
        }
    }
}

} // verus!
