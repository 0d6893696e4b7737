//! Tests of the pipeline backend's source-element decision.

use capture_engine::errors::RecorderError;
use capture_engine::gstreamer_recorder::{plan_audio_source, SourceKind};

#[test]
fn default_prefers_pipewire() {
    let p = plan_audio_source("default", true, true).unwrap();
    assert_eq!(p.kind, SourceKind::Pipewire);
    assert_eq!(p.target_device, None);
}

#[test]
fn default_falls_back_to_pulse() {
    let p = plan_audio_source("default", false, true).unwrap();
    assert_eq!(p.kind, SourceKind::Pulse);
    assert_eq!(p.target_device, None);
}

#[test]
fn default_ends_at_automatic_selection() {
    let p = plan_audio_source("default", false, false).unwrap();
    assert_eq!(p.kind, SourceKind::Auto);
    assert_eq!(p.target_device, None);
}

#[test]
fn explicit_server_names_pick_their_server() {
    assert_eq!(plan_audio_source("pipewire", false, false).unwrap().kind, SourceKind::Pipewire);
    assert_eq!(plan_audio_source("pulse", false, false).unwrap().kind, SourceKind::Pulse);
}

#[test]
fn named_device_targets_pipewire_first() {
    let p = plan_audio_source("alsa_input.usb-mic", true, true).unwrap();
    assert_eq!(p.kind, SourceKind::Pipewire);
    assert_eq!(p.target_device, Some("alsa_input.usb-mic".to_string()));
}

#[test]
fn named_device_falls_back_to_pulse() {
    let p = plan_audio_source("alsa_input.usb-mic", false, true).unwrap();
    assert_eq!(p.kind, SourceKind::Pulse);
    assert_eq!(p.target_device, Some("alsa_input.usb-mic".to_string()));
}

#[test]
fn named_device_without_server_fails() {
    assert_eq!(
        plan_audio_source("alsa_input.usb-mic", false, false),
        Err(RecorderError::Configuration)
    );
}

#[test]
fn well_known_names_match_any_case() {
    assert_eq!(plan_audio_source("DEFAULT", false, false).unwrap().kind, SourceKind::Auto);
    assert_eq!(plan_audio_source("PipeWire", false, false).unwrap().kind, SourceKind::Pipewire);
    assert_eq!(plan_audio_source("Pulse", false, false).unwrap().kind, SourceKind::Pulse);
}
