use eva_wake::config::{AudioConfig, WakeWordKeyword, COOLDOWN_DURATION_MS, PORCUPINE_FRAME_LENGTH};
use eva_wake::cooldown::DetectionState;
use eva_wake::detection::{DetectionLoop, LoopAction, LoopEvent};
use eva_wake::error::WakeWordError;
use eva_wake::service::{AccessKey, PorcupineService};

#[test]
fn keyword_custom_model_wins() {
    assert_eq!(WakeWordKeyword::from_env(true, Some("alexa")), WakeWordKeyword::HiEva);
    assert_eq!(WakeWordKeyword::from_env(true, None), WakeWordKeyword::HiEva);
}

#[test]
fn keyword_override_values() {
    assert_eq!(WakeWordKeyword::from_env(false, Some("alexa")), WakeWordKeyword::Alexa);
    assert_eq!(WakeWordKeyword::from_env(false, Some("computer")), WakeWordKeyword::Computer);
    assert_eq!(WakeWordKeyword::from_env(false, Some("jarvis")), WakeWordKeyword::Jarvis);
    assert_eq!(WakeWordKeyword::from_env(false, Some("hey-google")), WakeWordKeyword::HeyGoogle);
    assert_eq!(WakeWordKeyword::from_env(false, Some("ok-google")), WakeWordKeyword::OkGoogle);
    assert_eq!(WakeWordKeyword::from_env(false, Some("picovoice")), WakeWordKeyword::Picovoice);
    assert_eq!(WakeWordKeyword::from_env(false, Some("porcupine")), WakeWordKeyword::Porcupine);
}

#[test]
fn keyword_default_and_unknown() {
    assert_eq!(WakeWordKeyword::from_env(false, None), WakeWordKeyword::Computer);
    assert_eq!(WakeWordKeyword::from_env(false, Some("Alexa")), WakeWordKeyword::Computer);
    assert_eq!(WakeWordKeyword::from_env(false, Some("")), WakeWordKeyword::Computer);
}

#[test]
fn keyword_labels() {
    assert_eq!(WakeWordKeyword::HiEva.as_str(), "Hi Eva");
    assert_eq!(WakeWordKeyword::Alexa.as_str(), "Alexa");
    assert_eq!(WakeWordKeyword::Computer.as_str(), "Computer");
    assert_eq!(WakeWordKeyword::Jarvis.as_str(), "Jarvis");
    assert_eq!(WakeWordKeyword::HeyGoogle.as_str(), "Hey Google");
    assert_eq!(WakeWordKeyword::OkGoogle.as_str(), "Ok Google");
    assert_eq!(WakeWordKeyword::Picovoice.as_str(), "Picovoice");
    assert_eq!(WakeWordKeyword::Porcupine.label(), "Porcupine".to_string());
    assert!(WakeWordKeyword::HiEva.is_custom());
    assert!(!WakeWordKeyword::Jarvis.is_custom());
}

#[test]
fn audio_config_defaults() {
    let c = AudioConfig::new(true);
    assert_eq!(c.sample_rate, 16000);
    assert_eq!(c.frame_length, 512);
    assert_eq!(c.cooldown_duration_ms, 2000);
    assert_eq!(c.audio_timeout_ms, 100);
    assert!(c.debug_enabled);
    assert!(!AudioConfig::new(false).debug_enabled);
}

#[test]
fn wake_word_error_messages() {
    assert_eq!(WakeWordError::PorcupineInit("bad".to_string()).message(), "Porcupine initialization failed: bad");
    assert_eq!(WakeWordError::AudioDevice("x".to_string()).message(), "Audio device error: x");
    assert_eq!(WakeWordError::AccessKey("k".to_string()).message(), "Access key error: k");
    assert_eq!(WakeWordError::Resampling("r".to_string()).message(), "Resampling error: r");
    assert_eq!(WakeWordError::AlreadyListening.message(), "Already listening");
    assert_eq!(WakeWordError::NotListening.message(), "Not listening");
}

#[test]
fn cooldown_example_two_events() {
    let mut state = DetectionState::new(COOLDOWN_DURATION_MS);
    let mut reported = Vec::new();
    for t in [0u64, 500, 1000, 2100] {
        if state.try_accept(t) {
            reported.push(t);
        }
    }
    assert_eq!(reported, vec![0, 2100]);
    assert_eq!(state.last_detection_ms(), Some(2100));
}

#[test]
fn cooldown_exact_boundary_and_backwards_time() {
    let mut state = DetectionState::new(2000);
    assert!(state.try_accept(5000));
    assert!(!state.try_accept(6999));
    assert!(!state.try_accept(4000));
    assert!(state.try_accept(7000));
}

#[test]
fn cooldown_spacing_over_many_matches() {
    let mut state = DetectionState::new(2000);
    let mut reported: Vec<u64> = Vec::new();
    let mut t = 0u64;
    while t < 20000 {
        if state.try_accept(t) {
            reported.push(t);
        }
        t += 32;
    }
    assert!(reported.len() > 1);
    for w in reported.windows(2) {
        assert!(w[1] - w[0] >= 2000);
    }
}

fn processed(running: bool, keyword_index: i32, now_ms: u64) -> LoopEvent {
    LoopEvent::Processed { running, keyword_index, now_ms }
}

#[test]
fn loop_reports_match_with_label() {
    let mut l = DetectionLoop::new(WakeWordKeyword::Jarvis, 2000);
    assert_eq!(l.step(processed(true, -1, 10)), LoopAction::Continue);
    match l.step(processed(true, 0, 20)) {
        LoopAction::Emit(ev) => {
            assert_eq!(ev.keyword, "Jarvis");
            assert_eq!(ev.timestamp_ms, 20);
        }
        other => panic!("expected a detection, got {:?}", other),
    }
    assert_eq!(l.step(processed(true, 0, 1000)), LoopAction::Continue);
    assert_eq!(l.step(LoopEvent::Idle { running: true }), LoopAction::Continue);
    assert_eq!(l.step(LoopEvent::EngineFailed { running: true }), LoopAction::Continue);
    assert!(matches!(l.step(processed(true, 0, 2020)), LoopAction::Emit(_)));
    assert!(!l.is_stopped());
}

#[test]
fn loop_cooldown_example() {
    let mut l = DetectionLoop::new(WakeWordKeyword::Computer, 2000);
    let mut stamps = Vec::new();
    for t in [0u64, 500, 1000, 2100] {
        if let LoopAction::Emit(ev) = l.step(processed(true, 0, t)) {
            stamps.push(ev.timestamp_ms);
        }
    }
    assert_eq!(stamps, vec![0, 2100]);
}

#[test]
fn loop_silent_after_stop() {
    let mut l = DetectionLoop::new(WakeWordKeyword::Computer, 2000);
    assert_eq!(l.step(LoopEvent::Stop), LoopAction::Finish);
    assert!(l.is_stopped());
    assert_eq!(l.step(processed(true, 0, 5000)), LoopAction::Finish);
    assert_eq!(l.step(processed(true, 3, 9000)), LoopAction::Finish);
    assert_eq!(l.step(LoopEvent::Idle { running: true }), LoopAction::Finish);
}

#[test]
fn loop_cleared_flag_drops_queued_match() {
    let mut l = DetectionLoop::new(WakeWordKeyword::Computer, 2000);
    assert_eq!(l.step(processed(false, 0, 100)), LoopAction::Finish);
    assert_eq!(l.step(processed(true, 0, 100)), LoopAction::Finish);
    let mut d = DetectionLoop::new(WakeWordKeyword::Computer, 2000);
    assert_eq!(d.step(LoopEvent::Disconnected), LoopAction::Finish);
    let mut i = DetectionLoop::new(WakeWordKeyword::Computer, 2000);
    assert_eq!(i.step(LoopEvent::Idle { running: false }), LoopAction::Finish);
    let mut e = DetectionLoop::new(WakeWordKeyword::Computer, 2000);
    assert_eq!(e.step(LoopEvent::EngineFailed { running: false }), LoopAction::Finish);
}

#[test]
fn stop_when_stopped_is_refused() {
    let mut s = PorcupineService::new();
    assert_eq!(s.stop_listening(), Err(WakeWordError::NotListening));
    assert!(!s.is_listening());
    assert_eq!(s.stop_listening(), Err(WakeWordError::NotListening));
    assert!(!s.is_listening());
}

#[test]
fn second_start_is_refused() {
    let mut s = PorcupineService::new();
    assert_eq!(s.check_can_start(), Ok(()));
    assert_eq!(s.start_listening(Ok(())), Ok(()));
    assert!(s.is_listening());
    assert_eq!(s.check_can_start(), Err(WakeWordError::AlreadyListening));
    assert_eq!(s.start_listening(Ok(())), Err(WakeWordError::AlreadyListening));
    assert!(s.is_listening());
    assert_eq!(s.stop_listening(), Ok(()));
    assert!(!s.is_listening());
    assert_eq!(s.stop_listening(), Err(WakeWordError::NotListening));
    assert_eq!(s.start_listening(Ok(())), Ok(()));
}

#[test]
fn failed_start_leaves_stopped() {
    let mut s = PorcupineService::new();
    let err = WakeWordError::PorcupineInit("no engine".to_string());
    assert_eq!(s.start_listening(Err(err.clone())), Err(err));
    assert!(!s.is_listening());
    assert_eq!(s.start_listening(Ok(())), Ok(()));
    s.session_ended();
    assert!(!s.is_listening());
    assert_eq!(s.start_listening(Ok(())), Ok(()));
    s.shutdown();
    assert!(!s.is_listening());
}

#[test]
fn access_key_from_store_then_cached() {
    let mut s = PorcupineService::new();
    assert!(!s.has_cached_key());
    let k = s.resolve_access_key(Some("stored".to_string()), Some("env".to_string()));
    assert_eq!(k, Ok(AccessKey { key: "stored".to_string(), persist: false }));
    assert!(s.has_cached_key());
    let again = s.resolve_access_key(None, Some("other".to_string()));
    assert_eq!(again, Ok(AccessKey { key: "stored".to_string(), persist: false }));
}

#[test]
fn access_key_from_env_is_persisted() {
    let mut s = PorcupineService::new();
    let k = s.resolve_access_key(Some(String::new()), Some("env-key".to_string()));
    assert_eq!(k, Ok(AccessKey { key: "env-key".to_string(), persist: true }));
    let k2 = s.resolve_access_key(None, None);
    assert_eq!(k2, Ok(AccessKey { key: "env-key".to_string(), persist: false }));
}

#[test]
fn access_key_missing() {
    let mut s = PorcupineService::new();
    let r = s.resolve_access_key(None, Some(String::new()));
    assert_eq!(
        r,
        Err(WakeWordError::AccessKey(
            "No access key found. Please set PV_ACCESS_KEY environment variable or store in keychain".to_string()
        ))
    );
    assert!(!s.has_cached_key());
}

#[test]
fn frame_length_constant() {
    assert_eq!(PORCUPINE_FRAME_LENGTH, 512);
}
