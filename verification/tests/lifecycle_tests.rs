use subtitle_pipeline::lifecycle::{on_start, on_stop, AppState, StartDecision, StartOutcome};

#[test]
fn start_spawns_only_when_nothing_listens() {
    assert_eq!(on_start(false), StartOutcome { listening: true, decision: StartDecision::Spawn });
    assert_eq!(
        on_start(true),
        StartOutcome { listening: true, decision: StartDecision::AlreadyListening }
    );
}

#[test]
fn stop_clears_the_flag() {
    assert!(!on_stop());
}

#[test]
fn second_start_in_a_row_subscribes_nothing() {
    let state = AppState::new();
    assert!(!state.listening());
    assert_eq!(state.start(), StartDecision::Spawn);
    assert!(state.listening());
    assert_eq!(state.start(), StartDecision::AlreadyListening);
    assert_eq!(state.start(), StartDecision::AlreadyListening);
    assert!(state.listening());
}

#[test]
fn stop_is_seen_by_every_holder_of_the_flag() {
    let state = AppState::new();
    let capture_flag = state.is_listening.clone();
    let worker_flag = state.is_listening.clone();
    assert_eq!(state.start(), StartDecision::Spawn);
    assert!(capture_flag.load(std::sync::atomic::Ordering::Relaxed));
    assert!(worker_flag.load(std::sync::atomic::Ordering::Relaxed));
    state.stop();
    assert!(!state.listening());
    assert!(!capture_flag.load(std::sync::atomic::Ordering::Relaxed));
    assert!(!worker_flag.load(std::sync::atomic::Ordering::Relaxed));
}

#[test]
fn start_after_stop_spawns_again() {
    let state = AppState::new();
    assert_eq!(state.start(), StartDecision::Spawn);
    state.stop();
    state.stop();
    assert_eq!(state.start(), StartDecision::Spawn);
}
