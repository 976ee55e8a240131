use aperture::config::RecordingConfig;
use aperture::error::ApertureError;
use aperture::locator::destination_file_name;
use aperture::session::{parse_is_paused, Aperture, SessionState};

/// A destination in /tmp carrying the session's own output file name, as
/// the allocator produces it.
fn session_path(m: &Aperture) -> String {
    format!("/tmp/{}", destination_file_name(m.session_id()))
}

fn plain_config() -> RecordingConfig {
    RecordingConfig {
        screen_id: 1,
        fps: 30,
        show_cursor: true,
        highlight_clicks: false,
        video_codec: None,
        audio_device_id: None,
        crop_area: None,
    }
}

#[test]
fn new_manager_is_idle() {
    let m = Aperture::new();
    assert_eq!(m.current_state(), SessionState::Idle);
    assert!(!m.holds_process());
    assert!(m.destination_path().is_none());
    assert!(!m.file_ready());
    assert_eq!(m.session_id(), "");
}

#[test]
fn second_start_is_refused_without_second_process() {
    let mut m = Aperture::new();
    assert!(m.begin_start(plain_config()).is_ok());
    assert_eq!(m.current_state(), SessionState::Starting);
    let id = m.session_id().to_string();
    // An immediate second start must fail with a usage error and change
    // nothing: the session keeps its state and identifier, and no process
    // spawn is ever requested.
    let r = m.begin_start(plain_config());
    assert_eq!(r, Err(ApertureError::UsageError));
    assert_eq!(m.current_state(), SessionState::Starting);
    assert_eq!(m.session_id(), id);
    assert!(!m.holds_process());
}

#[test]
fn stop_on_idle_is_a_usage_error() {
    let mut m = Aperture::new();
    let r = m.begin_stop();
    assert_eq!(r, Err(ApertureError::UsageError));
    assert_eq!(m.current_state(), SessionState::Idle);
    assert!(!m.holds_process());
}

#[test]
fn startup_timeout_resets_to_idle() {
    let mut m = Aperture::new();
    m.begin_start(plain_config()).unwrap();
    let path = session_path(&m);
    m.allocate_destination(Some(path.clone())).unwrap();
    m.mark_spawned(true).unwrap();
    assert!(m.holds_process());
    // No start event before the timeout window closed.
    let r = m.observe_startup(false);
    assert_eq!(r, Err(ApertureError::StartupTimeout));
    assert_eq!(m.current_state(), SessionState::Idle);
    assert!(!m.holds_process());
    // The partially written destination is kept, not cleaned up.
    assert_eq!(m.destination_path(), Some(path.as_str()));
    // The manager accepts a fresh start afterwards.
    assert!(m.begin_start(plain_config()).is_ok());
}

#[test]
fn full_cycle_hands_over_the_allocated_path() {
    let mut m = Aperture::new();
    let cfg = RecordingConfig {
        screen_id: 1,
        fps: 30,
        show_cursor: true,
        highlight_clicks: false,
        video_codec: Some("hevc".to_string()),
        audio_device_id: None,
        crop_area: None,
    };
    m.begin_start(cfg).unwrap();
    let first_id = m.session_id().to_string();
    assert!(!first_id.is_empty());
    let first_path = session_path(&m);
    m.allocate_destination(Some(first_path.clone())).unwrap();
    m.mark_spawned(true).unwrap();
    // The start event fired within the window.
    m.observe_startup(true).unwrap();
    assert_eq!(m.current_state(), SessionState::Recording);
    m.mark_file_ready().unwrap();
    assert!(m.file_ready());
    // Graceful stop: a termination signal is owed, then exit is observed.
    let signal = m.begin_stop().unwrap();
    assert!(signal);
    assert_eq!(m.current_state(), SessionState::Stopping);
    m.confirm_exit(true).unwrap();
    assert_eq!(m.current_state(), SessionState::Terminated);
    let path = m.finish_stop().unwrap();
    assert_eq!(path, first_path);
    assert!(path.ends_with(&format!("aperture-{}.mp4", first_id)));
    assert!(!path.is_empty());
    assert_eq!(m.current_state(), SessionState::Idle);
    assert!(!m.holds_process());
    assert!(m.destination_path().is_none());
    // A following session starts afresh, with its own identifier and path.
    m.begin_start(plain_config()).unwrap();
    assert_ne!(m.session_id(), first_id);
    let second_path = session_path(&m);
    assert_ne!(second_path, first_path);
    m.allocate_destination(Some(second_path.clone())).unwrap();
    assert_eq!(m.destination_path(), Some(second_path.as_str()));
}

#[test]
fn pause_and_resume_follow_the_state() {
    let mut m = Aperture::new();
    assert_eq!(m.pause(), Err(ApertureError::UsageError));
    assert_eq!(m.resume(), Err(ApertureError::UsageError));
    m.begin_start(plain_config()).unwrap();
    assert_eq!(m.pause(), Err(ApertureError::UsageError));
    let path = session_path(&m);
    m.allocate_destination(Some(path)).unwrap();
    m.mark_spawned(true).unwrap();
    m.observe_startup(true).unwrap();
    m.pause().unwrap();
    assert_eq!(m.current_state(), SessionState::Paused);
    assert_eq!(m.pause(), Err(ApertureError::UsageError));
    m.resume().unwrap();
    assert_eq!(m.current_state(), SessionState::Recording);
    assert_eq!(m.resume(), Err(ApertureError::UsageError));
}

#[test]
fn spawn_failure_rolls_back_to_idle() {
    let mut m = Aperture::new();
    m.begin_start(plain_config()).unwrap();
    let path = session_path(&m);
    m.allocate_destination(Some(path)).unwrap();
    let r = m.mark_spawned(false);
    assert_eq!(r, Err(ApertureError::SpawnFailure));
    assert_eq!(m.current_state(), SessionState::Idle);
    assert!(!m.holds_process());
}

#[test]
fn failed_allocation_rolls_back_to_idle() {
    let mut m = Aperture::new();
    m.begin_start(plain_config()).unwrap();
    let r = m.allocate_destination(None);
    assert_eq!(r, Err(ApertureError::PathAllocationFailure));
    assert_eq!(m.current_state(), SessionState::Idle);
    let mut m2 = Aperture::new();
    m2.begin_start(plain_config()).unwrap();
    let r2 = m2.allocate_destination(Some(String::new()));
    assert_eq!(r2, Err(ApertureError::PathAllocationFailure));
    assert_eq!(m2.current_state(), SessionState::Idle);
}

#[test]
fn path_named_for_another_session_is_refused() {
    // The destination is named deterministically from the session id; a
    // path carrying any other name is no allocation for this session.
    let mut m = Aperture::new();
    m.begin_start(plain_config()).unwrap();
    let r = m.allocate_destination(Some("/tmp/other-name.mp4".to_string()));
    assert_eq!(r, Err(ApertureError::PathAllocationFailure));
    assert_eq!(m.current_state(), SessionState::Idle);
    assert!(m.destination_path().is_none());
}

#[test]
fn wait_failure_is_surfaced_and_path_still_recoverable() {
    let mut m = Aperture::new();
    m.begin_start(plain_config()).unwrap();
    let path = session_path(&m);
    m.allocate_destination(Some(path.clone())).unwrap();
    m.mark_spawned(true).unwrap();
    m.observe_startup(true).unwrap();
    m.begin_stop().unwrap();
    let r = m.confirm_exit(false);
    assert_eq!(r, Err(ApertureError::ProcessWaitFailure));
    assert_eq!(m.current_state(), SessionState::Failed);
    assert!(!m.holds_process());
    // The destination can still be handed over afterwards.
    let handed = m.finish_stop().unwrap();
    assert_eq!(handed, path);
    assert_eq!(m.current_state(), SessionState::Idle);
}

#[test]
fn stop_without_destination_reports_it_missing() {
    let mut m = Aperture::new();
    m.begin_start(plain_config()).unwrap();
    // The handshake is abandoned before any destination was allocated.
    let signal = m.begin_stop().unwrap();
    assert!(!signal);
    let r = m.finish_stop();
    assert_eq!(r, Err(ApertureError::MissingDestination));
    assert_eq!(m.current_state(), SessionState::Idle);
}

#[test]
fn throw_if_not_started_guards_the_event_channel() {
    let mut m = Aperture::new();
    assert_eq!(m.throw_if_not_started(), Err(ApertureError::UsageError));
    m.begin_start(plain_config()).unwrap();
    assert_eq!(m.throw_if_not_started(), Err(ApertureError::UsageError));
    let path = session_path(&m);
    m.allocate_destination(Some(path)).unwrap();
    m.mark_spawned(true).unwrap();
    assert!(m.throw_if_not_started().is_ok());
}

#[test]
fn garbled_pause_reply_counts_as_not_paused() {
    assert!(!parse_is_paused(None));
    assert!(!parse_is_paused(Some("")));
    assert!(!parse_is_paused(Some("garbled nonsense")));
    assert!(!parse_is_paused(Some("True")));
    assert!(!parse_is_paused(Some("true ")));
    assert!(parse_is_paused(Some("true")));
}

#[test]
fn error_messages_describe_each_failure() {
    assert_eq!(
        ApertureError::UsageError.message(),
        "operation invoked in the wrong session state"
    );
    assert_eq!(
        ApertureError::StartupTimeout.message(),
        "could not start recording within 5 seconds"
    );
    assert_eq!(ApertureError::SpawnFailure.message(), "failed to launch the recorder binary");
    assert_eq!(
        ApertureError::ProcessWaitFailure.message(),
        "failed to observe the recorder process exit"
    );
    assert_eq!(
        ApertureError::PathAllocationFailure.message(),
        "temporary file creation failed"
    );
    assert_eq!(ApertureError::MissingDestination.message(), "temporary path not found");
}
