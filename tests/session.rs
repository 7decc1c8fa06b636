use brick_audio::greet;
use brick_audio::level::Level;
use brick_audio::session::{BuildError, PlaybackError, Session, SinkCommand, Status, StatusEvent};

fn lv(x: f32) -> Level {
    Level::from_bits(x.to_bits())
}

fn check_event(
    e: &StatusEvent,
    status: Status,
    path: Option<&str>,
    position: Option<f32>,
    volume: Option<f32>,
) {
    assert_eq!(e.status, status);
    assert_eq!(e.file_path.as_deref(), path);
    assert_eq!(e.position, position.map(lv));
    assert_eq!(e.volume, volume.map(lv));
}

#[test]
fn scenario_load_pause_volume_seek_stop() {
    let mut s = Session::new();
    let path = "track.mp3".to_string();

    let req = s.load_request(&path);
    assert_eq!(req.gain, lv(1.0));
    assert_eq!(req.cue.as_ref().map(|c| c.path.as_str()), Some("track.mp3"));
    let t = s.load(path.clone(), Ok(())).unwrap();
    assert_eq!(t.command, SinkCommand::Install);
    check_event(&t.event, Status::Playing, Some("track.mp3"), Some(0.0), Some(1.0));

    let t = s.pause();
    assert_eq!(t.command, SinkCommand::Pause);
    check_event(&t.event, Status::Paused, Some("track.mp3"), None, Some(1.0));
    assert!(s.sink().paused);

    let t = s.set_volume(lv(0.5));
    assert_eq!(t.command, SinkCommand::SetGain(lv(0.5)));
    check_event(&t.event, Status::Volume, Some("track.mp3"), None, Some(0.5));

    let req = s.seek_request(lv(30.0)).unwrap();
    assert_eq!(req.gain, lv(0.5));
    assert_eq!(req.cue.as_ref().map(|c| c.start), Some(lv(30.0)));
    let t = s.seek_to(lv(30.0), Ok(())).unwrap();
    assert_eq!(t.command, SinkCommand::Install);
    check_event(&t.event, Status::Seeking, Some("track.mp3"), Some(30.0), Some(0.5));
    assert_eq!(s.current_track().as_deref(), Some("track.mp3"));
    assert!(!s.sink().paused);

    let req = s.stop_request();
    assert!(req.cue.is_none());
    let t = s.stop(Ok(())).unwrap();
    assert_eq!(t.command, SinkCommand::Install);
    check_event(&t.event, Status::Stopped, None, None, Some(0.5));
    assert_eq!(s.current_track(), None);
    assert_eq!(s.volume(), lv(0.5));
}

#[test]
fn new_session_is_idle() {
    let s = Session::new();
    assert_eq!(s.current_track(), None);
    assert_eq!(s.volume(), lv(1.0));
    assert!(s.sink().cue.is_none());
    assert!(!s.sink().paused);
}

#[test]
fn set_volume_clamps_and_new_sinks_take_it() {
    let mut s = Session::new();
    s.set_volume(lv(1.7));
    assert_eq!(s.volume(), lv(1.0));
    s.set_volume(lv(-2.0));
    assert_eq!(s.volume(), lv(0.0));
    assert_eq!(s.sink().gain, lv(0.0));
    let t = s.set_volume(lv(0.25));
    assert_eq!(t.event.volume, Some(lv(0.25)));
    assert_eq!(s.load_request(&"a.flac".to_string()).gain, lv(0.25));
    assert_eq!(s.stop_request().gain, lv(0.25));
    s.load("a.flac".to_string(), Ok(())).unwrap();
    assert_eq!(s.sink().gain, lv(0.25));
    assert_eq!(s.seek_request(lv(3.0)).unwrap().gain, lv(0.25));
}

#[test]
fn stop_after_load_clears_track() {
    let mut s = Session::new();
    s.load("a.mp3".to_string(), Ok(())).unwrap();
    s.stop(Ok(())).unwrap();
    assert_eq!(s.current_track(), None);

    let mut s = Session::new();
    let r = s.load("bad.mp3".to_string(), Err(BuildError::Decode("corrupt".to_string())));
    assert!(matches!(r, Err(PlaybackError::Decode(_))));
    s.stop(Ok(())).unwrap();
    assert_eq!(s.current_track(), None);
}

#[test]
fn seek_without_track_fails_and_changes_nothing() {
    let mut s = Session::new();
    s.set_volume(lv(0.3));
    assert!(matches!(s.seek_request(lv(5.0)), Err(PlaybackError::NoTrackLoaded)));
    let r = s.seek_to(lv(5.0), Ok(()));
    assert!(matches!(r, Err(PlaybackError::NoTrackLoaded)));
    assert_eq!(s.volume(), lv(0.3));
    assert_eq!(s.sink().gain, lv(0.3));
    assert!(s.sink().cue.is_none());
    assert_eq!(s.current_track(), None);
}

#[test]
fn failed_load_keeps_previous_track() {
    let mut s = Session::new();
    s.load("first.mp3".to_string(), Ok(())).unwrap();
    s.pause();
    let r = s.load(
        "missing.mp3".to_string(),
        Err(BuildError::Io("No such file or directory".to_string())),
    );
    assert!(matches!(r, Err(PlaybackError::Io(_))));
    assert_eq!(s.current_track().as_deref(), Some("first.mp3"));
    assert_eq!(s.sink().cue.as_ref().map(|c| c.path.as_str()), Some("first.mp3"));
    assert!(s.sink().paused);
}

#[test]
fn failed_seek_or_stop_build_keeps_state() {
    let mut s = Session::new();
    s.load("first.mp3".to_string(), Ok(())).unwrap();
    let r = s.seek_to(lv(10.0), Err(BuildError::Device("no device".to_string())));
    assert!(matches!(r, Err(PlaybackError::Device(_))));
    assert_eq!(s.sink().cue.as_ref().map(|c| c.start), Some(lv(0.0)));
    let r = s.stop(Err(BuildError::Device("no device".to_string())));
    assert!(matches!(r, Err(PlaybackError::Device(_))));
    assert_eq!(s.current_track().as_deref(), Some("first.mp3"));
}

#[test]
fn seek_to_negative_position_starts_at_zero() {
    let mut s = Session::new();
    s.load("first.mp3".to_string(), Ok(())).unwrap();
    let t = s.seek_to(lv(-4.0), Ok(())).unwrap();
    assert_eq!(t.event.position, Some(lv(0.0)));
    let t = s.seek_to(lv(f32::NAN), Ok(())).unwrap();
    assert_eq!(t.event.position, Some(lv(0.0)));
}

#[test]
fn resume_plays_in_place() {
    let mut s = Session::new();
    s.load("first.mp3".to_string(), Ok(())).unwrap();
    s.pause();
    let t = s.resume();
    assert_eq!(t.command, SinkCommand::Resume);
    check_event(&t.event, Status::Playing, Some("first.mp3"), None, Some(1.0));
    assert!(!s.sink().paused);
    assert_eq!(s.sink().cue.as_ref().map(|c| c.path.as_str()), Some("first.mp3"));
}

#[test]
fn status_names() {
    assert_eq!(Status::Playing.as_str(), "playing");
    assert_eq!(Status::Paused.as_str(), "paused");
    assert_eq!(Status::Stopped.as_str(), "stopped");
    assert_eq!(Status::Volume.as_str(), "volume");
    assert_eq!(Status::Seeking.as_str(), "seeking");
}

#[test]
fn error_messages() {
    assert_eq!(PlaybackError::Io("gone".to_string()).message(), "File opening error: gone");
    assert_eq!(PlaybackError::Decode("bad".to_string()).message(), "Decoder error: bad");
    assert_eq!(PlaybackError::Device("busy".to_string()).message(), "Sink creation error: busy");
    assert_eq!(PlaybackError::NoTrackLoaded.message(), "No track loaded");
    assert_eq!(PlaybackError::Lock("poisoned".to_string()).message(), "Mutex lock error: poisoned");
}

#[test]
fn greet_names_the_caller() {
    assert_eq!(greet("Ada"), "Hello, Ada! You've been greeted from Rust!");
}

#[test]
fn nan_volume_keeps_the_stored_volume() {
    let mut s = Session::new();
    s.set_volume(lv(0.4));
    let t = s.set_volume(lv(f32::NAN));
    assert_eq!(s.volume(), lv(0.4));
    assert_eq!(s.sink().gain, lv(0.4));
    assert_eq!(t.command, SinkCommand::SetGain(lv(0.4)));
    assert_eq!(t.event.volume, Some(lv(0.4)));
    s.set_volume(lv(f32::INFINITY));
    assert_eq!(s.volume(), lv(1.0));
}

#[test]
fn seek_build_failure_is_not_no_track() {
    let mut s = Session::new();
    s.load("first.mp3".to_string(), Ok(())).unwrap();
    let r = s.seek_to(lv(1.0), Err(BuildError::Io("gone".to_string())));
    assert!(matches!(r, Err(PlaybackError::Io(_))));
}

#[test]
fn build_errors_map_to_operation_errors() {
    assert!(matches!(BuildError::Io("a".to_string()).into_playback_error(), PlaybackError::Io(d) if d == "a"));
    assert!(matches!(BuildError::Decode("b".to_string()).into_playback_error(), PlaybackError::Decode(d) if d == "b"));
    assert!(matches!(BuildError::Device("c".to_string()).into_playback_error(), PlaybackError::Device(d) if d == "c"));
}
