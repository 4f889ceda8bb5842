use attacca::mpris::{playback_status, position_target_us, PlaybackStatus, PlayerState, PropertyChange, TrackState};
use attacca::session::Cmd;

fn track(title: &str, art: &str, state: &str) -> TrackState {
    TrackState {
        title: title.to_string(),
        artist: "Artist".to_string(),
        album: "Album".to_string(),
        art_url: art.to_string(),
        play_state: state.to_string(),
        length_us: 180_000_000,
        position_us: 5_000_000,
        can_next: true,
        can_previous: false,
    }
}

#[test]
fn status_mapping() {
    assert_eq!(playback_status("Playing"), PlaybackStatus::Playing);
    assert_eq!(playback_status("Paused"), PlaybackStatus::Paused);
    assert_eq!(playback_status("Loading"), PlaybackStatus::Paused);
    assert_eq!(playback_status("Stopped"), PlaybackStatus::Stopped);
    assert_eq!(playback_status(""), PlaybackStatus::Stopped);
}

#[test]
fn first_replace_signals_everything_that_changed() {
    let mut p = PlayerState::new();
    let props = p.replace(track("Song", "file:///a.jpg", "Playing"));
    assert_eq!(p.track_serial, 1);
    assert_eq!(props.len(), 3);
    assert!(matches!(props[0], PropertyChange::PlaybackStatus(PlaybackStatus::Playing)));
    match &props[1] {
        PropertyChange::Metadata(m) => {
            assert_eq!(m.trackid, "/org/attacca/track/1");
            assert_eq!(m.title.as_deref(), Some("Song"));
            assert_eq!(m.artist.as_deref(), Some("Artist"));
            assert_eq!(m.length_us, Some(180_000_000));
            assert_eq!(m.art_url.as_deref(), Some("file:///a.jpg"));
        }
        _ => panic!("expected metadata"),
    }
    assert!(matches!(props[2], PropertyChange::CanGoNext(true)));
}

#[test]
fn replacing_with_same_state_signals_nothing() {
    let mut p = PlayerState::new();
    p.replace(track("Song", "file:///a.jpg", "Playing"));
    let props = p.replace(track("Song", "file:///a.jpg", "Playing"));
    assert!(props.is_empty());
    assert_eq!(p.track_serial, 1);
}

#[test]
fn artwork_is_kept_for_same_title() {
    let mut p = PlayerState::new();
    p.replace(track("Song", "file:///a.jpg", "Playing"));
    let props = p.replace(track("Song", "", "Paused"));
    assert_eq!(p.now.art_url, "file:///a.jpg");
    assert_eq!(props.len(), 1);
    assert!(matches!(props[0], PropertyChange::PlaybackStatus(PlaybackStatus::Paused)));
    p.replace(track("Other", "", "Paused"));
    assert_eq!(p.now.art_url, "");
    assert_eq!(p.track_serial, 2);
}

#[test]
fn late_artwork_updates_metadata_once() {
    let mut p = PlayerState::new();
    p.replace(track("Song", "", "Playing"));
    let m = p.update_art("file:///late.jpg".to_string()).expect("metadata");
    assert_eq!(m.art_url.as_deref(), Some("file:///late.jpg"));
    assert!(p.update_art("file:///late.jpg".to_string()).is_none());
}

#[test]
fn empty_fields_left_out_of_metadata() {
    let p = PlayerState::new();
    let m = p.metadata();
    assert_eq!(m.trackid, "/org/attacca/track/0");
    assert!(m.title.is_none() && m.artist.is_none() && m.album.is_none());
    assert!(m.length_us.is_none() && m.art_url.is_none());
    assert!(!p.can_seek());
}

#[test]
fn transport_requests() {
    let mut p = PlayerState::new();
    p.replace(track("Song", "", "Playing"));
    assert!(matches!(p.pause(), Some(Cmd::PlayPause)));
    assert!(matches!(p.stop(), Some(Cmd::PlayPause)));
    assert!(p.play().is_none());
    p.replace(track("Song", "", "Paused"));
    assert!(p.pause().is_none());
    assert!(matches!(p.play(), Some(Cmd::PlayPause)));
    assert_eq!(p.seek_target_us(10_000_000), 15_000_000);
    assert_eq!(p.seek_target_us(-9_000_000), 0);
    p.update_position(1);
    assert_eq!(p.now.position_us, 1);
    assert_eq!(position_target_us(-5), 0);
    assert_eq!(position_target_us(7), 7);
    assert!(p.can_seek());
    assert_eq!(p.status(), PlaybackStatus::Paused);
}
