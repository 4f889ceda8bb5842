use attacca::bridge::App;
use attacca::cli::{
    changed_line, core_line, find_toggle_zone, no_zone_message, pairing_step, toggle_line,
    zone_count_line, zone_header, CoreSightings, PairingEvent,
};
use attacca::session::{link_step, link_text, Cmd, LinkEvent, LinkState};
use attacca::cli::{event_lines, WatchLine};
use attacca::zones::{NowPlayingText, PlayState, ZoneEvent, ZoneInfo};

#[test]
fn actions_before_start_are_dropped() {
    let mut app = App::new();
    assert!(app.play_pause().is_none());
    assert!(app.start());
    assert!(!app.start());
    assert!(matches!(app.play_pause(), Some(Cmd::PlayPause)));
    assert!(matches!(app.next(), Some(Cmd::Next)));
    assert!(matches!(app.previous(), Some(Cmd::Previous)));
    assert!(matches!(app.browse_home(), Some(Cmd::BrowseHome)));
    assert!(matches!(app.browse_back(), Some(Cmd::BrowseBack)));
    assert!(matches!(app.load_more(), Some(Cmd::LoadMore)));
    assert!(matches!(app.browse_into("k".to_string()), Some(Cmd::BrowseInto(ref k)) if k == "k"));
}

#[test]
fn select_zone_ignores_negative_index() {
    let mut app = App::new();
    app.start();
    assert!(app.select_zone(-1).is_none());
    assert!(matches!(app.select_zone(2), Some(Cmd::SelectZone(2))));
}

#[test]
fn blank_search_sends_nothing() {
    let mut app = App::new();
    app.start();
    assert!(app.search("  \t".to_string()).is_none());
    assert!(matches!(app.search(" kind of blue ".to_string()), Some(Cmd::Search(ref q)) if q == " kind of blue "));
}

#[test]
fn each_core_reported_once() {
    let mut s = CoreSightings::new();
    assert!(s.is_empty());
    assert!(s.observe(&"c1".to_string()));
    assert!(!s.observe(&"c1".to_string()));
    assert!(s.observe(&"c2".to_string()));
    assert!(!s.is_empty());
}

#[test]
fn core_line_format() {
    assert_eq!(
        core_line(Some("Studio".to_string()), "192.168.1.5", 9330, None, "abc"),
        "  core \"Studio\"  192.168.1.5:9330  version: ?  id: abc"
    );
}

#[test]
fn toggle_zone_choice() {
    let names = vec!["Kitchen".to_string(), "Living Room".to_string(), "Bedroom".to_string()];
    assert_eq!(find_toggle_zone(&names, &None), Some(0));
    assert_eq!(find_toggle_zone(&names, &Some("ROOM".to_string())), Some(1));
    assert_eq!(find_toggle_zone(&names, &Some("garage".to_string())), None);
    assert_eq!(find_toggle_zone(&Vec::new(), &None), None);
    assert_eq!(no_zone_message(&Some("garage".to_string())), "no zone matching Some(\"garage\")");
    assert_eq!(no_zone_message(&None), "no zone matching None");
    assert_eq!(toggle_line("Kitchen", PlayState::Paused), "PlayPause → \"Kitchen\" (was Paused)");
}

#[test]
fn watch_lines() {
    assert_eq!(zone_header("Den", PlayState::Playing), "  Den  [Playing]");
    assert_eq!(changed_line("Den", PlayState::Stopped, None), "[Den] Stopped  –");
    assert_eq!(changed_line("Den", PlayState::Playing, Some("So What")), "[Den] Playing  So What");
    assert_eq!(zone_count_line(3), "── 3 zone(s) ──");
}

#[test]
fn pairing_lines() {
    let (line, done) = pairing_step(&PairingEvent::CoreFound { core_id: "id1".to_string(), display_name: "Core".to_string() });
    assert_eq!(line, "  found core \"Core\" (id1) — registering…");
    assert!(!done);
    let (line, done) = pairing_step(&PairingEvent::CorePaired { display_name: "Core".to_string() });
    assert_eq!(line, "  paired with \"Core\"");
    assert!(done);
    assert_eq!(pairing_step(&PairingEvent::CoreLost { core_id: "x".to_string() }).0, "  lost core x");
    assert_eq!(pairing_step(&PairingEvent::CoreUnpaired { core_id: "x".to_string() }).0, "  unpaired from x");
}

#[test]
fn connection_states() {
    assert_eq!(link_step(LinkEvent::ScanEmpty), (LinkState::Discovering, 5));
    assert_eq!(link_step(LinkEvent::ConnectFailed), (LinkState::Retrying, 3));
    assert_eq!(link_step(LinkEvent::ScanFound), (LinkState::Pairing, 0));
    assert_eq!(link_text(LinkState::Connected), "connected");
    assert_eq!(link_text(LinkState::Starting), "starting");
}

#[test]
fn watch_lines_per_event() {
    let zone = |id: &str, name: &str| ZoneInfo {
        zone_id: id.to_string(),
        display_name: name.to_string(),
        state: PlayState::Playing,
        first_output_id: None,
        now_playing: Some(NowPlayingText { one_line: "Tune".to_string(), three_line: None, image_key: None }),
        is_next_allowed: false,
        is_previous_allowed: false,
    };
    let text = |l: &WatchLine| match l {
        WatchLine::Text(t) => t.clone(),
        WatchLine::ZoneDetail(i) => format!("#{i}"),
    };
    let lines: Vec<String> = event_lines(&ZoneEvent::Initial(vec![zone("a", "A"), zone("b", "B")])).iter().map(text).collect();
    assert_eq!(lines, vec!["── 2 zone(s) ──", "#0", "#1"]);
    let lines: Vec<String> = event_lines(&ZoneEvent::Added(vec![zone("c", "C")])).iter().map(text).collect();
    assert_eq!(lines, vec!["#0"]);
    let lines: Vec<String> = event_lines(&ZoneEvent::Changed(vec![zone("a", "A")])).iter().map(text).collect();
    assert_eq!(lines, vec!["[A] Playing  Tune"]);
    let lines: Vec<String> = event_lines(&ZoneEvent::Removed(vec!["x".to_string(), "y".to_string()])).iter().map(text).collect();
    assert_eq!(lines, vec!["[removed] x", "[removed] y"]);
    assert!(event_lines(&ZoneEvent::Seeked(vec!["a".to_string()])).is_empty());
}
