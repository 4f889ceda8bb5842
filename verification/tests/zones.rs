use attacca::browse::BrowseCtx;
use attacca::session::{ArtAction, Cmd, CmdOutcome, ControlAction, Session, zone_view};
use attacca::zones::{apply_event, find_zone, play_state_name, NowPlayingText, PlayState, ThreeLine, ZoneEvent, ZoneInfo};

fn zone(id: &str, name: &str) -> ZoneInfo {
    ZoneInfo {
        zone_id: id.to_string(),
        display_name: name.to_string(),
        state: PlayState::Stopped,
        first_output_id: Some(format!("out-{id}")),
        now_playing: None,
        is_next_allowed: false,
        is_previous_allowed: false,
    }
}

fn playing(id: &str, name: &str, key: &str) -> ZoneInfo {
    let mut z = zone(id, name);
    z.state = PlayState::Playing;
    z.is_next_allowed = true;
    z.now_playing = Some(NowPlayingText {
        one_line: format!("{name} song"),
        three_line: Some(ThreeLine {
            line1: "Song".to_string(),
            line2: Some("Artist".to_string()),
            line3: None,
        }),
        image_key: Some(key.to_string()),
    });
    z
}

fn ids(zones: &[ZoneInfo]) -> Vec<String> {
    zones.iter().map(|z| z.zone_id.clone()).collect()
}

fn names(zones: &[ZoneInfo]) -> Vec<String> {
    zones.iter().map(|z| z.display_name.clone()).collect()
}

#[test]
fn initial_zones_are_sorted_by_name() {
    let mut zones = Vec::new();
    apply_event(
        &mut zones,
        ZoneEvent::Initial(vec![zone("3", "Kitchen"), zone("1", "Attic"), zone("2", "Den")]),
    );
    assert_eq!(names(&zones), vec!["Attic", "Den", "Kitchen"]);
}

#[test]
fn sort_is_stable_for_equal_names() {
    let mut zones = Vec::new();
    apply_event(
        &mut zones,
        ZoneEvent::Initial(vec![zone("b", "Same"), zone("a", "Same"), zone("c", "Alpha")]),
    );
    assert_eq!(ids(&zones), vec!["c", "b", "a"]);
}

#[test]
fn sort_orders_by_code_point() {
    let mut zones = Vec::new();
    apply_event(
        &mut zones,
        ZoneEvent::Initial(vec![zone("1", "zeta"), zone("2", "Zeta"), zone("3", "Ärea"), zone("4", "Z")]),
    );
    assert_eq!(names(&zones), vec!["Z", "Zeta", "zeta", "Ärea"]);
}

#[test]
fn changed_zone_replaces_and_added_zone_appends() {
    let mut zones = Vec::new();
    apply_event(&mut zones, ZoneEvent::Initial(vec![zone("1", "Attic"), zone("2", "Den")]));
    apply_event(&mut zones, ZoneEvent::Changed(vec![zone("1", "Basement"), zone("9", "Annex")]));
    assert_eq!(ids(&zones), vec!["9", "1", "2"]);
    assert_eq!(names(&zones), vec!["Annex", "Basement", "Den"]);
}

#[test]
fn later_duplicate_in_event_wins() {
    let mut zones = Vec::new();
    apply_event(&mut zones, ZoneEvent::Added(vec![zone("1", "First"), zone("1", "Second")]));
    assert_eq!(names(&zones), vec!["Second"]);
}

#[test]
fn removed_zones_are_gone() {
    let mut zones = Vec::new();
    apply_event(&mut zones, ZoneEvent::Initial(vec![zone("1", "A"), zone("2", "B"), zone("3", "C")]));
    apply_event(&mut zones, ZoneEvent::Removed(vec!["2".to_string(), "7".to_string()]));
    assert_eq!(ids(&zones), vec!["1", "3"]);
}

#[test]
fn seeked_keeps_the_list() {
    let mut zones = Vec::new();
    apply_event(&mut zones, ZoneEvent::Initial(vec![zone("1", "A"), zone("2", "B")]));
    apply_event(&mut zones, ZoneEvent::Seeked(vec!["1".to_string()]));
    assert_eq!(ids(&zones), vec!["1", "2"]);
}

#[test]
fn find_zone_finds_first_match() {
    let zones = vec![zone("1", "A"), zone("2", "B")];
    assert_eq!(find_zone(&zones, &"2".to_string()), Some(1));
    assert_eq!(find_zone(&zones, &"5".to_string()), None);
}

#[test]
fn first_event_selects_first_zone_and_opens_home() {
    let mut s = Session::new();
    let out = s.on_zone_event(ZoneEvent::Initial(vec![zone("k", "Kitchen"), playing("a", "Attic", "img1")]));
    assert!(!out.seek_only);
    assert_eq!(out.selected, 0);
    assert_eq!(s.sel_id.as_deref(), Some("a"));
    let rf = out.refresh.expect("refresh");
    assert_eq!(rf.list.names, vec!["Attic", "Kitchen"]);
    assert_eq!(rf.list.index, 0);
    assert_eq!(rf.view.title, "Song");
    assert_eq!(rf.view.artist, "Artist");
    assert_eq!(rf.view.album, "");
    assert_eq!(rf.view.play_state, "Playing");
    assert!(rf.view.can_next);
    assert!(!rf.view.can_previous);
    assert!(matches!(rf.art, ArtAction::Fetch(ref k) if k == "img1"));
    let home = out.home.expect("home");
    assert_eq!(home.hierarchy, "browse");
    assert_eq!(home.pop_all, Some(true));
    assert_eq!(home.zone_or_output_id.as_deref(), Some("a"));
    let again = s.on_zone_event(ZoneEvent::Changed(vec![zone("k", "Kitchen")]));
    assert!(again.home.is_none());
}

#[test]
fn selection_survives_resort_and_falls_back_when_removed() {
    let mut s = Session::new();
    s.on_zone_event(ZoneEvent::Initial(vec![zone("a", "Attic"), zone("k", "Kitchen")]));
    let out = s.on_command(Cmd::SelectZone(1));
    assert!(matches!(out, CmdOutcome::Refresh(ref rf) if rf.list.index == 1));
    assert_eq!(s.sel_id.as_deref(), Some("k"));
    let out = s.on_zone_event(ZoneEvent::Added(vec![zone("b", "Bar")]));
    assert_eq!(out.selected, 2);
    assert_eq!(s.sel_id.as_deref(), Some("k"));
    let out = s.on_zone_event(ZoneEvent::Removed(vec!["k".to_string()]));
    assert_eq!(out.selected, 0);
    assert_eq!(s.sel_id.as_deref(), Some("a"));
}

#[test]
fn seek_only_event_refreshes_nothing_else() {
    let mut s = Session::new();
    s.on_zone_event(ZoneEvent::Initial(vec![zone("a", "Attic")]));
    let out = s.on_zone_event(ZoneEvent::Seeked(vec!["a".to_string()]));
    assert!(out.seek_only);
    assert!(out.refresh.is_none());
}

#[test]
fn empty_zone_list_clears_selection_and_art() {
    let mut s = Session::new();
    s.on_zone_event(ZoneEvent::Initial(vec![playing("a", "Attic", "img")]));
    let out = s.on_zone_event(ZoneEvent::Removed(vec!["a".to_string()]));
    assert!(s.sel_id.is_none());
    let rf = out.refresh.expect("refresh");
    assert!(rf.list.names.is_empty());
    assert!(matches!(rf.art, ArtAction::Clear));
    assert_eq!(rf.view.title, "");
    assert_eq!(rf.view.play_state, "");
}

#[test]
fn same_artwork_is_fetched_once() {
    let mut s = Session::new();
    let out = s.on_zone_event(ZoneEvent::Initial(vec![playing("a", "Attic", "img")]));
    assert!(matches!(out.refresh.unwrap().art, ArtAction::Fetch(_)));
    let out = s.on_zone_event(ZoneEvent::Changed(vec![playing("a", "Attic", "img")]));
    assert!(matches!(out.refresh.unwrap().art, ArtAction::Unchanged));
}

#[test]
fn transport_commands_target_selected_zone() {
    let mut s = Session::new();
    assert!(matches!(s.on_command(Cmd::PlayPause), CmdOutcome::Nothing));
    s.on_zone_event(ZoneEvent::Initial(vec![zone("a", "Attic"), zone("b", "Bar")]));
    s.on_command(Cmd::SelectZone(1));
    match s.on_command(Cmd::Next) {
        CmdOutcome::Control { zone_id, action } => {
            assert_eq!(zone_id, "b");
            assert_eq!(action, ControlAction::Next);
        }
        _ => panic!("expected a control"),
    }
    assert_eq!(s.volume_target().as_deref(), Some("out-b"));
    assert_eq!(s.seek_target().as_deref(), Some("b"));
    assert!(matches!(s.on_command(Cmd::SelectZone(7)), CmdOutcome::Nothing));
}

#[test]
fn browse_commands_carry_hierarchy_and_zone() {
    let mut s = Session::new();
    s.on_zone_event(ZoneEvent::Initial(vec![zone("a", "Attic")]));
    match s.on_command(Cmd::Search("miles".to_string())) {
        CmdOutcome::Browse(b) => {
            assert_eq!(b.hierarchy, "search");
            assert_eq!(b.input.as_deref(), Some("miles"));
            assert_eq!(b.pop_all, Some(true));
        }
        _ => panic!("expected browse"),
    }
    match s.on_command(Cmd::BrowseInto("item7".to_string())) {
        CmdOutcome::Browse(b) => {
            assert_eq!(b.hierarchy, "search");
            assert_eq!(b.item_key.as_deref(), Some("item7"));
            assert_eq!(b.zone_or_output_id.as_deref(), Some("a"));
        }
        _ => panic!("expected browse"),
    }
    match s.on_command(Cmd::BrowseBack) {
        CmdOutcome::Browse(b) => assert_eq!(b.pop_levels, Some(1)),
        _ => panic!("expected browse"),
    }
    match s.on_command(Cmd::BrowseHome) {
        CmdOutcome::Browse(b) => assert_eq!(b.hierarchy, "browse"),
        _ => panic!("expected browse"),
    }
    assert!(matches!(s.on_command(Cmd::LoadMore), CmdOutcome::Nothing));
}

#[test]
fn one_line_text_when_no_three_line() {
    let mut z = zone("a", "Attic");
    z.state = PlayState::Loading;
    z.now_playing = Some(NowPlayingText { one_line: "Just one".to_string(), three_line: None, image_key: None });
    let v = zone_view(Some(&z));
    assert_eq!(v.title, "Just one");
    assert_eq!(v.artist, "");
    assert_eq!(v.play_state, "Loading");
    assert_eq!(play_state_name(PlayState::Paused), "Paused");
    let none = zone_view(None);
    assert_eq!(none.title, "");
    assert!(!none.can_next);
}

#[test]
fn browse_ctx_starts_in_browse() {
    let b = BrowseCtx::new();
    assert_eq!(b.hierarchy, "browse");
    assert!(b.next_page().is_none());
}

#[test]
fn browse_home_and_search_keep_the_artwork() {
    let mut s = Session::new();
    s.on_zone_event(ZoneEvent::Initial(vec![playing("a", "Attic", "img")]));
    assert_eq!(s.art.last.as_deref(), Some("img"));
    s.on_command(Cmd::BrowseHome);
    assert_eq!(s.art.last.as_deref(), Some("img"));
    s.on_command(Cmd::Search("miles".to_string()));
    assert_eq!(s.art.last.as_deref(), Some("img"));
}
