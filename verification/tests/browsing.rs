use attacca::browse::{BrowseCtx, BrowseOutcome, ListInfo, PAGE_SIZE};

fn list(title: &str, level: u32, count: u32) -> ListInfo {
    ListInfo { title: title.to_string(), level, count }
}

#[test]
fn list_result_resets_and_asks_first_page() {
    let mut b = BrowseCtx::new();
    b.loaded = 40;
    let out = b.apply(&"list".to_string(), Some(list("Library", 1, 250)), None);
    match out {
        BrowseOutcome::Reset { title, level, count, in_search, first_page } => {
            assert_eq!(title, "Library");
            assert_eq!(level, 1);
            assert_eq!(count, 250);
            assert!(!in_search);
            let p = first_page.expect("page");
            assert_eq!(p.hierarchy, "browse");
            assert_eq!(p.offset, 0);
            assert_eq!(p.count, PAGE_SIZE);
        }
        _ => panic!("expected reset"),
    }
    assert_eq!(b.count, 250);
    assert_eq!(b.loaded, 0);
}

#[test]
fn empty_list_asks_no_page() {
    let mut b = BrowseCtx::new();
    match b.apply(&"list".to_string(), Some(list("Nothing", 0, 0)), None) {
        BrowseOutcome::Reset { first_page, .. } => assert!(first_page.is_none()),
        _ => panic!("expected reset"),
    }
}

#[test]
fn search_list_is_flagged() {
    let mut b = BrowseCtx::new();
    b.search("x".to_string(), None);
    match b.apply(&"list".to_string(), Some(list("Results", 0, 3)), None) {
        BrowseOutcome::Reset { in_search, first_page, .. } => {
            assert!(in_search);
            assert_eq!(first_page.unwrap().hierarchy, "search");
        }
        _ => panic!("expected reset"),
    }
}

#[test]
fn message_becomes_toast() {
    let mut b = BrowseCtx::new();
    match b.apply(&"message".to_string(), None, Some("Added to queue".to_string())) {
        BrowseOutcome::Toast(m) => assert_eq!(m, "Added to queue"),
        _ => panic!("expected toast"),
    }
    match b.apply(&"message".to_string(), None, None) {
        BrowseOutcome::Toast(m) => assert_eq!(m, "Done"),
        _ => panic!("expected toast"),
    }
}

#[test]
fn other_actions_are_ignored() {
    let mut b = BrowseCtx::new();
    b.count = 5;
    assert!(matches!(b.apply(&"replace_item".to_string(), None, None), BrowseOutcome::Ignored));
    assert!(matches!(b.apply(&"list".to_string(), None, None), BrowseOutcome::Ignored));
    assert_eq!(b.count, 5);
}

#[test]
fn paging_advances_and_ends() {
    let mut b = BrowseCtx::new();
    b.apply(&"list".to_string(), Some(list("Albums", 2, 230)), None);
    b.page_loaded(100);
    let p = b.next_page().unwrap();
    assert_eq!(p.offset, 100);
    b.page_loaded(100);
    assert_eq!(b.next_page().unwrap().offset, 200);
    b.page_loaded(30);
    assert!(b.next_page().is_none());
}

#[test]
fn empty_page_ends_the_list() {
    let mut b = BrowseCtx::new();
    b.apply(&"list".to_string(), Some(list("Albums", 2, 230)), None);
    b.page_loaded(0);
    assert_eq!(b.loaded, 230);
    assert!(b.next_page().is_none());
}

#[test]
fn home_and_back_requests() {
    let mut b = BrowseCtx::new();
    b.search("q".to_string(), Some("z".to_string()));
    let back = b.back(Some("z".to_string()));
    assert_eq!(back.hierarchy, "search");
    assert_eq!(back.pop_levels, Some(1));
    let home = b.home(None);
    assert_eq!(home.hierarchy, "browse");
    assert_eq!(b.hierarchy, "browse");
    let into = b.into_item("k1".to_string(), None);
    assert_eq!(into.item_key.as_deref(), Some("k1"));
    assert_eq!(into.hierarchy, "browse");
}
