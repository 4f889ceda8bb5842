use attacca::client::{build_cli_client, build_client, build_named, CLI_EXTENSION_ID, EMAIL, EXTENSION_ID, VERSION};
use attacca::paths::{
    art_dir_in, art_file_name, bridge_base_in, cli_token_store_path, config_file_in, file_url,
    bridge_data_dir_in, image_base, join, program_dir_in, settings_dir, settings_dir_in,
    token_store_path, program_dir, unit_path_in,
};
use attacca::cli::{find_toggle_zone, no_zone_message};
use attacca::text::{
    cat, decimal_string, i64_decimal_string, str_contains, str_ends_with, str_lt, str_starts_with,
    trim,
};

#[test]
fn string_order_matches_std() {
    let words = ["", "a", "b", "ab", "Z", "zz", "é", "e\u{301}", "ä"];
    for a in words {
        for b in words {
            assert_eq!(str_lt(a, b), a < b, "{a:?} < {b:?}");
        }
    }
}

#[test]
fn contains_matches_std() {
    assert!(str_contains("Living Room", "ing R"));
    assert!(str_contains("abc", ""));
    assert!(!str_contains("abc", "abcd"));
    assert!(!str_contains("abc", "ac"));
    assert!(str_starts_with("device_1", "device_"));
    assert!(str_ends_with("a.json", ".json"));
    assert!(!str_ends_with("json", ".json"));
}

#[test]
fn zone_filter_ignores_case_and_error_quotes_filter() {
    let names = vec!["Office".to_string(), "KüCHE ÄÖ".to_string()];
    assert_eq!(find_toggle_zone(&names, &Some("küche äö".to_string())), Some(1));
    assert_eq!(find_toggle_zone(&names, &Some("OFF".to_string())), Some(0));
    assert_eq!(
        no_zone_message(&Some("a\"b\n".to_string())),
        "no zone matching Some(\"a\\\"b\\n\")"
    );
}

#[test]
fn trim_and_numbers() {
    assert_eq!(trim("\t x y \u{3000}\n"), "x y");
    assert_eq!(trim(" \n "), "");
    assert_eq!(decimal_string(0), "0");
    assert_eq!(decimal_string(9003), "9003");
    assert_eq!(decimal_string(u64::MAX), u64::MAX.to_string());
    assert_eq!(i64_decimal_string(-42), "-42");
    assert_eq!(i64_decimal_string(i64::MIN), i64::MIN.to_string());
    assert_eq!(cat("ab", "cd"), "abcd");
}

#[test]
fn path_join_matches_std() {
    for (a, b) in [("/home/x", "attacca"), ("/home/x/", "attacca"), ("", "a"), ("rel", "b"), ("/x", "/abs")] {
        let expected = std::path::Path::new(a).join(b).to_string_lossy().into_owned();
        assert_eq!(join(a, b), expected);
    }
}

#[test]
fn config_files_under_attacca() {
    assert_eq!(config_file_in(Some("/home/u/.config".to_string()), "tokens.json"), "/home/u/.config/attacca/tokens.json");
    assert_eq!(config_file_in(None, "tokens.json"), "./attacca/tokens.json");
    assert!(token_store_path().ends_with("/attacca/tokens.json"));
    assert!(cli_token_store_path().ends_with("/attacca/tokens-cli.json"));
}

#[test]
fn bridge_directories() {
    assert_eq!(bridge_base_in("/home/u/.local/share"), "/home/u/.local/share/attacca/roonbridge");
    if let Some(p) = program_dir() {
        assert!(p.ends_with("/attacca/roonbridge/RoonBridge"));
    }
    if let Some(s) = settings_dir() {
        assert!(s.ends_with("/attacca/roonbridge/data/RAATServer/Settings"));
    }
}

#[test]
fn artwork_paths_and_urls() {
    assert_eq!(art_file_name("a1:b/2-Z"), "a1b2Z.jpg");
    assert_eq!(art_dir_in(None, "/tmp"), "/tmp/attacca/art");
    assert_eq!(art_dir_in(Some("/c".to_string()), "/tmp"), "/c/attacca/art");
    assert_eq!(file_url("/c/x.jpg"), "file:///c/x.jpg");
    assert_eq!(image_base("10.0.0.2", 9330), "http://10.0.0.2:9330/api/image/");
}

#[test]
fn client_identities() {
    let c = build_client();
    assert_eq!(c.extension_id, EXTENSION_ID);
    assert_eq!(c.display_name, "Attacca");
    assert_eq!(c.version, VERSION);
    assert_eq!(c.email, EMAIL);
    assert!(c.require_transport && c.require_browse);
    assert!(c.token_path.ends_with("tokens.json"));
    let d = build_cli_client();
    assert_eq!(d.extension_id, CLI_EXTENSION_ID);
    assert_eq!(d.display_name, "Attacca CLI");
    assert!(d.token_path.ends_with("tokens-cli.json"));
    let n = build_named("x.y", "Name", "/t".to_string());
    assert_eq!(n.publisher, "Attacca contributors");
    assert_eq!(n.token_path, "/t");
}

#[test]
fn bridge_paths_from_base_directories() {
    assert_eq!(
        program_dir_in("/home/u/.local/share"),
        "/home/u/.local/share/attacca/roonbridge/RoonBridge"
    );
    assert_eq!(
        bridge_data_dir_in("/home/u/.local/share/"),
        "/home/u/.local/share/attacca/roonbridge/data"
    );
    assert_eq!(
        settings_dir_in("/d"),
        "/d/attacca/roonbridge/data/RAATServer/Settings"
    );
    assert_eq!(
        unit_path_in("/home/u/.config"),
        "/home/u/.config/systemd/user/attacca-roonbridge.service"
    );
}

#[test]
fn token_files_differ_in_one_directory() {
    for home in [Some("/home/u/.config".to_string()), Some("/c/".to_string()), None] {
        let app = config_file_in(home.clone(), "tokens.json");
        let cli = config_file_in(home, "tokens-cli.json");
        assert_ne!(app, cli);
        let dir_app = app.rsplit_once('/').unwrap().0;
        let dir_cli = cli.rsplit_once('/').unwrap().0;
        assert_eq!(dir_app, dir_cli);
        assert!(dir_app.ends_with("attacca"));
    }
    assert_ne!(EXTENSION_ID, CLI_EXTENSION_ID);
}

#[test]
fn program_and_data_directories_apart() {
    for home in ["/home/u/.local/share", "/d/", ""] {
        let p = program_dir_in(home);
        let d = bridge_data_dir_in(home);
        assert!(!p.starts_with(&d));
        assert!(!d.starts_with(&p));
    }
}
