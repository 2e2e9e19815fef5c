use dashboard_core::config::{
    base_dir, config_path, config_path_for, decode_config, delete_user_tree, encode_config,
    is_absolute_path, is_single_component, load_config, save_config, user_root, users_base_dir,
    AppConfig,
};
use dashboard_core::json::Json;

#[test]
fn default_settings() {
    let c = AppConfig::default();
    assert_eq!(c.city, "Bucharest");
    assert_eq!(c.news_topic, "Top Stories");
    assert!(c.units_celsius);
}

#[test]
fn settings_round_trip_through_their_file() {
    let c = AppConfig {
        city: "Cluj-Napoca \"centru\"".to_string(),
        news_topic: "rust • verification".to_string(),
        units_celsius: false,
    };
    let back = load_config(Some(&save_config(&c)));
    assert_eq!(back.city, c.city);
    assert_eq!(back.news_topic, c.news_topic);
    assert_eq!(back.units_celsius, false);
    let d = c.duplicate();
    assert_eq!(d.city, c.city);
    assert_eq!(d.units_celsius, c.units_celsius);
}

#[test]
fn absent_or_corrupt_settings_are_the_default() {
    for content in [
        None,
        Some(""),
        Some("garbage"),
        Some("[]"),
        Some(r#"{"city": "Paris"}"#),
        Some(r#"{"city": "Paris", "news_topic": "x"}"#),
        Some(r#"{"city": "Paris", "news_topic": "x", "units_celsius": "yes"}"#),
        Some(r#"{"city": 1, "news_topic": "x", "units_celsius": true}"#),
    ] {
        let c = load_config(content);
        assert_eq!(c.city, "Bucharest");
        assert_eq!(c.news_topic, "Top Stories");
        assert!(c.units_celsius);
    }
}

#[test]
fn settings_are_read_member_by_member() {
    let c = load_config(Some(
        r#"{"units_celsius": false, "extra": 1, "news_topic": "go", "city": "Paris"}"#,
    ));
    assert_eq!(c.city, "Paris");
    assert_eq!(c.news_topic, "go");
    assert!(!c.units_celsius);
    assert!(decode_config(&Json::Null).is_none());
    match encode_config(&c) {
        Json::Object(ms) => {
            let keys: Vec<&str> = ms.iter().map(|m| m.key.as_str()).collect();
            assert_eq!(keys, vec!["city", "news_topic", "units_celsius"]);
            assert!(matches!(ms[2].value, Json::Bool(false)));
        }
        _ => panic!("settings are no object"),
    }
}

#[test]
fn paths_below_the_home_directory() {
    assert_eq!(base_dir("/home/ana"), "/home/ana/tock-workshop/slint_rust");
    assert_eq!(users_base_dir("/home/ana"), "/home/ana/tock-workshop/slint_rust/users");
    assert_eq!(config_path("/home/ana"), "/home/ana/tock-workshop/slint_rust/config.json");
    assert_eq!(user_root("/home/ana", "bob"), "/home/ana/tock-workshop/slint_rust/users/bob");
    assert_eq!(
        config_path_for("/home/ana", "bob"),
        "/home/ana/tock-workshop/slint_rust/users/bob/config.json"
    );
}

#[test]
fn deleting_a_user_names_only_that_users_directories() {
    let dirs = delete_user_tree("/home/ana", "bob");
    assert_eq!(
        dirs,
        vec!["/home/ana/tock-workshop/slint_rust/users/bob", "cache/users/bob"]
    );
    let other = config_path_for("/home/ana", "bobby");
    assert!(!other.starts_with(&format!("{}/", dirs[0])));
    assert!(!dashboard_core::cache::weather_path_for("bobby").starts_with(&format!("{}/", dirs[1])));
    assert!(!dashboard_core::cache::news_path_for("bo").starts_with(&format!("{}/", dirs[1])));
}

#[test]
fn user_names_that_are_components_of_their_own() {
    for name in ["ana", "guest", "a.b", "...", ".hidden", "ana ", "é", "a\\b"] {
        assert!(is_single_component(name));
    }
    for name in ["", ".", "..", "/", "a/b", "/ana", "ana/", "../ana", "a/../b"] {
        assert!(!is_single_component(name));
    }
}

#[test]
fn homes_that_start_at_the_root() {
    assert!(is_absolute_path("/"));
    assert!(is_absolute_path("/home/ana"));
    assert!(!is_absolute_path(""));
    assert!(!is_absolute_path("home/ana"));
    assert!(!is_absolute_path("cache/users/ana"));
    assert!(!is_absolute_path("./home"));
}

#[test]
fn directories_of_one_user_hold_no_file_of_another() {
    let home = "/home/ana";
    let dirs = delete_user_tree(home, "bob");
    let others = [
        config_path_for(home, "bobby"),
        config_path_for(home, "bo"),
        config_path_for(home, "ana"),
        config_path(home),
        dashboard_core::cache::weather_path_for("bobby"),
        dashboard_core::cache::news_path_for("bo"),
        dashboard_core::cache::weather_path_for("ana"),
    ];
    for dir in &dirs {
        for file in &others {
            assert_ne!(file, dir);
            assert!(!file.starts_with(&format!("{dir}/")));
        }
    }
    assert!(config_path_for(home, "bob").starts_with(&format!("{}/", dirs[0])));
    assert!(dashboard_core::cache::news_path_for("bob").starts_with(&format!("{}/", dirs[1])));
}
