use fdfzf::config::{
    default_config_location, default_config_location_with_home, resolve_choices, resolve_choices_in,
    resolve_settings, resolve_settings_with_home, seed_profile, seed_step, CliOverrides, Profile,
    ProfileStore, SeedStep, DEFAULT_PROFILE, SEED_CONFIG,
};

fn s(v: &str) -> Option<String> {
    Some(v.to_string())
}

fn no_flags() -> CliOverrides {
    CliOverrides { path: None, depth: None, fd_type: None, hidden: None }
}

fn profile(path: &str, depth: &str, fd_type: &str, hidden: bool) -> Profile {
    Profile { path: s(path), depth: s(depth), fd_type: s(fd_type), hidden: Some(hidden) }
}

fn empty_profile() -> Profile {
    Profile { path: None, depth: None, fd_type: None, hidden: None }
}

#[test]
fn fallbacks_apply_without_any_source() {
    let c = resolve_choices(&no_flags(), None, None);
    assert_eq!(c.path, "~");
    assert_eq!(c.depth, "4");
    assert_eq!(c.fd_type, "d");
    assert!(!c.hidden);
}

#[test]
fn default_profile_gives_each_setting() {
    let d = profile("/srv", "7", "f", true);
    let c = resolve_choices(&no_flags(), None, Some(&d));
    assert_eq!(c.path, "/srv");
    assert_eq!(c.depth, "7");
    assert_eq!(c.fd_type, "f");
    assert!(c.hidden);
}

#[test]
fn cli_flags_win_over_profiles() {
    let cli = CliOverrides { path: s("/cli"), depth: s("1"), fd_type: s("d"), hidden: Some(false) };
    let custom = profile("/custom", "2", "f", true);
    let d = profile("/default", "3", "f", true);
    let c = resolve_choices(&cli, Some(&custom), Some(&d));
    assert_eq!(c.path, "/cli");
    assert_eq!(c.depth, "1");
    assert_eq!(c.fd_type, "d");
    assert!(!c.hidden);
}

#[test]
fn custom_profile_wins_over_default() {
    let custom = profile("/custom", "2", "f", true);
    let d = profile("/default", "3", "d", false);
    let c = resolve_choices(&no_flags(), Some(&custom), Some(&d));
    assert_eq!(c.path, "/custom");
    assert_eq!(c.depth, "2");
    assert_eq!(c.fd_type, "f");
    assert!(c.hidden);
}

#[test]
fn settings_resolve_independently() {
    let cli = CliOverrides { path: None, depth: s("9"), fd_type: None, hidden: None };
    let custom = Profile { path: s("/custom"), depth: None, fd_type: None, hidden: None };
    let d = Profile { path: None, depth: s("3"), fd_type: s("f"), hidden: None };
    let c = resolve_choices(&cli, Some(&custom), Some(&d));
    assert_eq!(c.path, "/custom");
    assert_eq!(c.depth, "9");
    assert_eq!(c.fd_type, "f");
    assert!(!c.hidden);
}

#[test]
fn store_insert_replaces_and_counts() {
    let mut store = ProfileStore::new();
    assert_eq!(store.len(), 0);
    assert!(store.get(DEFAULT_PROFILE).is_none());
    store.insert("default".to_string(), profile("~", "4", "d", false));
    store.insert("work".to_string(), profile("/work", "2", "f", true));
    assert_eq!(store.len(), 2);
    store.insert("default".to_string(), profile("/other", "5", "d", false));
    assert_eq!(store.len(), 2);
    assert_eq!(store.get("default").unwrap().path, s("/other"));
    assert_eq!(store.get("work").unwrap().depth, s("2"));
    assert!(store.get("missing").is_none());
}

#[test]
fn store_resolution_uses_named_and_default_profiles() {
    let mut store = ProfileStore::new();
    store.insert("default".to_string(), profile("/default", "3", "d", false));
    store.insert("work".to_string(), Profile { path: None, depth: s("6"), fd_type: None, hidden: None });
    let c = resolve_choices_in(&no_flags(), &store, Some("work"));
    assert_eq!(c.path, "/default");
    assert_eq!(c.depth, "6");
    let unknown = resolve_choices_in(&no_flags(), &store, Some("nope"));
    assert_eq!(unknown.depth, "3");
    let none = resolve_choices_in(&no_flags(), &store, None);
    assert_eq!(none.depth, "3");
}

#[test]
fn empty_profile_defers_to_fallbacks() {
    let mut store = ProfileStore::new();
    store.insert("default".to_string(), empty_profile());
    let c = resolve_choices_in(&no_flags(), &store, None);
    assert_eq!(c.path, "~");
    assert_eq!(c.depth, "4");
}

#[test]
fn settings_expand_the_root() {
    let store = ProfileStore::new();
    let r = resolve_settings_with_home(&no_flags(), &store, None, Some("/home/u")).unwrap();
    assert_eq!(r.root, "/home/u");
    let cli = CliOverrides { path: s("~/src"), depth: None, fd_type: None, hidden: Some(true) };
    let r = resolve_settings_with_home(&cli, &store, None, Some("/home/u")).unwrap();
    assert_eq!(r.root, "/home/u/src");
    assert!(r.hidden);
    assert!(resolve_settings_with_home(&no_flags(), &store, None, None).is_none());
    let abs = CliOverrides { path: s("/abs"), depth: None, fd_type: None, hidden: None };
    assert_eq!(resolve_settings(&abs, &store, None).unwrap().root, "/abs");
}

#[test]
fn default_location_is_under_home() {
    assert_eq!(
        default_config_location_with_home(Some("/home/u")),
        Some("/home/u/.config/fdfzf/config.toml".to_string())
    );
    assert_eq!(
        default_config_location_with_home(Some("/home/u/")),
        Some("/home/u/.config/fdfzf/config.toml".to_string())
    );
    assert_eq!(
        default_config_location_with_home(Some("/")),
        Some("/.config/fdfzf/config.toml".to_string())
    );
    assert_eq!(default_config_location_with_home(None), None);
    if let Some(p) = default_config_location() {
        assert!(p.ends_with("config.toml"));
        assert!(p.starts_with("/"));
    }
}

#[test]
fn seeding_is_idempotent() {
    assert!(matches!(seed_step(false), SeedStep::Write));
    assert!(matches!(seed_step(true), SeedStep::Keep));
}

#[test]
fn seed_config_holds_the_seed_profile() {
    let table: toml::Table = toml::from_str(SEED_CONFIG).unwrap();
    let profiles = table["profiles"].as_table().unwrap();
    assert_eq!(profiles.len(), 1);
    let d = profiles["default"].as_table().unwrap();
    let p = seed_profile();
    assert_eq!(d["path"].as_str().map(|v| v.to_string()), p.path);
    assert_eq!(d["depth"].as_str().map(|v| v.to_string()), p.depth);
    assert_eq!(d["fd_type"].as_str().map(|v| v.to_string()), p.fd_type);
    assert_eq!(d["hidden"].as_bool(), p.hidden);
}
