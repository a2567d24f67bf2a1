use ltk_diagnostics::paths::{
    bytes_to_str, check_free_space, check_league_path, check_league_writability,
    check_storage_in_league, check_storage_path, check_storage_writability, cloud_token_in_path,
    free_space_target, is_subpath_of, league_write_target,
};
use ltk_diagnostics::report::{CheckCtx, Severity};

#[test]
fn bytes_to_str_formats_units() {
    assert_eq!(bytes_to_str(0), "0 B");
    assert_eq!(bytes_to_str(1024), "1.0 KB");
    assert_eq!(bytes_to_str(1024 * 1024), "1.0 MB");
    assert_eq!(bytes_to_str(2 * 1024 * 1024 * 1024), "2.0 GB");
}

#[test]
fn bytes_to_str_rounds_half_to_even() {
    assert_eq!(bytes_to_str(1023), "1023 B");
    assert_eq!(bytes_to_str(1280), "1.2 KB");
    assert_eq!(bytes_to_str(1792), "1.8 KB");
    assert_eq!(bytes_to_str(1536), "1.5 KB");
    assert_eq!(bytes_to_str(1100), "1.1 KB");
    assert_eq!(bytes_to_str(1024 * 1024 - 1), "1024.0 KB");
}

#[test]
fn bytes_to_str_terabytes_follow_f64() {
    assert_eq!(bytes_to_str(1024u64.pow(4)), "1.0 TB");
    assert_eq!(bytes_to_str(u64::MAX), "16777216.0 TB");
    assert_eq!(bytes_to_str(u64::MAX), format!("{:.1} TB", u64::MAX as f64 / 1024f64.powi(4)));
    let odd = (1u64 << 60) + 12345;
    assert_eq!(bytes_to_str(odd), format!("{:.1} TB", odd as f64 / 1024f64.powi(4)));
}

#[test]
fn cloud_token_detection() {
    assert_eq!(cloud_token_in_path(r"C:\Users\foo\OneDrive\Mods"), Some("OneDrive"));
    assert_eq!(cloud_token_in_path(r"D:\Riot Games\League of Legends"), None);
}

#[test]
fn cloud_token_takes_the_first_listed_name() {
    assert_eq!(cloud_token_in_path(r"C:\Dropbox\OneDrive"), Some("OneDrive"));
    assert_eq!(cloud_token_in_path(r"C:\Users\x\Google Drive\m"), Some("Google Drive"));
    assert_eq!(cloud_token_in_path(r"C:\Boxes"), Some("Box"));
}

fn ctx(league: Option<&str>, storage: Option<&str>, is_default: bool) -> CheckCtx {
    CheckCtx {
        league_path: league.map(|s| s.to_string()),
        mod_storage_path: storage.map(|s| s.to_string()),
        mod_storage_is_default: is_default,
        patcher_dll_path: None,
        manager_exe: None,
    }
}

#[test]
fn league_path_unset_and_missing() {
    let c = check_league_path(&ctx(None, None, false), false, false, false);
    assert_eq!(c.severity, Severity::Bad);
    assert_eq!(c.summary, "Not configured");
    let c = check_league_path(&ctx(Some(r"C:\LoL"), None, false), false, false, false);
    assert_eq!(c.severity, Severity::Bad);
    assert_eq!(c.summary, "Configured path doesn't contain League of Legends");
    assert_eq!(c.details[0].key, "path");
    assert_eq!(c.details[0].value, r"C:\LoL");
}

#[test]
fn league_path_ok_and_long() {
    let c = check_league_path(&ctx(Some(r"C:\Riot Games\League of Legends"), None, false), true, false, false);
    assert_eq!(c.severity, Severity::Passed);
    assert_eq!(c.summary, r"C:\Riot Games\League of Legends");
    assert_eq!(c.details[0].key, "length");
    assert_eq!(c.details[0].value, "31");
    let long = format!(r"C:\{}", "x".repeat(130));
    let c = check_league_path(&ctx(Some(&long), None, false), false, true, false);
    assert_eq!(c.severity, Severity::Warn);
    assert_eq!(c.summary, format!("{} (path length 133 > 128)", long));
    assert!(c.suggestion.is_some());
}

#[test]
fn league_path_length_counts_characters() {
    let p = format!(r"C:\{}", "é".repeat(125));
    let c = check_league_path(&ctx(Some(&p), None, false), true, false, false);
    assert_eq!(c.details[0].value, "128");
    assert_eq!(c.severity, Severity::Passed);
    let p = format!("{}é", p);
    let c = check_league_path(&ctx(Some(&p), None, false), true, false, false);
    assert_eq!(c.details[0].value, "129");
    assert_eq!(c.severity, Severity::Warn);
    assert_eq!(c.summary, format!("{} (path length 129 > 128)", p));
}

#[test]
fn league_path_cloud() {
    let c = check_league_path(&ctx(Some(r"C:\OneDrive\LoL"), None, false), true, false, true);
    assert_eq!(c.severity, Severity::Bad);
    assert_eq!(c.summary, r"C:\OneDrive\LoL (cloud-only / OneDrive)");
    assert_eq!(c.details[1].key, "cloud_attrs");
    let c = check_league_path(&ctx(Some(r"C:\OneDrive\LoL"), None, false), true, false, false);
    assert_eq!(c.severity, Severity::Warn);
    assert_eq!(c.summary, "C:\\OneDrive\\LoL (path contains \"OneDrive\")");
    assert_eq!(c.details[1].key, "cloud_token");
    assert_eq!(c.details[1].value, "OneDrive");
}

#[test]
fn league_writability_target_and_outcomes() {
    let cx = ctx(Some(r"C:\LoL"), None, false);
    let game = r"C:\LoL\Game".to_string();
    assert_eq!(league_write_target(&cx, &game, true), Some(game.clone()));
    assert_eq!(league_write_target(&cx, &game, false), Some(r"C:\LoL".to_string()));
    let c = check_league_writability(&cx, &game, true, &Some(Ok(())));
    assert_eq!(c.severity, Severity::Passed);
    assert_eq!(c.summary, "Writable");
    let c = check_league_writability(&cx, &game, false, &Some(Err("denied".to_string())));
    assert_eq!(c.severity, Severity::Bad);
    assert_eq!(c.details[0].value, r"C:\LoL");
    assert_eq!(c.details[1].value, "denied");
    let c = check_league_writability(&ctx(None, None, false), &game, false, &None);
    assert_eq!(c.severity, Severity::Info);
}

#[test]
fn storage_path_states() {
    let c = check_storage_path(&ctx(None, None, true), false, false);
    assert_eq!(c.severity, Severity::Bad);
    let c = check_storage_path(&ctx(None, Some("/data/mods"), true), false, false);
    assert_eq!(c.severity, Severity::Warn);
    assert_eq!(c.summary, "Storage directory does not exist yet (default) — will be created on first use");
    assert_eq!(c.details.len(), 2);
    assert_eq!(c.details[1].value, "default (app-data dir)");
    let c = check_storage_path(&ctx(None, Some("/data/mods"), false), true, false);
    assert_eq!(c.severity, Severity::Passed);
    assert_eq!(c.summary, "/data/mods");
    let c = check_storage_path(&ctx(None, Some("/home/u/Dropbox/mods"), true), true, false);
    assert_eq!(c.severity, Severity::Warn);
    assert_eq!(c.summary, "/home/u/Dropbox/mods (path contains \"Dropbox\") (default)");
    assert!(c.suggestion.unwrap().starts_with("Storage path appears to live under a Dropbox folder."));
    let c = check_storage_path(&ctx(None, Some("/m"), false), true, true);
    assert_eq!(c.severity, Severity::Bad);
    assert_eq!(c.summary, "/m (cloud-only / OneDrive)");
}

#[test]
fn storage_writability_states() {
    let c = check_storage_writability(&ctx(None, None, false), false, &None);
    assert_eq!(c.summary, "No storage path resolved");
    let c = check_storage_writability(&ctx(None, Some("/m"), false), false, &None);
    assert_eq!(c.severity, Severity::Info);
    assert_eq!(c.summary, "Storage directory does not exist yet — skipped");
    let c = check_storage_writability(&ctx(None, Some("/m"), false), true, &Some(Err("ro".into())));
    assert_eq!(c.severity, Severity::Bad);
    assert_eq!(c.details[0].key, "error");
    let c = check_storage_writability(&ctx(None, Some("/m"), false), true, &Some(Ok(())));
    assert_eq!(c.severity, Severity::Passed);
}

#[test]
fn subpath_detection() {
    let child = "/games/lol/mods".to_string();
    let parent = "/games/lol".to_string();
    assert!(is_subpath_of(&child, &parent, &Some(child.clone()), &Some(parent.clone())));
    assert!(!is_subpath_of(&parent, &child, &Some(parent.clone()), &Some(child.clone())));
    assert!(!is_subpath_of(&child, &parent, &Some(child.clone()), &None));
    assert!(is_subpath_of(&child, &parent, &None, &None));
    assert!(!is_subpath_of(&"/games/lolx".to_string(), &parent, &None, &None));
    assert!(is_subpath_of(&"games/lol/mods".to_string(), &"games//lol/".to_string(), &None, &None));
    assert!(!is_subpath_of(&"games/lol".to_string(), &"/games/lol".to_string(), &None, &None));
    assert!(is_subpath_of(&"a/b".to_string(), &"".to_string(), &None, &None));
}

#[test]
fn storage_in_league_states() {
    let c = check_storage_in_league(&ctx(Some("/l"), Some("/l/m"), false), true);
    assert_eq!(c.severity, Severity::Bad);
    assert_eq!(c.details[0].value, "/l/m");
    assert_eq!(c.details[1].value, "/l");
    let c = check_storage_in_league(&ctx(Some("/l"), Some("/m"), false), false);
    assert_eq!(c.summary, "OK");
    let c = check_storage_in_league(&ctx(None, Some("/m"), false), true);
    assert_eq!(c.severity, Severity::Info);
}

#[test]
fn free_space_states() {
    let cx = ctx(Some("/l"), None, false);
    assert_eq!(free_space_target(&cx, &Some("/exe".into())), "/l");
    assert_eq!(free_space_target(&ctx(None, None, false), &None), ".");
    let c = check_free_space(&cx, &None, Some(512 * 1024 * 1024));
    assert_eq!(c.severity, Severity::Warn);
    assert_eq!(c.summary, "512.0 MB free (< 1 GB)");
    assert_eq!(c.details[0].value, "/l");
    let c = check_free_space(&cx, &None, Some(1024 * 1024 * 1024));
    assert_eq!(c.severity, Severity::Passed);
    assert_eq!(c.summary, "1.0 GB free");
    let c = check_free_space(&cx, &None, None);
    assert_eq!(c.severity, Severity::Warn);
    assert_eq!(c.summary, "Could not query free space");
    assert!(c.details.is_empty());
}

#[test]
fn default_storage_is_marked_and_configured_is_not() {
    for exists in [true, false] {
        let on = check_storage_path(&ctx(None, Some("/home/u/OneDrive/m"), true), exists, false);
        let off = check_storage_path(&ctx(None, Some("/home/u/OneDrive/m"), false), exists, false);
        assert_eq!(on.severity, off.severity);
        assert!(on.summary.contains(" (default)"));
        assert!(!off.summary.contains(" (default)"));
        assert_eq!(on.details.iter().filter(|d| d.key == "source").count(), 1);
        assert_eq!(off.details.iter().filter(|d| d.key == "source").count(), 0);
    }
}
