use ltk_diagnostics::non_windows;
use ltk_diagnostics::processes::{
    check_league_not_running, check_manager_not_admin, select_league_processes, RunningProcess,
};
use ltk_diagnostics::report::{check, check_ok, Category, CheckDetail, Severity};
use ltk_diagnostics::text::{decimal_string, push_decimal};
use ltk_diagnostics::windows::{check_long_paths_enabled, check_uac_enabled, check_version, LONG_PATHS_FIX};

#[test]
fn version_thresholds() {
    let c = check_version((10, 0, 19045));
    assert_eq!(c.severity, Severity::Passed);
    assert_eq!(c.summary, "Windows 10.0.19045");
    assert_eq!(c.details.len(), 1);
    let c = check_version((10, 0, 19044));
    assert_eq!(c.severity, Severity::Bad);
    assert_eq!(c.details.len(), 3);
    assert_eq!(c.details[2].value, "19044");
    assert_eq!(check_version((10, 0, 22000)).severity, Severity::Bad);
    assert_eq!(check_version((10, 0, 22631)).severity, Severity::Passed);
}

#[test]
fn registry_defaults() {
    let c = check_long_paths_enabled(None);
    assert_eq!(c.severity, Severity::Warn);
    assert_eq!(c.fix_command.as_deref(), Some(LONG_PATHS_FIX));
    assert_eq!(check_long_paths_enabled(Some(1)).severity, Severity::Passed);
    assert_eq!(check_uac_enabled(None).severity, Severity::Passed);
    assert_eq!(check_uac_enabled(Some(0)).severity, Severity::Bad);
    assert_eq!(check_uac_enabled(Some(5)).summary, "Enabled");
}

#[test]
fn manager_elevation() {
    assert_eq!(check_manager_not_admin(true).severity, Severity::Bad);
    let c = check_manager_not_admin(false);
    assert_eq!(c.severity, Severity::Passed);
    assert_eq!(c.summary, "Not elevated");
}

#[test]
fn league_processes_are_selected_case_insensitively() {
    let all = vec![
        RunningProcess::new("explorer.exe".into(), 4),
        RunningProcess::new("LeagueClient.exe".into(), 10),
        RunningProcess::new("VGC.EXE".into(), 11),
        RunningProcess::new("League of Legends.exe".into(), 12),
    ];
    let found = select_league_processes(&all);
    let names: Vec<&str> = found.iter().map(|p| p.name.as_str()).collect();
    assert_eq!(names, vec!["LeagueClient.exe", "VGC.EXE", "League of Legends.exe"]);
    let c = check_league_not_running(&found);
    assert_eq!(c.severity, Severity::Warn);
    assert!(c.summary.starts_with("3 League/Riot process(es) running"));
    assert_eq!(c.details[0].key, "LeagueClient.exe");
    assert_eq!(c.details[0].value, "PID 10");
    assert_eq!(check_league_not_running(&vec![]).summary, "League is closed");
}

#[test]
fn other_systems_are_not_applicable() {
    assert_eq!(non_windows::check_version().summary, "Not running on Windows");
    for c in [
        non_windows::check_long_paths_enabled(),
        non_windows::check_uac_enabled(),
        non_windows::check_manager_not_admin(),
        non_windows::check_league_not_running(),
        non_windows::check_compat_flags(),
        non_windows::check_dll_signature(),
        non_windows::check_dll_not_locked(),
    ] {
        assert_eq!(c.severity, Severity::Info);
        assert_eq!(c.summary, "Not applicable");
    }
    assert!(!non_windows::has_cloud_sync_attrs());
    assert_eq!(non_windows::free_disk_bytes(), None);
    assert_eq!(
        non_windows::open_elevated_terminal_inner(true),
        Err("Elevated terminal launch is only supported on Windows".to_string())
    );
}

#[test]
fn builders() {
    let c = check_ok("a.b", "Label", Category::Library, "fine");
    assert_eq!(c.severity, Severity::Passed);
    assert!(c.details.is_empty() && c.suggestion.is_none() && c.fix_command.is_none());
    let mut c = check("a.b", "Label", Category::Storage, Severity::Warn, "meh".to_string());
    assert_eq!(c.category, Category::Storage);
    c.add_detail("k".into(), "v".into());
    assert_eq!(c.details.len(), 1);
    let d = CheckDetail::new("key".into(), "value".into());
    assert_eq!((d.key.as_str(), d.value.as_str()), ("key", "value"));
}

#[test]
fn decimal_rendering() {
    assert_eq!(decimal_string(0), "0");
    assert_eq!(decimal_string(907), "907");
    assert_eq!(decimal_string(u64::MAX), u64::MAX.to_string());
    let mut s = "n=".to_string();
    push_decimal(&mut s, 42);
    assert_eq!(s, "n=42");
}
