use ltk_diagnostics::compat_flags::CompatEntry;
use ltk_diagnostics::library_index::IndexRead;
use ltk_diagnostics::report::{Category, CheckCtx, Severity};
use ltk_diagnostics::storage_medium::StorageMedium;
use ltk_diagnostics::{run_all, run_diagnostics_inner, Probes, WindowsProbes};

const IDS: [&str; 16] = [
    "windows.version",
    "windows.long_paths",
    "windows.uac",
    "process.manager_not_admin",
    "paths.league.exists",
    "paths.league.writable",
    "compat_flags.layers",
    "paths.storage.exists",
    "paths.storage.writable",
    "paths.storage.not_in_league",
    "paths.free_space",
    "storage.medium",
    "patcher.dll.present",
    "patcher.dll.signature",
    "patcher.dll.not_locked",
    "library.index",
];

fn ctx() -> CheckCtx {
    CheckCtx::from_settings(
        Some(r"C:\Riot Games\League of Legends".into()),
        None,
        Some(r"C:\Users\u\AppData\Roaming\ltk".into()),
        Some(r"C:\ltk\cslol-dll.dll".into()),
        None,
    )
}

fn probes(windows: Option<WindowsProbes>) -> Probes {
    Probes {
        league_game_exe_exists: true,
        league_mac_game_exists: false,
        league_cloud_attrs: false,
        league_game_dir: r"C:\Riot Games\League of Legends\Game".into(),
        league_game_dir_exists: true,
        league_write_probe: Some(Ok(())),
        storage_exists: true,
        storage_cloud_attrs: false,
        storage_write_probe: Some(Ok(())),
        storage_inside_league: false,
        exe_dir: None,
        free_bytes: Some(50 * 1024 * 1024 * 1024),
        storage_medium: Some(StorageMedium::Ssd),
        dll_exists: true,
        dll_size: Some(1000),
        index_path: r"C:\Users\u\AppData\Roaming\ltk\mod_library_index.json".into(),
        index_read: IndexRead::Missing,
        windows,
    }
}

fn healthy_windows() -> WindowsProbes {
    WindowsProbes {
        version: (10, 0, 22631),
        long_paths: Some(1),
        enable_lua: Some(1),
        elevated: false,
        compat_entries: vec![CompatEntry::new("HKCU".into(), r"C:\x\tool.exe".into())],
        dll_signature: Some(Ok(0)),
        dll_locked: Some(false),
    }
}

#[test]
fn suite_lists_checks_in_order_on_windows() {
    let checks = run_all(&ctx(), &probes(Some(healthy_windows())));
    let ids: Vec<&str> = checks.iter().map(|c| c.id.as_str()).collect();
    assert_eq!(ids, IDS.to_vec());
    for c in &checks {
        assert_eq!(c.severity, Severity::Passed, "{} should pass", c.id);
    }
    assert_eq!(checks[7].summary, r"C:\Users\u\AppData\Roaming\ltk (default)");
}

#[test]
fn suite_lists_the_same_checks_elsewhere() {
    let checks = run_all(&ctx(), &probes(None));
    let ids: Vec<&str> = checks.iter().map(|c| c.id.as_str()).collect();
    assert_eq!(ids, IDS.to_vec());
    let cats: Vec<Category> = checks.iter().map(|c| c.category).collect();
    assert_eq!(cats[0], Category::System);
    assert_eq!(cats[3], Category::Manager);
    assert_eq!(cats[6], Category::League);
    assert_eq!(cats[15], Category::Library);
    assert_eq!(checks[0].summary, "Not running on Windows");
    assert_eq!(checks[13].summary, "Not applicable");
}

#[test]
fn league_running_check_is_not_in_the_suite() {
    for windows in [Some(healthy_windows()), None] {
        let checks = run_all(&ctx(), &probes(windows));
        assert!(checks.iter().all(|c| c.id != "process.league_not_running"));
    }
}

#[test]
fn missing_dll_skips_signature_and_lock() {
    let mut p = probes(Some(healthy_windows()));
    p.dll_exists = false;
    p.dll_size = None;
    let checks = run_all(&ctx(), &p);
    assert_eq!(checks[12].severity, Severity::Bad);
    assert_eq!(checks[13].severity, Severity::Info);
    assert_eq!(checks[14].severity, Severity::Info);
}

#[test]
fn report_carries_time_version_and_checks() {
    let r = run_diagnostics_inner(
        "2024-01-01T00:00:00+00:00".into(),
        "1.2.3".into(),
        &ctx(),
        &probes(None),
    );
    assert_eq!(r.generated_at, "2024-01-01T00:00:00+00:00");
    assert_eq!(r.app_version, "1.2.3");
    assert_eq!(r.checks.len(), 16);
}
