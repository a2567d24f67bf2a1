use ltk_diagnostics::compat_flags::{basename, check_compat_flags, CompatEntry, COMPAT_KEY};
use ltk_diagnostics::report::{Category, Severity};

#[test]
fn basename_strips_drive_path() {
    assert_eq!(
        basename(r"C:\Riot Games\League of Legends\League of Legends.exe"),
        "League of Legends.exe"
    );
}

#[test]
fn basename_handles_no_separator() {
    assert_eq!(basename("League of Legends.exe"), "League of Legends.exe");
}

#[test]
fn basename_accepts_forward_slashes_and_trailing_separator() {
    assert_eq!(basename("C:/Games/Riot Client/RiotClientServices.exe"), "RiotClientServices.exe");
    assert_eq!(basename(r"C:\dir\"), "");
    assert_eq!(basename(""), "");
}

#[test]
fn basename_is_idempotent() {
    let once = basename(r"D:\a/b\c.exe");
    assert_eq!(basename(&once), once);
}

fn entry(root: &str, path: &str) -> CompatEntry {
    CompatEntry::new(root.to_string(), path.to_string())
}

#[test]
fn compat_flags_clean_registry_passes() {
    let c = check_compat_flags(&vec![entry("HKCU", r"C:\Tools\notepad++.exe")]);
    assert_eq!(c.id, "compat_flags.layers");
    assert_eq!(c.label, "League/Riot compatibility flags");
    assert_eq!(c.category, Category::League);
    assert_eq!(c.severity, Severity::Passed);
    assert_eq!(c.summary, "No League or Riot compatibility entries found");
    assert!(c.details.is_empty());
    assert!(c.suggestion.is_none());
    assert!(c.fix_command.is_none());
}

#[test]
fn compat_flags_single_league_entry_is_bad_with_fix() {
    let path = r"C:\Riot Games\League of Legends\Game\League of Legends.exe";
    let c = check_compat_flags(&vec![entry("HKCU", path)]);
    assert_eq!(c.severity, Severity::Bad);
    assert_eq!(c.summary, "1 League/Riot entry forcing compatibility mode");
    assert_eq!(c.details.len(), 1);
    assert_eq!(c.details[0].key, "HKCU (BAD)");
    assert_eq!(c.details[0].value, path);
    assert!(c.suggestion.is_some());
    let expected = format!("reg delete \"HKCU\\{}\" /v \"{}\" /f", COMPAT_KEY, path);
    assert_eq!(c.fix_command.as_deref(), Some(expected.as_str()));
}

#[test]
fn compat_flags_mixed_entries() {
    let entries = vec![
        entry("HKCU", r"C:\Riot Games\Riot Client\RiotClientServices.exe"),
        entry("HKCU", r"C:\Apps\cslol-manager.exe"),
        entry("HKLM", r"C:\Riot Games\League of Legends\LeagueClient.exe"),
        entry("HKLM", r"C:\Apps\ltk-manager.exe"),
        entry("HKLM", r"C:\Apps\League\other.exe"),
    ];
    let c = check_compat_flags(&entries);
    assert_eq!(c.severity, Severity::Bad);
    assert_eq!(c.summary, "2 League/Riot entries forcing compatibility mode");
    let keys: Vec<&str> = c.details.iter().map(|d| d.key.as_str()).collect();
    assert_eq!(keys, vec!["HKCU (BAD)", "HKLM (BAD)", "HKCU (suspicious)", "HKLM (suspicious)"]);
    let fix = c.fix_command.unwrap();
    assert_eq!(fix.lines().count(), 2);
    assert!(fix.starts_with("reg delete \"HKCU\\"));
    assert!(fix.ends_with("LeagueClient.exe\" /f"));
}

#[test]
fn compat_flags_only_suspicious_warns() {
    let c = check_compat_flags(&vec![entry("HKLM", r"C:\x\cslol-manager.exe")]);
    assert_eq!(c.severity, Severity::Warn);
    assert_eq!(c.summary, "1 cslol/ltk-manager entries (suspicious)");
    assert_eq!(c.details[0].key, "HKLM (suspicious)");
    assert!(c.suggestion.is_none());
    assert!(c.fix_command.is_none());
}
