use ltk_diagnostics::commands::{
    elevated_terminal_args, resolve_patcher_dll, shell_execute_outcome, DllCandidate, PLAIN_ARGS,
};
use ltk_diagnostics::library_index::{check_library_index, index_read_of, IndexRead};
use ltk_diagnostics::patcher_dll::{check_dll_not_locked, check_dll_present, check_dll_signature, existing_dll};
use ltk_diagnostics::report::{CheckCtx, Severity};
use ltk_diagnostics::storage_medium::{check_storage_medium, StorageMedium};
use ltk_diagnostics::win_util::{
    grown_name_buffer_len, has_cloud_sync_attrs, is_file_locked, path_to_wide, reg_probe_step,
    reg_read_outcome, reg_string_units, reg_string_value, decode_wide_prefix, trim_reg_string, to_wide,
    RegProbeStep,
};

fn ctx_with_dll(dll: Option<&str>) -> CheckCtx {
    CheckCtx::from_settings(None, Some("/m".into()), None, dll.map(|s| s.to_string()), None)
}

#[test]
fn dll_presence() {
    let c = check_dll_present(&ctx_with_dll(Some("/r/cslol-dll.dll")), true, Some(4096));
    assert_eq!(c.severity, Severity::Passed);
    assert_eq!(c.summary, "/r/cslol-dll.dll");
    assert_eq!(c.details[0].value, "4096");
    let c = check_dll_present(&ctx_with_dll(Some("/r/cslol-dll.dll")), false, None);
    assert_eq!(c.severity, Severity::Bad);
    assert_eq!(c.summary, "cslol-dll.dll not found at resolved path");
    let c = check_dll_present(&ctx_with_dll(None), false, None);
    assert_eq!(c.summary, "Could not resolve resource directory");
    assert_eq!(existing_dll(&ctx_with_dll(Some("/x")), false), None);
}

#[test]
fn dll_signature_outcomes() {
    let cx = ctx_with_dll(Some("/r/d.dll"));
    assert_eq!(check_dll_signature(&cx, true, &Some(Ok(0))).summary, "Valid Authenticode signature");
    let c = check_dll_signature(&cx, true, &Some(Ok(-2146762496)));
    assert_eq!(c.severity, Severity::Warn);
    assert_eq!(c.summary, "Unsigned or invalid signature (0x800b0100)");
    let c = check_dll_signature(&cx, true, &Some(Err("boom".into())));
    assert_eq!(c.severity, Severity::Warn);
    assert_eq!(c.summary, "Could not verify (system call failed)");
    assert_eq!(c.details.len(), 1);
    assert_eq!(c.details[0].key, "error");
    assert_eq!(c.details[0].value, "boom");
    assert_eq!(check_dll_signature(&cx, false, &None).summary, "DLL not present, skipped");
}

#[test]
fn dll_lock_outcomes() {
    let cx = ctx_with_dll(Some("/r/d.dll"));
    assert_eq!(check_dll_not_locked(&cx, true, Some(true)).severity, Severity::Warn);
    assert_eq!(check_dll_not_locked(&cx, true, Some(false)).summary, "Not locked");
    assert_eq!(check_dll_not_locked(&cx, false, None).severity, Severity::Info);
    assert!(is_file_locked(true, false));
    assert!(!is_file_locked(false, false));
    assert!(!is_file_locked(true, true));
}

#[test]
fn storage_medium_outcomes() {
    let cx = ctx_with_dll(None);
    assert_eq!(check_storage_medium(&cx, Some(StorageMedium::Ssd)).summary, "SSD");
    assert_eq!(check_storage_medium(&cx, Some(StorageMedium::Hdd)).severity, Severity::Warn);
    assert_eq!(check_storage_medium(&cx, Some(StorageMedium::Unknown)).severity, Severity::Info);
}

#[test]
fn library_index_outcomes() {
    let cx = ctx_with_dll(None);
    let path = "/m/mod_library_index.json".to_string();
    let c = check_library_index(&cx, &path, &IndexRead::Missing);
    assert_eq!(c.summary, "No index yet (fresh install)");
    let c = check_library_index(
        &cx,
        &path,
        &IndexRead::Parsed { size: 120, version: Some(3), mod_count: Some(7) },
    );
    let rows: Vec<(&str, &str)> = c.details.iter().map(|d| (d.key.as_str(), d.value.as_str())).collect();
    assert_eq!(
        rows,
        vec![("path", path.as_str()), ("size_bytes", "120"), ("schema_version", "3"), ("mod_count", "7")]
    );
    let c = check_library_index(&cx, &path, &IndexRead::Corrupt { size: 5, error: "eof".into() });
    assert_eq!(c.severity, Severity::Bad);
    assert_eq!(c.details.len(), 3);
    assert!(c.suggestion.is_some());
    let c = check_library_index(&cx, &path, &IndexRead::Unreadable("denied".into()));
    assert_eq!(c.summary, "Could not read library index");
}

#[test]
fn context_and_commands() {
    let cx = CheckCtx::from_settings(None, None, Some("/appdata".into()), None, None);
    assert_eq!(cx.mod_storage_path.as_deref(), Some("/appdata"));
    assert!(cx.mod_storage_is_default);
    let cx = CheckCtx::from_settings(None, Some("/mine".into()), Some("/appdata".into()), None, None);
    assert_eq!(cx.mod_storage_path.as_deref(), Some("/mine"));
    assert!(!cx.mod_storage_is_default);
    let cands = vec![
        DllCandidate::new("/a".into(), false),
        DllCandidate::new("/b".into(), true),
        DllCandidate::new("/c".into(), true),
    ];
    assert_eq!(resolve_patcher_dll(&cands), Some("/b".to_string()));
    assert_eq!(resolve_patcher_dll(&vec![]), None);
    assert_eq!(elevated_terminal_args(false), PLAIN_ARGS);
    assert!(elevated_terminal_args(true).starts_with("-NoExit -Command"));
    assert_eq!(shell_execute_outcome(42), Ok(()));
    assert_eq!(
        shell_execute_outcome(5),
        Err("Failed to launch elevated terminal (ShellExecute code 5)".to_string())
    );
}

#[test]
fn wide_strings_and_registry_buffers() {
    assert_eq!(to_wide("ab"), vec![97, 98, 0]);
    let expected: Vec<u16> = "C:\\é😀".encode_utf16().chain(std::iter::once(0)).collect();
    assert_eq!(to_wide("C:\\é😀"), expected);
    assert_eq!(path_to_wide(&vec![67, 0xD800, 66]), vec![67, 0xD800, 66, 0]);
    let name: Vec<u16> = "LeagueClient.exe".encode_utf16().chain([0u16; 4]).collect();
    assert_eq!(decode_wide_prefix(&name, 16), "LeagueClient.exe");
    assert_eq!(decode_wide_prefix(&vec![0xD800, 65], 2), "\u{FFFD}A");
    let value: Vec<u16> = "Riot Games".encode_utf16().chain([0u16, 7]).collect();
    assert_eq!(reg_string_value(&value, 22), "Riot Games");
    assert!(has_cloud_sync_attrs(0x1000));
    assert!(has_cloud_sync_attrs(0x400020));
    assert!(!has_cloud_sync_attrs(0x20));
    assert!(!has_cloud_sync_attrs(0xFFFF_FFFF));
    assert_eq!(reg_string_units(7), 4);
    assert_eq!(trim_reg_string(&vec![104, 105, 0, 9], 6), vec![104, 105]);
    assert_eq!(trim_reg_string(&vec![104, 105], 4), vec![104, 105]);
    assert_eq!(grown_name_buffer_len(1024), 2048);
    assert_eq!(grown_name_buffer_len(4096), 8192);
}

#[test]
fn library_index_bytes_are_parsed() {
    let raw = br#"{"version": 3, "mods": {"a": {}, "b": {}}}"#.to_vec();
    match index_read_of(&raw) {
        IndexRead::Parsed { size, version, mod_count } => {
            assert_eq!(size, raw.len());
            assert_eq!(version, Some(3));
            assert_eq!(mod_count, Some(2));
        }
        _ => panic!("expected a parsed index"),
    }
    let raw = br#"{"version": "x", "mods": [1, 2, 3]}"#.to_vec();
    match index_read_of(&raw) {
        IndexRead::Parsed { version, mod_count, .. } => {
            assert_eq!(version, None);
            assert_eq!(mod_count, Some(3));
        }
        _ => panic!("expected a parsed index"),
    }
    let raw = br#"[1, 2]"#.to_vec();
    match index_read_of(&raw) {
        IndexRead::Parsed { version, mod_count, .. } => {
            assert_eq!(version, None);
            assert_eq!(mod_count, None);
        }
        _ => panic!("expected a parsed index"),
    }
    let raw = b"{\"mods\": ".to_vec();
    match index_read_of(&raw) {
        IndexRead::Corrupt { size, error } => {
            assert_eq!(size, 9);
            assert!(error.contains("EOF"), "{error}");
        }
        _ => panic!("expected a corrupt index"),
    }
}

#[test]
fn registry_read_steps_and_outcomes() {
    assert_eq!(reg_probe_step(false, 22), RegProbeStep::Missing);
    assert_eq!(reg_probe_step(true, 0), RegProbeStep::Empty);
    assert_eq!(reg_probe_step(true, 22), RegProbeStep::ReadInto(11));
    assert_eq!(reg_probe_step(true, 7), RegProbeStep::ReadInto(4));
    let value: Vec<u16> = "Riot Games".encode_utf16().chain([0u16]).collect();
    assert_eq!(reg_read_outcome(true, &value, 22), Some("Riot Games".to_string()));
    assert_eq!(reg_read_outcome(false, &value, 22), None);
    assert_eq!(reg_read_outcome(true, &value, 24), None);
    assert_eq!(reg_read_outcome(true, &value, 0), Some(String::new()));
}
