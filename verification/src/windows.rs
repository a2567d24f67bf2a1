//! OS-level diagnostic checks on Windows: version, long-paths registry value,
//! UAC. The values are read from the system by the caller and handed in.
use vstd::prelude::*;
use crate::report::{check, check_ok, fresh_check, Category, Check, CheckView, Severity};
use crate::text::{decimal, decimal_string, owned, push_decimal, push_str};

verus! {

/// Builds at or above this number are supported (unless known bad).
pub const MIN_OK_BUILD: u32 = 19045;

/// A build known to break the patcher.
pub const KNOWN_BAD_BUILD: u32 = 22000;

pub const VERSION_ID: &'static str = "windows.version";

pub const VERSION_LABEL: &'static str = "Windows version";

pub const OUTDATED_SUGGESTION: &'static str = "Your Windows build is older than the minimum supported by League. Run Windows Update to install the latest cumulative update before troubleshooting further.";

/// Registry key (under HKLM) holding `LongPathsEnabled`.
pub const FILESYSTEM_KEY: &'static str = "SYSTEM\\CurrentControlSet\\Control\\FileSystem";

/// Registry value name of the long-path switch.
pub const LONG_PATHS_VALUE: &'static str = "LongPathsEnabled";

pub const LONG_PATHS_ID: &'static str = "windows.long_paths";

pub const LONG_PATHS_LABEL: &'static str = "Long paths enabled";

pub const LONG_PATHS_DISABLED: &'static str = "Disabled — paths longer than 260 chars will fail";

pub const LONG_PATHS_SUGGESTION: &'static str = "Mods stored deep in folders (especially under OneDrive) can hit the legacy 260-char path limit. Enable long-path support in the Windows registry.";

pub const LONG_PATHS_FIX: &'static str = "reg add \"HKLM\\SYSTEM\\CurrentControlSet\\Control\\FileSystem\" /v LongPathsEnabled /t REG_DWORD /d 1 /f";

/// Registry key (under HKLM) holding `EnableLUA`.
pub const POLICIES_SYSTEM_KEY: &'static str = "SOFTWARE\\Microsoft\\Windows\\CurrentVersion\\Policies\\System";

/// Registry value name of the UAC switch.
pub const ENABLE_LUA_VALUE: &'static str = "EnableLUA";

pub const UAC_ID: &'static str = "windows.uac";

pub const UAC_LABEL: &'static str = "User Account Control";

pub const UAC_DISABLED: &'static str = "Disabled — every process runs elevated";

pub const UAC_SUGGESTION: &'static str = "UAC is disabled, which means everything runs as administrator. League's anti-cheat and the patcher both rely on UAC being on. Re-enable it under User Accounts → Change User Account Control settings, then reboot.";

/// `Windows {major}.{minor}.{build}`.
pub open spec fn version_text(major: u32, minor: u32, build: u32) -> Seq<char> {
    "Windows "@ + decimal(major as nat) + "."@ + decimal(minor as nat) + "."@ + decimal(
        build as nat,
    )
}

/// A build that League does not support.
pub open spec fn unsupported_build(build: u32) -> bool {
    build < MIN_OK_BUILD || build == KNOWN_BAD_BUILD
}

/// The Windows version check for a kernel-reported version.
pub open spec fn version_check(major: u32, minor: u32, build: u32) -> CheckView {
    let display = version_text(major, minor, build);
    if unsupported_build(build) {
        fresh_check(VERSION_ID@, VERSION_LABEL@, Category::System, Severity::Bad, display)
            .with_suggestion(OUTDATED_SUGGESTION@)
            .with_detail("major"@, decimal(major as nat))
            .with_detail("minor"@, decimal(minor as nat))
            .with_detail("build"@, decimal(build as nat))
    } else {
        fresh_check(VERSION_ID@, VERSION_LABEL@, Category::System, Severity::Passed, display)
            .with_detail("build"@, decimal(build as nat))
    }
}

/// Checks the OS version `(major, minor, build)` read from the kernel-shared
/// user data page: builds below 19045, and build 22000, are reported `Bad`.
pub fn check_version(version: (u32, u32, u32)) -> (c: Check)
    ensures
        c@ == version_check(version.0, version.1, version.2),
{
    let (major, minor, build) = version;
    let mut display = owned("Windows ");
    push_decimal(&mut display, major as u64);
    push_str(&mut display, ".");
    push_decimal(&mut display, minor as u64);
    push_str(&mut display, ".");
    push_decimal(&mut display, build as u64);
    if build < MIN_OK_BUILD || build == KNOWN_BAD_BUILD {
        let mut c = check(VERSION_ID, VERSION_LABEL, Category::System, Severity::Bad, display);
        c.set_suggestion(owned(OUTDATED_SUGGESTION));
        c.add_detail(owned("major"), decimal_string(major as u64));
        c.add_detail(owned("minor"), decimal_string(minor as u64));
        c.add_detail(owned("build"), decimal_string(build as u64));
        c
    } else {
        let mut c = check(VERSION_ID, VERSION_LABEL, Category::System, Severity::Passed, display);
        c.add_detail(owned("build"), decimal_string(build as u64));
        c
    }
}

/// The long-path check for the registry reading (`None` when the value could
/// not be read, which counts as disabled).
pub open spec fn long_paths_check(reading: Option<u64>) -> CheckView {
    let value = match reading {
        Some(v) => v,
        None => 0,
    };
    if value == 0 {
        fresh_check(
            LONG_PATHS_ID@,
            LONG_PATHS_LABEL@,
            Category::System,
            Severity::Warn,
            LONG_PATHS_DISABLED@,
        ).with_suggestion(LONG_PATHS_SUGGESTION@).with_fix(LONG_PATHS_FIX@)
    } else {
        fresh_check(
            LONG_PATHS_ID@,
            LONG_PATHS_LABEL@,
            Category::System,
            Severity::Passed,
            "Enabled"@,
        )
    }
}

/// Checks `HKLM\SYSTEM\CurrentControlSet\Control\FileSystem\LongPathsEnabled`;
/// a missing value counts as disabled and is reported `Warn` with a fix command.
pub fn check_long_paths_enabled(reading: Option<u64>) -> (c: Check)
    ensures
        c@ == long_paths_check(reading),
{
    let value = match reading {
        Some(v) => v,
        None => 0,
    };
    if value == 0 {
        let mut c = check(
            LONG_PATHS_ID,
            LONG_PATHS_LABEL,
            Category::System,
            Severity::Warn,
            owned(LONG_PATHS_DISABLED),
        );
        c.set_suggestion(owned(LONG_PATHS_SUGGESTION));
        c.set_fix_command(owned(LONG_PATHS_FIX));
        c
    } else {
        check_ok(LONG_PATHS_ID, LONG_PATHS_LABEL, Category::System, "Enabled")
    }
}

/// The UAC check for the registry reading (`None` when the value could not be
/// read, which counts as enabled).
pub open spec fn uac_check(reading: Option<u64>) -> CheckView {
    let value = match reading {
        Some(v) => v,
        None => 1,
    };
    if value == 0 {
        fresh_check(UAC_ID@, UAC_LABEL@, Category::System, Severity::Bad, UAC_DISABLED@)
            .with_suggestion(UAC_SUGGESTION@)
    } else {
        fresh_check(UAC_ID@, UAC_LABEL@, Category::System, Severity::Passed, "Enabled"@)
    }
}

/// Checks `EnableLUA`; only an explicit 0 is reported (`Bad`).
pub fn check_uac_enabled(reading: Option<u64>) -> (c: Check)
    ensures
        c@ == uac_check(reading),
{
    let value = match reading {
        Some(v) => v,
        None => 1,
    };
    if value == 0 {
        let mut c = check(UAC_ID, UAC_LABEL, Category::System, Severity::Bad, owned(UAC_DISABLED));
        c.set_suggestion(owned(UAC_SUGGESTION));
        c
    } else {
        check_ok(UAC_ID, UAC_LABEL, Category::System, "Enabled")
    }
}

} // verus!
