//! The checks on systems other than Windows, where the registry, process
//! tokens, Authenticode and the file-lock probe do not exist: each reports
//! `Info` and says so.
use vstd::prelude::*;
use crate::compat_flags::{COMPAT_ID, COMPAT_LABEL};
use crate::patcher_dll::{LOCK_ID, LOCK_LABEL, SIGNATURE_ID, SIGNATURE_LABEL};
use crate::processes::{ADMIN_ID, ADMIN_LABEL, RUNNING_ID, RUNNING_LABEL};
use crate::report::{check, fresh_check, Category, Check, CheckView, Severity};
use crate::text::owned;
use crate::windows::{
    LONG_PATHS_ID, LONG_PATHS_LABEL, UAC_ID, UAC_LABEL, VERSION_ID, VERSION_LABEL,
};

verus! {

/// An `Info` check saying that it does not apply here.
pub open spec fn not_applicable(id: Seq<char>, label: Seq<char>, category: Category) -> CheckView {
    fresh_check(id, label, category, Severity::Info, "Not applicable"@)
}

fn not_applicable_check(id: &str, label: &str, category: Category) -> (c: Check)
    ensures
        c@ == not_applicable(id@, label@, category),
{
    check(id, label, category, Severity::Info, owned("Not applicable"))
}

/// The version check away from Windows.
pub open spec fn version_unavailable() -> CheckView {
    fresh_check(VERSION_ID@, VERSION_LABEL@, Category::System, Severity::Info, "Not running on Windows"@)
}

/// Windows version check: not running on Windows.
pub fn check_version() -> (c: Check)
    ensures
        c@ == version_unavailable(),
{
    check(VERSION_ID, VERSION_LABEL, Category::System, Severity::Info, owned("Not running on Windows"))
}

/// Long-path check: not applicable.
pub fn check_long_paths_enabled() -> (c: Check)
    ensures
        c@ == not_applicable(LONG_PATHS_ID@, LONG_PATHS_LABEL@, Category::System),
{
    not_applicable_check(LONG_PATHS_ID, LONG_PATHS_LABEL, Category::System)
}

/// UAC check: not applicable.
pub fn check_uac_enabled() -> (c: Check)
    ensures
        c@ == not_applicable(UAC_ID@, UAC_LABEL@, Category::System),
{
    not_applicable_check(UAC_ID, UAC_LABEL, Category::System)
}

/// Manager elevation check: not applicable.
pub fn check_manager_not_admin() -> (c: Check)
    ensures
        c@ == not_applicable(ADMIN_ID@, ADMIN_LABEL@, Category::Manager),
{
    not_applicable_check(ADMIN_ID, ADMIN_LABEL, Category::Manager)
}

/// League-running check: not applicable.
pub fn check_league_not_running() -> (c: Check)
    ensures
        c@ == not_applicable(RUNNING_ID@, RUNNING_LABEL@, Category::Manager),
{
    not_applicable_check(RUNNING_ID, RUNNING_LABEL, Category::Manager)
}

/// Compatibility-flags check: not applicable.
pub fn check_compat_flags() -> (c: Check)
    ensures
        c@ == not_applicable(COMPAT_ID@, COMPAT_LABEL@, Category::League),
{
    not_applicable_check(COMPAT_ID, COMPAT_LABEL, Category::League)
}

/// DLL signature check: not applicable.
pub fn check_dll_signature() -> (c: Check)
    ensures
        c@ == not_applicable(SIGNATURE_ID@, SIGNATURE_LABEL@, Category::Patcher),
{
    not_applicable_check(SIGNATURE_ID, SIGNATURE_LABEL, Category::Patcher)
}

/// DLL lock check: not applicable.
pub fn check_dll_not_locked() -> (c: Check)
    ensures
        c@ == not_applicable(LOCK_ID@, LOCK_LABEL@, Category::Patcher),
{
    not_applicable_check(LOCK_ID, LOCK_LABEL, Category::Patcher)
}

/// No cloud-sync attributes are known here.
pub fn has_cloud_sync_attrs() -> (r: bool)
    ensures
        !r,
{
    false
}

/// Free space cannot be queried here.
pub fn free_disk_bytes() -> (r: Option<u64>)
    ensures
        r is None,
{
    None
}

pub const ELEVATION_UNSUPPORTED: &'static str = "Elevated terminal launch is only supported on Windows";

/// An elevated terminal cannot be launched here.
pub fn open_elevated_terminal_inner(with_banner: bool) -> (r: Result<(), String>)
    ensures
        r matches Err(e) && e@ == ELEVATION_UNSUPPORTED@,
{
    Err(owned(ELEVATION_UNSUPPORTED))
}

} // verus!
