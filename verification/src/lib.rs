//! System health checks for troubleshooting the mod patcher.
//!
//! Each check is a function from the facts gathered about the system (paths,
//! registry readings, probe outcomes) to a [`report::Check`]; the report is
//! the ordered list of all checks. Gathering the facts is left to the caller.
use vstd::prelude::*;

pub mod commands;
pub mod compat_flags;
pub mod laws;
pub mod library_index;
pub mod non_windows;
pub mod patcher_dll;
pub mod paths;
pub mod processes;
pub mod report;
pub mod storage_medium;
pub mod text;
pub mod win_util;
pub mod windows;

use crate::compat_flags::{compat_check, entries_view, CompatEntry};
use crate::library_index::{check_library_index, library_index_check, IndexRead};
use crate::non_windows::{not_applicable, version_unavailable};
use crate::patcher_dll::{
    dll_lock_check, dll_present_check, dll_signature_check, existing_dll_of, verification_view,
};
use crate::paths::{
    free_space_check, free_space_target_of, league_path_check, league_writability_check,
    probe_failure, storage_in_league_check, storage_path_check, storage_writability_check,
};
use crate::processes::manager_admin_check;
use crate::report::{checks_view, opt_view, Category, Check, CheckCtx, CheckView, DiagnosticReport};
use crate::storage_medium::{storage_medium_check, StorageMedium};
use crate::windows::{long_paths_check, uac_check, version_check};

verus! {

/// What was read from Windows-only sources.
pub struct WindowsProbes {
    /// `(major, minor, build)` from the kernel-shared user data page.
    pub version: (u32, u32, u32),
    /// `LongPathsEnabled`, when it could be read.
    pub long_paths: Option<u64>,
    /// `EnableLUA`, when it could be read.
    pub enable_lua: Option<u64>,
    /// The manager's process token is elevated.
    pub elevated: bool,
    /// The value names under the compatibility-flags key of HKCU, then HKLM.
    pub compat_entries: Vec<CompatEntry>,
    /// Authenticode verification of the existing patcher DLL.
    pub dll_signature: Option<Result<i32, String>>,
    /// Lock probe of the existing patcher DLL.
    pub dll_locked: Option<bool>,
}

/// Everything gathered about the system for one run of the suite.
pub struct Probes {
    /// `<league>\Game\League of Legends.exe` exists.
    pub league_game_exe_exists: bool,
    /// `<league>/Contents/LoL/Game` exists.
    pub league_mac_game_exists: bool,
    /// The League path carries cloud-sync attributes.
    pub league_cloud_attrs: bool,
    /// The text of `<league>\Game`.
    pub league_game_dir: String,
    /// `<league>\Game` exists.
    pub league_game_dir_exists: bool,
    /// Outcome of writing a temporary file into the League write target.
    pub league_write_probe: Option<Result<(), String>>,
    /// The storage directory exists.
    pub storage_exists: bool,
    /// The storage path carries cloud-sync attributes.
    pub storage_cloud_attrs: bool,
    /// Outcome of writing a temporary file into the storage directory.
    pub storage_write_probe: Option<Result<(), String>>,
    /// The storage directory is inside the League directory.
    pub storage_inside_league: bool,
    /// The directory of the running executable.
    pub exe_dir: Option<String>,
    /// Free bytes on the drive of the free-space target.
    pub free_bytes: Option<u64>,
    /// Medium of the storage drive.
    pub storage_medium: Option<StorageMedium>,
    /// The patcher DLL exists.
    pub dll_exists: bool,
    /// The patcher DLL's size.
    pub dll_size: Option<u64>,
    /// The text of the library index path.
    pub index_path: String,
    /// What reading the library index gave.
    pub index_read: IndexRead,
    /// Windows-only readings; `None` on other systems.
    pub windows: Option<WindowsProbes>,
}

/// The probes hold every outcome that the context makes necessary.
pub open spec fn probes_complete(ctx: CheckCtx, p: Probes) -> bool {
    &&& ctx.league_path is Some ==> p.league_write_probe is Some
    &&& ctx.mod_storage_path is Some && p.storage_exists ==> p.storage_write_probe is Some
    &&& ctx.mod_storage_path is Some ==> p.storage_medium is Some
    &&& match p.windows {
        Some(w) => existing_dll_of(opt_view(ctx.patcher_dll_path), p.dll_exists) is Some
            ==> w.dll_signature is Some && w.dll_locked is Some,
        None => true,
    }
}

/// Position 0 of the suite: the Windows version.
pub open spec fn suite_entry_version(p: Probes) -> CheckView {
    match p.windows {
        Some(w) => version_check(w.version.0, w.version.1, w.version.2),
        None => version_unavailable(),
    }
}

/// Position 1 of the suite: long paths.
pub open spec fn suite_entry_long_paths(p: Probes) -> CheckView {
    match p.windows {
        Some(w) => long_paths_check(w.long_paths),
        None => not_applicable(
            crate::windows::LONG_PATHS_ID@,
            crate::windows::LONG_PATHS_LABEL@,
            Category::System,
        ),
    }
}

/// Position 2 of the suite: UAC.
pub open spec fn suite_entry_uac(p: Probes) -> CheckView {
    match p.windows {
        Some(w) => uac_check(w.enable_lua),
        None => not_applicable(
            crate::windows::UAC_ID@,
            crate::windows::UAC_LABEL@,
            Category::System,
        ),
    }
}

/// Position 3 of the suite: the manager's elevation.
pub open spec fn suite_entry_admin(p: Probes) -> CheckView {
    match p.windows {
        Some(w) => manager_admin_check(w.elevated),
        None => not_applicable(
            crate::processes::ADMIN_ID@,
            crate::processes::ADMIN_LABEL@,
            Category::Manager,
        ),
    }
}

/// Position 6 of the suite: compatibility flags.
pub open spec fn suite_entry_compat(p: Probes) -> CheckView {
    match p.windows {
        Some(w) => compat_check(entries_view(w.compat_entries@)),
        None => not_applicable(
            crate::compat_flags::COMPAT_ID@,
            crate::compat_flags::COMPAT_LABEL@,
            Category::League,
        ),
    }
}

/// Position 13 of the suite: the DLL's signature.
pub open spec fn suite_entry_signature(ctx: CheckCtx, p: Probes) -> CheckView {
    match p.windows {
        Some(w) => dll_signature_check(
            opt_view(ctx.patcher_dll_path),
            p.dll_exists,
            verification_view(w.dll_signature),
        ),
        None => not_applicable(
            crate::patcher_dll::SIGNATURE_ID@,
            crate::patcher_dll::SIGNATURE_LABEL@,
            Category::Patcher,
        ),
    }
}

/// Position 14 of the suite: the DLL's lock.
pub open spec fn suite_entry_lock(ctx: CheckCtx, p: Probes) -> CheckView {
    match p.windows {
        Some(w) => dll_lock_check(opt_view(ctx.patcher_dll_path), p.dll_exists, w.dll_locked),
        None => not_applicable(
            crate::patcher_dll::LOCK_ID@,
            crate::patcher_dll::LOCK_LABEL@,
            Category::Patcher,
        ),
    }
}

/// The full suite, in display order: system, manager, League, storage,
/// patcher, library.
pub open spec fn suite(ctx: CheckCtx, p: Probes) -> Seq<CheckView> {
    let league = opt_view(ctx.league_path);
    let storage = opt_view(ctx.mod_storage_path);
    let dll = opt_view(ctx.patcher_dll_path);
    seq![
        suite_entry_version(p),
        suite_entry_long_paths(p),
        suite_entry_uac(p),
        suite_entry_admin(p),
        league_path_check(
            league,
            p.league_game_exe_exists,
            p.league_mac_game_exists,
            p.league_cloud_attrs,
        ),
        league_writability_check(
            league,
            p.league_game_dir@,
            p.league_game_dir_exists,
            probe_failure(p.league_write_probe),
        ),
        suite_entry_compat(p),
        storage_path_check(
            storage,
            ctx.mod_storage_is_default,
            p.storage_exists,
            p.storage_cloud_attrs,
        ),
        storage_writability_check(storage, p.storage_exists, probe_failure(p.storage_write_probe)),
        storage_in_league_check(storage, league, p.storage_inside_league),
        free_space_check(free_space_target_of(storage, league, opt_view(p.exe_dir)), p.free_bytes),
        storage_medium_check(storage, p.storage_medium),
        dll_present_check(dll, p.dll_exists, p.dll_size),
        suite_entry_signature(ctx, p),
        suite_entry_lock(ctx, p),
        library_index_check(storage, p.index_path@, p.index_read),
    ]
}

/// Runs the full suite of diagnostics. Each check is independent and
/// infallible: a check that could not gather its data reports `Warn` or `Bad`
/// instead of failing.
#[verifier::spinoff_prover]
#[verifier::rlimit(50)]
pub fn run_all(ctx: &CheckCtx, p: &Probes) -> (checks: Vec<Check>)
    requires
        probes_complete(*ctx, *p),
    ensures
        checks_view(checks@) == suite(*ctx, *p),
{
    let mut checks: Vec<Check> = Vec::new();
    // System
    match &p.windows {
        Some(w) => {
            checks.push(crate::windows::check_version(w.version));
            checks.push(crate::windows::check_long_paths_enabled(w.long_paths));
            checks.push(crate::windows::check_uac_enabled(w.enable_lua));
        },
        None => {
            checks.push(crate::non_windows::check_version());
            checks.push(crate::non_windows::check_long_paths_enabled());
            checks.push(crate::non_windows::check_uac_enabled());
        },
    }
    // Manager
    match &p.windows {
        Some(w) => checks.push(crate::processes::check_manager_not_admin(w.elevated)),
        None => checks.push(crate::non_windows::check_manager_not_admin()),
    }
    // League
    checks.push(
        crate::paths::check_league_path(
            ctx,
            p.league_game_exe_exists,
            p.league_mac_game_exists,
            p.league_cloud_attrs,
        ),
    );
    checks.push(
        crate::paths::check_league_writability(
            ctx,
            &p.league_game_dir,
            p.league_game_dir_exists,
            &p.league_write_probe,
        ),
    );
    match &p.windows {
        Some(w) => checks.push(crate::compat_flags::check_compat_flags(&w.compat_entries)),
        None => checks.push(crate::non_windows::check_compat_flags()),
    }
    // Storage
    checks.push(crate::paths::check_storage_path(ctx, p.storage_exists, p.storage_cloud_attrs));
    checks.push(
        crate::paths::check_storage_writability(ctx, p.storage_exists, &p.storage_write_probe),
    );
    checks.push(crate::paths::check_storage_in_league(ctx, p.storage_inside_league));
    checks.push(crate::paths::check_free_space(ctx, &p.exe_dir, p.free_bytes));
    checks.push(crate::storage_medium::check_storage_medium(ctx, p.storage_medium));
    // Patcher
    checks.push(crate::patcher_dll::check_dll_present(ctx, p.dll_exists, p.dll_size));
    match &p.windows {
        Some(w) => {
            checks.push(
                crate::patcher_dll::check_dll_signature(ctx, p.dll_exists, &w.dll_signature),
            );
            checks.push(crate::patcher_dll::check_dll_not_locked(ctx, p.dll_exists, w.dll_locked));
        },
        None => {
            checks.push(crate::non_windows::check_dll_signature());
            checks.push(crate::non_windows::check_dll_not_locked());
        },
    }
    // Library
    checks.push(check_library_index(ctx, &p.index_path, &p.index_read));
    assert(checks_view(checks@) =~= suite(*ctx, *p));
    checks
}

/// The report for one run: the time it was generated, the manager's version,
/// and [`run_all`]'s checks.
pub fn run_diagnostics_inner(
    generated_at: String,
    app_version: String,
    ctx: &CheckCtx,
    p: &Probes,
) -> (r: DiagnosticReport)
    requires
        probes_complete(*ctx, *p),
    ensures
        r.generated_at@ == generated_at@,
        r.app_version@ == app_version@,
        checks_view(r.checks@) == suite(*ctx, *p),
{
    DiagnosticReport { generated_at, app_version, checks: run_all(ctx, p) }
}

} // verus!
