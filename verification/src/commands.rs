//! The decisions behind the diagnostics commands: which patcher DLL to use,
//! the context the checks read, how the elevated terminal is launched and what
//! its launch status means, and the report itself.
use vstd::prelude::*;
use crate::report::{opt_view, CheckCtx, DiagnosticReport};
use crate::text::{copy_string, decimal, owned, push_decimal, push_str};

verus! {

/// A place where the patcher DLL may be found, and whether a file is there.
pub struct DllCandidate {
    pub path: String,
    pub exists: bool,
}

impl View for DllCandidate {
    type V = (Seq<char>, bool);

    open spec fn view(&self) -> (Seq<char>, bool) {
        (self.path@, self.exists)
    }
}

impl DllCandidate {
    /// A candidate location.
    pub fn new(path: String, exists: bool) -> (c: DllCandidate)
        ensures
            c@ == (path@, exists),
    {
        DllCandidate { path, exists }
    }
}

/// The views of a sequence of candidates.
pub open spec fn candidates_view(cs: Seq<DllCandidate>) -> Seq<(Seq<char>, bool)> {
    cs.map_values(|c: DllCandidate| c@)
}

/// The first candidate, in order, at which a file exists.
pub open spec fn first_existing(cs: Seq<(Seq<char>, bool)>) -> Option<Seq<char>>
    decreases cs.len(),
{
    if cs.len() == 0 {
        None
    } else if cs[0].1 {
        Some(cs[0].0)
    } else {
        first_existing(cs.drop_first())
    }
}

/// The first existing candidate among the resource directory, the
/// executable's directory and the source tree's `resources` directory (in the
/// order given), or `None` so that the other checks still run.
pub fn resolve_patcher_dll(candidates: &Vec<DllCandidate>) -> (r: Option<String>)
    ensures
        opt_view(r) == first_existing(candidates_view(candidates@)),
{
    let ghost cs = candidates_view(candidates@);
    let mut i: usize = 0;
    assert(cs.skip(0) =~= cs);
    while i < candidates.len()
        invariant
            cs == candidates_view(candidates@),
            i <= cs.len(),
            first_existing(cs) == first_existing(cs.skip(i as int)),
        decreases cs.len() - i,
    {
        assert(cs.skip(i as int)[0] == candidates@[i as int]@);
        assert(cs.skip(i as int).drop_first() =~= cs.skip(i + 1));
        if candidates[i].exists {
            return Some(copy_string(&candidates[i].path));
        }
        i = i + 1;
    }
    None
}

/// The context the checks read, from the settings snapshot: the storage path
/// falls back to the app-data directory when none is configured, and is then
/// marked as the default.
pub open spec fn ctx_from_settings(
    league_path: Option<Seq<char>>,
    configured_storage: Option<Seq<char>>,
    app_data_dir: Option<Seq<char>>,
) -> (Option<Seq<char>>, Option<Seq<char>>, bool) {
    (
        league_path,
        match configured_storage {
            Some(s) => Some(s),
            None => app_data_dir,
        },
        configured_storage is None,
    )
}

impl CheckCtx {
    /// Builds the context from the settings snapshot and the resolved paths.
    pub fn from_settings(
        league_path: Option<String>,
        configured_storage: Option<String>,
        app_data_dir: Option<String>,
        patcher_dll_path: Option<String>,
        manager_exe: Option<String>,
    ) -> (ctx: CheckCtx)
        ensures
            (opt_view(ctx.league_path), opt_view(ctx.mod_storage_path), ctx.mod_storage_is_default)
                == ctx_from_settings(
                opt_view(league_path),
                opt_view(configured_storage),
                opt_view(app_data_dir),
            ),
            opt_view(ctx.patcher_dll_path) == opt_view(patcher_dll_path),
            opt_view(ctx.manager_exe) == opt_view(manager_exe),
    {
        let is_default = configured_storage.is_none();
        let storage = match configured_storage {
            Some(s) => Some(s),
            None => app_data_dir,
        };
        CheckCtx {
            league_path,
            mod_storage_path: storage,
            mod_storage_is_default: is_default,
            patcher_dll_path,
            manager_exe,
        }
    }
}

/// PowerShell arguments when a hint banner is printed first.
pub const BANNER_ARGS: &'static str = "-NoExit -Command \"Write-Host 'LTK Manager: paste the fix command (Ctrl+V), review it, then press Enter.' -ForegroundColor Cyan; Write-Host ''\"";

/// PowerShell arguments without a banner.
pub const PLAIN_ARGS: &'static str = "-NoExit";

/// The executable launched elevated.
pub const ELEVATED_SHELL: &'static str = "powershell.exe";

/// The verb that asks for elevation.
pub const ELEVATION_VERB: &'static str = "runas";

/// The PowerShell arguments for the elevated terminal.
pub fn elevated_terminal_args(with_banner: bool) -> (a: String)
    ensures
        a@ == if with_banner {
            BANNER_ARGS@
        } else {
            PLAIN_ARGS@
        },
{
    if with_banner {
        owned(BANNER_ARGS)
    } else {
        owned(PLAIN_ARGS)
    }
}

/// The error for a failed launch with `ShellExecuteW` status `code`.
pub open spec fn launch_error(code: nat) -> Seq<char> {
    "Failed to launch elevated terminal (ShellExecute code "@ + decimal(code) + ")"@
}

/// Interprets the `ShellExecuteW` status: values above 32 mean success.
pub fn shell_execute_outcome(code: usize) -> (r: Result<(), String>)
    ensures
        code > 32 ==> r is Ok,
        code <= 32 ==> (r matches Err(e) && e@ == launch_error(code as nat)),
{
    if code > 32 {
        Ok(())
    } else {
        let mut e = owned("Failed to launch elevated terminal (ShellExecute code ");
        push_decimal(&mut e, code as u64);
        push_str(&mut e, ")");
        Err(e)
    }
}

} // verus!
