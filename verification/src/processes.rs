//! Process-level diagnostics: manager not elevated, League not running.
//!
//! The supported configuration is a non-elevated manager and a non-elevated
//! League; running either as administrator breaks the patcher's process
//! injection.
use vstd::prelude::*;
use crate::report::{check, check_ok, fresh_check, Category, Check, CheckView, Severity};
use crate::text::{copy_string, decimal, owned, push_decimal, push_str};

verus! {

pub const ADMIN_ID: &'static str = "process.manager_not_admin";

pub const ADMIN_LABEL: &'static str = "LTK Manager not running as admin";

pub const ELEVATED_SUGGESTION: &'static str = "Running the manager as administrator is the single most common cause of \"patcher running but mods don't load\". Close LTK Manager and relaunch it normally (double-click — do NOT \"Run as administrator\"). If you have a compatibility flag on ltk-manager.exe forcing elevation, remove it from Properties → Compatibility.";

/// The manager-elevation check.
pub open spec fn manager_admin_check(elevated: bool) -> CheckView {
    if elevated {
        fresh_check(
            ADMIN_ID@,
            ADMIN_LABEL@,
            Category::Manager,
            Severity::Bad,
            "LTK Manager is running elevated"@,
        ).with_suggestion(ELEVATED_SUGGESTION@)
    } else {
        fresh_check(ADMIN_ID@, ADMIN_LABEL@, Category::Manager, Severity::Passed, "Not elevated"@)
    }
}

/// Reports the manager running elevated (its process token says so) as `Bad`.
pub fn check_manager_not_admin(elevated: bool) -> (c: Check)
    ensures
        c@ == manager_admin_check(elevated),
{
    if elevated {
        let mut c = check(
            ADMIN_ID,
            ADMIN_LABEL,
            Category::Manager,
            Severity::Bad,
            owned("LTK Manager is running elevated"),
        );
        c.set_suggestion(owned(ELEVATED_SUGGESTION));
        c
    } else {
        check_ok(ADMIN_ID, ADMIN_LABEL, Category::Manager, "Not elevated")
    }
}

/// A running process: its executable name and process id.
pub struct RunningProcess {
    pub name: String,
    pub pid: u32,
}

impl View for RunningProcess {
    type V = (Seq<char>, u32);

    open spec fn view(&self) -> (Seq<char>, u32) {
        (self.name@, self.pid)
    }
}

impl RunningProcess {
    /// A process with the given executable name and id.
    pub fn new(name: String, pid: u32) -> (p: RunningProcess)
        ensures
            p@ == (name@, pid),
    {
        RunningProcess { name, pid }
    }
}

/// The views of a sequence of processes.
pub open spec fn processes_view(ps: Seq<RunningProcess>) -> Seq<(Seq<char>, u32)> {
    ps.map_values(|p: RunningProcess| p@)
}

/// The lowercase form of a text, as `str::to_lowercase` computes it.
pub uninterp spec fn lowercase(s: Seq<char>) -> Seq<char>;

/// Lowercases a string.
///
/// Calls `str::to_lowercase`, which maps every character to its Unicode
/// lowercase form; the contract names that result and claims nothing else of it.
#[verifier::external_body]
fn to_lowercase(s: &str) -> (r: String)
    ensures
        r@ == lowercase(s@),
{
    s.to_lowercase()
}

/// Lowercase executable names of League, Riot and Vanguard processes.
pub open spec fn league_process_names() -> Seq<Seq<char>> {
    seq![
        "league of legends.exe"@,
        "leagueclient.exe"@,
        "leagueclientux.exe"@,
        "leagueclientuxrender.exe"@,
        "riotclientservices.exe"@,
        "riotclientux.exe"@,
        "riotclientuxrender.exe"@,
        "riotclientcrashhandler.exe"@,
        "vgc.exe"@,
        "vgtray.exe"@,
    ]
}

fn league_process_name(i: usize) -> (n: &'static str)
    requires
        i < 10,
    ensures
        n@ == league_process_names()[i as int],
{
    match i {
        0 => "league of legends.exe",
        1 => "leagueclient.exe",
        2 => "leagueclientux.exe",
        3 => "leagueclientuxrender.exe",
        4 => "riotclientservices.exe",
        5 => "riotclientux.exe",
        6 => "riotclientuxrender.exe",
        7 => "riotclientcrashhandler.exe",
        8 => "vgc.exe",
        _ => "vgtray.exe",
    }
}

/// The process name, lowercased, is one of the League/Riot/Vanguard names.
pub open spec fn is_league_process(name: Seq<char>) -> bool {
    league_process_names().contains(lowercase(name))
}

/// Is the (already lowercased) name one of the League process names?
fn is_league_name(lower: &String) -> (r: bool)
    ensures
        r == league_process_names().contains(lower@),
{
    let mut i: usize = 0;
    while i < 10
        invariant
            i <= 10,
            forall|k: int| 0 <= k < i ==> league_process_names()[k] != lower@,
        decreases 10 - i,
    {
        let candidate = owned(league_process_name(i));
        if candidate == *lower {
            assert(league_process_names()[i as int] == lower@);
            return true;
        }
        i = i + 1;
    }
    assert(league_process_names().len() == 10);
    false
}

/// The League processes among `ps`, in order.
pub open spec fn league_processes(ps: Seq<(Seq<char>, u32)>) -> Seq<(Seq<char>, u32)>
    decreases ps.len(),
{
    if ps.len() == 0 {
        ps
    } else if is_league_process(ps.last().0) {
        league_processes(ps.drop_last()).push(ps.last())
    } else {
        league_processes(ps.drop_last())
    }
}

/// Keeps the League/Riot/Vanguard processes of a process snapshot, in order.
pub fn select_league_processes(all: &Vec<RunningProcess>) -> (r: Vec<RunningProcess>)
    ensures
        processes_view(r@) == league_processes(processes_view(all@)),
{
    let ghost ps = processes_view(all@);
    let mut out: Vec<RunningProcess> = Vec::new();
    let mut i: usize = 0;
    while i < all.len()
        invariant
            ps == processes_view(all@),
            i <= all@.len(),
            processes_view(out@) == league_processes(ps.take(i as int)),
        decreases all@.len() - i,
    {
        let p = &all[i];
        assert(ps.take(i + 1).drop_last() =~= ps.take(i as int));
        assert(ps.take(i + 1).last() == p@);
        let lower = to_lowercase(p.name.as_str());
        if is_league_name(&lower) {
            let ghost before = out@;
            out.push(RunningProcess::new(copy_string(&p.name), p.pid));
            assert(processes_view(out@) =~= processes_view(before).push(p@));
        }
        i = i + 1;
    }
    assert(ps.take(i as int) =~= ps);
    out
}

pub const RUNNING_ID: &'static str = "process.league_not_running";

pub const RUNNING_LABEL: &'static str = "League is not currently running";

pub const RUNNING_SUGGESTION: &'static str = "Some checks (especially the patcher DLL lock probe) give cleaner results when League and Vanguard are not running. Close the client and any running game, then re-run diagnostics.";

/// The detail rows naming each process and its id.
pub open spec fn process_rows(ps: Seq<(Seq<char>, u32)>) -> Seq<(Seq<char>, Seq<char>)> {
    ps.map_values(|p: (Seq<char>, u32)| (p.0, "PID "@ + decimal(p.1 as nat)))
}

/// The League-running check for the League processes found running.
pub open spec fn league_running_check(running: Seq<(Seq<char>, u32)>) -> CheckView {
    if running.len() == 0 {
        fresh_check(RUNNING_ID@, RUNNING_LABEL@, Category::Manager, Severity::Passed, "League is closed"@)
    } else {
        fresh_check(
            RUNNING_ID@,
            RUNNING_LABEL@,
            Category::Manager,
            Severity::Warn,
            decimal(running.len())
                + " League/Riot process(es) running — close the game before re-running diagnostics"@,
        ).with_rows(process_rows(running)).with_suggestion(RUNNING_SUGGESTION@)
    }
}

/// Reports running League/Riot processes (from [`select_league_processes`]) as
/// `Warn`, one detail row per process.
pub fn check_league_not_running(running: &Vec<RunningProcess>) -> (c: Check)
    ensures
        c@ == league_running_check(processes_view(running@)),
{
    if running.len() == 0 {
        return check_ok(RUNNING_ID, RUNNING_LABEL, Category::Manager, "League is closed");
    }
    let mut summary = String::new();
    push_decimal(&mut summary, running.len() as u64);
    push_str(
        &mut summary,
        " League/Riot process(es) running — close the game before re-running diagnostics",
    );
    let mut c = check(RUNNING_ID, RUNNING_LABEL, Category::Manager, Severity::Warn, summary);
    let ghost start = c@;
    let ghost pv = processes_view(running@);
    let mut k: usize = 0;
    while k < running.len()
        invariant
            pv == processes_view(running@),
            k <= running@.len(),
            c@ == start.with_rows(process_rows(pv.take(k as int))),
        decreases running@.len() - k,
    {
        let mut value = owned("PID ");
        push_decimal(&mut value, running[k].pid as u64);
        c.add_detail(copy_string(&running[k].name), value);
        assert(process_rows(pv.take(k + 1)) =~= process_rows(pv.take(k as int)).push(
            (pv[k as int].0, "PID "@ + decimal(pv[k as int].1 as nat)),
        ));
        assert(start.details + process_rows(pv.take(k + 1)) =~= (start.details + process_rows(
            pv.take(k as int),
        )).push((pv[k as int].0, "PID "@ + decimal(pv[k as int].1 as nat))));
        k = k + 1;
    }
    assert(pv.take(k as int) =~= pv);
    c.set_suggestion(owned(RUNNING_SUGGESTION));
    c
}

} // verus!
