//! The diagnostic report model: severities, categories, detail rows, checks,
//! the context the checks read, and the abstract view of a check that every
//! contract in this crate speaks of.
use vstd::prelude::*;
use crate::text::owned;

verus! {

/// Severity of a diagnostic check result, declared best-to-worst
/// (`Passed < Info < Warn < Bad`).
#[derive(Clone, Copy, Debug, PartialEq, Eq, Structural)]
pub enum Severity {
    /// Check passed.
    Passed,
    /// Informational: no action needed.
    Info,
    /// Suspicious: may cause problems, worth investigating.
    Warn,
    /// Known to break the patcher, should be fixed.
    Bad,
}

/// Coarse grouping for the UI.
#[derive(Clone, Copy, Debug, PartialEq, Eq, Structural)]
pub enum Category {
    /// OS-level checks (Windows version, UAC, long paths).
    System,
    /// League installation checks (path, writability, compat flags).
    League,
    /// Manager checks (admin status).
    Manager,
    /// Patcher / DLL checks (presence, signature, locked-by handles).
    Patcher,
    /// Mod-storage path checks.
    Storage,
    /// Mod library state checks (index integrity).
    Library,
}

/// A single key/value detail row attached to a check.
#[derive(Debug)]
pub struct CheckDetail {
    pub key: String,
    pub value: String,
}

impl View for CheckDetail {
    type V = (Seq<char>, Seq<char>);

    open spec fn view(&self) -> (Seq<char>, Seq<char>) {
        (self.key@, self.value@)
    }
}

impl CheckDetail {
    /// A detail row with the given key and value.
    pub fn new(key: String, value: String) -> (d: CheckDetail)
        ensures
            d@ == (key@, value@),
    {
        CheckDetail { key, value }
    }
}

/// Result of a single diagnostic check.
#[derive(Debug)]
pub struct Check {
    /// Stable identifier (e.g. `"windows.long_paths"`).
    pub id: String,
    /// Human-readable label.
    pub label: String,
    pub category: Category,
    pub severity: Severity,
    /// One-line summary of the result.
    pub summary: String,
    /// Structured details, shown when the row is expanded.
    pub details: Vec<CheckDetail>,
    /// Plain-text guidance for the user.
    pub suggestion: Option<String>,
    /// A command the user may run as a fix.
    pub fix_command: Option<String>,
}

/// The abstract value of a [`Check`]: every string taken as its characters.
#[verifier::ext_equal]
pub struct CheckView {
    pub id: Seq<char>,
    pub label: Seq<char>,
    pub category: Category,
    pub severity: Severity,
    pub summary: Seq<char>,
    pub details: Seq<(Seq<char>, Seq<char>)>,
    pub suggestion: Option<Seq<char>>,
    pub fix_command: Option<Seq<char>>,
}

/// The characters of an optional string.
pub open spec fn opt_view(o: Option<String>) -> Option<Seq<char>> {
    match o {
        Some(s) => Some(s@),
        None => None,
    }
}

/// The views of a sequence of detail rows.
pub open spec fn details_view(ds: Seq<CheckDetail>) -> Seq<(Seq<char>, Seq<char>)> {
    ds.map_values(|d: CheckDetail| d@)
}

impl View for Check {
    type V = CheckView;

    open spec fn view(&self) -> CheckView {
        CheckView {
            id: self.id@,
            label: self.label@,
            category: self.category,
            severity: self.severity,
            summary: self.summary@,
            details: details_view(self.details@),
            suggestion: opt_view(self.suggestion),
            fix_command: opt_view(self.fix_command),
        }
    }
}

/// A check with the given identity, severity and summary, and nothing else:
/// no details, no suggestion, no fix command.
pub open spec fn fresh_check(
    id: Seq<char>,
    label: Seq<char>,
    category: Category,
    severity: Severity,
    summary: Seq<char>,
) -> CheckView {
    CheckView {
        id,
        label,
        category,
        severity,
        summary,
        details: Seq::empty(),
        suggestion: None,
        fix_command: None,
    }
}

impl CheckView {
    /// This check with one more detail row at the end.
    pub open spec fn with_detail(self, key: Seq<char>, value: Seq<char>) -> CheckView {
        CheckView { details: self.details.push((key, value)), ..self }
    }

    /// This check with several more detail rows at the end.
    pub open spec fn with_rows(self, rows: Seq<(Seq<char>, Seq<char>)>) -> CheckView {
        CheckView { details: self.details + rows, ..self }
    }

    /// This check with its severity replaced.
    pub open spec fn with_severity(self, severity: Severity) -> CheckView {
        CheckView { severity, ..self }
    }

    /// This check with its summary replaced.
    pub open spec fn with_summary(self, summary: Seq<char>) -> CheckView {
        CheckView { summary, ..self }
    }

    /// This check with a suggestion.
    pub open spec fn with_suggestion(self, suggestion: Seq<char>) -> CheckView {
        CheckView { suggestion: Some(suggestion), ..self }
    }

    /// This check with a fix command.
    pub open spec fn with_fix(self, fix: Seq<char>) -> CheckView {
        CheckView { fix_command: Some(fix), ..self }
    }
}

impl Check {
    /// Appends a detail row.
    pub fn add_detail(&mut self, key: String, value: String)
        ensures
            final(self)@ == old(self)@.with_detail(key@, value@),
    {
        let ghost before = self.details@;
        self.details.push(CheckDetail::new(key, value));
        assert(details_view(self.details@) =~= details_view(before).push((key@, value@)));
    }

    /// Replaces the severity.
    pub fn set_severity(&mut self, severity: Severity)
        ensures
            final(self)@ == old(self)@.with_severity(severity),
    {
        self.severity = severity;
    }

    /// Replaces the summary.
    pub fn set_summary(&mut self, summary: String)
        ensures
            final(self)@ == old(self)@.with_summary(summary@),
    {
        self.summary = summary;
    }

    /// Sets the suggestion.
    pub fn set_suggestion(&mut self, suggestion: String)
        ensures
            final(self)@ == old(self)@.with_suggestion(suggestion@),
    {
        self.suggestion = Some(suggestion);
    }

    /// Sets the fix command.
    pub fn set_fix_command(&mut self, fix: String)
        ensures
            final(self)@ == old(self)@.with_fix(fix@),
    {
        self.fix_command = Some(fix);
    }
}

/// Build a [`Check`] for a quick passing result with no details.
pub fn check_ok(id: &str, label: &str, category: Category, summary: &str) -> (c: Check)
    ensures
        c@ == fresh_check(id@, label@, category, Severity::Passed, summary@),
{
    Check {
        id: owned(id),
        label: owned(label),
        category,
        severity: Severity::Passed,
        summary: owned(summary),
        details: Vec::new(),
        suggestion: None,
        fix_command: None,
    }
}

/// Build a [`Check`] with the given severity and summary; details, a
/// suggestion and a fix command are attached afterwards.
pub fn check(id: &str, label: &str, category: Category, severity: Severity, summary: String) -> (c:
    Check)
    ensures
        c@ == fresh_check(id@, label@, category, severity, summary@),
{
    Check {
        id: owned(id),
        label: owned(label),
        category,
        severity,
        summary,
        details: Vec::new(),
        suggestion: None,
        fix_command: None,
    }
}

/// Context passed to each check: the paths the rest of the application uses,
/// each as the text of the path.
pub struct CheckCtx {
    /// League install root.
    pub league_path: Option<String>,
    /// Resolved mod storage directory, with the app-data fallback already applied.
    pub mod_storage_path: Option<String>,
    /// True when the storage directory came from the fallback.
    pub mod_storage_is_default: bool,
    /// Path of the patcher DLL, if it could be resolved.
    pub patcher_dll_path: Option<String>,
    /// Manager executable path (read by no check yet).
    pub manager_exe: Option<String>,
}

/// Full diagnostic report.
#[derive(Debug)]
pub struct DiagnosticReport {
    /// ISO-8601 UTC timestamp.
    pub generated_at: String,
    /// Manager version.
    pub app_version: String,
    /// All checks in display order.
    pub checks: Vec<Check>,
}

/// The views of a sequence of checks.
pub open spec fn checks_view(cs: Seq<Check>) -> Seq<CheckView> {
    cs.map_values(|c: Check| c@)
}

} // verus!
