//! AppCompatFlags scan.
//!
//! Windows stores per-executable compatibility-mode settings under
//! `Software\Microsoft\Windows NT\CurrentVersion\AppCompatFlags\Layers` in both
//! HKCU and HKLM; the value name is the executable's full path. An entry on a
//! League or Riot executable (e.g. "Run as administrator") breaks the patcher's
//! process injection. The caller enumerates the value names of both roots and
//! hands them in; this module classifies them and builds the check.
use vstd::prelude::*;
use crate::report::{check, check_ok, fresh_check, Category, Check, CheckView, Severity};
use crate::text::{
    chars_of, copy_string, decimal, owned, push_decimal, push_str,
    starts_with_chars, string_from_range,
};

verus! {

/// The registry key whose value names are scanned, under each root.
pub const COMPAT_KEY: &'static str = "Software\\Microsoft\\Windows NT\\CurrentVersion\\AppCompatFlags\\Layers";

pub const COMPAT_ID: &'static str = "compat_flags.layers";

pub const COMPAT_LABEL: &'static str = "League/Riot compatibility flags";

pub const NO_ENTRIES: &'static str = "No League or Riot compatibility entries found";

pub const BAD_SUGGESTION: &'static str = "Found compatibility-mode entries on League/Riot executables. \"Run as administrator\" or any compatibility flag on League's binaries breaks the patcher's process injection. Remove every entry below — right-click the .exe → Properties → Compatibility → uncheck everything, OR run the command as administrator.";

/// Executable-name prefixes that break the patcher.
pub const BAD_PREFIX_LEAGUE: &'static str = "League";

pub const BAD_PREFIX_RIOT: &'static str = "Riot";

/// Executable-name prefixes that are suspicious.
pub const SUS_PREFIX_CSLOL: &'static str = "cslol-";

pub const SUS_PREFIX_MANAGER: &'static str = "ltk-manager";

/// Path separators recognised by [`basename`].
pub open spec fn is_separator(c: char) -> bool {
    c == '\\' || c == '/'
}

/// Index of the last separator in `s`, or -1 when there is none.
pub open spec fn last_separator(s: Seq<char>) -> int
    decreases s.len(),
{
    if s.len() == 0 {
        -1
    } else if is_separator(s.last()) {
        s.len() - 1
    } else {
        last_separator(s.drop_last())
    }
}

/// Everything after the last separator of `s` (all of `s` when it has none).
pub open spec fn basename_of(s: Seq<char>) -> Seq<char> {
    s.subrange(last_separator(s) + 1, s.len() as int)
}

/// Returns the basename of a value name (path): the text after the last `\`
/// or `/`, or the whole text when it has neither.
pub fn basename(path: &str) -> (b: String)
    ensures
        b@ == basename_of(path@),
{
    let v = chars_of(path);
    let mut last: usize = 0;  // one past the last separator seen so far
    let mut k: usize = 0;
    while k < v.len()
        invariant
            v@ == path@,
            k <= v@.len(),
            last <= k,
            last as int == last_separator(v@.take(k as int)) + 1,
        decreases v@.len() - k,
    {
        assert(v@.take(k + 1).drop_last() =~= v@.take(k as int));
        if v[k] == '\\' || v[k] == '/' {
            last = k + 1;
        }
        k = k + 1;
    }
    assert(v@.take(k as int) =~= v@);
    string_from_range(&v, last, v.len())
}

/// One registry value found under the compatibility key: the root's label
/// (`HKCU` or `HKLM`) and the value name (an executable path).
pub struct CompatEntry {
    pub root: String,
    pub value_name: String,
}

impl View for CompatEntry {
    type V = (Seq<char>, Seq<char>);

    open spec fn view(&self) -> (Seq<char>, Seq<char>) {
        (self.root@, self.value_name@)
    }
}

impl CompatEntry {
    /// An entry with the given root label and value name.
    pub fn new(root: String, value_name: String) -> (e: CompatEntry)
        ensures
            e@ == (root@, value_name@),
    {
        CompatEntry { root, value_name }
    }

    fn duplicate(&self) -> (e: CompatEntry)
        ensures
            e@ == self@,
    {
        CompatEntry { root: copy_string(&self.root), value_name: copy_string(&self.value_name) }
    }
}

/// The views of a sequence of entries.
pub open spec fn entries_view(es: Seq<CompatEntry>) -> Seq<(Seq<char>, Seq<char>)> {
    es.map_values(|e: CompatEntry| e@)
}

/// The value name's executable starts with `League` or `Riot`.
pub open spec fn is_bad_name(value_name: Seq<char>) -> bool {
    let b = basename_of(value_name);
    BAD_PREFIX_LEAGUE@.is_prefix_of(b) || BAD_PREFIX_RIOT@.is_prefix_of(b)
}

/// The value name's executable starts with `cslol-` or `ltk-manager`.
pub open spec fn is_suspicious_name(value_name: Seq<char>) -> bool {
    let b = basename_of(value_name);
    SUS_PREFIX_CSLOL@.is_prefix_of(b) || SUS_PREFIX_MANAGER@.is_prefix_of(b)
}

/// The entries on League/Riot executables, in scan order.
pub open spec fn bad_entries(es: Seq<(Seq<char>, Seq<char>)>) -> Seq<(Seq<char>, Seq<char>)>
    decreases es.len(),
{
    if es.len() == 0 {
        es
    } else if is_bad_name(es.last().1) {
        bad_entries(es.drop_last()).push(es.last())
    } else {
        bad_entries(es.drop_last())
    }
}

/// The suspicious entries that are not bad, in scan order.
pub open spec fn suspicious_entries(es: Seq<(Seq<char>, Seq<char>)>) -> Seq<
    (Seq<char>, Seq<char>),
>
    decreases es.len(),
{
    if es.len() == 0 {
        es
    } else if !is_bad_name(es.last().1) && is_suspicious_name(es.last().1) {
        suspicious_entries(es.drop_last()).push(es.last())
    } else {
        suspicious_entries(es.drop_last())
    }
}

/// The detail rows listing entries, each keyed by its root and `tag`.
pub open spec fn tagged_rows(es: Seq<(Seq<char>, Seq<char>)>, tag: Seq<char>) -> Seq<
    (Seq<char>, Seq<char>),
> {
    es.map_values(|e: (Seq<char>, Seq<char>)| (e.0 + tag, e.1))
}

/// The `reg delete` command that removes one entry.
pub open spec fn reg_delete_line(e: (Seq<char>, Seq<char>)) -> Seq<char> {
    "reg delete \""@ + e.0 + "\\"@ + COMPAT_KEY@ + "\" /v \""@ + e.1 + "\" /f"@
}

/// One `reg delete` line per entry, separated by newlines.
pub open spec fn reg_delete_script(es: Seq<(Seq<char>, Seq<char>)>) -> Seq<char>
    decreases es.len(),
{
    if es.len() == 0 {
        Seq::empty()
    } else if es.len() == 1 {
        reg_delete_line(es[0])
    } else {
        reg_delete_script(es.drop_last()) + "\n"@ + reg_delete_line(es.last())
    }
}

/// The summary line for `bad` bad and `sus` suspicious entries.
pub open spec fn compat_summary(bad: nat, sus: nat) -> Seq<char> {
    if bad > 0 {
        decimal(bad) + " League/Riot entr"@ + (if bad == 1 {
            "y"@
        } else {
            "ies"@
        }) + " forcing compatibility mode"@
    } else {
        decimal(sus) + " cslol/ltk-manager entries (suspicious)"@
    }
}

/// The compatibility-flags check for the scanned entries.
pub open spec fn compat_check(es: Seq<(Seq<char>, Seq<char>)>) -> CheckView {
    let bad = bad_entries(es);
    let sus = suspicious_entries(es);
    if bad.len() == 0 && sus.len() == 0 {
        fresh_check(COMPAT_ID@, COMPAT_LABEL@, Category::League, Severity::Passed, NO_ENTRIES@)
    } else {
        let severity = if bad.len() > 0 {
            Severity::Bad
        } else {
            Severity::Warn
        };
        let listed = fresh_check(
            COMPAT_ID@,
            COMPAT_LABEL@,
            Category::League,
            severity,
            compat_summary(bad.len(), sus.len()),
        ).with_rows(tagged_rows(bad, " (BAD)"@)).with_rows(tagged_rows(sus, " (suspicious)"@));
        if bad.len() > 0 {
            listed.with_suggestion(BAD_SUGGESTION@).with_fix(reg_delete_script(bad))
        } else {
            listed
        }
    }
}

/// Does the basename of `value_name` start with one of the two prefixes?
fn basename_starts_with_either(value_name: &String, p1: &str, p2: &str) -> (r: bool)
    ensures
        r == (p1@.is_prefix_of(basename_of(value_name@)) || p2@.is_prefix_of(
            basename_of(value_name@),
        )),
{
    let b = basename(value_name.as_str());
    let bv = chars_of(b.as_str());
    let a = starts_with_chars(&bv, &chars_of(p1));
    let c = starts_with_chars(&bv, &chars_of(p2));
    a || c
}

/// Splits the scanned entries into bad and suspicious ones.
fn classify(entries: &Vec<CompatEntry>) -> (r: (Vec<CompatEntry>, Vec<CompatEntry>))
    ensures
        entries_view(r.0@) == bad_entries(entries_view(entries@)),
        entries_view(r.1@) == suspicious_entries(entries_view(entries@)),
{
    let ghost es = entries_view(entries@);
    let mut bad: Vec<CompatEntry> = Vec::new();
    let mut sus: Vec<CompatEntry> = Vec::new();
    let mut i: usize = 0;
    while i < entries.len()
        invariant
            es == entries_view(entries@),
            i <= entries@.len(),
            entries_view(bad@) == bad_entries(es.take(i as int)),
            entries_view(sus@) == suspicious_entries(es.take(i as int)),
        decreases entries@.len() - i,
    {
        let e = &entries[i];
        assert(es.take(i + 1).drop_last() =~= es.take(i as int));
        assert(es.take(i + 1).last() == e@);
        let is_bad = basename_starts_with_either(&e.value_name, BAD_PREFIX_LEAGUE, BAD_PREFIX_RIOT);
        let ghost bad_before = bad@;
        let ghost sus_before = sus@;
        if is_bad {
            bad.push(e.duplicate());
            assert(entries_view(bad@) =~= entries_view(bad_before).push(e@));
        } else if basename_starts_with_either(
            &e.value_name,
            SUS_PREFIX_CSLOL,
            SUS_PREFIX_MANAGER,
        ) {
            sus.push(e.duplicate());
            assert(entries_view(sus@) =~= entries_view(sus_before).push(e@));
        }
        i = i + 1;
    }
    assert(es.take(i as int) =~= es);
    (bad, sus)
}

/// Appends one detail row per entry, keyed by the root and `tag`.
fn add_tagged_rows(c: &mut Check, es: &Vec<CompatEntry>, tag: &str)
    ensures
        final(c)@ == old(c)@.with_rows(tagged_rows(entries_view(es@), tag@)),
{
    let ghost start = c@;
    let ghost ev = entries_view(es@);
    let mut k: usize = 0;
    while k < es.len()
        invariant
            ev == entries_view(es@),
            k <= es@.len(),
            c@ == start.with_rows(tagged_rows(ev.take(k as int), tag@)),
        decreases es@.len() - k,
    {
        let mut key = copy_string(&es[k].root);
        push_str(&mut key, tag);
        c.add_detail(key, copy_string(&es[k].value_name));
        assert(tagged_rows(ev.take(k + 1), tag@) =~= tagged_rows(ev.take(k as int), tag@).push(
            (ev[k as int].0 + tag@, ev[k as int].1),
        ));
        assert(start.details + tagged_rows(ev.take(k + 1), tag@) =~= (start.details
            + tagged_rows(ev.take(k as int), tag@)).push((ev[k as int].0 + tag@, ev[k as int].1)));
        k = k + 1;
    }
    assert(ev.take(k as int) =~= ev);
}

/// Appends the `reg delete` line for one entry.
fn push_reg_delete_line(s: &mut String, e: &CompatEntry)
    ensures
        final(s)@ == old(s)@ + reg_delete_line(e@),
{
    push_str(s, "reg delete \"");
    push_str(s, e.root.as_str());
    push_str(s, "\\");
    push_str(s, COMPAT_KEY);
    push_str(s, "\" /v \"");
    push_str(s, e.value_name.as_str());
    push_str(s, "\" /f");
}

/// The script of `reg delete` lines for the entries.
fn reg_delete_commands(es: &Vec<CompatEntry>) -> (s: String)
    ensures
        s@ == reg_delete_script(entries_view(es@)),
{
    let ghost ev = entries_view(es@);
    let mut s = String::new();
    let mut k: usize = 0;
    while k < es.len()
        invariant
            ev == entries_view(es@),
            k <= es@.len(),
            s@ == reg_delete_script(ev.take(k as int)),
        decreases es@.len() - k,
    {
        assert(ev.take(k + 1).drop_last() =~= ev.take(k as int));
        assert(ev.take(k + 1).last() == es@[k as int]@);
        assert(ev.take(k + 1)[0] == ev[0]);
        if k > 0 {
            push_str(&mut s, "\n");
        }
        push_reg_delete_line(&mut s, &es[k]);
        k = k + 1;
    }
    assert(ev.take(k as int) =~= ev);
    s
}

/// Checks the compatibility-mode entries found under the `Layers` key of HKCU
/// and HKLM (in that order): any entry on a League/Riot executable is `Bad`
/// and comes with a `reg delete` fix script; otherwise any entry on a
/// cslol/ltk-manager executable is `Warn`.
pub fn check_compat_flags(entries: &Vec<CompatEntry>) -> (c: Check)
    ensures
        c@ == compat_check(entries_view(entries@)),
{
    let (bad, sus) = classify(entries);
    if bad.len() == 0 && sus.len() == 0 {
        return check_ok(COMPAT_ID, COMPAT_LABEL, Category::League, NO_ENTRIES);
    }
    let severity = if bad.len() > 0 {
        Severity::Bad
    } else {
        Severity::Warn
    };
    let mut summary = String::new();
    if bad.len() > 0 {
        push_decimal(&mut summary, bad.len() as u64);
        push_str(&mut summary, " League/Riot entr");
        if bad.len() == 1 {
            push_str(&mut summary, "y");
        } else {
            push_str(&mut summary, "ies");
        }
        push_str(&mut summary, " forcing compatibility mode");
    } else {
        push_decimal(&mut summary, sus.len() as u64);
        push_str(&mut summary, " cslol/ltk-manager entries (suspicious)");
    }
    let mut c = check(COMPAT_ID, COMPAT_LABEL, Category::League, severity, summary);
    add_tagged_rows(&mut c, &bad, " (BAD)");
    add_tagged_rows(&mut c, &sus, " (suspicious)");
    if bad.len() > 0 {
        c.set_suggestion(owned(BAD_SUGGESTION));
        c.set_fix_command(reg_delete_commands(&bad));
    }
    c
}

} // verus!
