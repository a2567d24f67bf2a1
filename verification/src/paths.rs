//! Path / install / storage diagnostic checks.
//!
//! - League path validity, writability, length
//! - Mod storage path validity, writability, free space
//! - Storage not inside the League directory
//! - Cloud-sync attributes and cloud-sync folder names
//!
//! Free-space and length thresholds are 1 GB and 128 characters.
use vstd::prelude::*;
use crate::report::{
    check, check_ok, fresh_check, opt_view, Category, Check, CheckCtx, CheckView, Severity,
};
use crate::text::{
    chars_of, contains_chars, contains_seq, copy_string, decimal, decimal_string, digit_char,
    digit_chars, owned, push_char, push_decimal, push_str,
};

verus! {

pub const KB: u64 = 1024;

pub const MB: u64 = 1048576;

pub const GB: u64 = 1073741824;

pub const TB: u64 = 1099511627776;

/// 2^53: every integer below it is exactly representable as an `f64`.
pub open spec fn f64_exact_limit() -> nat {
    9007199254740992
}

/// The spacing of `f64` values around `x`: 1 below 2^53, doubling with each
/// further bit of `x`.
pub open spec fn f64_spacing(x: nat) -> nat
    decreases x,
{
    if x < f64_exact_limit() {
        1
    } else {
        2 * f64_spacing(x / 2)
    }
}

/// The value of `x as f64`: `x` rounded to the nearest multiple of its `f64`
/// spacing, ties to an even multiple.
pub open spec fn f64_nearest(x: nat) -> nat {
    let sc = f64_spacing(x);
    if sc == 1 {
        x
    } else {
        let q = x / sc;
        let r = x % sc;
        let h = sc / 2;
        let q2 = if r > h || (r == h && q % 2 == 1) {
            q + 1
        } else {
            q
        };
        q2 * sc
    }
}

/// `n / d` rounded to the nearest integer, ties to even.
pub open spec fn round_half_even(n: nat, d: nat) -> nat {
    let q = n / d;
    let r = n % d;
    if 2 * r > d || (2 * r == d && q % 2 == 1) {
        q + 1
    } else {
        q
    }
}

/// A count of tenths rendered with one decimal place (`12` is `1.2`).
pub open spec fn one_decimal(tenths: nat) -> Seq<char> {
    decimal(tenths / 10) + "."@ + seq![digit_chars()[(tenths % 10) as int]]
}

/// `x as f64 / unit as f64` rendered with one decimal place, as `{:.1}` does:
/// the exact quotient rounded to tenths, ties to even.
pub open spec fn scaled_text(x: nat, unit: nat) -> Seq<char> {
    one_decimal(round_half_even(f64_nearest(x) * 10, unit))
}

/// Human-readable byte count: `B` below 1 KB, else the largest unit of KB, MB,
/// GB, TB (powers of 1024) that fits, with one decimal place.
pub open spec fn bytes_text(x: nat) -> Seq<char> {
    if x >= TB {
        scaled_text(x, TB as nat) + " TB"@
    } else if x >= GB {
        scaled_text(x, GB as nat) + " GB"@
    } else if x >= MB {
        scaled_text(x, MB as nat) + " MB"@
    } else if x >= KB {
        scaled_text(x, KB as nat) + " KB"@
    } else {
        decimal(x) + " B"@
    }
}

/// Computes `f64_nearest(x)`.
fn nearest_f64_value(x: u64) -> (m: u128)
    ensures
        m == f64_nearest(x as nat),
        m <= x as nat + 4096,
{
    let mut y: u64 = x;
    let mut sc: u128 = 1;
    while y >= 9007199254740992
        invariant
            f64_spacing(x as nat) == sc * f64_spacing(y as nat),
            1 <= sc <= 4096,
            sc * y <= x,
        decreases y,
    {
        assert(2 * sc * (y / 2) <= sc * y) by (nonlinear_arith)
            requires
                sc >= 1,
        ;
        assert(sc < 2048) by (nonlinear_arith)
            requires
                sc * y <= x,
                y >= 9007199254740992,
                x < 18446744073709551616,
        ;
        assert(sc * f64_spacing(y as nat) == (sc * 2) * f64_spacing((y / 2) as nat)) by (
        nonlinear_arith)
            requires
                f64_spacing(y as nat) == 2 * f64_spacing((y / 2) as nat),
        ;
        y = y / 2;
        sc = sc * 2;
    }
    assert(f64_spacing(y as nat) == 1);
    assert(sc * f64_spacing(y as nat) == sc) by (nonlinear_arith)
        requires
            f64_spacing(y as nat) == 1,
    ;
    if sc == 1 {
        x as u128
    } else {
        let xx = x as u128;
        let q = xx / sc;
        let r = xx % sc;
        let h = sc / 2;
        let q2 = if r > h || (r == h && q % 2 == 1) {
            q + 1
        } else {
            q
        };
        assert(q2 * sc <= xx + sc) by (nonlinear_arith)
            requires
                q == xx / sc,
                q2 <= q + 1,
                sc >= 1,
        ;
        q2 * sc
    }
}

/// Appends `scaled_text(x, unit)`.
fn push_scaled(s: &mut String, x: u64, unit: u64)
    requires
        unit >= 1024,
    ensures
        final(s)@ == old(s)@ + scaled_text(x as nat, unit as nat),
{
    let m = nearest_f64_value(x);
    let n = m * 10;
    let u = unit as u128;
    let q = n / u;
    let r = n % u;
    let t = if 2 * r > u || (2 * r == u && q % 2 == 1) {
        q + 1
    } else {
        q
    };
    assert(q <= n / 1024) by (nonlinear_arith)
        requires
            q == n / u,
            u >= 1024,
    ;
    assert(t < 18446744073709551616);
    let t64 = t as u64;
    push_decimal(s, t64 / 10);
    push_str(s, ".");
    push_char(s, digit_char(t64 % 10));
}

/// Formats a byte count for display (`0 B`, `1.0 KB`, `2.0 GB`, ...).
pub fn bytes_to_str(x: u64) -> (s: String)
    ensures
        s@ == bytes_text(x as nat),
{
    let mut s = String::new();
    if x >= TB {
        push_scaled(&mut s, x, TB);
        push_str(&mut s, " TB");
    } else if x >= GB {
        push_scaled(&mut s, x, GB);
        push_str(&mut s, " GB");
    } else if x >= MB {
        push_scaled(&mut s, x, MB);
        push_str(&mut s, " MB");
    } else if x >= KB {
        push_scaled(&mut s, x, KB);
        push_str(&mut s, " KB");
    } else {
        push_decimal(&mut s, x);
        push_str(&mut s, " B");
    }
    s
}

/// Cloud-sync folder names looked for in a path, in the order they are tried.
pub open spec fn cloud_tokens() -> Seq<Seq<char>> {
    seq![
        "OneDrive"@,
        "Dropbox"@,
        "iCloudDrive"@,
        "iCloud Drive"@,
        "Google Drive"@,
        "GoogleDrive"@,
        "Box"@,
        "pCloud"@,
    ]
}

/// The `i`-th cloud-sync folder name.
fn cloud_token(i: usize) -> (t: &'static str)
    requires
        i < 8,
    ensures
        t@ == cloud_tokens()[i as int],
{
    match i {
        0 => "OneDrive",
        1 => "Dropbox",
        2 => "iCloudDrive",
        3 => "iCloud Drive",
        4 => "Google Drive",
        5 => "GoogleDrive",
        6 => "Box",
        _ => "pCloud",
    }
}

/// The first cloud-sync folder name, from position `i` on, that occurs in `s`.
pub open spec fn first_cloud_token_from(s: Seq<char>, i: nat) -> Option<Seq<char>>
    decreases 8 - i,
{
    if i >= 8 {
        None
    } else if contains_seq(s, cloud_tokens()[i as int]) {
        Some(cloud_tokens()[i as int])
    } else {
        first_cloud_token_from(s, i + 1)
    }
}

/// The first cloud-sync folder name that occurs in `s`.
pub open spec fn first_cloud_token(s: Seq<char>) -> Option<Seq<char>> {
    first_cloud_token_from(s, 0)
}

/// The characters of an optional string slice.
pub open spec fn opt_str_view(o: Option<&'static str>) -> Option<Seq<char>> {
    match o {
        Some(t) => Some(t@),
        None => None,
    }
}

/// The first recognised cloud-sync folder name (`OneDrive`, `Dropbox`, ...)
/// that occurs anywhere in the path text.
pub fn cloud_token_in_path(path: &str) -> (t: Option<&'static str>)
    ensures
        opt_str_view(t) == first_cloud_token(path@),
{
    let s = chars_of(path);
    let mut i: usize = 0;
    while i < 8
        invariant
            s@ == path@,
            i <= 8,
            first_cloud_token(path@) == first_cloud_token_from(path@, i as nat),
        decreases 8 - i,
    {
        let tok = cloud_token(i);
        if contains_chars(&s, &chars_of(tok)) {
            return Some(tok);
        }
        i = i + 1;
    }
    None
}

pub const PATH_LEN_WARN: usize = 128;

pub const FREE_SPACE_WARN: u64 = 1073741824;

pub const CLOUD_ATTRS_TEXT: &'static str = "FILE_ATTRIBUTE_OFFLINE / RECALL_ON_DATA_ACCESS";

pub const LEAGUE_PATH_ID: &'static str = "paths.league.exists";

pub const LEAGUE_PATH_LABEL: &'static str = "League installation path";

pub const LEAGUE_MISSING: &'static str = "Configured path doesn't contain League of Legends";

pub const LEAGUE_MISSING_SUGGESTION: &'static str = "League's executable was not found at the configured path. Re-run setup or update the path in Settings.";

pub const LEAGUE_DEEP_SUGGESTION: &'static str = "League is installed under a deeply nested path. Combined with a similarly deep mod folder this can hit the legacy 260-character path limit. Consider moving League to a shorter path.";

pub const LEAGUE_CLOUD_SUGGESTION: &'static str = "League's installation has cloud-sync attributes set (e.g. OneDrive Files-On-Demand). The patcher cannot reliably overlay files that may be evicted to the cloud. Move League outside any cloud-synced folder.";

/// The League path check.
pub open spec fn league_path_check(
    league: Option<Seq<char>>,
    game_exe_exists: bool,
    mac_game_exists: bool,
    cloud_attrs: bool,
) -> CheckView {
    match league {
        None => fresh_check(
            LEAGUE_PATH_ID@,
            LEAGUE_PATH_LABEL@,
            Category::League,
            Severity::Bad,
            "Not configured"@,
        ),
        Some(p) => if !(game_exe_exists || mac_game_exists) {
            fresh_check(
                LEAGUE_PATH_ID@,
                LEAGUE_PATH_LABEL@,
                Category::League,
                Severity::Bad,
                LEAGUE_MISSING@,
            ).with_detail("path"@, p).with_suggestion(LEAGUE_MISSING_SUGGESTION@)
        } else {
            let len = p.len();
            let base = fresh_check(
                LEAGUE_PATH_ID@,
                LEAGUE_PATH_LABEL@,
                Category::League,
                Severity::Passed,
                p,
            );
            let sized = if len > PATH_LEN_WARN {
                base.with_severity(Severity::Warn).with_summary(
                    p + " (path length "@ + decimal(len) + " > "@ + decimal(PATH_LEN_WARN as nat)
                        + ")"@,
                ).with_suggestion(LEAGUE_DEEP_SUGGESTION@)
            } else {
                base
            };
            let measured = sized.with_detail("length"@, decimal(len));
            if cloud_attrs {
                measured.with_severity(Severity::Bad).with_summary(
                    p + " (cloud-only / OneDrive)"@,
                ).with_suggestion(LEAGUE_CLOUD_SUGGESTION@).with_detail(
                    "cloud_attrs"@,
                    CLOUD_ATTRS_TEXT@,
                )
            } else {
                match first_cloud_token(p) {
                    Some(t) => {
                        let flagged = if measured.severity == Severity::Passed {
                            measured.with_severity(Severity::Warn).with_summary(
                                p + " (path contains \""@ + t + "\")"@,
                            )
                        } else {
                            measured
                        };
                        flagged.with_detail("cloud_token"@, t)
                    },
                    None => measured,
                }
            }
        },
    }
}

/// Checks the configured League path: `Bad` when unset or when neither
/// `Game\League of Legends.exe` nor `Contents/LoL/Game` exists under it; else
/// `Warn` when longer than 128 characters, `Bad` when it carries cloud-sync
/// attributes, `Warn` when it names a cloud-sync folder.
pub fn check_league_path(
    ctx: &CheckCtx,
    game_exe_exists: bool,
    mac_game_exists: bool,
    cloud_attrs: bool,
) -> (c: Check)
    ensures
        c@ == league_path_check(
            opt_view(ctx.league_path),
            game_exe_exists,
            mac_game_exists,
            cloud_attrs,
        ),
{
    let p = match &ctx.league_path {
        None => {
            return check(
                LEAGUE_PATH_ID,
                LEAGUE_PATH_LABEL,
                Category::League,
                Severity::Bad,
                owned("Not configured"),
            );
        },
        Some(p) => p,
    };
    if !(game_exe_exists || mac_game_exists) {
        let mut c = check(
            LEAGUE_PATH_ID,
            LEAGUE_PATH_LABEL,
            Category::League,
            Severity::Bad,
            owned(LEAGUE_MISSING),
        );
        c.add_detail(owned("path"), copy_string(p));
        c.set_suggestion(owned(LEAGUE_MISSING_SUGGESTION));
        return c;
    }
    let mut c = check_ok(LEAGUE_PATH_ID, LEAGUE_PATH_LABEL, Category::League, p.as_str());
    let len = chars_of(p.as_str()).len();
    if len > PATH_LEN_WARN {
        c.set_severity(Severity::Warn);
        let mut summary = copy_string(p);
        push_str(&mut summary, " (path length ");
        push_decimal(&mut summary, len as u64);
        push_str(&mut summary, " > ");
        push_decimal(&mut summary, PATH_LEN_WARN as u64);
        push_str(&mut summary, ")");
        c.set_summary(summary);
        c.set_suggestion(owned(LEAGUE_DEEP_SUGGESTION));
    }
    c.add_detail(owned("length"), decimal_string(len as u64));
    if cloud_attrs {
        c.set_severity(Severity::Bad);
        let mut summary = copy_string(p);
        push_str(&mut summary, " (cloud-only / OneDrive)");
        c.set_summary(summary);
        c.set_suggestion(owned(LEAGUE_CLOUD_SUGGESTION));
        c.add_detail(owned("cloud_attrs"), owned(CLOUD_ATTRS_TEXT));
    } else if let Some(t) = cloud_token_in_path(p.as_str()) {
        if c.severity == Severity::Passed {
            c.set_severity(Severity::Warn);
            let mut summary = copy_string(p);
            push_str(&mut summary, " (path contains \"");
            push_str(&mut summary, t);
            push_str(&mut summary, "\")");
            c.set_summary(summary);
        }
        c.add_detail(owned("cloud_token"), owned(t));
    }
    c
}

/// The error of a failed write probe (`None` when it succeeded or was not made).
pub open spec fn probe_failure(probe: Option<Result<(), String>>) -> Option<Seq<char>> {
    match probe {
        Some(Err(e)) => Some(e@),
        _ => None,
    }
}

pub const LEAGUE_WRITABLE_ID: &'static str = "paths.league.writable";

pub const LEAGUE_WRITABLE_LABEL: &'static str = "League directory is writable";

pub const LEAGUE_UNWRITABLE_SUGGESTION: &'static str = "The patcher needs to write the overlay into the Game folder. Make sure ltk-manager is NOT running as administrator (a non-admin manager + non-admin League is the supported config), check NTFS permissions, and confirm no antivirus is blocking writes to the League directory.";

/// The directory whose writability is probed for League: its `Game`
/// subdirectory when that exists, else the install root.
pub open spec fn league_write_target_of(
    league: Option<Seq<char>>,
    game_dir: Seq<char>,
    game_dir_exists: bool,
) -> Option<Seq<char>> {
    match league {
        None => None,
        Some(p) => Some(
            if game_dir_exists {
                game_dir
            } else {
                p
            },
        ),
    }
}

/// The directory to probe for League writability, given the text of
/// `<league>\Game` and whether it exists (`None` when no League path is set).
pub fn league_write_target(ctx: &CheckCtx, game_dir: &String, game_dir_exists: bool) -> (t:
    Option<String>)
    ensures
        opt_view(t) == league_write_target_of(opt_view(ctx.league_path), game_dir@, game_dir_exists),
{
    match &ctx.league_path {
        None => None,
        Some(p) => Some(
            if game_dir_exists {
                copy_string(game_dir)
            } else {
                copy_string(p)
            },
        ),
    }
}

/// The League writability check, given the outcome of the write probe of the target.
pub open spec fn league_writability_check(
    league: Option<Seq<char>>,
    game_dir: Seq<char>,
    game_dir_exists: bool,
    failure: Option<Seq<char>>,
) -> CheckView {
    match league_write_target_of(league, game_dir, game_dir_exists) {
        None => fresh_check(
            LEAGUE_WRITABLE_ID@,
            LEAGUE_WRITABLE_LABEL@,
            Category::League,
            Severity::Info,
            "League path not configured"@,
        ),
        Some(target) => match failure {
            None => fresh_check(
                LEAGUE_WRITABLE_ID@,
                LEAGUE_WRITABLE_LABEL@,
                Category::League,
                Severity::Passed,
                "Writable"@,
            ),
            Some(e) => fresh_check(
                LEAGUE_WRITABLE_ID@,
                LEAGUE_WRITABLE_LABEL@,
                Category::League,
                Severity::Bad,
                "Cannot write to League's Game directory"@,
            ).with_detail("path"@, target).with_detail("error"@, e).with_suggestion(
                LEAGUE_UNWRITABLE_SUGGESTION@,
            ),
        },
    }
}

/// Checks that a temporary file could be written into the League target
/// directory (see [`league_write_target`]); `probe` is the outcome of that
/// write, which is owed whenever a League path is set.
pub fn check_league_writability(
    ctx: &CheckCtx,
    game_dir: &String,
    game_dir_exists: bool,
    probe: &Option<Result<(), String>>,
) -> (c: Check)
    requires
        ctx.league_path is Some ==> probe is Some,
    ensures
        c@ == league_writability_check(
            opt_view(ctx.league_path),
            game_dir@,
            game_dir_exists,
            probe_failure(*probe),
        ),
{
    match league_write_target(ctx, game_dir, game_dir_exists) {
        None => check(
            LEAGUE_WRITABLE_ID,
            LEAGUE_WRITABLE_LABEL,
            Category::League,
            Severity::Info,
            owned("League path not configured"),
        ),
        Some(target) => match probe {
            Some(Err(e)) => {
                let mut c = check(
                    LEAGUE_WRITABLE_ID,
                    LEAGUE_WRITABLE_LABEL,
                    Category::League,
                    Severity::Bad,
                    owned("Cannot write to League's Game directory"),
                );
                c.add_detail(owned("path"), target);
                c.add_detail(owned("error"), copy_string(e));
                c.set_suggestion(owned(LEAGUE_UNWRITABLE_SUGGESTION));
                c
            },
            _ => check_ok(LEAGUE_WRITABLE_ID, LEAGUE_WRITABLE_LABEL, Category::League, "Writable"),
        },
    }
}

pub const STORAGE_PATH_ID: &'static str = "paths.storage.exists";

pub const STORAGE_PATH_LABEL: &'static str = "Mod storage path";

pub const STORAGE_UNRESOLVED: &'static str = "Could not resolve a storage directory (Tauri app-data dir unavailable)";

pub const DEFAULT_SOURCE: &'static str = "default (app-data dir)";

pub const STORAGE_CLOUD_SUGGESTION: &'static str = "Your mod storage folder has cloud-sync attributes. Mods on cloud-only storage will be re-downloaded every time the patcher reads them — slow at best, broken at worst. Move storage to a local-only folder.";

/// `s`, followed by ` (default)` when the storage path is the default one.
pub open spec fn default_suffixed(s: Seq<char>, is_default: bool) -> Seq<char> {
    if is_default {
        s + " (default)"@
    } else {
        s
    }
}

/// Appends ` (default)` when the storage path is the default one.
fn push_default_suffix(s: &mut String, is_default: bool)
    ensures
        final(s)@ == default_suffixed(old(s)@, is_default),
{
    if is_default {
        push_str(s, " (default)");
    }
}

/// The suggestion for a storage path that names a cloud-sync folder.
pub open spec fn storage_token_suggestion(t: Seq<char>) -> Seq<char> {
    "Storage path appears to live under a "@ + t
        + " folder. If sync is active this will cause patcher slowness and potential corruption — recommend moving storage out of any cloud-synced folder."@
}

/// The storage path check.
pub open spec fn storage_path_check(
    storage: Option<Seq<char>>,
    is_default: bool,
    exists: bool,
    cloud_attrs: bool,
) -> CheckView {
    match storage {
        None => fresh_check(
            STORAGE_PATH_ID@,
            STORAGE_PATH_LABEL@,
            Category::Storage,
            Severity::Bad,
            STORAGE_UNRESOLVED@,
        ),
        Some(p) => if !exists {
            let missing = fresh_check(
                STORAGE_PATH_ID@,
                STORAGE_PATH_LABEL@,
                Category::Storage,
                Severity::Warn,
                default_suffixed("Storage directory does not exist yet"@, is_default)
                    + " — will be created on first use"@,
            ).with_detail("path"@, p);
            if is_default {
                missing.with_detail("source"@, DEFAULT_SOURCE@)
            } else {
                missing
            }
        } else {
            let base = fresh_check(
                STORAGE_PATH_ID@,
                STORAGE_PATH_LABEL@,
                Category::Storage,
                Severity::Passed,
                default_suffixed(p, is_default),
            );
            let sourced = if is_default {
                base.with_detail("source"@, DEFAULT_SOURCE@)
            } else {
                base
            };
            if cloud_attrs {
                sourced.with_severity(Severity::Bad).with_summary(
                    default_suffixed(p + " (cloud-only / OneDrive)"@, is_default),
                ).with_suggestion(STORAGE_CLOUD_SUGGESTION@).with_detail(
                    "cloud_attrs"@,
                    CLOUD_ATTRS_TEXT@,
                )
            } else {
                match first_cloud_token(p) {
                    Some(t) => sourced.with_severity(Severity::Warn).with_summary(
                        default_suffixed(p + " (path contains \""@ + t + "\")"@, is_default),
                    ).with_suggestion(storage_token_suggestion(t)).with_detail("cloud_token"@, t),
                    None => sourced,
                }
            }
        },
    }
}

/// Checks the resolved mod storage path: `Bad` when unresolved, `Warn` when the
/// directory does not exist yet, `Bad` when it carries cloud-sync attributes,
/// `Warn` when it names a cloud-sync folder.
pub fn check_storage_path(ctx: &CheckCtx, exists: bool, cloud_attrs: bool) -> (c: Check)
    ensures
        c@ == storage_path_check(
            opt_view(ctx.mod_storage_path),
            ctx.mod_storage_is_default,
            exists,
            cloud_attrs,
        ),
{
    let p = match &ctx.mod_storage_path {
        None => {
            return check(
                STORAGE_PATH_ID,
                STORAGE_PATH_LABEL,
                Category::Storage,
                Severity::Bad,
                owned(STORAGE_UNRESOLVED),
            );
        },
        Some(p) => p,
    };
    let is_default = ctx.mod_storage_is_default;
    if !exists {
        let mut summary = owned("Storage directory does not exist yet");
        push_default_suffix(&mut summary, is_default);
        push_str(&mut summary, " — will be created on first use");
        let mut c = check(
            STORAGE_PATH_ID,
            STORAGE_PATH_LABEL,
            Category::Storage,
            Severity::Warn,
            summary,
        );
        c.add_detail(owned("path"), copy_string(p));
        if is_default {
            c.add_detail(owned("source"), owned(DEFAULT_SOURCE));
        }
        return c;
    }
    let mut summary = copy_string(p);
    push_default_suffix(&mut summary, is_default);
    let mut c = check(STORAGE_PATH_ID, STORAGE_PATH_LABEL, Category::Storage, Severity::Passed, summary);
    if is_default {
        c.add_detail(owned("source"), owned(DEFAULT_SOURCE));
    }
    if cloud_attrs {
        c.set_severity(Severity::Bad);
        let mut summary = copy_string(p);
        push_str(&mut summary, " (cloud-only / OneDrive)");
        push_default_suffix(&mut summary, is_default);
        c.set_summary(summary);
        c.set_suggestion(owned(STORAGE_CLOUD_SUGGESTION));
        c.add_detail(owned("cloud_attrs"), owned(CLOUD_ATTRS_TEXT));
    } else if let Some(t) = cloud_token_in_path(p.as_str()) {
        c.set_severity(Severity::Warn);
        let mut summary = copy_string(p);
        push_str(&mut summary, " (path contains \"");
        push_str(&mut summary, t);
        push_str(&mut summary, "\")");
        push_default_suffix(&mut summary, is_default);
        c.set_summary(summary);
        let mut suggestion = owned("Storage path appears to live under a ");
        push_str(&mut suggestion, t);
        push_str(
            &mut suggestion,
            " folder. If sync is active this will cause patcher slowness and potential corruption — recommend moving storage out of any cloud-synced folder.",
        );
        c.set_suggestion(suggestion);
        c.add_detail(owned("cloud_token"), owned(t));
    }
    c
}

pub const STORAGE_WRITABLE_ID: &'static str = "paths.storage.writable";

pub const STORAGE_WRITABLE_LABEL: &'static str = "Storage directory is writable";

pub const STORAGE_UNWRITABLE_SUGGESTION: &'static str = "Mods can't be installed if the storage folder isn't writable. Check NTFS permissions and antivirus exclusions.";

/// The storage writability check, given the outcome of the write probe.
pub open spec fn storage_writability_check(
    storage: Option<Seq<char>>,
    exists: bool,
    failure: Option<Seq<char>>,
) -> CheckView {
    match storage {
        None => fresh_check(
            STORAGE_WRITABLE_ID@,
            STORAGE_WRITABLE_LABEL@,
            Category::Storage,
            Severity::Info,
            "No storage path resolved"@,
        ),
        Some(_) => if !exists {
            fresh_check(
                STORAGE_WRITABLE_ID@,
                STORAGE_WRITABLE_LABEL@,
                Category::Storage,
                Severity::Info,
                "Storage directory does not exist yet — skipped"@,
            )
        } else {
            match failure {
                None => fresh_check(
                    STORAGE_WRITABLE_ID@,
                    STORAGE_WRITABLE_LABEL@,
                    Category::Storage,
                    Severity::Passed,
                    "Writable"@,
                ),
                Some(e) => fresh_check(
                    STORAGE_WRITABLE_ID@,
                    STORAGE_WRITABLE_LABEL@,
                    Category::Storage,
                    Severity::Bad,
                    "Cannot write to mod storage directory"@,
                ).with_detail("error"@, e).with_suggestion(STORAGE_UNWRITABLE_SUGGESTION@),
            }
        },
    }
}

/// Checks that a temporary file could be written into the storage directory;
/// `probe` is the outcome of that write, owed whenever the directory exists.
pub fn check_storage_writability(
    ctx: &CheckCtx,
    exists: bool,
    probe: &Option<Result<(), String>>,
) -> (c: Check)
    requires
        ctx.mod_storage_path is Some && exists ==> probe is Some,
    ensures
        c@ == storage_writability_check(
            opt_view(ctx.mod_storage_path),
            exists,
            probe_failure(*probe),
        ),
{
    if ctx.mod_storage_path.is_none() {
        return check(
            STORAGE_WRITABLE_ID,
            STORAGE_WRITABLE_LABEL,
            Category::Storage,
            Severity::Info,
            owned("No storage path resolved"),
        );
    }
    if !exists {
        return check(
            STORAGE_WRITABLE_ID,
            STORAGE_WRITABLE_LABEL,
            Category::Storage,
            Severity::Info,
            owned("Storage directory does not exist yet — skipped"),
        );
    }
    match probe {
        Some(Err(e)) => {
            let mut c = check(
                STORAGE_WRITABLE_ID,
                STORAGE_WRITABLE_LABEL,
                Category::Storage,
                Severity::Bad,
                owned("Cannot write to mod storage directory"),
            );
            c.add_detail(owned("error"), copy_string(e));
            c.set_suggestion(owned(STORAGE_UNWRITABLE_SUGGESTION));
            c
        },
        _ => check_ok(STORAGE_WRITABLE_ID, STORAGE_WRITABLE_LABEL, Category::Storage, "Writable"),
    }
}

/// A text split at every `/`, empty pieces included.
pub open spec fn split_slash(s: Seq<char>) -> Seq<Seq<char>>
    decreases s.len(),
{
    if s.len() == 0 {
        seq![Seq::empty()]
    } else {
        let prev = split_slash(s.drop_last());
        if s.last() == '/' {
            prev.push(Seq::empty())
        } else {
            prev.update(prev.len() - 1, prev.last().push(s.last()))
        }
    }
}

/// The non-empty pieces, in order.
pub open spec fn nonempty_pieces(ps: Seq<Seq<char>>) -> Seq<Seq<char>>
    decreases ps.len(),
{
    if ps.len() == 0 {
        ps
    } else if ps.last().len() == 0 {
        nonempty_pieces(ps.drop_last())
    } else {
        nonempty_pieces(ps.drop_last()).push(ps.last())
    }
}

/// The components of a `/`-separated path: the root (written `/`) when the
/// path starts with `/`, then its non-empty pieces. Repeated and trailing
/// separators produce no component.
pub open spec fn path_components(s: Seq<char>) -> Seq<Seq<char>> {
    (if s.len() > 0 && s[0] == '/' {
        seq![seq!['/']]
    } else {
        Seq::empty()
    }) + nonempty_pieces(split_slash(s))
}

/// A path whose components every platform reads the same way: separated by
/// `/` only, with no `\`, no `:` (so no drive prefix), no leading `//` (so no
/// network-share prefix) and no `.` component.
pub open spec fn simple_path(s: Seq<char>) -> bool {
    &&& forall|i: int| 0 <= i < s.len() ==> #[trigger] s[i] != '\\' && s[i] != ':'
    &&& !(s.len() >= 2 && s[0] == '/' && s[1] == '/')
    &&& forall|i: int| 0 <= i < split_slash(s).len() ==> #[trigger] split_slash(s)[i] != seq!['.']
}

/// `parent`'s components are the first components of `child`.
pub open spec fn component_prefix(parent: Seq<char>, child: Seq<char>) -> bool {
    path_components(parent).is_prefix_of(path_components(child))
}

/// Whether one path starts with another, component by component.
///
/// Calls `std::path::Path::starts_with`, which, as its documentation says,
/// compares whole components of the two paths. The contract states that a
/// path starts with itself, and, for paths that every platform splits the same
/// way ([`simple_path`]), that the answer is the component prefix test.
/// Paths with `\`, drive or share prefixes, or `.` components are split by
/// platform-specific rules, which the contract leaves unstated.
#[verifier::external_body]
fn path_starts_with(child: &str, parent: &str) -> (r: bool)
    ensures
        child@ == parent@ ==> r,
        simple_path(child@) && simple_path(parent@) ==> r == component_prefix(parent@, child@),
{
    std::path::Path::new(child).starts_with(parent)
}

/// What [`is_subpath_of`] answers for paths of the simple kind: the component
/// prefix test on the canonical forms when both could be resolved, on the
/// paths as given when the child's could not, and no when only the parent's
/// could not.
pub open spec fn subpath_answer(
    child: Seq<char>,
    parent: Seq<char>,
    child_canonical: Option<Seq<char>>,
    parent_canonical: Option<Seq<char>>,
) -> Option<bool> {
    match child_canonical {
        None => if simple_path(child) && simple_path(parent) {
            Some(component_prefix(parent, child))
        } else if child == parent {
            Some(true)
        } else {
            None
        },
        Some(c) => match parent_canonical {
            None => Some(false),
            Some(p) => if simple_path(c) && simple_path(p) {
                Some(component_prefix(p, c))
            } else if c == p {
                Some(true)
            } else {
                None
            },
        },
    }
}

/// Is `child` inside `parent`, comparing whole path components? The canonical
/// forms are used when both could be resolved; when the child's could not,
/// the paths are compared as given; when only the parent's could not, the
/// answer is no.
pub fn is_subpath_of(
    child: &String,
    parent: &String,
    child_canonical: &Option<String>,
    parent_canonical: &Option<String>,
) -> (r: bool)
    ensures
        subpath_answer(child@, parent@, opt_view(*child_canonical), opt_view(*parent_canonical))
            matches Some(a) ==> r == a,
{
    match child_canonical {
        None => path_starts_with(child.as_str(), parent.as_str()),
        Some(c) => match parent_canonical {
            None => false,
            Some(p) => path_starts_with(c.as_str(), p.as_str()),
        },
    }
}

pub const STORAGE_IN_LEAGUE_ID: &'static str = "paths.storage.not_in_league";

pub const STORAGE_IN_LEAGUE_LABEL: &'static str = "Storage outside League directory";

pub const STORAGE_IN_LEAGUE_SUGGESTION: &'static str = "Storing mods inside the League folder confuses the patcher (mods get rescanned as game WADs and double-counted). Move storage to a separate folder.";

/// The storage-inside-League check, given whether storage is inside League.
pub open spec fn storage_in_league_check(
    storage: Option<Seq<char>>,
    league: Option<Seq<char>>,
    inside: bool,
) -> CheckView {
    match (storage, league) {
        (Some(s), Some(l)) => if inside {
            fresh_check(
                STORAGE_IN_LEAGUE_ID@,
                STORAGE_IN_LEAGUE_LABEL@,
                Category::Storage,
                Severity::Bad,
                "Mod storage is inside the League installation"@,
            ).with_detail("storage"@, s).with_detail("league"@, l).with_suggestion(
                STORAGE_IN_LEAGUE_SUGGESTION@,
            )
        } else {
            fresh_check(
                STORAGE_IN_LEAGUE_ID@,
                STORAGE_IN_LEAGUE_LABEL@,
                Category::Storage,
                Severity::Passed,
                "OK"@,
            )
        },
        _ => fresh_check(
            STORAGE_IN_LEAGUE_ID@,
            STORAGE_IN_LEAGUE_LABEL@,
            Category::Storage,
            Severity::Info,
            "League path not configured — skipped"@,
        ),
    }
}

/// Checks that mod storage is not inside the League installation; `inside` is
/// [`is_subpath_of`] for the two paths (read only when both are set).
pub fn check_storage_in_league(ctx: &CheckCtx, inside: bool) -> (c: Check)
    ensures
        c@ == storage_in_league_check(
            opt_view(ctx.mod_storage_path),
            opt_view(ctx.league_path),
            inside,
        ),
{
    match (&ctx.mod_storage_path, &ctx.league_path) {
        (Some(storage), Some(league)) => if inside {
            let mut c = check(
                STORAGE_IN_LEAGUE_ID,
                STORAGE_IN_LEAGUE_LABEL,
                Category::Storage,
                Severity::Bad,
                owned("Mod storage is inside the League installation"),
            );
            c.add_detail(owned("storage"), copy_string(storage));
            c.add_detail(owned("league"), copy_string(league));
            c.set_suggestion(owned(STORAGE_IN_LEAGUE_SUGGESTION));
            c
        } else {
            check_ok(STORAGE_IN_LEAGUE_ID, STORAGE_IN_LEAGUE_LABEL, Category::Storage, "OK")
        },
        _ => check(
            STORAGE_IN_LEAGUE_ID,
            STORAGE_IN_LEAGUE_LABEL,
            Category::Storage,
            Severity::Info,
            owned("League path not configured — skipped"),
        ),
    }
}

pub const FREE_SPACE_ID: &'static str = "paths.free_space";

pub const FREE_SPACE_LABEL: &'static str = "Free disk space";

pub const LOW_SPACE_SUGGESTION: &'static str = "Less than 1 GB free on the storage drive. Building the overlay requires temporarily duplicating WAD contents — free up space before starting the patcher.";

/// The path whose drive is measured: storage, else League, else the
/// executable's directory, else `.`.
pub open spec fn free_space_target_of(
    storage: Option<Seq<char>>,
    league: Option<Seq<char>>,
    exe_dir: Option<Seq<char>>,
) -> Seq<char> {
    match storage {
        Some(s) => s,
        None => match league {
            Some(l) => l,
            None => match exe_dir {
                Some(d) => d,
                None => "."@,
            },
        },
    }
}

/// The path whose free space is measured (see [`free_space_target_of`]).
pub fn free_space_target(ctx: &CheckCtx, exe_dir: &Option<String>) -> (t: String)
    ensures
        t@ == free_space_target_of(
            opt_view(ctx.mod_storage_path),
            opt_view(ctx.league_path),
            opt_view(*exe_dir),
        ),
{
    match &ctx.mod_storage_path {
        Some(s) => copy_string(s),
        None => match &ctx.league_path {
            Some(l) => copy_string(l),
            None => match exe_dir {
                Some(d) => copy_string(d),
                None => owned("."),
            },
        },
    }
}

/// The free-space check, given the free bytes on the target's drive.
pub open spec fn free_space_check(target: Seq<char>, free: Option<u64>) -> CheckView {
    match free {
        None => fresh_check(
            FREE_SPACE_ID@,
            FREE_SPACE_LABEL@,
            Category::Storage,
            Severity::Warn,
            "Could not query free space"@,
        ),
        Some(f) => if f < FREE_SPACE_WARN {
            fresh_check(
                FREE_SPACE_ID@,
                FREE_SPACE_LABEL@,
                Category::Storage,
                Severity::Warn,
                bytes_text(f as nat) + " free (< 1 GB)"@,
            ).with_detail("path"@, target).with_suggestion(LOW_SPACE_SUGGESTION@)
        } else {
            fresh_check(
                FREE_SPACE_ID@,
                FREE_SPACE_LABEL@,
                Category::Storage,
                Severity::Passed,
                bytes_text(f as nat) + " free"@,
            ).with_detail("path"@, target)
        },
    }
}

/// Checks the free space on the drive of [`free_space_target`]: `Warn` below
/// 1 GB, and `Warn` when the free space could not be queried (`free` is `None`).
pub fn check_free_space(ctx: &CheckCtx, exe_dir: &Option<String>, free: Option<u64>) -> (c: Check)
    ensures
        c@ == free_space_check(
            free_space_target_of(
                opt_view(ctx.mod_storage_path),
                opt_view(ctx.league_path),
                opt_view(*exe_dir),
            ),
            free,
        ),
{
    let target = free_space_target(ctx, exe_dir);
    match free {
        None => check(
            FREE_SPACE_ID,
            FREE_SPACE_LABEL,
            Category::Storage,
            Severity::Warn,
            owned("Could not query free space"),
        ),
        Some(f) => {
            let mut summary = bytes_to_str(f);
            if f < FREE_SPACE_WARN {
                push_str(&mut summary, " free (< 1 GB)");
                let mut c = check(
                    FREE_SPACE_ID,
                    FREE_SPACE_LABEL,
                    Category::Storage,
                    Severity::Warn,
                    summary,
                );
                c.add_detail(owned("path"), target);
                c.set_suggestion(owned(LOW_SPACE_SUGGESTION));
                c
            } else {
                push_str(&mut summary, " free");
                let mut c = check(
                    FREE_SPACE_ID,
                    FREE_SPACE_LABEL,
                    Category::Storage,
                    Severity::Passed,
                    summary,
                );
                c.add_detail(owned("path"), target);
                c
            }
        },
    }
}

} // verus!
