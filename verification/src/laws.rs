//! Properties of the library as a whole, each proved from the spec functions
//! that the checks' contracts are stated in.
use vstd::prelude::*;
use crate::compat_flags::{
    bad_entries, basename_of, compat_check, is_bad_name, is_separator, is_suspicious_name,
    last_separator, suspicious_entries,
};
use crate::patcher_dll::{dll_lock_check, dll_present_check, dll_signature_check};
use crate::paths::{
    bytes_text, cloud_tokens, f64_nearest, f64_spacing, first_cloud_token, first_cloud_token_from,
    free_space_check, league_path_check, one_decimal, round_half_even, scaled_text,
    storage_path_check, storage_writability_check, DEFAULT_SOURCE, FREE_SPACE_WARN,
};
use crate::report::{Category, CheckCtx, CheckView, Severity};
use crate::text::{contains_seq, decimal, digit_chars};
use crate::win_util::{utf16_encode, utf16_units};
use crate::windows::{long_paths_check, uac_check, unsupported_build, version_check, LONG_PATHS_FIX};
use crate::compat_flags::{reg_delete_line, reg_delete_script, COMPAT_KEY};
use crate::library_index::{library_index_check, IndexRead};
use crate::paths::{free_space_target_of, CLOUD_ATTRS_TEXT};
use crate::{
    suite, suite_entry_admin, suite_entry_compat, suite_entry_long_paths, suite_entry_uac,
    suite_entry_version, Probes,
};
use crate::compat_flags::{COMPAT_ID, COMPAT_LABEL};
use crate::library_index::{INDEX_ID, INDEX_LABEL};
use crate::patcher_dll::{LOCK_ID, LOCK_LABEL, PRESENT_ID, PRESENT_LABEL, SIGNATURE_ID, SIGNATURE_LABEL};
use crate::paths::{
    FREE_SPACE_ID, FREE_SPACE_LABEL, LEAGUE_PATH_ID, LEAGUE_PATH_LABEL, LEAGUE_WRITABLE_ID,
    LEAGUE_WRITABLE_LABEL, STORAGE_IN_LEAGUE_ID, STORAGE_IN_LEAGUE_LABEL, STORAGE_PATH_ID,
    STORAGE_PATH_LABEL, STORAGE_WRITABLE_ID, STORAGE_WRITABLE_LABEL,
};
use crate::processes::{ADMIN_ID, ADMIN_LABEL, RUNNING_ID};
use crate::storage_medium::{storage_medium_check, StorageMedium, MEDIUM_ID, MEDIUM_LABEL};
use crate::windows::{LONG_PATHS_ID, LONG_PATHS_LABEL, UAC_ID, UAC_LABEL, VERSION_ID, VERSION_LABEL};

verus! {

/// The identifier, label and category of a check.
pub open spec fn identity(c: CheckView) -> (Seq<char>, Seq<char>, Category) {
    (c.id, c.label, c.category)
}

/// The checks of the suite, in order, by identifier, label and category.
pub open spec fn suite_identities() -> Seq<(Seq<char>, Seq<char>, Category)> {
    seq![
        (VERSION_ID@, VERSION_LABEL@, Category::System),
        (LONG_PATHS_ID@, LONG_PATHS_LABEL@, Category::System),
        (UAC_ID@, UAC_LABEL@, Category::System),
        (ADMIN_ID@, ADMIN_LABEL@, Category::Manager),
        (LEAGUE_PATH_ID@, LEAGUE_PATH_LABEL@, Category::League),
        (LEAGUE_WRITABLE_ID@, LEAGUE_WRITABLE_LABEL@, Category::League),
        (COMPAT_ID@, COMPAT_LABEL@, Category::League),
        (STORAGE_PATH_ID@, STORAGE_PATH_LABEL@, Category::Storage),
        (STORAGE_WRITABLE_ID@, STORAGE_WRITABLE_LABEL@, Category::Storage),
        (STORAGE_IN_LEAGUE_ID@, STORAGE_IN_LEAGUE_LABEL@, Category::Storage),
        (FREE_SPACE_ID@, FREE_SPACE_LABEL@, Category::Storage),
        (MEDIUM_ID@, MEDIUM_LABEL@, Category::Storage),
        (PRESENT_ID@, PRESENT_LABEL@, Category::Patcher),
        (SIGNATURE_ID@, SIGNATURE_LABEL@, Category::Patcher),
        (LOCK_ID@, LOCK_LABEL@, Category::Patcher),
        (INDEX_ID@, INDEX_LABEL@, Category::Library),
    ]
}

proof fn system_identities(p: Probes)
    ensures
        identity(suite_entry_version(p)) == suite_identities()[0],
        identity(suite_entry_long_paths(p)) == suite_identities()[1],
        identity(suite_entry_uac(p)) == suite_identities()[2],
        identity(suite_entry_admin(p)) == suite_identities()[3],
{
}

proof fn league_identities(c: CheckCtx, p: Probes)
    ensures
        identity(suite(c, p)[4]) == suite_identities()[4],
        identity(suite(c, p)[5]) == suite_identities()[5],
{
}

proof fn compat_identity(p: Probes)
    ensures
        identity(suite_entry_compat(p)) == suite_identities()[6],
{
}

proof fn storage_identities(c: CheckCtx, p: Probes)
    ensures
        identity(suite(c, p)[7]) == suite_identities()[7],
        identity(suite(c, p)[8]) == suite_identities()[8],
        identity(suite(c, p)[9]) == suite_identities()[9],
        identity(suite(c, p)[10]) == suite_identities()[10],
        identity(suite(c, p)[11]) == suite_identities()[11],
{
}

proof fn patcher_identities(c: CheckCtx, p: Probes)
    ensures
        identity(suite(c, p)[12]) == suite_identities()[12],
        identity(suite(c, p)[13]) == suite_identities()[13],
        identity(suite(c, p)[14]) == suite_identities()[14],
        identity(suite(c, p)[15]) == suite_identities()[15],
{
}

/// Every run of the suite lists the same sixteen checks in the same order:
/// each position keeps its identifier, label and category whatever the system
/// state, so identifiers survive across runs.
pub proof fn suite_positions_are_stable(c: CheckCtx, p: Probes)
    ensures
        suite(c, p).len() == 16,
        forall|i: int| 0 <= i < 16 ==> identity(#[trigger] suite(c, p)[i]) == suite_identities()[i],
{
    system_identities(p);
    league_identities(c, p);
    compat_identity(p);
    storage_identities(c, p);
    patcher_identities(c, p);
}

/// The League-running check is not part of the suite: no check of any run
/// carries its identifier.
pub proof fn league_running_check_not_in_suite(c: CheckCtx, p: Probes)
    ensures
        forall|i: int| 0 <= i < suite(c, p).len() ==> #[trigger] suite(c, p)[i].id != RUNNING_ID@,
{
    suite_positions_are_stable(c, p);
    reveal_strlit("process.league_not_running");
    reveal_strlit("windows.version");
    reveal_strlit("windows.long_paths");
    reveal_strlit("windows.uac");
    reveal_strlit("process.manager_not_admin");
    reveal_strlit("paths.league.exists");
    reveal_strlit("paths.league.writable");
    reveal_strlit("compat_flags.layers");
    reveal_strlit("paths.storage.exists");
    reveal_strlit("paths.storage.writable");
    reveal_strlit("paths.storage.not_in_league");
    reveal_strlit("paths.free_space");
    reveal_strlit("storage.medium");
    reveal_strlit("patcher.dll.present");
    reveal_strlit("patcher.dll.signature");
    reveal_strlit("patcher.dll.not_locked");
    reveal_strlit("library.index");
    assert forall|i: int| 0 <= i < suite(c, p).len() implies #[trigger] suite(c, p)[i].id
        != RUNNING_ID@ by {
        assert(identity(suite(c, p)[i]) == suite_identities()[i]);
        assert(suite_identities()[i].0.len() != RUNNING_ID@.len());
    }
}

/// Facts about the last separator of a text.
proof fn last_separator_facts(s: Seq<char>)
    ensures
        -1 <= last_separator(s) < s.len(),
        last_separator(s) >= 0 ==> is_separator(s[last_separator(s)]),
        forall|j: int| last_separator(s) < j < s.len() ==> !is_separator(#[trigger] s[j]),
    decreases s.len(),
{
    if s.len() > 0 && !is_separator(s.last()) {
        last_separator_facts(s.drop_last());
        assert forall|j: int| last_separator(s) < j < s.len() implies !is_separator(
            #[trigger] s[j],
        ) by {
            if j < s.len() - 1 {
                assert(s[j] == s.drop_last()[j]);
            }
        }
    }
}

/// A text without separators has no last separator.
proof fn no_separator_means_none(s: Seq<char>)
    requires
        forall|j: int| 0 <= j < s.len() ==> !is_separator(#[trigger] s[j]),
    ensures
        last_separator(s) == -1,
    decreases s.len(),
{
    if s.len() > 0 {
        assert forall|j: int| 0 <= j < s.drop_last().len() implies !is_separator(
            #[trigger] s.drop_last()[j],
        ) by {
            assert(s.drop_last()[j] == s[j]);
        }
        no_separator_means_none(s.drop_last());
    }
}

/// The basename of a path holds no separator, ends the path, is the whole
/// path when the path has no separator, and is its own basename.
pub proof fn basename_laws(s: Seq<char>)
    ensures
        forall|j: int|
            0 <= j < basename_of(s).len() ==> !is_separator(#[trigger] basename_of(s)[j]),
        basename_of(s).is_suffix_of(s),
        (forall|j: int| 0 <= j < s.len() ==> !is_separator(#[trigger] s[j])) ==> basename_of(s)
            == s,
        basename_of(basename_of(s)) == basename_of(s),
{
    last_separator_facts(s);
    let b = basename_of(s);
    let k = last_separator(s) + 1;
    assert forall|j: int| 0 <= j < b.len() implies !is_separator(#[trigger] b[j]) by {
        assert(b[j] == s[k + j]);
    }
    assert(b =~= s.subrange(s.len() - b.len(), s.len() as int));
    if forall|j: int| 0 <= j < s.len() ==> !is_separator(#[trigger] s[j]) {
        no_separator_means_none(s);
        assert(b =~= s);
    }
    no_separator_means_none(b);
    assert(basename_of(b) =~= b);
}

/// The cloud-sync name found in a path occurs in it and is one of the
/// recognised names; when none is found, no recognised name occurs in it.
pub proof fn cloud_token_laws(s: Seq<char>)
    ensures
        first_cloud_token(s) matches Some(t) ==> contains_seq(s, t) && cloud_tokens().contains(t),
        first_cloud_token(s) is None ==> forall|i: int|
            0 <= i < 8 ==> !contains_seq(s, #[trigger] cloud_tokens()[i]),
{
    cloud_token_from_laws(s, 0);
}

proof fn cloud_token_from_laws(s: Seq<char>, i: nat)
    requires
        i <= 8,
    ensures
        first_cloud_token_from(s, i) matches Some(t) ==> contains_seq(s, t)
            && cloud_tokens().contains(t),
        first_cloud_token_from(s, i) is None ==> forall|k: int|
            i <= k < 8 ==> !contains_seq(s, #[trigger] cloud_tokens()[k]),
    decreases 8 - i,
{
    if i < 8 {
        cloud_token_from_laws(s, i + 1);
        if contains_seq(s, cloud_tokens()[i as int]) {
            assert(cloud_tokens()[i as int] == cloud_tokens()[i as int]);
        }
    }
}

/// Counts of the classified compatibility entries.
proof fn classified_counts(es: Seq<(Seq<char>, Seq<char>)>)
    ensures
        bad_entries(es).len() + suspicious_entries(es).len() <= es.len(),
        forall|i: int|
            0 <= i < bad_entries(es).len() ==> is_bad_name(#[trigger] bad_entries(es)[i].1),
        forall|i: int|
            0 <= i < suspicious_entries(es).len() ==> !is_bad_name(
                #[trigger] suspicious_entries(es)[i].1,
            ) && is_suspicious_name(suspicious_entries(es)[i].1),
    decreases es.len(),
{
    if es.len() > 0 {
        classified_counts(es.drop_last());
    }
}

/// The compatibility check is `Bad` exactly when a League/Riot entry was
/// found, and then carries a fix command; `Warn` when only suspicious entries
/// were found; it lists every classified entry, each as one detail row; every
/// listed bad entry names a League/Riot executable, every suspicious one a
/// cslol/ltk-manager executable.
pub proof fn compat_flags_laws(es: Seq<(Seq<char>, Seq<char>)>)
    ensures
        (compat_check(es).severity == Severity::Bad) == (bad_entries(es).len() > 0),
        (compat_check(es).fix_command is Some) == (bad_entries(es).len() > 0),
        (compat_check(es).severity == Severity::Warn) == (bad_entries(es).len() == 0
            && suspicious_entries(es).len() > 0),
        (compat_check(es).severity == Severity::Passed) == (bad_entries(es).len() == 0
            && suspicious_entries(es).len() == 0),
        compat_check(es).details.len() == bad_entries(es).len() + suspicious_entries(es).len(),
        bad_entries(es).len() + suspicious_entries(es).len() <= es.len(),
        forall|i: int|
            0 <= i < bad_entries(es).len() ==> is_bad_name(#[trigger] bad_entries(es)[i].1),
        forall|i: int|
            0 <= i < suspicious_entries(es).len() ==> is_suspicious_name(
                #[trigger] suspicious_entries(es)[i].1,
            ),
{
    classified_counts(es);
}

/// When the storage directory does not exist yet, the path check warns and
/// the writability check is skipped (`Info`), whatever else was found.
pub proof fn missing_storage_skips_writability(
    storage: Seq<char>,
    is_default: bool,
    cloud_attrs: bool,
    failure: Option<Seq<char>>,
)
    ensures
        storage_path_check(Some(storage), is_default, false, cloud_attrs).severity
            == Severity::Warn,
        storage_writability_check(Some(storage), false, failure).severity == Severity::Info,
{
}

/// When the presence check reports the patcher DLL missing, the signature and
/// lock checks are skipped (`Info`).
pub proof fn missing_dll_skips_probes(
    dll: Option<Seq<char>>,
    exists: bool,
    size: Option<u64>,
    verification: Option<Result<i32, Seq<char>>>,
    locked: Option<bool>,
)
    ensures
        dll_present_check(dll, exists, size).severity == Severity::Bad ==> {
            &&& dll_signature_check(dll, exists, verification).severity == Severity::Info
            &&& dll_lock_check(dll, exists, locked).severity == Severity::Info
        },
{
}

/// A League install with cloud-sync attributes is always `Bad`.
pub proof fn cloud_league_is_bad(
    league: Seq<char>,
    game_exe_exists: bool,
    mac_game_exists: bool,
)
    ensures
        league_path_check(Some(league), game_exe_exists, mac_game_exists, true).severity
            == Severity::Bad,
{
}

/// The version check is `Bad` exactly for unsupported builds.
pub proof fn version_bad_iff_unsupported(major: u32, minor: u32, build: u32)
    ensures
        (version_check(major, minor, build).severity == Severity::Bad) == unsupported_build(build),
        unsupported_build(build) == (build < 19045 || build == 22000),
{
}

/// A registry value that cannot be read counts as UAC enabled and long paths
/// disabled.
pub proof fn unreadable_registry_defaults()
    ensures
        uac_check(None).severity == Severity::Passed,
        long_paths_check(None).severity == Severity::Warn,
        long_paths_check(None).fix_command is Some,
{
}

/// The free-space check warns exactly below 1 GB free.
pub proof fn free_space_warns_below_1gb(target: Seq<char>, free: u64)
    ensures
        (free_space_check(target, Some(free)).severity == Severity::Warn) == (free
            < FREE_SPACE_WARN),
        FREE_SPACE_WARN == 1024 * 1024 * 1024,
{
}

/// `k` whole units below 2^53 bytes print as `k.0` of that unit.
proof fn whole_units_scaled(k: nat, unit: nat)
    requires
        unit >= 1024,
        k * unit < 9007199254740992,
    ensures
        scaled_text(k * unit, unit) == decimal(k) + "."@ + seq!['0'],
{
    assert(f64_spacing(k * unit) == 1);
    assert(f64_nearest(k * unit) == k * unit);
    assert(k * unit * 10 == (10 * k) * unit) by (nonlinear_arith);
    vstd::arithmetic::div_mod::lemma_div_by_multiple((10 * k) as int, unit as int);
    vstd::arithmetic::div_mod::lemma_mod_multiples_basic((10 * k) as int, unit as int);
    assert(round_half_even(k * unit * 10, unit) == 10 * k);
    assert((10 * k) / 10 == k && (10 * k) % 10 == 0) by (nonlinear_arith);
    assert(digit_chars()[0] == '0');
}

/// A whole number of KB, MB, GB or TB (below 8192 TB) prints as `N.0` of the
/// largest unit that fits.
pub proof fn whole_units_print_exactly(k: nat)
    requires
        1 <= k < 1024,
    ensures
        bytes_text(k * 1024) == decimal(k) + "."@ + seq!['0'] + " KB"@,
        bytes_text(k * 1048576) == decimal(k) + "."@ + seq!['0'] + " MB"@,
        bytes_text(k * 1073741824) == decimal(k) + "."@ + seq!['0'] + " GB"@,
        bytes_text(k * 1099511627776) == decimal(k) + "."@ + seq!['0'] + " TB"@,
{
    assert(k * 1024 < 1048576 && k * 1024 >= 1024) by (nonlinear_arith)
        requires
            1 <= k < 1024,
    ;
    assert(k * 1048576 < 1073741824 && k * 1048576 >= 1048576) by (nonlinear_arith)
        requires
            1 <= k < 1024,
    ;
    assert(k * 1073741824 < 1099511627776 && k * 1073741824 >= 1073741824) by (nonlinear_arith)
        requires
            1 <= k < 1024,
    ;
    assert(k * 1099511627776 < 9007199254740992 && k * 1099511627776 >= 1099511627776) by (
    nonlinear_arith)
        requires
            1 <= k < 1024,
    ;
    whole_units_scaled(k, 1024);
    whole_units_scaled(k, 1048576);
    whole_units_scaled(k, 1073741824);
    whole_units_scaled(k, 1099511627776);
}

/// Text made of ASCII characters encodes to one UTF-16 unit per character,
/// each equal to the character's code.
pub proof fn ascii_encodes_one_unit_per_char(s: Seq<char>)
    requires
        forall|i: int| 0 <= i < s.len() ==> (#[trigger] s[i] as u32) < 128,
    ensures
        utf16_encode(s).len() == s.len(),
        forall|i: int| 0 <= i < s.len() ==> #[trigger] utf16_encode(s)[i] == s[i] as u32 as u16,
    decreases s.len(),
{
    if s.len() > 0 {
        assert forall|i: int| 0 <= i < s.drop_last().len() implies (#[trigger] s.drop_last()[i]
            as u32) < 128 by {
            assert(s.drop_last()[i] == s[i]);
        }
        ascii_encodes_one_unit_per_char(s.drop_last());
        assert((s.last() as u32) < 128);
        assert(utf16_units(s.last()) =~= seq![s.last() as u32 as u16]);
        assert forall|i: int| 0 <= i < s.len() implies #[trigger] utf16_encode(s)[i] == s[i] as u32
            as u16 by {
            if i < s.len() - 1 {
                assert(utf16_encode(s)[i] == utf16_encode(s.drop_last())[i]);
                assert(s.drop_last()[i] == s[i]);
            }
        }
    }
}

/// An installed League path longer than 128 characters, without cloud-sync
/// attributes, is reported as a warning; one of at most 128 characters that
/// names no cloud-sync folder passes.
pub proof fn long_league_path_warns(league: Seq<char>, game_exe_exists: bool, mac_game_exists: bool)
    requires
        game_exe_exists || mac_game_exists,
    ensures
        league.len() > 128 ==> league_path_check(
            Some(league),
            game_exe_exists,
            mac_game_exists,
            false,
        ).severity == Severity::Warn,
        league.len() <= 128 && first_cloud_token(league) is None ==> league_path_check(
            Some(league),
            game_exe_exists,
            mac_game_exists,
            false,
        ).severity == Severity::Passed,
{
}

/// Mod storage on a spinning disk is reported as a warning, on an SSD as passing.
pub proof fn hdd_storage_warns(storage: Seq<char>)
    ensures
        storage_medium_check(Some(storage), Some(StorageMedium::Hdd)).severity == Severity::Warn,
        storage_medium_check(Some(storage), Some(StorageMedium::Ssd)).severity == Severity::Passed,
{
}

/// A check that could not gather its data reports a warning, not a pass or
/// a mere note: a failed signature verification of an existing DLL is `Warn`
/// with the error as its one row, and a failed free-space query is `Warn`
/// with no rows.
pub proof fn failed_gathering_warns(dll: Seq<char>, error: Seq<char>, target: Seq<char>)
    ensures
        dll_signature_check(Some(dll), true, Some(Err(error))).severity == Severity::Warn,
        dll_signature_check(Some(dll), true, Some(Err(error))).details == seq![("error"@, error)],
        free_space_check(target, None).severity == Severity::Warn,
        free_space_check(target, None).details == Seq::<(Seq<char>, Seq<char>)>::empty(),
{
    assert(dll_signature_check(Some(dll), true, Some(Err(error))).details =~= seq![
        ("error"@, error),
    ]);
    assert(free_space_check(target, None).details =~= Seq::<(Seq<char>, Seq<char>)>::empty());
}

/// The storage path check marks the default storage path, and only it: with
/// everything else equal, the default path's summary carries ` (default)`
/// (after the path, or inside the not-yet-created message) and its details
/// carry one `source` row more, while a configured path's details carry none;
/// severity, suggestion and fix command do not change.
pub proof fn default_storage_marker(p: Seq<char>, exists: bool, cloud_attrs: bool)
    ensures
        storage_path_check(Some(p), true, exists, cloud_attrs).severity == storage_path_check(
            Some(p),
            false,
            exists,
            cloud_attrs,
        ).severity,
        storage_path_check(Some(p), true, exists, cloud_attrs).suggestion == storage_path_check(
            Some(p),
            false,
            exists,
            cloud_attrs,
        ).suggestion,
        exists ==> storage_path_check(Some(p), true, exists, cloud_attrs).summary
            == storage_path_check(Some(p), false, exists, cloud_attrs).summary + " (default)"@,
        exists ==> storage_path_check(Some(p), true, exists, cloud_attrs).details == seq![
            ("source"@, DEFAULT_SOURCE@),
        ] + storage_path_check(Some(p), false, exists, cloud_attrs).details,
        !exists ==> storage_path_check(Some(p), true, exists, cloud_attrs).summary
            == "Storage directory does not exist yet"@ + " (default)"@
            + " — will be created on first use"@,
        !exists ==> storage_path_check(Some(p), false, exists, cloud_attrs).summary
            == "Storage directory does not exist yet"@ + " — will be created on first use"@,
        !exists ==> storage_path_check(Some(p), true, exists, cloud_attrs).details
            == storage_path_check(Some(p), false, exists, cloud_attrs).details.push(
            ("source"@, DEFAULT_SOURCE@),
        ),
        forall|i: int|
            0 <= i < storage_path_check(Some(p), false, exists, cloud_attrs).details.len()
                ==> #[trigger] storage_path_check(
                Some(p),
                false,
                exists,
                cloud_attrs,
            ).details[i].0 != "source"@,
{
    reveal_strlit("source");
    reveal_strlit("path");
    reveal_strlit("cloud_attrs");
    reveal_strlit("cloud_token");
    let on = storage_path_check(Some(p), true, exists, cloud_attrs);
    let off = storage_path_check(Some(p), false, exists, cloud_attrs);
    if exists {
        assert(on.details =~= seq![("source"@, DEFAULT_SOURCE@)] + off.details);
        assert(on.summary =~= off.summary + " (default)"@);
    } else {
        assert(on.details =~= off.details.push(("source"@, DEFAULT_SOURCE@)));
    }
    assert forall|i: int| 0 <= i < off.details.len() implies #[trigger] off.details[i].0
        != "source"@ by {
        let k = off.details[i].0;
        if exists {
            if cloud_attrs {
                assert(k == "cloud_attrs"@);
            } else {
                assert(k == "cloud_token"@);
            }
        } else {
            assert(k == "path"@);
        }
        assert(k.len() != "source"@.len());
    }
}

/// No `(` in the text is directly followed by `d`.
spec fn no_paren_d(s: Seq<char>) -> bool {
    forall|j: int| 0 <= j && j + 1 < s.len() ==> !(#[trigger] s[j] == '(' && s[j + 1] == 'd')
}

/// A text in which no `(` is followed by `d` does not hold ` (default)`.
proof fn no_paren_d_lacks_marker(s: Seq<char>)
    requires
        no_paren_d(s),
    ensures
        !contains_seq(s, " (default)"@),
{
    reveal_strlit(" (default)");
    if contains_seq(s, " (default)"@) {
        let i = choose|i: int|
            0 <= i && i + " (default)"@.len() <= s.len() && #[trigger] s.subrange(
                i,
                i + " (default)"@.len(),
            ) == " (default)"@;
        assert(s.subrange(i, i + 10)[1] == s[i + 1]);
        assert(s.subrange(i, i + 10)[2] == s[i + 2]);
    }
}

/// Joining two texts free of `(d`, where the first does not end in `(`.
proof fn no_paren_d_concat(a: Seq<char>, b: Seq<char>)
    requires
        no_paren_d(a),
        no_paren_d(b),
        a.len() > 0 ==> a.last() != '(',
    ensures
        no_paren_d(a + b),
{
    let s = a + b;
    assert forall|j: int| 0 <= j && j + 1 < s.len() implies !(#[trigger] s[j] == '(' && s[j + 1]
        == 'd') by {
        if j + 1 < a.len() {
            assert(s[j] == a[j] && s[j + 1] == a[j + 1]);
        } else if j >= a.len() {
            assert(s[j] == b[j - a.len()] && s[j + 1] == b[j + 1 - a.len()]);
        } else {
            assert(s[j] == a.last());
        }
    }
}

/// ` (default)` does not straddle the joint of `a` and `b` when `b` begins
/// with a character that the marker holds only at its start.
proof fn marker_absent_from_join(a: Seq<char>, b: Seq<char>)
    requires
        !contains_seq(a, " (default)"@),
        !contains_seq(b, " (default)"@),
        b.len() > 0 ==> !"(default)"@.contains(b[0]),
    ensures
        !contains_seq(a + b, " (default)"@),
{
    reveal_strlit(" (default)");
    reveal_strlit("(default)");
    let d = " (default)"@;
    let s = a + b;
    if contains_seq(s, d) {
        let i = choose|i: int| 0 <= i && i + d.len() <= s.len() && #[trigger] s.subrange(i, i + d.len()) == d;
        if i + 10 <= a.len() {
            assert(a.subrange(i, i + 10) =~= s.subrange(i, i + 10));
        } else if i >= a.len() {
            assert(b.subrange(i - a.len(), i - a.len() + 10) =~= s.subrange(i, i + 10));
        } else {
            let k = a.len() - i;
            assert(s.subrange(i, i + 10)[k] == s[a.len() as int]);
            assert(s[a.len() as int] == b[0]);
            assert("(default)"@[k - 1] == d[k]);
            assert(b.len() > 0);
        }
    }
}

/// A text followed by the marker holds the marker.
proof fn marker_present(x: Seq<char>, rest: Seq<char>)
    ensures
        contains_seq(x + " (default)"@ + rest, " (default)"@),
{
    let s = x + " (default)"@ + rest;
    let d = " (default)"@;
    assert(s.subrange(x.len() as int, (x.len() + d.len()) as int) =~= d);
}

/// For a storage path whose text does not itself hold `(default)`, the
/// storage check marks the default path and only it: its summary holds
/// ` (default)` exactly when the path is the default one, and its details
/// hold the `source` row once for the default path and not at all for a
/// configured one, whether or not the directory exists.
pub proof fn default_marker_shows_exactly_for_default(
    p: Seq<char>,
    is_default: bool,
    exists: bool,
    cloud_attrs: bool,
)
    requires
        !contains_seq(p, "(default)"@),
    ensures
        contains_seq(
            storage_path_check(Some(p), is_default, exists, cloud_attrs).summary,
            " (default)"@,
        ) == is_default,
        is_default ==> exists|i: int|
            0 <= i < storage_path_check(Some(p), is_default, exists, cloud_attrs).details.len()
                && #[trigger] storage_path_check(
                Some(p),
                is_default,
                exists,
                cloud_attrs,
            ).details[i] == ("source"@, DEFAULT_SOURCE@) && forall|j: int|
                0 <= j < storage_path_check(Some(p), is_default, exists, cloud_attrs).details.len()
                    && j != i ==> (#[trigger] storage_path_check(
                    Some(p),
                    is_default,
                    exists,
                    cloud_attrs,
                ).details[j]).0 != "source"@,
        !is_default ==> forall|j: int|
            0 <= j < storage_path_check(Some(p), is_default, exists, cloud_attrs).details.len()
                ==> (#[trigger] storage_path_check(
                Some(p),
                is_default,
                exists,
                cloud_attrs,
            ).details[j]).0 != "source"@,
{
    default_storage_marker(p, exists, cloud_attrs);
    reveal_strlit(" (default)");
    reveal_strlit("(default)");
    let d = " (default)"@;
    // The path itself does not hold the marker.
    if contains_seq(p, d) {
        let i = choose|i: int| 0 <= i && i + d.len() <= p.len() && #[trigger] p.subrange(i, i + d.len()) == d;
        assert(d.subrange(1, 10) =~= "(default)"@);
        assert(p.subrange(i + 1, i + 10) =~= p.subrange(i, i + 10).subrange(1, 10));
        assert(p.subrange(i + 1, i + 1 + "(default)"@.len()) == "(default)"@);
    }
    let c = storage_path_check(Some(p), is_default, exists, cloud_attrs);
    if !exists {
        let head = "Storage directory does not exist yet"@;
        let tail = " — will be created on first use"@;
        reveal_strlit("Storage directory does not exist yet");
        reveal_strlit(" — will be created on first use");
        if is_default {
            marker_present(head, tail);
        } else {
            assert(no_paren_d(head));
            assert(no_paren_d(tail));
            no_paren_d_concat(head, tail);
            no_paren_d_lacks_marker(head + tail);
        }
    } else if cloud_attrs {
        let note = " (cloud-only / OneDrive)"@;
        reveal_strlit(" (cloud-only / OneDrive)");
        if is_default {
            marker_present(p + note, Seq::empty());
            assert(p + note + d + Seq::<char>::empty() =~= p + note + d);
        } else {
            assert(no_paren_d(note));
            no_paren_d_lacks_marker(note);
            marker_absent_from_join(p, note);
        }
    } else {
        match first_cloud_token(p) {
            Some(t) => {
                let open = " (path contains \""@;
                let close = "\")"@;
                reveal_strlit(" (path contains \"");
                reveal_strlit("\")");
                if is_default {
                    marker_present(p + open + t + close, Seq::empty());
                    assert(p + open + t + close + d + Seq::<char>::empty() =~= p + open + t + close
                        + d);
                } else {
                    first_cloud_token_is_plain(p);
                    assert(no_paren_d(open));
                    assert(no_paren_d(close));
                    no_paren_d_concat(open, t);
                    no_paren_d_concat(open + t, close);
                    no_paren_d_lacks_marker(open + t + close);
                    marker_absent_from_join(p, open + t + close);
                    assert(p + open + t + close =~= p + (open + t + close));
                }
            },
            None => {
                if is_default {
                    marker_present(p, Seq::empty());
                    assert(p + d + Seq::<char>::empty() =~= p + d);
                }
            },
        }
    }
    if is_default {
        if exists {
            assert(c.details[0] == ("source"@, DEFAULT_SOURCE@));
        } else {
            let last = c.details.len() - 1;
            assert(c.details[last] == ("source"@, DEFAULT_SOURCE@));
        }
    }
}

/// A cloud-sync folder name found in a path holds no `(` at all and is not empty.
proof fn first_cloud_token_is_plain(p: Seq<char>)
    ensures
        first_cloud_token(p) matches Some(t) ==> no_paren_d(t) && t.len() > 0 && t.last() != '(',
{
    reveal_strlit("OneDrive");
    reveal_strlit("Dropbox");
    reveal_strlit("iCloudDrive");
    reveal_strlit("iCloud Drive");
    reveal_strlit("Google Drive");
    reveal_strlit("GoogleDrive");
    reveal_strlit("Box");
    reveal_strlit("pCloud");
    cloud_token_laws(p);
    if first_cloud_token(p) is Some {
        let t = first_cloud_token(p)->0;
        let k = choose|k: int| 0 <= k < cloud_tokens().len() && cloud_tokens()[k] == t;
        assert(no_paren_d(t)) by {
            if k == 0 {} else if k == 1 {} else if k == 2 {} else if k == 3 {} else if k == 4 {}
            else if k == 5 {} else if k == 6 {} else {}
        }
    }
}

/// The `reg delete` script starts with the command for its first entry and
/// ends with the command for its last one.
proof fn script_bounds(es: Seq<(Seq<char>, Seq<char>)>)
    requires
        es.len() > 0,
    ensures
        reg_delete_line(es[0]).is_prefix_of(reg_delete_script(es)),
        reg_delete_line(es.last()).is_suffix_of(reg_delete_script(es)),
    decreases es.len(),
{
    let s = reg_delete_script(es);
    if es.len() > 1 {
        let front = es.drop_last();
        script_bounds(front);
        let line = reg_delete_line(front[0]);
        let fs = reg_delete_script(front);
        assert(s =~= fs + "\n"@ + reg_delete_line(es.last()));
        assert(s.subrange(0, line.len() as int) =~= fs.subrange(0, line.len() as int));
        let last = reg_delete_line(es.last());
        assert(s.subrange(s.len() - last.len(), s.len() as int) =~= last);
    } else {
        let last = reg_delete_line(es.last());
        assert(s.subrange(0, last.len() as int) =~= last);
        assert(s.subrange(s.len() - last.len(), s.len() as int) =~= last);
    }
}

/// The fix for compatibility flags deletes each bad entry from the hive it was
/// found under: the script's first command names the first bad entry's own
/// root and value, and its last command the last bad entry's.
pub proof fn compat_fix_targets_each_entrys_hive(es: Seq<(Seq<char>, Seq<char>)>)
    ensures
        bad_entries(es).len() > 0 ==> compat_check(es).fix_command is Some,
        bad_entries(es).len() > 0 ==> ("reg delete \""@ + bad_entries(es)[0].0 + "\\"@ + COMPAT_KEY@
            + "\" /v \""@ + bad_entries(es)[0].1 + "\" /f"@).is_prefix_of(
            compat_check(es).fix_command->0,
        ),
        bad_entries(es).len() > 0 ==> ("reg delete \""@ + bad_entries(es).last().0 + "\\"@
            + COMPAT_KEY@ + "\" /v \""@ + bad_entries(es).last().1 + "\" /f"@).is_suffix_of(
            compat_check(es).fix_command->0,
        ),
{
    if bad_entries(es).len() > 0 {
        script_bounds(bad_entries(es));
    }
}

/// A single bad entry, found under `root`, is removed by exactly one command
/// that names that same root.
pub proof fn compat_fix_for_one_entry(root: Seq<char>, name: Seq<char>)
    requires
        is_bad_name(name),
    ensures
        compat_check(seq![(root, name)]).fix_command == Some(
            "reg delete \""@ + root + "\\"@ + COMPAT_KEY@ + "\" /v \""@ + name + "\" /f"@,
        ),
{
    let es = seq![(root, name)];
    assert(es.drop_last() =~= Seq::<(Seq<char>, Seq<char>)>::empty());
    assert(es.last() == (root, name));
    assert(bad_entries(es.drop_last()).len() == 0);
    assert(bad_entries(es) =~= seq![(root, name)]);
}

/// The free space that is measured is the storage drive's whenever a storage
/// path is set; the League directory stands in only without one, then the
/// executable's directory, then the working directory.
pub proof fn free_space_measures_storage_first(
    storage: Option<Seq<char>>,
    league: Option<Seq<char>>,
    exe_dir: Option<Seq<char>>,
)
    ensures
        storage matches Some(s) ==> free_space_target_of(storage, league, exe_dir) == s,
        storage is None && league is Some ==> free_space_target_of(storage, league, exe_dir)
            == league->0,
        storage is None && league is None && exe_dir is Some ==> free_space_target_of(
            storage,
            league,
            exe_dir,
        ) == exe_dir->0,
        storage is None && league is None && exe_dir is None ==> free_space_target_of(
            storage,
            league,
            exe_dir,
        ) == "."@,
{
}

/// In a run of the suite with a storage path set, the free-space check names
/// the storage path as what it measured, wherever League is.
pub proof fn suite_free_space_names_storage(c: CheckCtx, p: Probes, f: u64)
    requires
        c.mod_storage_path is Some,
        p.free_bytes == Some(f),
    ensures
        suite(c, p)[10].details == seq![("path"@, c.mod_storage_path->0@)],
{
    let s = c.mod_storage_path->0@;
    assert(suite(c, p)[10].details =~= seq![("path"@, s)]);
}

/// `LongPathsEnabled` passes exactly when it was read and is not zero; a zero
/// (the Windows default) or an unreadable value warns and offers the
/// `reg add` fix.
pub proof fn long_paths_pass_iff_nonzero(reading: Option<u64>)
    ensures
        (long_paths_check(reading).severity == Severity::Passed) == (reading matches Some(v)
            && v != 0),
        !(reading matches Some(v) && v != 0) ==> long_paths_check(reading).severity
            == Severity::Warn && long_paths_check(reading).fix_command == Some(LONG_PATHS_FIX@),
        (reading matches Some(v) && v != 0) ==> long_paths_check(reading).fix_command is None,
{
}

/// With a storage path, an index that exists but cannot be read, or cannot be
/// parsed, is `Bad`, and the check names the index path and the error.
pub proof fn unusable_index_is_bad(
    storage: Seq<char>,
    path: Seq<char>,
    error: String,
    size: usize,
)
    ensures
        library_index_check(Some(storage), path, IndexRead::Unreadable(error)).severity
            == Severity::Bad,
        library_index_check(Some(storage), path, IndexRead::Unreadable(error)).details == seq![
            ("path"@, path),
            ("error"@, error@),
        ],
        library_index_check(
            Some(storage),
            path,
            IndexRead::Corrupt { size, error },
        ).severity == Severity::Bad,
        library_index_check(Some(storage), path, IndexRead::Missing).severity == Severity::Passed,
{
    assert(library_index_check(Some(storage), path, IndexRead::Unreadable(error)).details =~= seq![
        ("path"@, path),
        ("error"@, error@),
    ]);
}

/// Position 4 of the suite judges the League directory by the League's own
/// probes: when the game is there and the League path carries cloud-sync
/// attributes it is `Bad`, with the cloud note and row, and it does not
/// change with anything found about the storage directory.
pub proof fn suite_league_check_reads_league_probes(c: CheckCtx, p: Probes, other: bool)
    ensures
        suite(c, p)[4] == suite(c, Probes { storage_cloud_attrs: other, storage_exists: other, ..p })[4],
        c.league_path is Some && (p.league_game_exe_exists || p.league_mac_game_exists)
            && p.league_cloud_attrs ==> suite(c, p)[4].severity == Severity::Bad
            && suite(c, p)[4].summary == c.league_path->0@ + " (cloud-only / OneDrive)"@
            && suite(c, p)[4].details.last() == ("cloud_attrs"@, CLOUD_ATTRS_TEXT@),
{
}

/// In a run of the suite on Windows, the long-paths check (position 1) passes
/// exactly when `LongPathsEnabled` was read as non-zero; with a storage path,
/// the library-index check (position 15) is `Bad` when the index could not be
/// read.
pub proof fn suite_long_paths_and_index(c: CheckCtx, p: Probes)
    ensures
        p.windows is Some ==> ((suite(c, p)[1].severity == Severity::Passed) == (
        p.windows->0.long_paths matches Some(v) && v != 0)),
        c.mod_storage_path is Some && p.index_read is Unreadable ==> suite(c, p)[15].severity
            == Severity::Bad,
{
}

} // verus!
