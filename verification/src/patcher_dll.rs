//! Patcher DLL diagnostics: presence, Authenticode signature, file lock.
//!
//! Unrelated processes occasionally leave file handles open on
//! `cslol-dll.dll`; the patcher then fails to load the DLL or runs against a
//! stale image. The caller probes the file and hands in what it found.
use vstd::prelude::*;
use crate::report::{
    check, check_ok, fresh_check, opt_view, Category, Check, CheckCtx, CheckView, Severity,
};
use crate::text::{copy_string, decimal, decimal_string, hex_fixed, owned, push_hex_fixed, push_str};

verus! {

/// File name of the patcher DLL.
pub const PATCHER_DLL_NAME: &'static str = "cslol-dll.dll";

pub const PRESENT_ID: &'static str = "patcher.dll.present";

pub const PRESENT_LABEL: &'static str = "Patcher DLL present";

pub const MISSING_SUGGESTION: &'static str = "The patcher's bundled DLL is missing. Reinstall LTK Manager from the latest release.";

pub const SIGNATURE_ID: &'static str = "patcher.dll.signature";

pub const SIGNATURE_LABEL: &'static str = "Patcher DLL signature";

pub const UNSIGNED_SUGGESTION: &'static str = "The bundled DLL is unsigned or its signature didn't validate. This is informational — official builds may not be signed yet — but if you downloaded from somewhere other than the official GitHub release, redownload from there.";

pub const LOCK_ID: &'static str = "patcher.dll.not_locked";

pub const LOCK_LABEL: &'static str = "Patcher DLL not locked";

pub const LOCKED_SUGGESTION: &'static str = "An external process — most often Vanguard's vgc.exe or a previous patcher run that didn't clean up — has a handle on cslol-dll.dll. The patcher won't be able to swap in a fresh copy until the lock is released. Try: stop the patcher, close the manager, restart your PC, then start the manager again before launching League. (We'll add a per-handle 'who's holding this?' view in a future release.)";

/// The DLL path, when it is set and the file exists.
pub open spec fn existing_dll_of(dll: Option<Seq<char>>, exists: bool) -> Option<Seq<char>> {
    match dll {
        Some(p) => if exists {
            Some(p)
        } else {
            None
        },
        None => None,
    }
}

/// The DLL path to probe, when it is set and the file exists.
pub fn existing_dll(ctx: &CheckCtx, exists: bool) -> (p: Option<String>)
    ensures
        opt_view(p) == existing_dll_of(opt_view(ctx.patcher_dll_path), exists),
{
    match &ctx.patcher_dll_path {
        Some(p) => if exists {
            Some(copy_string(p))
        } else {
            None
        },
        None => None,
    }
}

/// The presence check, given whether the file exists and its size when known.
pub open spec fn dll_present_check(dll: Option<Seq<char>>, exists: bool, size: Option<u64>) -> CheckView {
    match dll {
        None => fresh_check(
            PRESENT_ID@,
            PRESENT_LABEL@,
            Category::Patcher,
            Severity::Bad,
            "Could not resolve resource directory"@,
        ),
        Some(p) => if exists {
            let found = fresh_check(PRESENT_ID@, PRESENT_LABEL@, Category::Patcher, Severity::Passed, p);
            match size {
                Some(n) => found.with_detail("size"@, decimal(n as nat)),
                None => found,
            }
        } else {
            fresh_check(
                PRESENT_ID@,
                PRESENT_LABEL@,
                Category::Patcher,
                Severity::Bad,
                "cslol-dll.dll not found at resolved path"@,
            ).with_detail("path"@, p).with_suggestion(MISSING_SUGGESTION@)
        },
    }
}

/// Checks that the patcher DLL resolved and exists (`Bad` otherwise); `size`
/// is the file's length when its metadata could be read.
pub fn check_dll_present(ctx: &CheckCtx, exists: bool, size: Option<u64>) -> (c: Check)
    ensures
        c@ == dll_present_check(opt_view(ctx.patcher_dll_path), exists, size),
{
    match &ctx.patcher_dll_path {
        Some(p) => if exists {
            let mut c = check_ok(PRESENT_ID, PRESENT_LABEL, Category::Patcher, p.as_str());
            if let Some(n) = size {
                c.add_detail(owned("size"), decimal_string(n));
            }
            c
        } else {
            let mut c = check(
                PRESENT_ID,
                PRESENT_LABEL,
                Category::Patcher,
                Severity::Bad,
                owned("cslol-dll.dll not found at resolved path"),
            );
            c.add_detail(owned("path"), copy_string(p));
            c.set_suggestion(owned(MISSING_SUGGESTION));
            c
        },
        None => check(
            PRESENT_ID,
            PRESENT_LABEL,
            Category::Patcher,
            Severity::Bad,
            owned("Could not resolve resource directory"),
        ),
    }
}

/// The result of verifying the DLL's Authenticode signature: the status code
/// `WinVerifyTrust` returned, or why the call could not be made.
pub open spec fn verification_view(v: Option<Result<i32, String>>) -> Option<Result<i32, Seq<char>>> {
    match v {
        Some(Ok(code)) => Some(Ok(code)),
        Some(Err(e)) => Some(Err(e@)),
        None => None,
    }
}

/// The signature check, given the verification result for the existing DLL.
pub open spec fn dll_signature_check(
    dll: Option<Seq<char>>,
    exists: bool,
    verification: Option<Result<i32, Seq<char>>>,
) -> CheckView {
    match existing_dll_of(dll, exists) {
        None => fresh_check(
            SIGNATURE_ID@,
            SIGNATURE_LABEL@,
            Category::Patcher,
            Severity::Info,
            "DLL not present, skipped"@,
        ),
        Some(p) => match verification {
            Some(Err(e)) => fresh_check(
                SIGNATURE_ID@,
                SIGNATURE_LABEL@,
                Category::Patcher,
                Severity::Warn,
                "Could not verify (system call failed)"@,
            ).with_detail("error"@, e),
            Some(Ok(code)) => if code != 0 {
                fresh_check(
                    SIGNATURE_ID@,
                    SIGNATURE_LABEL@,
                    Category::Patcher,
                    Severity::Warn,
                    "Unsigned or invalid signature (0x"@ + hex_fixed((code as u32) as nat, 8) + ")"@,
                ).with_detail("path"@, p).with_suggestion(UNSIGNED_SUGGESTION@)
            } else {
                fresh_check(
                    SIGNATURE_ID@,
                    SIGNATURE_LABEL@,
                    Category::Patcher,
                    Severity::Passed,
                    "Valid Authenticode signature"@,
                )
            },
            None => fresh_check(
                SIGNATURE_ID@,
                SIGNATURE_LABEL@,
                Category::Patcher,
                Severity::Passed,
                "Valid Authenticode signature"@,
            ),
        },
    }
}

/// Reports the Authenticode verification of the existing DLL: status 0 is a
/// valid signature, any other status is `Warn` with the status in hex, and a
/// verification that could not be made is `Warn` with the error;
/// `verification` is owed whenever the DLL exists.
pub fn check_dll_signature(
    ctx: &CheckCtx,
    exists: bool,
    verification: &Option<Result<i32, String>>,
) -> (c: Check)
    requires
        existing_dll_of(opt_view(ctx.patcher_dll_path), exists) is Some ==> verification is Some,
    ensures
        c@ == dll_signature_check(
            opt_view(ctx.patcher_dll_path),
            exists,
            verification_view(*verification),
        ),
{
    let path = match existing_dll(ctx, exists) {
        None => {
            return check(
                SIGNATURE_ID,
                SIGNATURE_LABEL,
                Category::Patcher,
                Severity::Info,
                owned("DLL not present, skipped"),
            );
        },
        Some(p) => p,
    };
    match verification {
        Some(Err(e)) => {
            let mut c = check(
                SIGNATURE_ID,
                SIGNATURE_LABEL,
                Category::Patcher,
                Severity::Warn,
                owned("Could not verify (system call failed)"),
            );
            c.add_detail(owned("error"), copy_string(e));
            c
        },
        Some(Ok(code)) => if *code != 0 {
            let mut summary = owned("Unsigned or invalid signature (0x");
            push_hex_fixed(&mut summary, (*code as u32) as u64, 8);
            push_str(&mut summary, ")");
            let mut c = check(SIGNATURE_ID, SIGNATURE_LABEL, Category::Patcher, Severity::Warn, summary);
            c.add_detail(owned("path"), path);
            c.set_suggestion(owned(UNSIGNED_SUGGESTION));
            c
        } else {
            check_ok(SIGNATURE_ID, SIGNATURE_LABEL, Category::Patcher, "Valid Authenticode signature")
        },
        None => check_ok(SIGNATURE_ID, SIGNATURE_LABEL, Category::Patcher, "Valid Authenticode signature"),
    }
}

/// The lock check, given whether the existing DLL is held open elsewhere.
pub open spec fn dll_lock_check(dll: Option<Seq<char>>, exists: bool, locked: Option<bool>) -> CheckView {
    match existing_dll_of(dll, exists) {
        None => fresh_check(
            LOCK_ID@,
            LOCK_LABEL@,
            Category::Patcher,
            Severity::Info,
            "DLL not present, skipped"@,
        ),
        Some(p) => if locked == Some(true) {
            fresh_check(
                LOCK_ID@,
                LOCK_LABEL@,
                Category::Patcher,
                Severity::Warn,
                "Another process is holding cslol-dll.dll open"@,
            ).with_detail("path"@, p).with_suggestion(LOCKED_SUGGESTION@)
        } else {
            fresh_check(LOCK_ID@, LOCK_LABEL@, Category::Patcher, Severity::Passed, "Not locked"@)
        },
    }
}

/// Reports whether another process holds the existing DLL open (`Warn`);
/// `locked` is the lock probe of the DLL, owed whenever it exists.
pub fn check_dll_not_locked(ctx: &CheckCtx, exists: bool, locked: Option<bool>) -> (c: Check)
    requires
        existing_dll_of(opt_view(ctx.patcher_dll_path), exists) is Some ==> locked is Some,
    ensures
        c@ == dll_lock_check(opt_view(ctx.patcher_dll_path), exists, locked),
{
    let path = match existing_dll(ctx, exists) {
        None => {
            return check(
                LOCK_ID,
                LOCK_LABEL,
                Category::Patcher,
                Severity::Info,
                owned("DLL not present, skipped"),
            );
        },
        Some(p) => p,
    };
    if locked == Some(true) {
        let mut c = check(
            LOCK_ID,
            LOCK_LABEL,
            Category::Patcher,
            Severity::Warn,
            owned("Another process is holding cslol-dll.dll open"),
        );
        c.add_detail(owned("path"), path);
        c.set_suggestion(owned(LOCKED_SUGGESTION));
        c
    } else {
        check_ok(LOCK_ID, LOCK_LABEL, Category::Patcher, "Not locked")
    }
}

} // verus!
