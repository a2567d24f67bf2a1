//! Storage medium diagnostic: builds on a spinning disk can take many minutes
//! for a large library, so an HDD is reported as a warning.
use vstd::prelude::*;
use crate::report::{check, fresh_check, opt_view, Category, Check, CheckCtx, CheckView, Severity};
use crate::text::{copy_string, owned};

verus! {

/// The kind of drive a path lives on.
#[derive(Clone, Copy, Debug, PartialEq, Eq, Structural)]
pub enum StorageMedium {
    Ssd,
    Hdd,
    Unknown,
}

pub const MEDIUM_ID: &'static str = "storage.medium";

pub const MEDIUM_LABEL: &'static str = "Storage medium";

pub const HDD_SUGGESTION: &'static str = "Mod storage is on a spinning hard drive. Building the overlay involves rewriting many WAD files; on HDD this can take 10–20 minutes for large libraries. Move storage to an SSD if you have one available.";

/// The storage medium check, given the medium detected for the storage path.
pub open spec fn storage_medium_check(storage: Option<Seq<char>>, medium: Option<StorageMedium>) -> CheckView {
    match storage {
        None => fresh_check(
            MEDIUM_ID@,
            MEDIUM_LABEL@,
            Category::Storage,
            Severity::Info,
            "No storage path resolved"@,
        ),
        Some(p) => match medium {
            Some(StorageMedium::Ssd) => fresh_check(
                MEDIUM_ID@,
                MEDIUM_LABEL@,
                Category::Storage,
                Severity::Passed,
                "SSD"@,
            ).with_detail("path"@, p),
            Some(StorageMedium::Hdd) => fresh_check(
                MEDIUM_ID@,
                MEDIUM_LABEL@,
                Category::Storage,
                Severity::Warn,
                "HDD — overlay builds will be slow"@,
            ).with_detail("path"@, p).with_suggestion(HDD_SUGGESTION@),
            _ => fresh_check(
                MEDIUM_ID@,
                MEDIUM_LABEL@,
                Category::Storage,
                Severity::Info,
                "Unknown"@,
            ).with_detail("path"@, p),
        },
    }
}

/// Reports the medium of the storage drive: `Warn` on an HDD; `medium` is the
/// detection result for the storage path, owed whenever that path is set.
pub fn check_storage_medium(ctx: &CheckCtx, medium: Option<StorageMedium>) -> (c: Check)
    requires
        ctx.mod_storage_path is Some ==> medium is Some,
    ensures
        c@ == storage_medium_check(opt_view(ctx.mod_storage_path), medium),
{
    let p = match &ctx.mod_storage_path {
        None => {
            return check(
                MEDIUM_ID,
                MEDIUM_LABEL,
                Category::Storage,
                Severity::Info,
                owned("No storage path resolved"),
            );
        },
        Some(p) => p,
    };
    match medium {
        Some(StorageMedium::Ssd) => {
            let mut c = check(MEDIUM_ID, MEDIUM_LABEL, Category::Storage, Severity::Passed, owned("SSD"));
            c.add_detail(owned("path"), copy_string(p));
            c
        },
        Some(StorageMedium::Hdd) => {
            let mut c = check(
                MEDIUM_ID,
                MEDIUM_LABEL,
                Category::Storage,
                Severity::Warn,
                owned("HDD — overlay builds will be slow"),
            );
            c.add_detail(owned("path"), copy_string(p));
            c.set_suggestion(owned(HDD_SUGGESTION));
            c
        },
        _ => {
            let mut c = check(MEDIUM_ID, MEDIUM_LABEL, Category::Storage, Severity::Info, owned("Unknown"));
            c.add_detail(owned("path"), copy_string(p));
            c
        },
    }
}

} // verus!
