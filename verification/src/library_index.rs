//! Library index integrity check.
//!
//! The caller reads `mod_library_index.json` from the storage directory; this
//! module parses it as JSON (without the schema migration the live library
//! does), reads its schema version and mod count, and turns the outcome into a
//! check. An unparseable index is a hard error, caught before the library
//! fails to load.
use vstd::prelude::*;
use crate::report::{check, fresh_check, opt_view, Category, Check, CheckCtx, CheckView, Severity};
use crate::text::{copy_string, decimal, decimal_string, owned};

verus! {

#[verifier::external_type_specification]
#[verifier::external_body]
pub struct ExJsonValue(serde_json::Value);

#[verifier::external_type_specification]
#[verifier::external_body]
pub struct ExJsonError(serde_json::Error);

#[verifier::external_type_specification]
#[verifier::external_body]
#[verifier::reject_recursive_types(K)]
#[verifier::reject_recursive_types(V)]
pub struct ExJsonMap<K, V>(serde_json::Map<K, V>);

/// What `serde_json::from_slice::<serde_json::Value>` gives for the bytes.
pub uninterp spec fn json_parse(raw: Seq<u8>) -> Result<serde_json::Value, serde_json::Error>;

/// The message of a JSON parse error, as its `Display` renders it.
pub uninterp spec fn json_error_text(e: serde_json::Error) -> Seq<char>;

/// What `Value::get` gives for a string key: the member of an object.
pub uninterp spec fn json_member(v: serde_json::Value, key: Seq<char>) -> Option<serde_json::Value>;

/// What `Value::as_u64` gives: the number, when it is an unsigned integer.
pub uninterp spec fn json_as_u64(v: serde_json::Value) -> Option<u64>;

/// What `Value::as_object` gives: the map, when the value is an object.
pub uninterp spec fn json_as_object(v: serde_json::Value) -> Option<
    serde_json::Map<String, serde_json::Value>,
>;

/// What `Map::len` gives: the number of entries.
pub uninterp spec fn json_map_len(m: serde_json::Map<String, serde_json::Value>) -> usize;

/// What `Value::as_array` gives: the elements, when the value is an array.
pub uninterp spec fn json_as_array(v: serde_json::Value) -> Option<Seq<serde_json::Value>>;

/// Parses bytes as a JSON value.
///
/// Calls `serde_json::from_slice::<serde_json::Value>`; the contract names its
/// result, which depends on the bytes alone.
#[verifier::external_body]
fn parse_value(raw: &[u8]) -> (r: Result<serde_json::Value, serde_json::Error>)
    ensures
        r == json_parse(raw@),
{
    serde_json::from_slice::<serde_json::Value>(raw)
}

/// The message of a parse error.
///
/// Calls `serde_json::Error`'s `Display` (through `to_string`); the contract
/// names the text.
#[verifier::external_body]
fn error_text(e: &serde_json::Error) -> (s: String)
    ensures
        s@ == json_error_text(*e),
{
    e.to_string()
}

/// The member of an object under a key.
///
/// Calls `serde_json::Value::get` with a string key, which gives the member
/// when the value is an object holding the key, and `None` otherwise; the
/// contract names the result.
#[verifier::external_body]
fn value_get<'a>(v: &'a serde_json::Value, key: &str) -> (r: Option<&'a serde_json::Value>)
    ensures
        match r {
            Some(m) => json_member(*v, key@) == Some(*m),
            None => json_member(*v, key@) is None,
        },
{
    v.get(key)
}

/// The value as an unsigned integer.
///
/// Calls `serde_json::Value::as_u64`; the contract names the result.
#[verifier::external_body]
fn value_as_u64(v: &serde_json::Value) -> (r: Option<u64>)
    ensures
        r == json_as_u64(*v),
{
    v.as_u64()
}

/// The value as an object.
///
/// Calls `serde_json::Value::as_object`; the contract names the result.
#[verifier::external_body]
fn value_as_object(v: &serde_json::Value) -> (r: Option<&serde_json::Map<String, serde_json::Value>>)
    ensures
        match r {
            Some(m) => json_as_object(*v) == Some(*m),
            None => json_as_object(*v) is None,
        },
{
    v.as_object()
}

/// The number of entries of an object.
///
/// Calls `serde_json::Map::len`; the contract names the result.
#[verifier::external_body]
fn object_len(m: &serde_json::Map<String, serde_json::Value>) -> (n: usize)
    ensures
        n == json_map_len(*m),
{
    m.len()
}

/// The value as an array.
///
/// Calls `serde_json::Value::as_array`; the contract names the elements.
#[verifier::external_body]
fn value_as_array(v: &serde_json::Value) -> (r: Option<&Vec<serde_json::Value>>)
    ensures
        match r {
            Some(a) => json_as_array(*v) == Some(a@),
            None => json_as_array(*v) is None,
        },
{
    v.as_array()
}

/// The schema version of a parsed index: its top-level `version`, when that
/// is an unsigned integer.
pub open spec fn index_version(v: serde_json::Value) -> Option<u64> {
    match json_member(v, "version"@) {
        Some(x) => json_as_u64(x),
        None => None,
    }
}

/// The mod count of a parsed index: the number of entries of its top-level
/// `mods` when that is an object, else of elements when it is an array.
pub open spec fn index_mod_count(v: serde_json::Value) -> Option<usize> {
    match json_member(v, "mods"@) {
        Some(m) => match json_as_object(m) {
            Some(o) => Some(json_map_len(o)),
            None => match json_as_array(m) {
                Some(a) => Some(a.len() as usize),
                None => None,
            },
        },
        None => None,
    }
}

/// `read` is what the index bytes `raw` give: `Corrupt` with the parser's
/// message when they are not JSON, else `Parsed` with the schema version and
/// mod count; the size is the number of bytes either way.
pub open spec fn index_read_of_bytes(raw: Seq<u8>, read: IndexRead) -> bool {
    match json_parse(raw) {
        Err(e) => match read {
            IndexRead::Corrupt { size, error } => size == raw.len() && error@ == json_error_text(e),
            _ => false,
        },
        Ok(v) => match read {
            IndexRead::Parsed { size, version, mod_count } => {
                &&& size == raw.len()
                &&& version == index_version(v)
                &&& mod_count == index_mod_count(v)
            },
            _ => false,
        },
    }
}

/// Parses the bytes of an index file and reads its schema version and mod count.
pub fn index_read_of(raw: &Vec<u8>) -> (r: IndexRead)
    ensures
        index_read_of_bytes(raw@, r),
{
    let size = raw.len();
    match parse_value(raw.as_slice()) {
        Err(e) => IndexRead::Corrupt { size, error: error_text(&e) },
        Ok(v) => {
            let version = match value_get(&v, "version") {
                Some(x) => value_as_u64(x),
                None => None,
            };
            let mod_count = match value_get(&v, "mods") {
                Some(m) => match value_as_object(m) {
                    Some(o) => Some(object_len(o)),
                    None => match value_as_array(m) {
                        Some(a) => Some(a.len()),
                        None => None,
                    },
                },
                None => None,
            };
            IndexRead::Parsed { size, version, mod_count }
        },
    }
}

/// File name of the library index inside the storage directory.
pub const INDEX_FILENAME: &'static str = "mod_library_index.json";

pub const INDEX_ID: &'static str = "library.index";

pub const INDEX_LABEL: &'static str = "Mod library index";

pub const CORRUPT_SUGGESTION: &'static str = "Your library index is corrupted. The latest version of LTK Manager will skip a corrupt index and let you re-import mods, but if you're stuck on an older version, delete or rename the file shown above and re-launch.";

/// What reading the index file gave.
pub enum IndexRead {
    /// No index file exists.
    Missing,
    /// The file exists but could not be read; the I/O error's message.
    Unreadable(String),
    /// The file's `size` bytes are not JSON; the parser's message.
    Corrupt { size: usize, error: String },
    /// The file's `size` bytes are JSON; its top-level `version` when that is
    /// an unsigned integer, and the entry count of its top-level `mods` when
    /// that is an object or an array.
    Parsed { size: usize, version: Option<u64>, mod_count: Option<usize> },
}

/// The index check for the index path and what reading it gave.
pub open spec fn library_index_check(storage: Option<Seq<char>>, path: Seq<char>, read: IndexRead) -> CheckView {
    match storage {
        None => fresh_check(
            INDEX_ID@,
            INDEX_LABEL@,
            Category::Library,
            Severity::Info,
            "No storage path resolved"@,
        ),
        Some(_) => match read {
            IndexRead::Missing => fresh_check(
                INDEX_ID@,
                INDEX_LABEL@,
                Category::Library,
                Severity::Passed,
                "No index yet (fresh install)"@,
            ).with_detail("path"@, path),
            IndexRead::Unreadable(e) => fresh_check(
                INDEX_ID@,
                INDEX_LABEL@,
                Category::Library,
                Severity::Bad,
                "Could not read library index"@,
            ).with_detail("path"@, path).with_detail("error"@, e@),
            IndexRead::Corrupt { size, error } => fresh_check(
                INDEX_ID@,
                INDEX_LABEL@,
                Category::Library,
                Severity::Bad,
                "Index file is corrupted (JSON parse failed)"@,
            ).with_detail("path"@, path).with_detail("size_bytes"@, decimal(size as nat)).with_detail(
                "error"@,
                error@,
            ).with_suggestion(CORRUPT_SUGGESTION@),
            IndexRead::Parsed { size, version, mod_count } => {
                let parsed = fresh_check(
                    INDEX_ID@,
                    INDEX_LABEL@,
                    Category::Library,
                    Severity::Passed,
                    "Index parses successfully"@,
                ).with_detail("path"@, path).with_detail("size_bytes"@, decimal(size as nat));
                let versioned = match version {
                    Some(v) => parsed.with_detail("schema_version"@, decimal(v as nat)),
                    None => parsed,
                };
                match mod_count {
                    Some(n) => versioned.with_detail("mod_count"@, decimal(n as nat)),
                    None => versioned,
                }
            },
        },
    }
}

/// Checks the library index at `index_path` (the storage directory joined with
/// [`INDEX_FILENAME`]): a missing index is fine, an unreadable or corrupt one is `Bad`.
pub fn check_library_index(ctx: &CheckCtx, index_path: &String, read: &IndexRead) -> (c: Check)
    ensures
        c@ == library_index_check(opt_view(ctx.mod_storage_path), index_path@, *read),
{
    if ctx.mod_storage_path.is_none() {
        return check(
            INDEX_ID,
            INDEX_LABEL,
            Category::Library,
            Severity::Info,
            owned("No storage path resolved"),
        );
    }
    match read {
        IndexRead::Missing => {
            let mut c = check(
                INDEX_ID,
                INDEX_LABEL,
                Category::Library,
                Severity::Passed,
                owned("No index yet (fresh install)"),
            );
            c.add_detail(owned("path"), copy_string(index_path));
            c
        },
        IndexRead::Unreadable(e) => {
            let mut c = check(
                INDEX_ID,
                INDEX_LABEL,
                Category::Library,
                Severity::Bad,
                owned("Could not read library index"),
            );
            c.add_detail(owned("path"), copy_string(index_path));
            c.add_detail(owned("error"), copy_string(e));
            c
        },
        IndexRead::Corrupt { size, error } => {
            let mut c = check(
                INDEX_ID,
                INDEX_LABEL,
                Category::Library,
                Severity::Bad,
                owned("Index file is corrupted (JSON parse failed)"),
            );
            c.add_detail(owned("path"), copy_string(index_path));
            c.add_detail(owned("size_bytes"), decimal_string(*size as u64));
            c.add_detail(owned("error"), copy_string(error));
            c.set_suggestion(owned(CORRUPT_SUGGESTION));
            c
        },
        IndexRead::Parsed { size, version, mod_count } => {
            let mut c = check(
                INDEX_ID,
                INDEX_LABEL,
                Category::Library,
                Severity::Passed,
                owned("Index parses successfully"),
            );
            c.add_detail(owned("path"), copy_string(index_path));
            c.add_detail(owned("size_bytes"), decimal_string(*size as u64));
            if let Some(v) = version {
                c.add_detail(owned("schema_version"), decimal_string(*v));
            }
            if let Some(n) = mod_count {
                c.add_detail(owned("mod_count"), decimal_string(*n as u64));
            }
            c
        },
    }
}

} // verus!
