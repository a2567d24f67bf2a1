//! Small helpers shared by the Windows probes: UTF-16 path encoding for the
//! `*W` system calls, the reading of file attributes, the lock probe's
//! verdict, and the buffer arithmetic of the registry reads.
use vstd::prelude::*;
use crate::report::opt_view;
use crate::text::chars_of;

verus! {

/// `FILE_ATTRIBUTE_OFFLINE`.
pub const FILE_ATTRIBUTE_OFFLINE: u32 = 0x1000;

/// `FILE_ATTRIBUTE_RECALL_ON_DATA_ACCESS`.
pub const FILE_ATTRIBUTE_RECALL_ON_DATA_ACCESS: u32 = 0x400000;

/// `INVALID_FILE_ATTRIBUTES`, what `GetFileAttributesW` returns on failure.
pub const INVALID_FILE_ATTRIBUTES: u32 = 0xFFFF_FFFF;

/// The UTF-16 code units of one character.
pub open spec fn utf16_units(c: char) -> Seq<u16> {
    let v = (c as u32) as nat;
    if v < 0x10000 {
        seq![v as u16]
    } else {
        let u = (v - 0x10000) as nat;
        seq![(0xD800 + u / 1024) as u16, (0xDC00 + u % 1024) as u16]
    }
}

/// The UTF-16 encoding of a text.
pub open spec fn utf16_encode(s: Seq<char>) -> Seq<u16>
    decreases s.len(),
{
    if s.len() == 0 {
        Seq::empty()
    } else {
        utf16_encode(s.drop_last()) + utf16_units(s.last())
    }
}

/// Encodes a text as a null-terminated UTF-16 buffer for Win32 `*W` calls.
pub fn to_wide(s: &str) -> (w: Vec<u16>)
    ensures
        w@ == utf16_encode(s@).push(0u16),
{
    let v = chars_of(s);
    let mut w: Vec<u16> = Vec::new();
    let mut i: usize = 0;
    while i < v.len()
        invariant
            v@ == s@,
            i <= v@.len(),
            w@ == utf16_encode(v@.take(i as int)),
        decreases v@.len() - i,
    {
        assert(v@.take(i + 1).drop_last() =~= v@.take(i as int));
        let c = v[i];
        let code = c as u32;
        proof {
            vstd::utf8::char_is_scalar(c);
        }
        assert(code <= 0x10FFFF);
        if code < 0x10000 {
            w.push(code as u16);
        } else {
            let u = code - 0x10000;
            w.push((0xD800 + u / 1024) as u16);
            w.push((0xDC00 + u % 1024) as u16);
        }
        assert(w@ =~= utf16_encode(v@.take(i + 1)));
        i = i + 1;
    }
    assert(v@.take(i as int) =~= v@);
    w.push(0);
    w
}

/// Null-terminates a path's wide units (what `OsStr::encode_wide` yields for
/// it, non-Unicode paths included) for Win32 `*W` calls. Dropping the final 0
/// gives the path's units back unchanged.
pub fn path_to_wide(units: &Vec<u16>) -> (w: Vec<u16>)
    ensures
        w@ == units@.push(0u16),
        w@.drop_last() == units@,
{
    let mut w: Vec<u16> = Vec::new();
    let mut i: usize = 0;
    while i < units.len()
        invariant
            i <= units@.len(),
            w@ == units@.take(i as int),
        decreases units@.len() - i,
    {
        w.push(units[i]);
        assert(units@.take(i + 1) =~= units@.take(i as int).push(units@[i as int]));
        i = i + 1;
    }
    assert(units@.take(i as int) =~= units@);
    w.push(0);
    assert(w@.drop_last() =~= units@);
    w
}

/// What `String::from_utf16_lossy` gives for the units.
pub uninterp spec fn utf16_lossy(units: Seq<u16>) -> Seq<char>;

/// Decodes UTF-16 units, replacing invalid data with U+FFFD.
///
/// Calls `String::from_utf16_lossy`. The contract names its result, and states
/// what its documentation gives for valid input: the UTF-16 encoding of a text
/// decodes to that text.
#[verifier::external_body]
fn decode_utf16_lossy(units: &[u16]) -> (s: String)
    ensures
        s@ == utf16_lossy(units@),
        forall|t: Seq<char>| utf16_encode(t) == units@ ==> s@ == t,
{
    String::from_utf16_lossy(units)
}

/// The first `len` units of a buffer, decoded (a registry value name from the
/// enumeration buffer, or an executable name from a process entry).
pub fn decode_wide_prefix(buf: &Vec<u16>, len: u32) -> (s: String)
    requires
        len as nat <= buf@.len(),
    ensures
        s@ == utf16_lossy(buf@.take(len as int)),
{
    let mut units: Vec<u16> = Vec::new();
    let mut i: usize = 0;
    let n = len as usize;
    while i < n
        invariant
            n == len as nat,
            n <= buf@.len(),
            i <= n,
            units@ == buf@.take(i as int),
        decreases n - i,
    {
        units.push(buf[i]);
        assert(buf@.take(i + 1) =~= buf@.take(i as int).push(buf@[i as int]));
        i = i + 1;
    }
    decode_utf16_lossy(units.as_slice())
}

/// The attributes mark a cloud-only (OneDrive Files-On-Demand) file.
pub open spec fn cloud_sync_flagged(attrs: u32) -> bool {
    attrs != INVALID_FILE_ATTRIBUTES && (attrs & (FILE_ATTRIBUTE_OFFLINE
        | FILE_ATTRIBUTE_RECALL_ON_DATA_ACCESS)) != 0
}

/// Given what `GetFileAttributesW` returned for a path: true when the offline
/// or recall-on-data-access attribute is set; false when the attributes could
/// not be read.
pub fn has_cloud_sync_attrs(attrs: u32) -> (r: bool)
    ensures
        r == cloud_sync_flagged(attrs),
{
    if attrs == INVALID_FILE_ATTRIBUTES {
        return false;
    }
    (attrs & (FILE_ATTRIBUTE_OFFLINE | FILE_ATTRIBUTE_RECALL_ON_DATA_ACCESS)) != 0
}

/// A file is taken to be locked when it exists and an exclusive open of it failed.
pub fn is_file_locked(exists: bool, exclusive_open_succeeded: bool) -> (r: bool)
    ensures
        r == (exists && !exclusive_open_succeeded),
{
    if !exists {
        return false;
    }
    !exclusive_open_succeeded
}

/// Number of UTF-16 units needed to hold a registry string of `size_bytes` bytes.
pub fn reg_string_units(size_bytes: u32) -> (n: usize)
    ensures
        n == (size_bytes as nat + 1) / 2,
{
    (size_bytes / 2 + size_bytes % 2) as usize
}

/// The characters of a registry string read into `buf`, `size_bytes` bytes
/// long, without its terminating zero if it has one.
pub open spec fn reg_string_chars(buf: Seq<u16>, size_bytes: nat) -> Seq<u16> {
    let chars = size_bytes / 2;
    if chars > 0 && buf[chars - 1] == 0 {
        buf.take(chars - 1)
    } else {
        buf.take(chars as int)
    }
}

/// Trims a registry string buffer to the characters the read reported.
pub fn trim_reg_string(buf: &Vec<u16>, size_bytes: u32) -> (r: Vec<u16>)
    requires
        size_bytes as nat / 2 <= buf@.len(),
    ensures
        r@ == reg_string_chars(buf@, size_bytes as nat),
{
    let chars = (size_bytes / 2) as usize;
    let end = if chars > 0 && buf[chars - 1] == 0 {
        chars - 1
    } else {
        chars
    };
    let mut r: Vec<u16> = Vec::new();
    let mut i: usize = 0;
    while i < end
        invariant
            end <= chars <= buf@.len(),
            i <= end,
            r@ == buf@.take(i as int),
        decreases end - i,
    {
        r.push(buf[i]);
        assert(buf@.take(i + 1) =~= buf@.take(i as int).push(buf@[i as int]));
        i = i + 1;
    }
    r
}

/// A registry string value read into `buf`, `size_bytes` bytes long: its
/// characters without the terminating zero, decoded. A buffer holding the
/// UTF-16 of a text and its terminator decodes to that text.
pub fn reg_string_value(buf: &Vec<u16>, size_bytes: u32) -> (s: String)
    requires
        size_bytes as nat / 2 <= buf@.len(),
    ensures
        s@ == utf16_lossy(reg_string_chars(buf@, size_bytes as nat)),
        forall|t: Seq<char>|
            buf@.take((size_bytes / 2) as int) == #[trigger] utf16_encode(t).push(0u16) ==> s@ == t,
{
    let chars = trim_reg_string(buf, size_bytes);
    let s = decode_utf16_lossy(chars.as_slice());
    assert forall|t: Seq<char>|
        buf@.take((size_bytes / 2) as int) == #[trigger] utf16_encode(t).push(0u16) implies s@ == t by {
        let k = size_bytes as nat / 2;
        assert(buf@.take(k as int).len() == k);
        assert(buf@[k - 1] == buf@.take(k as int)[k - 1]);
        assert(buf@.take(k - 1) =~= utf16_encode(t));
    }
    s
}

/// What a registry string read does after its size probe.
#[derive(Clone, Copy, Debug, PartialEq, Eq, Structural)]
pub enum RegProbeStep {
    /// The probe failed (no such key or value, or not a string): there is no value.
    Missing,
    /// The value is zero bytes long: it is the empty string.
    Empty,
    /// Read the value into a buffer of this many UTF-16 units.
    ReadInto(usize),
}

/// The step that follows a size probe that succeeded or not (`probe_ok`,
/// where more-data also counts as success) and reported `size_bytes`.
pub open spec fn reg_probe_step_of(probe_ok: bool, size_bytes: nat) -> RegProbeStep {
    if !probe_ok {
        RegProbeStep::Missing
    } else if size_bytes == 0 {
        RegProbeStep::Empty
    } else {
        RegProbeStep::ReadInto(((size_bytes + 1) / 2) as usize)
    }
}

/// Decides what follows the size probe of a registry string read: nothing
/// when it failed, the empty string for a zero size, else a read into a
/// buffer that holds `size_bytes` bytes.
pub fn reg_probe_step(probe_ok: bool, size_bytes: u32) -> (step: RegProbeStep)
    ensures
        step == reg_probe_step_of(probe_ok, size_bytes as nat),
{
    if !probe_ok {
        RegProbeStep::Missing
    } else if size_bytes == 0 {
        RegProbeStep::Empty
    } else {
        RegProbeStep::ReadInto(reg_string_units(size_bytes))
    }
}

/// The value of a registry string read into `buf`, which reported `size_bytes`
/// bytes: none when the read failed or reported more than the buffer holds.
pub open spec fn reg_read_result(read_ok: bool, buf: Seq<u16>, size_bytes: nat) -> Option<Seq<char>> {
    if read_ok && size_bytes / 2 <= buf.len() {
        Some(utf16_lossy(reg_string_chars(buf, size_bytes)))
    } else {
        None
    }
}

/// The string that a registry read into `buf` gives: `None` when the read
/// failed or its reported size does not fit the buffer, else the value
/// without its terminator, decoded.
pub fn reg_read_outcome(read_ok: bool, buf: &Vec<u16>, size_bytes: u32) -> (r: Option<String>)
    ensures
        opt_view(r) == reg_read_result(read_ok, buf@, size_bytes as nat),
{
    if !read_ok || (size_bytes / 2) as usize > buf.len() {
        return None;
    }
    Some(reg_string_value(buf, size_bytes))
}

/// The next size of the value-name buffer when a name did not fit: double,
/// and at least 2048 units.
pub fn grown_name_buffer_len(len: usize) -> (n: usize)
    requires
        len <= usize::MAX / 2,
    ensures
        n == if 2 * len >= 2048 {
            2 * len
        } else {
            2048
        },
{
    let doubled = len * 2;
    if doubled >= 2048 {
        doubled
    } else {
        2048
    }
}

} // verus!
