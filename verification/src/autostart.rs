//! Autostart on login: the per-user Run registry value that launches the
//! application at logon. The registry access itself is platform glue; this
//! module decides what the value holds and whether it points at us.

use vstd::prelude::*;
use crate::wide::{to_wide, utf16_encode};

verus! {

/// The Run value for an executable: its path in double quotes, so Windows
/// does not split it at spaces.
pub open spec fn quoted(path: Seq<char>) -> Seq<char> {
    "\""@ + path + "\""@
}

/// The Run value for the executable at `path`: the path in double quotes.
pub fn quoted_path(path: &str) -> (r: String)
    ensures
        r@ == quoted(path@),
{
    let mut s = "\"".to_owned();
    s.append(path);
    s.append("\"");
    s
}

/// The little-endian bytes of a sequence of UTF-16 code units.
pub open spec fn le_bytes(units: Seq<u16>) -> Seq<u8>
    decreases units.len(),
{
    if units.len() == 0 {
        seq![]
    } else {
        le_bytes(units.drop_last()) + seq![(units.last() % 0x100) as u8, (units.last() / 0x100) as u8]
    }
}

/// The registry data (`REG_SZ`) that enables autostart for the executable
/// at `path`: the quoted path as a null-terminated UTF-16 string, as
/// little-endian bytes.
pub fn run_value_data(path: &str) -> (r: Vec<u8>)
    ensures
        r@ == le_bytes(utf16_encode(quoted(path@)).push(0u16)),
{
    let q = quoted_path(path);
    let wide = to_wide(q.as_str());
    let mut out: Vec<u8> = Vec::new();
    let mut i: usize = 0;
    while i < wide.len()
        invariant
            i <= wide@.len(),
            out@ == le_bytes(wide@.take(i as int)),
        decreases wide@.len() - i,
    {
        let u = wide[i];
        out.push((u % 0x100) as u8);
        out.push((u / 0x100) as u8);
        proof {
            assert(wide@.take(i + 1).drop_last() =~= wide@.take(i as int));
        }
        i = i + 1;
        proof {
            assert(out@ =~= le_bytes(wide@.take(i as int)));
        }
    }
    proof {
        assert(wide@.take(i as int) =~= wide@);
    }
    out
}

/// Win32 status: the operation succeeded.
pub const ERROR_SUCCESS: u32 = 0;
/// Win32 status: the file (here, the registry value) does not exist.
pub const ERROR_FILE_NOT_FOUND: u32 = 2;

/// Whether deleting the Run value achieved "no autostart": it was deleted,
/// or it was already absent (e.g. the user removed it manually).
pub fn delete_disabled_autostart(status: u32) -> (r: bool)
    ensures
        r == (status == ERROR_SUCCESS || status == ERROR_FILE_NOT_FOUND),
{
    status == ERROR_SUCCESS || status == ERROR_FILE_NOT_FOUND
}

/// A UTF-16 high (leading) surrogate.
pub open spec fn is_high_surrogate(u: u16) -> bool {
    0xD800 <= u <= 0xDBFF
}

/// A UTF-16 low (trailing) surrogate.
pub open spec fn is_low_surrogate(u: u16) -> bool {
    0xDC00 <= u <= 0xDFFF
}

/// UTF-16 decoding that replaces every unpaired surrogate with U+FFFD.
pub open spec fn utf16_decode_lossy(us: Seq<u16>) -> Seq<char>
    decreases us.len(),
{
    if us.len() == 0 {
        seq![]
    } else if us.len() >= 2 && is_high_surrogate(us[0]) && is_low_surrogate(us[1]) {
        seq![(0x1_0000 + (us[0] - 0xD800) * 0x400 + (us[1] - 0xDC00)) as char] + utf16_decode_lossy(us.skip(2))
    } else if 0xD800 <= us[0] <= 0xDFFF {
        seq!['\u{FFFD}'] + utf16_decode_lossy(us.skip(1))
    } else {
        seq![us[0] as char] + utf16_decode_lossy(us.skip(1))
    }
}

/// Decode UTF-16, replacing invalid data with U+FFFD.
///
/// Trusted: calls `String::from_utf16_lossy`, documented to decode a UTF-16
/// slice and replace invalid data (unpaired surrogates, each one code unit)
/// with the replacement character; the contract states that decoding.
#[verifier::external_body]
fn utf16_lossy(units: &[u16]) -> (r: String)
    ensures
        r@ == utf16_decode_lossy(units@),
{
    String::from_utf16_lossy(units)
}

/// A character with ASCII uppercase letters mapped to lowercase.
pub open spec fn ascii_lower_char(c: char) -> char {
    if 65 <= c as u32 <= 90 {
        ((c as u32) + 32) as char
    } else {
        c
    }
}

/// A string with ASCII uppercase letters mapped to lowercase; other
/// characters are unchanged.
pub open spec fn ascii_lower(cs: Seq<char>) -> Seq<char> {
    cs.map_values(|c: char| ascii_lower_char(c))
}

/// Whether two strings match ignoring ASCII case.
///
/// Trusted: calls `str::eq_ignore_ascii_case`, documented as the same as
/// comparing the two strings' ASCII-lowercased forms (ASCII letters mapped
/// to lowercase, everything else unchanged); the contract states that.
#[verifier::external_body]
fn eq_ignore_ascii_case(a: &str, b: &str) -> (r: bool)
    ensures
        r == (ascii_lower(a@) == ascii_lower(b@)),
{
    a.eq_ignore_ascii_case(b)
}

/// The code units before the first NUL (all of them when there is none).
pub open spec fn until_nul(us: Seq<u16>) -> Seq<u16>
    decreases us.len(),
{
    if us.len() == 0 {
        us
    } else if us[0] == 0 {
        seq![]
    } else {
        seq![us[0]] + until_nul(us.skip(1))
    }
}

/// The string a Run value read into `buf` holds: the `byte_len` bytes the
/// registry filled, up to the first NUL.
pub open spec fn stored_run_value(buf: Seq<u16>, byte_len: u32) -> Seq<u16> {
    until_nul(buf.take(byte_len as int / 2))
}

/// `until_nul` is the prefix before the first NUL.
proof fn lemma_until_nul(us: Seq<u16>, end: int)
    requires
        0 <= end <= us.len(),
        forall|k: int| 0 <= k < end ==> us[k] != 0,
        end == us.len() || us[end] == 0,
    ensures
        until_nul(us) == us.take(end),
    decreases us.len(),
{
    if us.len() > 0 && end > 0 {
        lemma_until_nul(us.skip(1), end - 1);
        assert(us.take(end) =~= seq![us[0]] + us.skip(1).take(end - 1));
    } else if us.len() > 0 {
        assert(us.take(end) =~= seq![]);
    }
}

/// The Run value expected for the executable at `exe_path`: the quoted
/// path, or the empty string when the executable's path is unknown.
pub open spec fn expected_run_value(exe_path: Option<Seq<char>>) -> Seq<char> {
    match exe_path {
        Some(p) => quoted(p),
        None => seq![],
    }
}

/// Whether the Run value read into `buf` (`byte_len` bytes filled by the
/// registry) names the executable at `exe_path` (`None` when its path is
/// unknown): the stored string, decoded with invalid UTF-16 replaced,
/// equals the expected value ignoring ASCII case.
pub fn run_value_matches(buf: &[u16], byte_len: u32, exe_path: Option<&str>) -> (r: bool)
    requires
        byte_len as int / 2 <= buf@.len(),
    ensures
        r == (ascii_lower(utf16_decode_lossy(stored_run_value(buf@, byte_len)))
            == ascii_lower(expected_run_value(match exe_path {
                Some(p) => Some(p@),
                None => None,
            }))),
{
    let len: usize = (byte_len / 2) as usize;
    let mut end: usize = 0;
    while end < len && buf[end] != 0
        invariant
            end <= len <= buf@.len(),
            len == byte_len as int / 2,
            forall|k: int| 0 <= k < end ==> buf@[k] != 0,
        decreases len - end,
    {
        end = end + 1;
    }
    proof {
        lemma_until_nul(buf@.take(len as int), end as int);
        assert(buf@.take(len as int).take(end as int) =~= buf@.take(end as int));
    }
    let mut units: Vec<u16> = Vec::new();
    let mut i: usize = 0;
    while i < end
        invariant
            i <= end <= buf@.len(),
            units@ == buf@.take(i as int),
        decreases end - i,
    {
        units.push(buf[i]);
        i = i + 1;
        proof {
            assert(units@ =~= buf@.take(i as int));
        }
    }
    let stored = utf16_lossy(units.as_slice());
    let expected = match exe_path {
        Some(p) => quoted_path(p),
        None => String::new(),
    };
    eq_ignore_ascii_case(stored.as_str(), expected.as_str())
}

/// Each UTF-16 code unit contributes exactly two bytes, low byte first:
/// byte `2i` is unit `i` modulo 256 and byte `2i + 1` is unit `i` divided by
/// 256, so reading the bytes back as UTF-16LE gives the units back.
pub proof fn law_le_bytes_per_unit(units: Seq<u16>)
    ensures
        le_bytes(units).len() == 2 * units.len(),
        forall|i: int|
            0 <= i < units.len() ==> {
                &&& #[trigger] le_bytes(units)[2 * i] == units[i] % 256
                &&& le_bytes(units)[2 * i + 1] == units[i] / 256
                &&& le_bytes(units)[2 * i] + 256 * le_bytes(units)[2 * i + 1] == units[i]
            },
    decreases units.len(),
{
    if units.len() > 0 {
        let init = units.drop_last();
        law_le_bytes_per_unit(init);
        assert forall|i: int| 0 <= i < units.len() implies {
            &&& #[trigger] le_bytes(units)[2 * i] == units[i] % 256
            &&& le_bytes(units)[2 * i + 1] == units[i] / 256
            &&& le_bytes(units)[2 * i] + 256 * le_bytes(units)[2 * i + 1] == units[i]
        } by {
            if i < init.len() {
                assert(le_bytes(init)[2 * i] == init[i] % 256);
                assert(init[i] == units[i]);
            }
        }
    }
}

/// The Run value data for `path` is the quoted path, NUL-terminated, as
/// UTF-16LE: one byte pair per code unit, low byte first, ending in the two
/// zero bytes of the terminator.
pub proof fn law_run_value_data_is_utf16le(path: Seq<char>)
    ensures
        ({
            let units = utf16_encode(quoted(path)).push(0u16);
            let data = le_bytes(units);
            &&& data.len() == 2 * units.len()
            &&& forall|i: int|
                0 <= i < units.len() ==> #[trigger] data[2 * i] == units[i] % 256 && data[2 * i + 1] == units[i] / 256
            &&& data[data.len() - 2] == 0 && data[data.len() - 1] == 0
        }),
{
    let units = utf16_encode(quoted(path)).push(0u16);
    law_le_bytes_per_unit(units);
    let n = units.len() - 1;
    assert(units[n] == 0);
    assert(le_bytes(units)[2 * n] == units[n] % 256);
}

/// The Run value is the path between two double quotes, nothing else.
pub proof fn law_quoted_path(path: Seq<char>)
    ensures
        quoted(path).len() == path.len() + 2,
        quoted(path)[0] == '"',
        quoted(path)[path.len() as int + 1] == '"',
        quoted(path).subrange(1, path.len() as int + 1) == path,
{
    reveal_strlit("\"");
    assert(quoted(path).subrange(1, path.len() as int + 1) =~= path);
}

} // verus!
