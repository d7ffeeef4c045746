//! The name heuristic that recognises a pseudo-terminal of a POSIX
//! compatibility runtime behind a handle that looks like a plain pipe.
use vstd::prelude::*;

verus! {

/// `pat` occurs in `s` starting at position `i`.
pub open spec fn occurs_at(s: Seq<char>, pat: Seq<char>, i: int) -> bool {
    0 <= i && i + pat.len() <= s.len() && s.subrange(i, i + pat.len()) == pat
}

/// `pat` occurs somewhere in `s`.
pub open spec fn has_substring(s: Seq<char>, pat: Seq<char>) -> bool {
    exists|i: int| occurs_at(s, pat, i)
}

/// A file name that both names a known compatibility runtime (`msys-` or
/// `cygwin-`) and marks a pseudo-terminal endpoint (`-pty`).
pub open spec fn is_msys_pty(name: Seq<char>) -> bool {
    &&& (has_substring(name, "msys-"@) || has_substring(name, "cygwin-"@))
    &&& has_substring(name, "-pty"@)
}

/// Whether `pat` occurs in `s` at position `i`.
fn matches_at(s: &str, pat: &str, i: usize) -> (r: bool)
    requires
        i + pat@.len() <= s@.len(),
        s@.len() <= usize::MAX,
    ensures
        r == occurs_at(s@, pat@, i as int),
{
    let m = pat.unicode_len();
    let mut j: usize = 0;
    while j < m
        invariant
            m == pat@.len(),
            i + m <= s@.len(),
            s@.len() <= usize::MAX,
            j <= m,
            forall|t: int| 0 <= t < j ==> s@[i + t] == pat@[t],
        decreases m - j,
    {
        if s.get_char(i + j) != pat.get_char(j) {
            assert(s@.subrange(i as int, i + m)[j as int] != pat@[j as int]);
            return false;
        }
        j = j + 1;
    }
    assert(s@.subrange(i as int, i + m) =~= pat@);
    true
}

/// Whether `pat` occurs anywhere in `s`.
pub fn contains_str(s: &str, pat: &str) -> (r: bool)
    ensures
        r == has_substring(s@, pat@),
{
    let n = s.unicode_len();
    let m = pat.unicode_len();
    if m > n {
        return false;
    }
    let last = n - m;
    let mut i: usize = 0;
    loop
        invariant
            n == s@.len(),
            m == pat@.len(),
            last == n - m,
            i <= last,
            forall|k: int| 0 <= k < i ==> !occurs_at(s@, pat@, k),
        decreases last - i,
    {
        if matches_at(s, pat, i) {
            return true;
        }
        if i == last {
            assert forall|k: int| !occurs_at(s@, pat@, k) by {
                if 0 <= k && k + m <= n {
                    assert(k <= i);
                }
            }
            return false;
        }
        i = i + 1;
    }
}

/// Whether a file name is that of a pseudo-terminal of an MSYS or Cygwin
/// runtime. Both a runtime token and the pty token must occur: `-pty` alone
/// is an ordinary file name.
pub fn is_msys_pty_name(name: &str) -> (r: bool)
    ensures
        r == is_msys_pty(name@),
{
    let runtime = contains_str(name, "msys-") || contains_str(name, "cygwin-");
    let pty = contains_str(name, "-pty");
    runtime && pty
}

/// A name is taken for a pseudo-terminal only where it holds both a runtime
/// token and the pty token: a name without either one is not.
pub proof fn lemma_pty_needs_both_tokens(name: Seq<char>)
    ensures
        !has_substring(name, "-pty"@) ==> !is_msys_pty(name),
        !has_substring(name, "msys-"@) && !has_substring(name, "cygwin-"@) ==> !is_msys_pty(name),
        is_msys_pty(name) ==> has_substring(name, "-pty"@),
{
}

/// What `String::from_utf16_lossy` makes of a sequence of UTF-16 code units.
pub uninterp spec fn utf16_lossy(units: Seq<u16>) -> Seq<char>;

/// Relies on `String::from_utf16_lossy`: decodes UTF-16, putting U+FFFD for
/// each unpaired surrogate; the result depends on the units alone.
#[verifier::external_body]
fn decode_utf16_lossy(units: &[u16]) -> (r: String)
    ensures
        r@ == utf16_lossy(units@),
{
    String::from_utf16_lossy(units)
}

/// The byte length that a file-name record declares in its first four bytes
/// (a little-endian `u32`).
pub open spec fn declared_len(info: Seq<u8>) -> int {
    info[0] as int + 256 * info[1] as int + 65536 * info[2] as int + 16777216 * info[3] as int
}

/// The little-endian UTF-16 unit at byte offset `at`.
pub open spec fn unit_at(info: Seq<u8>, at: int) -> u16 {
    (info[at] as int + 256 * info[at + 1] as int) as u16
}

/// The UTF-16 name held in a file-name record: a little-endian `u32` byte
/// length, then that many bytes of little-endian UTF-16 units (an odd last
/// byte is not a unit). `None` where the record is shorter than its header
/// or than the length it declares.
pub open spec fn record_units(info: Seq<u8>) -> Option<Seq<u16>> {
    if info.len() < 4 || 4 + declared_len(info) > info.len() {
        None
    } else {
        Some(Seq::new((declared_len(info) / 2) as nat, |k: int| unit_at(info, 4 + 2 * k)))
    }
}

/// Whether a file-name record names a pseudo-terminal of an MSYS or Cygwin
/// runtime; a malformed record does not.
pub open spec fn record_is_msys_pty(info: Seq<u8>) -> bool {
    match record_units(info) {
        Some(units) => is_msys_pty(utf16_lossy(units)),
        None => false,
    }
}

/// Reads the UTF-16 name out of a file-name record, as the console platform
/// fills one in for a handle.
pub fn file_name_units(info: &[u8]) -> (r: Option<Vec<u16>>)
    ensures
        r matches Some(u) ==> record_units(info@) == Some(u@),
        r is None <==> record_units(info@) is None,
{
    let total = info.len();
    if total < 4 {
        return None;
    }
    let len = info[0] as u64 + 256 * (info[1] as u64) + 65536 * (info[2] as u64) + 16777216
        * (info[3] as u64);
    assert(len == declared_len(info@));
    if len > (total - 4) as u64 {
        return None;
    }
    let count = (len / 2) as usize;
    let mut units: Vec<u16> = Vec::new();
    let mut k: usize = 0;
    while k < count
        invariant
            total == info@.len(),
            count == declared_len(info@) / 2,
            4 + declared_len(info@) <= total,
            k <= count,
            units@.len() == k,
            forall|t: int| 0 <= t < k ==> units@[t] == unit_at(info@, 4 + 2 * t),
        decreases count - k,
    {
        let lo = info[4 + 2 * k] as u16;
        let hi = info[4 + 2 * k + 1] as u16;
        units.push(lo + 256 * hi);
        k = k + 1;
    }
    assert(units@ =~= Seq::new(count as nat, |t: int| unit_at(info@, 4 + 2 * t)));
    Some(units)
}

/// Whether the name in a file-name record, decoded from UTF-16, is that of a
/// pseudo-terminal of an MSYS or Cygwin runtime. A malformed record is not.
pub fn is_msys_pty_record(info: &[u8]) -> (r: bool)
    ensures
        r == record_is_msys_pty(info@),
{
    match file_name_units(info) {
        Some(units) => {
            let name = decode_utf16_lossy(units.as_slice());
            is_msys_pty_name(name.as_str())
        },
        None => false,
    }
}

} // verus!
