//! The address finder: locating the embedded version string, the
//! current-thread slot and the VM slot in the target's address space, and
//! asking after the interned-symbol table. The scans work from the memory
//! image: the readable maps backed by the ruby binary or library are
//! scanned for a version-shaped C string, and its writable data segments
//! for pointer slots that the version-specific heuristics accept.

use vstd::prelude::*;
use vstd::string::StrSliceExecFns;
use crate::process::{MapInfo, TargetProcess};
use crate::registry::VersionReaderRegistry;
use crate::text::{find, spec_find};
use crate::types::Error;
use crate::version::{parse_version_at, spec_parse_version_at, RubyVersion};

verus! {

/// Little-endian value of the `n` bytes of `t` starting at `p`.
pub open spec fn spec_le_bytes(t: Seq<u8>, p: int, n: int) -> int
    decreases n,
{
    if n <= 0 {
        0
    } else {
        t[p] + 256 * spec_le_bytes(t, p + 1, n - 1)
    }
}

pub open spec fn spec_pow256(n: nat) -> int
    decreases n,
{
    if n == 0 {
        1
    } else {
        256 * spec_pow256((n - 1) as nat)
    }
}

proof fn lemma_pow256_pos(n: nat)
    ensures
        spec_pow256(n) >= 1,
    decreases n,
{
    if n > 0 {
        lemma_pow256_pos((n - 1) as nat);
    }
}

proof fn lemma_pow256_mono(a: nat, b: nat)
    requires
        a <= b,
    ensures
        spec_pow256(a) <= spec_pow256(b),
    decreases b,
{
    if a < b {
        lemma_pow256_mono(a, (b - 1) as nat);
        lemma_pow256_pos((b - 1) as nat);
    }
}

proof fn lemma_le_bytes_bound(t: Seq<u8>, p: int, n: int)
    requires
        0 <= p,
        p + n <= t.len(),
        forall|k: int| p <= k < p + n ==> 0 <= #[trigger] t[k] < 256,
    ensures
        0 <= spec_le_bytes(t, p, n) < spec_pow256(if n <= 0 {
            0
        } else {
            n as nat
        }),
    decreases n,
{
    if n > 0 {
        lemma_le_bytes_bound(t, p + 1, n - 1);
    }
}

/// The 64-bit little-endian word at offset `o` of `buf`.
pub fn read_word_le(buf: &Vec<u8>, o: usize) -> (r: u64)
    requires
        o + 8 <= buf@.len(),
    ensures
        r as int == spec_le_bytes(buf@, o as int, 8),
{
    let len = buf.len();
    let mut acc: u64 = 0;
    let mut k: usize = 8;
    while k > 0
        invariant
            len == buf@.len(),
            o + 8 <= len,
            k <= 8,
            acc as int == spec_le_bytes(buf@, o + k, 8 - k),
            acc < spec_pow256((8 - k) as nat),
        decreases k,
    {
        proof {
            lemma_pow256_mono((8 - k) as nat, 7);
            reveal_with_fuel(spec_pow256, 9);
        }
        k = k - 1;
        acc = acc * 256 + (buf[o + k] as u64);
        proof {
            lemma_le_bytes_bound(buf@, o + k, 8 - k);
        }
    }
    acc
}

/// A 64-bit word as a target address, when it fits one.
pub fn word_to_addr(w: u64) -> (r: Option<usize>)
    ensures
        match r {
            Some(a) => a as int == w as int,
            None => w > usize::MAX,
        },
{
    if w <= usize::MAX as u64 {
        Some(w as usize)
    } else {
        None
    }
}

/// Position of the last occurrence of `c` in `s`.
pub open spec fn spec_rfind_char(s: Seq<char>, c: char) -> Option<int>
    decreases s.len(),
{
    if s.len() == 0 {
        None
    } else if s[s.len() - 1] == c {
        Some(s.len() - 1)
    } else {
        spec_rfind_char(s.drop_last(), c)
    }
}

/// The final path component: everything after the last separator.
pub open spec fn spec_basename(p: Seq<char>) -> Seq<char> {
    match spec_rfind_char(p, '/') {
        Some(i) => p.subrange(i + 1, p.len() as int),
        None => p,
    }
}

/// Last occurrence of `c` in `s`.
pub fn rfind_char(s: &str, c: char) -> (r: Option<usize>)
    ensures
        match r {
            Some(i) => i < s@.len() && spec_rfind_char(s@, c) == Some(i as int),
            None => spec_rfind_char(s@, c) is None,
        },
{
    let n = s.unicode_len();
    proof {
        assert(s@.subrange(0, n as int) =~= s@);
    }
    let mut j: usize = n;
    while j > 0
        invariant
            n == s@.len(),
            j <= n,
            spec_rfind_char(s@, c) == spec_rfind_char(s@.subrange(0, j as int), c),
        decreases j,
    {
        let ch = s.get_char(j - 1);
        proof {
            assert(s@.subrange(0, j as int).drop_last() =~= s@.subrange(0, j - 1));
            assert(s@.subrange(0, j as int).last() == s@[j - 1]);
        }
        if ch == c {
            return Some(j - 1);
        }
        j = j - 1;
    }
    proof {
        assert(s@.subrange(0, 0) =~= Seq::<char>::empty());
    }
    None
}

/// A readable map of the Ruby image: backed by a file whose name mentions
/// ruby (`ruby`, `libruby-x.y.so`, ...). The embedded version string lies
/// in the image's read-only data, which split-segment layouts map readable
/// and non-executable, so no execute bit is asked for.
pub open spec fn spec_is_ruby_map(m: MapInfo) -> bool {
    &&& m.read
    &&& m.path matches Some(p) && spec_find(spec_basename(p@), "ruby"@) is Some
}

/// Whether this map is a readable map of the Ruby image.
pub fn is_ruby_map(m: &MapInfo) -> (r: bool)
    ensures
        r == spec_is_ruby_map(*m),
{
    if !m.read {
        return false;
    }
    match &m.path {
        Some(p) => {
            let n = p.as_str().unicode_len();
            let base = match rfind_char(p.as_str(), '/') {
                Some(i) => p.as_str().substring_char(i + 1, n),
                None => p.as_str(),
            };
            find(base, "ruby").is_some()
        },
        None => false,
    }
}

/// A map with the same backing file as some Ruby image map: the data and
/// bss segments of the image carry the same path with other permissions.
pub open spec fn spec_is_ruby_data_map(m: MapInfo) -> bool {
    &&& m.write
    &&& m.read
    &&& m.path matches Some(p) && spec_find(spec_basename(p@), "ruby"@) is Some
}

/// Whether this map is a writable data segment of the Ruby image.
pub fn is_ruby_data_map(m: &MapInfo) -> (r: bool)
    ensures
        r == spec_is_ruby_data_map(*m),
{
    if !m.write || !m.read {
        return false;
    }
    match &m.path {
        Some(p) => {
            let n = p.as_str().unicode_len();
            let base = match rfind_char(p.as_str(), '/') {
                Some(i) => p.as_str().substring_char(i + 1, n),
                None => p.as_str(),
            };
            find(base, "ruby").is_some()
        },
        None => false,
    }
}

/// A version-shaped C string starts at `p`: the spelling must sit at the
/// start of the buffer or right after a NUL, the way distinct constants lie
/// in a read-only data segment.
pub open spec fn spec_version_candidate_at(t: Seq<u8>, p: int) -> bool {
    &&& 0 <= p <= t.len()
    &&& p == 0 || t[p - 1] == 0
    &&& spec_parse_version_at(t, p) is Some
}

/// Finds the first version-shaped C string in the buffer and its value.
pub fn scan_version(buf: &Vec<u8>) -> (r: Option<(usize, RubyVersion)>)
    ensures
        match r {
            Some(pv) => {
                &&& spec_version_candidate_at(buf@, pv.0 as int)
                &&& spec_parse_version_at(buf@, pv.0 as int) matches Some(ve) && ve.0 == pv.1
                &&& forall|q: int| 0 <= q < pv.0 ==> !spec_version_candidate_at(buf@, q)
            },
            None => forall|q: int| !spec_version_candidate_at(buf@, q),
        },
{
    let n = buf.len();
    let mut p: usize = 0;
    while p < n
        invariant
            n == buf@.len(),
            p <= n,
            forall|q: int| 0 <= q < p ==> !spec_version_candidate_at(buf@, q),
        decreases n - p,
    {
        if p == 0 || buf[p - 1] == 0 {
            match parse_version_at(buf, p) {
                Some(ve) => {
                    return Some((p, ve.0));
                },
                None => {
                },
            }
        }
        p = p + 1;
    }
    assert(forall|q: int| 0 <= q < n ==> !spec_version_candidate_at(buf@, q));
    assert forall|q: int| !spec_version_candidate_at(buf@, q) by {
        if q == n {
            assert(spec_parse_version_at(buf@, q) is None);
        }
    }
    None
}

/// Locates the embedded `ruby_version` string: the first version-shaped C
/// string in a readable map of the Ruby image.
pub fn version_string_address(process: &TargetProcess, maps: &Vec<MapInfo>) -> (r: Result<
    usize,
    Error,
>)
    ensures
        r matches Err(e) ==> e == Error::CouldNotDetectVersion,
{
    let n = maps.len();
    let mut i: usize = 0;
    while i < n
        invariant
            n == maps@.len(),
            i <= n,
        decreases n - i,
    {
        let m = &maps[i];
        if is_ruby_map(m) {
            match process.copy_bytes(m.start, m.size) {
                Ok(buf) => {
                    match scan_version(&buf) {
                        Some(pv) => {
                            if m.start <= usize::MAX - pv.0 {
                                return Ok(m.start + pv.0);
                            }
                        },
                        None => {
                        },
                    }
                },
                Err(_) => {
                },
            }
        }
        i = i + 1;
    }
    Err(Error::CouldNotDetectVersion)
}

/// Reads and parses the target's embedded version string: up to 15 bytes at
/// `addr`, a dotted triple terminated by a NUL.
pub fn read_version_at(process: &TargetProcess, addr: usize) -> (r: Result<RubyVersion, Error>)
    ensures
        r matches Err(e) ==> e == Error::CouldNotDetectVersion,
{
    let buf = match process.copy_bytes(addr, 15) {
        Ok(b) => b,
        Err(_) => {
            return Err(Error::CouldNotDetectVersion);
        },
    };
    match parse_version_at(&buf, 0) {
        Some(ve) => Ok(ve.0),
        None => Err(Error::CouldNotDetectVersion),
    }
}

/// Detects the target's Ruby version from its memory image.
pub fn get_ruby_version(process: &TargetProcess, maps: &Vec<MapInfo>) -> (r: Result<
    RubyVersion,
    Error,
>)
    ensures
        r matches Err(e) ==> e == Error::CouldNotDetectVersion,
{
    let addr = version_string_address(process, maps)?;
    read_version_at(process, addr)
}

/// Scans the writable data segments of the Ruby image for a slot whose
/// content the version-specific heuristic accepts; returns the slot's
/// address, which is never zero.
fn scan_slots<R: VersionReaderRegistry>(
    process: &TargetProcess,
    version: &RubyVersion,
    registry: &R,
    maps: &Vec<MapInfo>,
    want_vm: bool,
) -> (r: Option<usize>)
    ensures
        r matches Some(a) ==> a != 0,
{
    let n = maps.len();
    let mut i: usize = 0;
    while i < n
        invariant
            n == maps@.len(),
            i <= n,
        decreases n - i,
    {
        let m = &maps[i];
        if is_ruby_data_map(m) {
            match process.copy_bytes(m.start, m.size) {
                Ok(buf) => {
                    let len = buf.len();
                    let mut o: usize = 0;
                    while o < len && len - o >= 8
                        invariant
                            len == buf@.len(),
                            o <= len,
                        decreases len - o,
                    {
                        let w = read_word_le(&buf, o);
                        match word_to_addr(w) {
                            Some(value) => {
                                if value != 0 && m.start <= usize::MAX - o {
                                    let slot = m.start + o;
                                    if slot != 0 {
                                        let hit = if want_vm {
                                            registry.is_maybe_vm(version, value, slot, process, maps)
                                        } else {
                                            registry.is_maybe_thread(
                                                version,
                                                value,
                                                slot,
                                                process,
                                                maps,
                                            )
                                        };
                                        if hit {
                                            return Some(slot);
                                        }
                                    }
                                }
                            },
                            None => {
                            },
                        }
                        o = o + 8;
                    }
                },
                Err(_) => {
                },
            }
        }
        i = i + 1;
    }
    None
}

/// Locates the slot holding the current-thread pointer (interpreters before
/// 3.0). The result is never zero, zero being the sentinel for "resolve
/// through the VM at sample time".
pub fn current_thread_address<R: VersionReaderRegistry>(
    process: &TargetProcess,
    version: &RubyVersion,
    registry: &R,
    maps: &Vec<MapInfo>,
) -> (r: Option<usize>)
    ensures
        r matches Some(a) ==> a != 0,
{
    scan_slots(process, version, registry, maps, false)
}

/// Locates the slot holding the pointer to the Ruby VM root structure.
/// The result is never zero.
pub fn get_vm_address<R: VersionReaderRegistry>(
    process: &TargetProcess,
    version: &RubyVersion,
    registry: &R,
    maps: &Vec<MapInfo>,
) -> (r: Option<usize>)
    ensures
        r matches Some(a) ==> a != 0,
{
    scan_slots(process, version, registry, maps, true)
}

} // verus!
