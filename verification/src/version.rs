//! Ruby interpreter versions: the dotted `MAJOR.MINOR.PATCH` triple embedded
//! in a target interpreter, the parser that recovers it from raw target
//! memory, and the registry of versions whose memory layout has a decoder.

use vstd::prelude::*;

verus! {

/// A Ruby interpreter version, as read from the target's `ruby_version`
/// C string or supplied by the operator as an override.
#[derive(Clone, Copy, Debug, PartialEq, Eq, Structural, Hash)]
pub struct RubyVersion {
    pub major: u32,
    pub minor: u32,
    pub patch: u32,
}

pub open spec fn spec_is_digit(b: u8) -> bool {
    48 <= b <= 57
}

/// End of the run of ASCII digits that starts at `pos`.
pub open spec fn digit_run_end(t: Seq<u8>, pos: int) -> int
    decreases t.len() - pos,
{
    if 0 <= pos < t.len() && spec_is_digit(t[pos]) {
        digit_run_end(t, pos + 1)
    } else {
        pos
    }
}

/// Numeric value of the digits in `t[a..b]`, most significant first.
pub open spec fn digits_value(t: Seq<u8>, a: int, b: int) -> int
    decreases b - a,
{
    if a >= b {
        0
    } else {
        digits_value(t, a, b - 1) * 10 + (t[b - 1] - 48)
    }
}

/// A well-formed version component: one to nine digits (the cap keeps every
/// component below 10^9, well within `u32`; no released interpreter comes
/// anywhere near it).
pub open spec fn valid_component(t: Seq<u8>, a: int, b: int) -> bool {
    &&& 0 <= a < b <= t.len()
    &&& b - a <= 9
    &&& forall|k: int| a <= k < b ==> spec_is_digit(#[trigger] t[k])
}

/// The version triple spelled at position `pos` of `t`: three digit runs
/// separated by single dots, terminated by a NUL byte or the end of `t`.
/// `None` when no such spelling starts there.
pub open spec fn spec_parse_version_at(t: Seq<u8>, pos: int) -> Option<(RubyVersion, int)> {
    let i = digit_run_end(t, pos);
    let j = digit_run_end(t, i + 1);
    let k = digit_run_end(t, j + 1);
    if valid_component(t, pos, i) && i < t.len() && t[i] == 46 && valid_component(t, i + 1, j)
        && j < t.len() && t[j] == 46 && valid_component(t, j + 1, k) && (k == t.len() || t[k]
        == 0) {
        Some(
            (
                RubyVersion {
                    major: digits_value(t, pos, i) as u32,
                    minor: digits_value(t, i + 1, j) as u32,
                    patch: digits_value(t, j + 1, k) as u32,
                },
                k,
            ),
        )
    } else {
        None
    }
}

pub open spec fn spec_parse_version(t: Seq<u8>) -> Option<RubyVersion> {
    match spec_parse_version_at(t, 0) {
        Some(vk) => Some(vk.0),
        None => None,
    }
}

pub open spec fn spec_pow10(n: nat) -> int
    decreases n,
{
    if n == 0 {
        1
    } else {
        10 * spec_pow10((n - 1) as nat)
    }
}

proof fn lemma_digits_value_bound(t: Seq<u8>, a: int, b: int)
    requires
        a <= b,
        forall|k: int| a <= k < b ==> 0 <= #[trigger] t[k] - 48 <= 9,
    ensures
        0 <= digits_value(t, a, b) < spec_pow10((b - a) as nat),
    decreases b - a,
{
    if a < b {
        lemma_digits_value_bound(t, a, b - 1);
    }
}

proof fn lemma_pow10_nine()
    ensures
        spec_pow10(9) == 1000000000,
{
    reveal_with_fuel(spec_pow10, 10);
}

proof fn lemma_pow10_mono(a: nat, b: nat)
    requires
        a <= b,
    ensures
        spec_pow10(a) <= spec_pow10(b),
    decreases b,
{
    if a < b {
        lemma_pow10_mono(a, (b - 1) as nat);
        lemma_digits_pow10_pos((b - 1) as nat);
    }
}

proof fn lemma_digits_pow10_pos(n: nat)
    ensures
        spec_pow10(n) >= 1,
    decreases n,
{
    if n > 0 {
        lemma_digits_pow10_pos((n - 1) as nat);
    }
}

proof fn lemma_run_end_ge(t: Seq<u8>, pos: int)
    ensures
        digit_run_end(t, pos) >= pos,
    decreases t.len() - pos,
{
    if 0 <= pos < t.len() && spec_is_digit(t[pos]) {
        lemma_run_end_ge(t, pos + 1);
    }
}

/// Reads the digit run that starts at `pos`, returning its value and the
/// position just past it; `None` when the run is not a well-formed
/// component.
fn scan_component(t: &Vec<u8>, pos: usize) -> (r: Option<(u32, usize)>)
    requires
        pos <= t@.len(),
    ensures
        match r {
            Some(ve) => {
                &&& valid_component(t@, pos as int, ve.1 as int)
                &&& ve.1 == digit_run_end(t@, pos as int)
                &&& ve.0 == digits_value(t@, pos as int, ve.1 as int)
            },
            None => !valid_component(t@, pos as int, digit_run_end(t@, pos as int)),
        },
{
    let ghost end = digit_run_end(t@, pos as int);
    let mut i: usize = pos;
    let mut value: u32 = 0;
    loop
        invariant
            pos <= i <= t@.len(),
            end == digit_run_end(t@, pos as int),
            end == digit_run_end(t@, i as int),
            forall|k: int| pos <= k < i ==> spec_is_digit(#[trigger] t@[k]),
            i - pos <= 9,
            value == digits_value(t@, pos as int, i as int),
            value < spec_pow10((i - pos) as nat),
        decreases t@.len() - i,
    {
        if i == t.len() || !(48 <= t[i] && t[i] <= 57) {
            assert(end == i);
            if i == pos {
                return None;
            }
            return Some((value, i));
        }
        if i - pos == 9 {
            // a tenth digit: not a component this library accepts
            proof {
                lemma_run_end_ge(t@, i as int + 1);
                assert(end == digit_run_end(t@, i as int + 1));
                assert(end >= i + 1);
            }
            return None;
        }
        proof {
            lemma_pow10_nine();
            lemma_pow10_mono((i - pos) as nat, 8);
            reveal_with_fuel(spec_pow10, 10);
            lemma_digits_value_bound(t@, pos as int, i as int);
        }
        let d: u32 = (t[i] - 48) as u32;
        value = value * 10 + d;
        i = i + 1;
        proof {
            lemma_digits_value_bound(t@, pos as int, i as int);
        }
    }
}

/// Parses the version triple spelled at `pos`, exactly as
/// `spec_parse_version_at` describes it.
pub fn parse_version_at(t: &Vec<u8>, pos: usize) -> (r: Option<(RubyVersion, usize)>)
    requires
        pos <= t@.len(),
    ensures
        match r {
            Some(ve) => spec_parse_version_at(t@, pos as int) == Some(
                (ve.0, ve.1 as int),
            ),
            None => spec_parse_version_at(t@, pos as int) is None,
        },
{
    let (major, i) = match scan_component(t, pos) {
        Some(ve) => ve,
        None => {
            return None;
        },
    };
    if i == t.len() || t[i] != 46 {
        return None;
    }
    let (minor, j) = match scan_component(t, i + 1) {
        Some(ve) => ve,
        None => {
            return None;
        },
    };
    if j == t.len() || t[j] != 46 {
        return None;
    }
    let (patch, k) = match scan_component(t, j + 1) {
        Some(ve) => ve,
        None => {
            return None;
        },
    };
    if !(k == t.len() || t[k] == 0) {
        return None;
    }
    Some((RubyVersion { major, minor, patch }, k))
}

/// Parses a whole buffer as a version string: the triple must start at the
/// first byte and stop at a NUL byte or at the end, the way the target's
/// `ruby_version` C string presents it.
pub fn parse_version(t: &Vec<u8>) -> (r: Option<RubyVersion>)
    ensures
        r == spec_parse_version(t@),
{
    match parse_version_at(t, 0) {
        Some(ve) => Some(ve.0),
        None => None,
    }
}

/// Lexicographic order on version triples.
pub open spec fn spec_at_least(v: RubyVersion, major: u32, minor: u32, patch: u32) -> bool {
    ||| v.major > major
    ||| (v.major == major && v.minor > minor)
    ||| (v.major == major && v.minor == minor && v.patch >= patch)
}

impl RubyVersion {
    /// True when `self` is at or past `major.minor.patch`.
    pub fn at_least(&self, major: u32, minor: u32, patch: u32) -> (r: bool)
        ensures
            r == spec_at_least(*self, major, minor, patch),
    {
        self.major > major || (self.major == major && (self.minor > minor || (self.minor == minor
            && self.patch >= patch)))
    }
}

/// The closed set of interpreter versions that have a structural decoder.
pub open spec fn spec_is_supported(v: RubyVersion) -> bool {
    ||| (v.major == 1 && v.minor == 9 && 1 <= v.patch <= 3)
    ||| (v.major == 2 && v.minor == 0 && v.patch == 0)
    ||| (v.major == 2 && v.minor == 1 && v.patch <= 10)
    ||| (v.major == 2 && v.minor == 2 && v.patch <= 10)
    ||| (v.major == 2 && v.minor == 3 && v.patch <= 8)
    ||| (v.major == 2 && v.minor == 4 && v.patch <= 10)
    ||| (v.major == 2 && v.minor == 5 && v.patch <= 9)
    ||| (v.major == 2 && v.minor == 6 && v.patch <= 10)
    ||| (v.major == 2 && v.minor == 7 && v.patch <= 7)
    ||| (v.major == 3 && v.minor == 0 && v.patch <= 5)
    ||| (v.major == 3 && v.minor == 1 && v.patch <= 3)
}

/// True when `version` names a supported interpreter layout.
pub fn is_supported(version: &RubyVersion) -> (r: bool)
    ensures
        r == spec_is_supported(*version),
{
    if version.major == 1 {
        version.minor == 9 && 1 <= version.patch && version.patch <= 3
    } else if version.major == 2 {
        match version.minor {
            0 => version.patch == 0,
            1 => version.patch <= 10,
            2 => version.patch <= 10,
            3 => version.patch <= 8,
            4 => version.patch <= 10,
            5 => version.patch <= 9,
            6 => version.patch <= 10,
            7 => version.patch <= 7,
            _ => false,
        }
    } else if version.major == 3 {
        match version.minor {
            0 => version.patch <= 5,
            1 => version.patch <= 3,
            _ => false,
        }
    } else {
        false
    }
}

} // verus!
