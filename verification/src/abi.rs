//! The rendering half of the C ABI surface: frame lines, the path
//! shortening applied to each frame, the `;`-joined snapshot payload, and
//! the error-buffer convention. Everything here is pure text work on plain
//! values; the pointer-facing entry points live with the embedding
//! application.

use vstd::prelude::*;
use vstd::string::{StringExecFns, StrSliceExecFns};
use crate::initialize::StackTraceGetter;
use crate::registry::VersionReaderRegistry;
use crate::text::{find, lemma_find_from_bounds, push_decimal, spec_decimal, spec_find,
    string_push};
use crate::types::{Pid, StackFrame};

verus! {

/// The process-wide registry behind the C ABI: each profiled pid owns one
/// trace getter, keys unique. The embedding serializes access around it;
/// the bookkeeping itself is the library's.
pub struct AbiRegistry<R: VersionReaderRegistry> {
    pub entries: Vec<(Pid, StackTraceGetter<R>)>,
}

/// The entry stands somewhere in the sequence.
pub open spec fn has_entry<R: VersionReaderRegistry>(
    s: Seq<(Pid, StackTraceGetter<R>)>,
    e: (Pid, StackTraceGetter<R>),
) -> bool {
    exists|i: int| 0 <= i < s.len() && (#[trigger] s[i]) == e
}

/// Every entry of `a` already stood in `b`.
pub open spec fn entries_from<R: VersionReaderRegistry>(
    a: Seq<(Pid, StackTraceGetter<R>)>,
    b: Seq<(Pid, StackTraceGetter<R>)>,
) -> bool {
    forall|q: int| #![trigger a[q]] 0 <= q < a.len() ==> has_entry(b, a[q])
}

/// Every entry of `a` not keyed by `pid` already stood in `b`.
pub open spec fn other_entries_from<R: VersionReaderRegistry>(
    a: Seq<(Pid, StackTraceGetter<R>)>,
    b: Seq<(Pid, StackTraceGetter<R>)>,
    pid: Pid,
) -> bool {
    forall|q: int| #![trigger a[q]] 0 <= q < a.len() && a[q].0 != pid ==> has_entry(b, a[q])
}

/// Every entry of `b` not keyed by `pid` survives into `a`.
pub open spec fn keeps_other_keys<R: VersionReaderRegistry>(
    b: Seq<(Pid, StackTraceGetter<R>)>,
    a: Seq<(Pid, StackTraceGetter<R>)>,
    pid: Pid,
) -> bool {
    forall|j: int| #![trigger b[j]] 0 <= j < b.len() && b[j].0 != pid ==> has_entry(a, b[j])
}

/// A sequence of entries stems entirely from itself and keeps every key.
proof fn lemma_entries_unchanged<R: VersionReaderRegistry>(
    s: Seq<(Pid, StackTraceGetter<R>)>,
    pid: Pid,
)
    ensures
        entries_from(s, s),
        keeps_other_keys(s, s, pid),
{
    assert forall|q: int| #![trigger s[q]] 0 <= q < s.len() implies has_entry(s, s[q]) by {
        assert(0 <= q < s.len() && s[q] == s[q]);
    }
}

/// Removing the entry at `idx` by swapping in the last element keeps every
/// other entry, invents none, keeps keys unique, and leaves no entry with
/// the removed key.
proof fn lemma_swap_remove_entry<R: VersionReaderRegistry>(
    s: Seq<(Pid, StackTraceGetter<R>)>,
    idx: int,
    pid: Pid,
)
    requires
        0 <= idx < s.len(),
        s[idx].0 == pid,
        forall|i: int, j: int| 0 <= i < j < s.len() ==> (#[trigger] s[i]).0 != (#[trigger] s[j]).0,
    ensures
        ({
            let f = s.update(idx, s.last()).drop_last();
            &&& forall|i: int, j: int|
                0 <= i < j < f.len() ==> (#[trigger] f[i]).0 != (#[trigger] f[j]).0
            &&& forall|q: int| 0 <= q < f.len() ==> (#[trigger] f[q]).0 != pid
            &&& keeps_other_keys(s, f, pid)
            &&& entries_from(f, s)
        }),
{
    let f = s.update(idx, s.last()).drop_last();
    assert forall|q: int| 0 <= q < f.len() implies (#[trigger] f[q]).0 != pid by {
        if q == idx {
            assert(f[q] == s[s.len() - 1]);
        } else {
            assert(f[q] == s[q]);
        }
    }
    assert forall|q1: int, q2: int| 0 <= q1 < q2 < f.len() implies (#[trigger] f[q1]).0 != (
    #[trigger] f[q2]).0 by {
        if q1 == idx {
            assert(f[q1] == s[s.len() - 1] && f[q2] == s[q2]);
        } else if q2 == idx {
            assert(f[q2] == s[s.len() - 1] && f[q1] == s[q1]);
        } else {
            assert(f[q1] == s[q1] && f[q2] == s[q2]);
        }
    }
    assert forall|j: int| #![trigger s[j]] 0 <= j < s.len() && s[j].0 != pid implies has_entry(
        f,
        s[j],
    ) by {
        if j == s.len() - 1 {
            assert(idx < f.len() && f[idx] == s[j]);
        } else if j != idx {
            assert(f[j] == s[j]);
        }
    }
    assert forall|q: int| #![trigger f[q]] 0 <= q < f.len() implies has_entry(s, f[q]) by {
        if q == idx {
            assert(0 <= s.len() - 1 < s.len() && s[s.len() - 1] == f[q]);
        } else {
            assert(s[q] == f[q]);
        }
    }
}

impl<R: VersionReaderRegistry> AbiRegistry<R> {
    /// Keys are unique.
    pub open spec fn wf(self) -> bool {
        forall|i: int, j: int|
            0 <= i < j < self.entries@.len() ==> (#[trigger] self.entries@[i]).0 != (
            #[trigger] self.entries@[j]).0
    }

    /// Some entry is keyed by this pid.
    pub open spec fn spec_has(self, pid: Pid) -> bool {
        exists|i: int| 0 <= i < self.entries@.len() && (#[trigger] self.entries@[i]).0 == pid
    }

    /// An empty registry.
    pub fn new() -> (r: Self)
        ensures
            r.wf(),
            r.entries@.len() == 0,
    {
        AbiRegistry { entries: Vec::new() }
    }

    /// Removes and hands out the entry for `pid`: the getter that was bound
    /// to it, or nothing when the pid has no entry, which then changes
    /// nothing. Every entry with another pid survives, and no entry appears
    /// that was not there.
    pub fn take(&mut self, pid: Pid) -> (r: Option<StackTraceGetter<R>>)
        requires
            old(self).wf(),
        ensures
            final(self).wf(),
            !final(self).spec_has(pid),
            r matches Some(g) ==> exists|j: int|
                0 <= j < old(self).entries@.len() && old(self).entries@[j] == (pid, g),
            r is None ==> !old(self).spec_has(pid) && final(self).entries@ == old(
                self,
            ).entries@,
            keeps_other_keys(old(self).entries@, final(self).entries@, pid),
            entries_from(final(self).entries@, old(self).entries@),
    {
        let n = self.entries.len();
        let mut i: usize = 0;
        while i < n
            invariant
                n == self.entries@.len(),
                i <= n,
                self.entries@ == old(self).entries@,
                old(self).wf(),
                forall|q: int| 0 <= q < i ==> (#[trigger] self.entries@[q]).0 != pid,
            decreases n - i,
        {
            if self.entries[i].0 == pid {
                let ghost s = self.entries@;
                let ghost idx = i as int;
                let entry = self.entries.swap_remove(i);
                proof {
                    lemma_swap_remove_entry(s, idx, pid);
                    let f = s.update(idx, s.last()).drop_last();
                    assert(self.entries@ =~= f);
                    assert(keeps_other_keys(s, self.entries@, pid));
                    assert(entries_from(self.entries@, s));
                    assert forall|q1: int, q2: int|
                        0 <= q1 < q2 < self.entries@.len() implies (
                    #[trigger] self.entries@[q1]).0 != (#[trigger] self.entries@[q2]).0 by {
                        assert(self.entries@[q1] == f[q1] && self.entries@[q2] == f[q2]);
                    }
                    assert forall|q: int|
                        #![trigger self.entries@[q]]
                        0 <= q < self.entries@.len() implies self.entries@[q].0 != pid by {
                        assert(self.entries@[q] == f[q]);
                    }
                }
                return Some(entry.1);
            }
            i = i + 1;
        }
        proof {
            lemma_entries_unchanged(self.entries@, pid);
        }
        None
    }

    /// Binds `pid` to this getter, replacing any earlier entry for it.
    /// Every entry with another pid survives, and no entry with another pid
    /// appears that was not there.
    pub fn insert(&mut self, pid: Pid, getter: StackTraceGetter<R>)
        requires
            old(self).wf(),
        ensures
            final(self).wf(),
            final(self).spec_has(pid),
            forall|i: int|
                0 <= i < final(self).entries@.len() && (#[trigger] final(self).entries@[i]).0
                    == pid ==> final(self).entries@[i].1 == getter,
            keeps_other_keys(old(self).entries@, final(self).entries@, pid),
            other_entries_from(final(self).entries@, old(self).entries@, pid),
    {
        let ghost s0 = self.entries@;
        let _ = self.take(pid);
        let ghost s1 = self.entries@;
        self.entries.push((pid, getter));
        proof {
            let f = self.entries@;
            assert(f =~= s1.push((pid, getter)));
            assert(f[f.len() - 1] == (pid, getter));
            assert forall|q1: int, q2: int| 0 <= q1 < q2 < f.len() implies (#[trigger] f[q1]).0
                != (#[trigger] f[q2]).0 by {
                if q2 == f.len() - 1 {
                    assert(f[q1] == s1[q1]);
                    assert(s1[q1].0 != pid);
                } else {
                    assert(f[q1] == s1[q1] && f[q2] == s1[q2]);
                }
            }
            assert forall|j: int| #![trigger s0[j]] 0 <= j < s0.len() && s0[j].0 != pid implies
                has_entry(f, s0[j]) by {
                let w = choose|w: int| 0 <= w < s1.len() && (#[trigger] s1[w]) == s0[j];
                assert(0 <= w < f.len() && f[w] == s1[w]);
            }
            assert forall|q: int| #![trigger f[q]] 0 <= q < f.len() && f[q].0 != pid implies
                has_entry(s0, f[q]) by {
                assert(q != f.len() - 1);
                assert(f[q] == s1[q]);
                let w = choose|w: int| 0 <= w < s0.len() && (#[trigger] s0[w]) == s1[q];
            }
        }
    }
}

/// Path shortening, third rule: at `/ruby/<token>/`, strip through the
/// token's separator.
pub open spec fn spec_shorten_ruby(path: Seq<char>) -> Seq<char> {
    match spec_find(path, "/ruby/"@) {
        Some(i) => {
            let rest = path.subrange(i + 6, path.len() as int);
            match spec_find(rest, "/"@) {
                Some(j) => rest.subrange(j + 1, rest.len() as int),
                None => rest,
            }
        },
        None => path,
    }
}

/// Path shortening, second rule: a path under `/gems/` starts at `gems/`.
pub open spec fn spec_shorten_gems(path: Seq<char>) -> Seq<char> {
    match spec_find(path, "/gems/"@) {
        Some(i) => path.subrange(i + 1, path.len() as int),
        None => spec_shorten_ruby(path),
    }
}

/// Path shortening, first rule: a path holding the caller's working
/// directory loses that prefix and the separator after it; a later rule
/// applies when the working directory is empty or ends the path.
pub open spec fn spec_shorten(path: Seq<char>, cwd: Seq<char>) -> Seq<char> {
    if cwd.len() == 0 {
        spec_shorten_gems(path)
    } else {
        match spec_find(path, cwd) {
            Some(i) => if i + cwd.len() + 1 <= path.len() {
                path.subrange(i + cwd.len() as int + 1, path.len() as int)
            } else {
                spec_shorten_gems(path)
            },
            None => spec_shorten_gems(path),
        }
    }
}

fn shorten_ruby(path: &str) -> (r: String)
    ensures
        r@ == spec_shorten_ruby(path@),
{
    let n = path.unicode_len();
    match find(path, "/ruby/") {
        Some(i) => {
            proof {
                lemma_find_from_bounds(path@, "/ruby/"@, 0, i as int);
                reveal_strlit("/ruby/");
            }
            let rest = path.substring_char(i + 6, n);
            let rn = rest.unicode_len();
            match find(rest, "/") {
                Some(j) => {
                    proof {
                        lemma_find_from_bounds(rest@, "/"@, 0, j as int);
                        reveal_strlit("/");
                    }
                    rest.substring_char(j + 1, rn).to_owned()
                },
                None => rest.to_owned(),
            }
        },
        None => path.to_owned(),
    }
}

fn shorten_gems(path: &str) -> (r: String)
    ensures
        r@ == spec_shorten_gems(path@),
{
    let n = path.unicode_len();
    match find(path, "/gems/") {
        Some(i) => {
            proof {
                lemma_find_from_bounds(path@, "/gems/"@, 0, i as int);
                reveal_strlit("/gems/");
            }
            path.substring_char(i + 1, n).to_owned()
        },
        None => shorten_ruby(path),
    }
}

/// Shortens one frame's source path for display.
pub fn shorten_path(path: &str, cwd: &str) -> (r: String)
    ensures
        r@ == spec_shorten(path@, cwd@),
{
    let n = path.unicode_len();
    let cn = cwd.unicode_len();
    if cn == 0 {
        return shorten_gems(path);
    }
    match find(path, cwd) {
        Some(i) => {
            proof {
                lemma_find_from_bounds(path@, cwd@, 0, i as int);
            }
            if n - i - cn >= 1 {
                path.substring_char(i + cn + 1, n).to_owned()
            } else {
                shorten_gems(path)
            }
        },
        None => shorten_gems(path),
    }
}

/// The text of one frame: `<method> - <shortened path>:<line>`.
pub open spec fn spec_frame_line(f: StackFrame, cwd: Seq<char>) -> Seq<char> {
    f.method_name@ + " - "@ + spec_shorten(f.path@, cwd) + ":"@ + spec_decimal(f.line as int)
}

/// Renders one frame.
pub fn frame_line(f: &StackFrame, cwd: &str) -> (r: String)
    ensures
        r@ == spec_frame_line(*f, cwd@),
{
    let mut s = f.method_name.clone();
    s.append(" - ");
    let short = shorten_path(f.path.as_str(), cwd);
    s.append(short.as_str());
    s.append(":");
    push_decimal(&mut s, f.line as u64);
    proof {
        assert(s@ =~= spec_frame_line(*f, cwd@));
    }
    s
}

/// The `;`-joined snapshot payload of the frames `frames[0..k]`, youngest
/// frame last: the outermost (oldest) frame leads, the innermost ends.
pub open spec fn spec_trace_payload(frames: Seq<StackFrame>, cwd: Seq<char>) -> Seq<char>
    decreases frames.len(),
{
    if frames.len() == 0 {
        Seq::empty()
    } else if frames.len() == 1 {
        spec_frame_line(frames[0], cwd)
    } else {
        spec_frame_line(frames.last(), cwd) + seq![';'] + spec_trace_payload(
            frames.drop_last(),
            cwd,
        )
    }
}

/// Renders a whole trace as the snapshot payload: frames reversed (the
/// reader hands them innermost first) and `;`-joined.
pub fn trace_payload(frames: &Vec<StackFrame>, cwd: &str) -> (r: String)
    ensures
        r@ == spec_trace_payload(frames@, cwd@),
{
    let len = frames.len();
    let mut s = String::new();
    let mut k: usize = len;
    while k > 0
        invariant
            len == frames@.len(),
            k <= len,
            k == len ==> s@ == Seq::<char>::empty(),
            k < len ==> spec_trace_payload(frames@, cwd@) == s@ + (if k == 0 {
                Seq::<char>::empty()
            } else {
                seq![';'] + spec_trace_payload(frames@.subrange(0, k as int), cwd@)
            }),
        decreases k,
    {
        let ghost s0 = s@;
        let ghost k0 = k as int;
        if k != len {
            string_push(&mut s, ';');
        }
        k = k - 1;
        let line = frame_line(&frames[k], cwd);
        s.append(line.as_str());
        proof {
            let fs = frames@;
            let sub = fs.subrange(0, k0);
            assert(fs.subrange(0, len as int) =~= fs);
            if k0 < len {
                assert(sub.last() == fs[k0 - 1]);
                assert(sub.drop_last() =~= fs.subrange(0, k0 - 1));
                if k0 == 1 {
                    assert(s@ =~= s0 + seq![';'] + spec_frame_line(fs[0], cwd@));
                    assert(spec_trace_payload(fs, cwd@) =~= s@);
                } else {
                    assert(spec_trace_payload(sub, cwd@) == spec_frame_line(fs[k0 - 1], cwd@)
                        + seq![';'] + spec_trace_payload(fs.subrange(0, k0 - 1), cwd@));
                    assert(spec_trace_payload(fs, cwd@) =~= s@ + seq![';'] + spec_trace_payload(
                        fs.subrange(0, k0 - 1),
                        cwd@,
                    ));
                }
            } else {
                // first line emitted
                assert(s@ =~= spec_frame_line(fs[k0 - 1], cwd@));
                if k0 == 1 {
                    assert(spec_trace_payload(fs, cwd@) =~= s@);
                } else {
                    assert(fs.last() == fs[k0 - 1]);
                    assert(fs.drop_last() =~= fs.subrange(0, k0 - 1));
                    assert(spec_trace_payload(fs, cwd@) =~= s@ + seq![';'] + spec_trace_payload(
                        fs.subrange(0, k0 - 1),
                        cwd@,
                    ));
                }
            }
        }
    }
    proof {
        if len == 0 {
            assert(s@ =~= spec_trace_payload(frames@, cwd@));
        }
    }
    s
}

/// The snapshot buffer convention: the payload may be written only when its
/// length fits `len`.
pub fn payload_fits(payload: &str, len: i32) -> (r: bool)
    requires
        vstd::string::is_ascii(payload),
        payload@.len() <= 0x7fffffff,
    ensures
        r == (0 <= len && payload@.len() <= len),
{
    let n = payload.unicode_len();
    len >= 0 && n <= len as usize
}

/// The error-buffer convention: the message itself when its length fits
/// `err_len`; the fixed too-small notice when only that fits; nothing when
/// not even the notice fits. The returned code is the negative of the
/// chosen message's length. The text is ASCII, so its character count is
/// its byte count.
pub fn error_payload(msg: &str, err_len: i32) -> (r: (Option<String>, i32))
    requires
        vstd::string::is_ascii(msg),
        msg@.len() <= 0x7fffffff,
    ensures
        0 <= err_len && msg@.len() <= err_len ==> r.1 == -(msg@.len() as int) && (
        r.0 matches Some(s) && s@ == msg@),
        !(0 <= err_len && msg@.len() <= err_len) ==> r.1 == -25 && (25 <= err_len ==> (
        r.0 matches Some(s) && s@ == "error buffer is too small"@)) && (err_len < 25
            ==> r.0 is None),
{
    let n = msg.unicode_len();
    if err_len >= 0 && n <= err_len as usize {
        return (Some(msg.to_owned()), -(n as i32));
    }
    proof {
        reveal_strlit("error buffer is too small");
        assert("error buffer is too small"@.len() == 25);
    }
    if err_len >= 25 {
        (Some(String::from_str("error buffer is too small")), -25)
    } else {
        (None, -25)
    }
}

} // verus!
