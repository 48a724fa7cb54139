use vstd::prelude::*;

use crate::pattern::{matches_at, window_matches, Pattern};

verus! {

/// The outcome of testing one candidate address of a remote scan.
#[derive(Debug, Clone, Copy, PartialEq, Eq, Structural)]
pub enum ScanStep {
    /// The pattern matches at this address.
    Found(usize),
    /// No match here; read the next candidate.
    Continue,
    /// The scan has ended: the range is exhausted or a read failed.
    Stop,
}

/// A remote scan, as contracts see it.
pub struct ScanView {
    /// The pattern looked for.
    pub pattern: Seq<crate::pattern::ByteMatch>,
    /// The candidate address to test next.
    pub from: usize,
    /// End of the scanned range, exclusive.
    pub to: usize,
    /// Whether the scan has ended.
    pub finished: bool,
}

/// The candidate to read next: the current address, while a whole window
/// starting there lies inside the range.
pub open spec fn next_candidate(v: ScanView) -> Option<usize> {
    if !v.finished && v.from + v.pattern.len() <= v.to {
        Some(v.from)
    } else {
        None
    }
}

/// What one step does with the bytes read at the candidate (`None` when the
/// read failed).
pub open spec fn scan_step(v: ScanView, read: Option<Seq<u8>>) -> (ScanView, ScanStep) {
    if next_candidate(v) is None || read is None {
        (ScanView { finished: true, ..v }, ScanStep::Stop)
    } else {
        let next = if v.from == usize::MAX {
            ScanView { finished: true, ..v }
        } else {
            ScanView { from: (v.from + 1) as usize, ..v }
        };
        if window_matches(v.pattern, read->0) {
            (next, ScanStep::Found(v.from))
        } else {
            (next, ScanStep::Continue)
        }
    }
}

/// A scan of another process's memory for a pattern, one candidate address
/// at a time: the caller copies `pattern.len()` bytes from the address that
/// `next_read` gives and hands them to `feed`. A failed copy ends the scan.
pub struct ModulePatIter {
    pat: Pattern,
    from: usize,
    to: usize,
    finished: bool,
}

impl View for ModulePatIter {
    type V = ScanView;

    closed spec fn view(&self) -> ScanView {
        ScanView { pattern: self.pat@, from: self.from, to: self.to, finished: self.finished }
    }
}

impl ModulePatIter {
    /// A scan of `[from, to)` for `pat`.
    pub fn new(from: usize, to: usize, pat: Pattern) -> (r: Self)
        ensures
            r@ == (ScanView { pattern: pat@, from, to, finished: false }),
    {
        ModulePatIter { pat, from, to, finished: false }
    }

    /// Number of bytes to copy for each candidate.
    pub fn window_len(&self) -> (r: usize)
        ensures
            r == self@.pattern.len(),
    {
        self.pat.len()
    }

    /// The address to copy from next, or `None` when the scan has ended.
    pub fn next_read(&self) -> (r: Option<usize>)
        ensures
            r == next_candidate(self@),
    {
        if !self.finished && self.from <= self.to && self.to - self.from >= self.pat.len() {
            Some(self.from)
        } else {
            None
        }
    }

    /// Takes the bytes copied from `next_read()`, or `None` when the copy failed.
    pub fn feed(&mut self, read: Option<&[u8]>) -> (r: ScanStep)
        ensures
            (final(self)@, r) == scan_step(
                old(self)@,
                match read {
                    Some(b) => Some(b@),
                    None => None,
                },
            ),
    {
        let candidate = self.next_read();
        let bytes = match (candidate, read) {
            (Some(_), Some(b)) => b,
            _ => {
                self.finished = true;
                return ScanStep::Stop;
            },
        };
        let here: usize = self.from;
        let hit = self.pat.matches(bytes);
        if self.from == usize::MAX {
            self.finished = true;
        } else {
            self.from = self.from + 1;
        }
        if hit {
            ScanStep::Found(here)
        } else {
            ScanStep::Continue
        }
    }
}

/// A remote scan agrees with `find_all` on the same bytes: standing at
/// `start + i` inside a region whose bytes are `memory`, and fed the window
/// of `memory` at offset `i`, it reports a match exactly when the pattern
/// matches `memory` at `i`, and moves on to the next offset.
pub proof fn remote_scan_agrees_with_find_all(v: ScanView, memory: Seq<u8>, start: usize, i: int)
    requires
        !v.finished,
        0 <= i,
        i + v.pattern.len() <= memory.len(),
        v.from == start + i,
        v.to == start + memory.len(),
    ensures
        scan_step(v, Some(memory.subrange(i, i + v.pattern.len()))).1 == (if matches_at(v.pattern, memory, i) {
            ScanStep::Found(v.from)
        } else {
            ScanStep::Continue
        }),
        v.from < usize::MAX ==> scan_step(v, Some(memory.subrange(i, i + v.pattern.len()))).0.from == v.from + 1,
{
    let w = memory.subrange(i, i + v.pattern.len());
    assert(window_matches(v.pattern, w) <==> matches_at(v.pattern, memory, i)) by {
        assert forall|k: int| 0 <= k < v.pattern.len() implies w[k] == memory[i + k] by {}
        if window_matches(v.pattern, w) {
            assert forall|k: int| 0 <= k < v.pattern.len() implies #[trigger] v.pattern[k].accepts(memory[i + k]) by {
                assert(v.pattern[k].accepts(w[k]));
            }
        }
        if matches_at(v.pattern, memory, i) {
            assert forall|k: int| 0 <= k < v.pattern.len() implies #[trigger] v.pattern[k].accepts(w[k]) by {
                assert(v.pattern[k].accepts(memory[i + k]));
            }
        }
    }
}

} // verus!
