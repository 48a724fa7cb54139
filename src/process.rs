use vstd::prelude::*;

use crate::error::FaitheError;
use crate::offset::wrap_add;

verus! {

/// Basic information about one running process.
#[derive(Debug, Clone)]
pub struct ProcessEntry {
    /// Id of the process.
    pub process_id: u32,
    /// Number of running threads in the process.
    pub cnt_threads: u32,
    /// Id of the parent process.
    pub parent_id: u32,
    /// Base priority of threads the process creates.
    pub thread_base_priority: i32,
    /// Name of the executable file.
    pub file_name: String,
}

/// Index of the first process whose executable is named `name` in a
/// process snapshot, or `ProcessNotFound` when none is.
pub fn find_process(entries: &[ProcessEntry], name: &str) -> (r: Result<usize, FaitheError>)
    ensures
        r is Err ==> r == Err::<usize, FaitheError>(FaitheError::ProcessNotFound)
            && forall|k: int| 0 <= k < entries@.len() ==> (#[trigger] entries@[k]).file_name@ != name@,
        r is Ok ==> r->Ok_0 < entries@.len() && entries@[r->Ok_0 as int].file_name@ == name@
            && forall|k: int| 0 <= k < r->Ok_0 ==> (#[trigger] entries@[k]).file_name@ != name@,
{
    let target = name.to_owned();
    let mut i: usize = 0;
    while i < entries.len()
        invariant
            i <= entries@.len(),
            target@ == name@,
            forall|k: int| 0 <= k < i ==> (#[trigger] entries@[k]).file_name@ != name@,
        decreases entries@.len() - i,
    {
        if entries[i].file_name == target {
            return Ok(i);
        }
        i += 1;
    }
    Err(FaitheError::ProcessNotFound)
}

/// One running thread.
#[derive(Debug, Clone, Copy, PartialEq, Eq, Structural)]
pub struct ThreadEntry {
    /// Id of the process the thread runs in.
    pub process_id: u32,
    /// Id of the thread.
    pub thread_id: u32,
    /// Priority of the thread.
    pub base_priority: i32,
}

/// The threads among the first `n` entries that run in process `pid`, in order.
pub open spec fn threads_in(s: Seq<ThreadEntry>, pid: u32, n: int) -> Seq<ThreadEntry>
    decreases n,
{
    if n <= 0 {
        Seq::empty()
    } else if s[n - 1].process_id == pid {
        threads_in(s, pid, n - 1).push(s[n - 1])
    } else {
        threads_in(s, pid, n - 1)
    }
}

/// The threads of a system-wide thread snapshot that run in process `pid`,
/// in snapshot order.
pub fn threads_of(entries: &[ThreadEntry], pid: u32) -> (r: Vec<ThreadEntry>)
    ensures
        r@ == threads_in(entries@, pid, entries@.len() as int),
{
    let mut out: Vec<ThreadEntry> = Vec::new();
    let mut i: usize = 0;
    while i < entries.len()
        invariant
            i <= entries@.len(),
            out@ == threads_in(entries@, pid, i as int),
        decreases entries@.len() - i,
    {
        if entries[i].process_id == pid {
            out.push(entries[i]);
        }
        i += 1;
    }
    out
}

/// The UTF-16 code unit of a backslash.
pub const BACKSLASH: u16 = 0x5c;

/// Whether `units` holds a backslash at or after index `from`.
pub open spec fn has_backslash_from(units: Seq<u16>, from: int) -> bool {
    exists|k: int| from <= k < units.len() && units[k] == BACKSLASH
}

/// The file name at the end of a backslash-separated path: the UTF-16 units
/// after its last backslash, or `None` for a path without one.
pub fn file_name_of(path: &[u16]) -> (r: Option<Vec<u16>>)
    ensures
        r is None <==> !has_backslash_from(path@, 0),
        r is Some ==> exists|k: int| 0 <= k < path@.len() && path@[k] == BACKSLASH
            && !has_backslash_from(path@, k + 1) && r->0@ == path@.subrange(k + 1, path@.len() as int),
{
    let n: usize = path.len();
    let mut i: usize = n;
    while i > 0
        invariant
            i <= n,
            n == path@.len(),
            !has_backslash_from(path@, i as int),
        decreases i,
    {
        if path[i - 1] == BACKSLASH {
            let mut out: Vec<u16> = Vec::new();
            let mut j: usize = i;
            while j < n
                invariant
                    i <= j <= n,
                    n == path@.len(),
                    out@ == path@.subrange(i as int, j as int),
                decreases n - j,
            {
                out.push(path[j]);
                j += 1;
                assert(out@ =~= path@.subrange(i as int, j as int));
            }
            return Some(out);
        }
        i -= 1;
        assert forall|k: int| i <= k < path@.len() && path@[k] == BACKSLASH implies false by {
            if k > i {
                assert(has_backslash_from(path@, (i + 1) as int));
            }
        }
    }
    None
}

/// Following a multilevel pointer through another process's memory, as
/// contracts see it.
pub struct PathView {
    /// The current base address.
    pub base: usize,
    /// The offsets of the path.
    pub offsets: Seq<usize>,
    /// Index of the offset to apply next.
    pub index: int,
}

/// A multilevel pointer walk: starting from a base, each offset but the last
/// is added and the pointer-sized value at the sum becomes the next base; the
/// last offset is added to the final base. The caller reads the value at
/// `next_read()` and hands it to `feed` until `target()` gives the address.
pub struct PointerPath {
    base: usize,
    offsets: Vec<usize>,
    index: usize,
}

impl View for PointerPath {
    type V = PathView;

    closed spec fn view(&self) -> PathView {
        PathView { base: self.base, offsets: self.offsets@, index: self.index as int }
    }
}

impl PointerPath {
    /// A walk from `base` along `offsets`.
    pub fn new(base: usize, offsets: Vec<usize>) -> (r: Self)
        ensures
            r@ == (PathView { base, offsets: offsets@, index: 0 }),
    {
        PointerPath { base, offsets, index: 0 }
    }

    /// The address whose value is the next base, while offsets other than
    /// the last remain.
    pub fn next_read(&self) -> (r: Option<usize>)
        ensures
            self@.index + 1 < self@.offsets.len() ==> r == Some(wrap_add(self@.base, self@.offsets[self@.index])),
            !(self@.index + 1 < self@.offsets.len()) ==> r is None,
    {
        if self.index < self.offsets.len() && self.offsets.len() - self.index > 1 {
            Some(self.base.wrapping_add(self.offsets[self.index]))
        } else {
            None
        }
    }

    /// Takes the value read at `next_read()` as the next base.
    pub fn feed(&mut self, value: usize)
        requires
            old(self)@.index + 1 < old(self)@.offsets.len(),
        ensures
            final(self)@ == (PathView { base: value, index: old(self)@.index + 1, ..old(self)@ }),
    {
        let n: usize = self.offsets.len();
        assert(self.index + 1 < n);
        self.base = value;
        self.index = self.index + 1;
    }

    /// The address the path leads to, once only the last offset remains;
    /// `None` before that and for an empty path.
    pub fn target(&self) -> (r: Option<usize>)
        ensures
            self@.index + 1 == self@.offsets.len() ==> r == Some(wrap_add(self@.base, self@.offsets[self@.index])),
            self@.index + 1 != self@.offsets.len() ==> r is None,
    {
        if self.index < self.offsets.len() && self.offsets.len() - self.index == 1 {
            Some(self.base.wrapping_add(self.offsets[self.index]))
        } else {
            None
        }
    }
}

/// Memory state value of a free region.
pub const MEM_FREE: u32 = 0x10000;

/// One allocated memory region of a process.
#[derive(Debug, Clone, Copy, PartialEq, Eq, Structural)]
pub struct MemoryRegion {
    /// Start of the region.
    pub start: usize,
    /// End of the region, exclusive.
    pub end: usize,
    /// Size of the region in bytes.
    pub size: usize,
    /// Windows protection value of the region.
    pub protection: u32,
    /// Windows protection value the region was allocated with.
    pub initial: u32,
}

/// What a memory query reports about the region at an address.
#[derive(Debug, Clone, Copy, PartialEq, Eq, Structural)]
pub struct MemoryChunk {
    /// Start of the region.
    pub base_address: usize,
    /// Size of the region in bytes.
    pub region_size: usize,
    /// Allocation state of the region.
    pub state: u32,
    /// Windows protection value of the region.
    pub protection: u32,
    /// Windows protection value the region was allocated with.
    pub alloc_protection: u32,
}

/// A walk over the allocated regions of a process's address space, from
/// address 0 up. The caller queries the region at `current()` and hands the
/// answer to `feed`; free regions are skipped.
pub struct MemoryRegionIter {
    current: usize,
}

impl View for MemoryRegionIter {
    type V = usize;

    closed spec fn view(&self) -> usize {
        self.current
    }
}

impl MemoryRegionIter {
    /// A walk from address 0.
    pub fn new() -> (r: Self)
        ensures
            r@ == 0,
    {
        MemoryRegionIter { current: 0 }
    }

    /// The address to query next.
    pub fn current(&self) -> (r: usize)
        ensures
            r == self@,
    {
        self.current
    }

    /// Takes the region that the query at `current()` reported: the walk
    /// moves past it, and it is returned unless it is free.
    pub fn feed(&mut self, chunk: MemoryChunk) -> (r: Option<MemoryRegion>)
        ensures
            final(self)@ == wrap_add(chunk.base_address, chunk.region_size),
            chunk.state == MEM_FREE ==> r is None,
            chunk.state != MEM_FREE ==> r == Some(MemoryRegion {
                start: chunk.base_address,
                end: wrap_add(chunk.base_address, chunk.region_size),
                size: chunk.region_size,
                protection: chunk.protection,
                initial: chunk.alloc_protection,
            }),
    {
        let end: usize = chunk.base_address.wrapping_add(chunk.region_size);
        self.current = end;
        if chunk.state == MEM_FREE {
            None
        } else {
            Some(MemoryRegion {
                start: chunk.base_address,
                end,
                size: chunk.region_size,
                protection: chunk.protection,
                initial: chunk.alloc_protection,
            })
        }
    }
}

} // verus!
