use vstd::prelude::*;

use crate::module::ModuleInfo;

verus! {

/// Offset of `ldr_data` in the process environment block.
pub const PEB_LDR_DATA_OFFSET: usize = 0x18;
/// Offset of `being_debugged` in the process environment block.
pub const PEB_BEING_DEBUGGED_OFFSET: usize = 0x2;
/// Offset of `image_base_address` in the process environment block.
pub const PEB_IMAGE_BASE_OFFSET: usize = 0x10;
/// Offset of `process_environmental_block` in the thread environment block.
pub const TEB_PEB_OFFSET: usize = 0x60;
/// Offset of the in-memory-order list head in the loader data.
pub const LDR_DATA_LINKS_OFFSET: usize = 0x20;
/// Offset of the in-memory-order links in a loader entry.
pub const LDR_ENTRY_LINKS_OFFSET: usize = 0x10;
/// Offset of `dll_base` in a loader entry.
pub const LDR_ENTRY_DLL_BASE_OFFSET: usize = 0x30;
/// Offset of `entry_point` in a loader entry.
pub const LDR_ENTRY_ENTRY_POINT_OFFSET: usize = 0x38;
/// Offset of `image_size` in a loader entry.
pub const LDR_ENTRY_IMAGE_SIZE_OFFSET: usize = 0x40;
/// Offset of `full_dll_name` in a loader entry.
pub const LDR_ENTRY_FULL_NAME_OFFSET: usize = 0x48;
/// Offset of `base_dll_name` in a loader entry.
pub const LDR_ENTRY_BASE_NAME_OFFSET: usize = 0x58;
/// Offset of `buffer` in a counted UTF-16 string.
pub const UNICODE_STRING_BUFFER_OFFSET: usize = 0x8;

/// Link of a doubly linked list: the addresses of the next and previous links.
#[derive(Debug, Clone, Copy, PartialEq, Eq, Structural)]
pub struct ListEntry {
    /// Next link.
    pub flink: usize,
    /// Previous link.
    pub blink: usize,
}

/// Counted UTF-16 string: lengths in bytes and the address of the data.
#[derive(Debug, Clone, Copy, PartialEq, Eq, Structural)]
pub struct UnicodeString {
    /// Length of the string, in bytes.
    pub len: u16,
    /// Allocated size, in bytes.
    pub maximum_len: u16,
    /// Address of the UTF-16 data.
    pub buffer: usize,
}

impl UnicodeString {
    /// Whether the length, the allocated size or the buffer address is zero.
    /// `false` does not mean that the buffer points to valid memory.
    pub fn is_null(&self) -> (r: bool)
        ensures
            r == (self.len == 0 || self.maximum_len == 0 || self.buffer == 0),
    {
        self.len == 0 || self.maximum_len == 0 || self.buffer == 0
    }
}

/// Process environment block: the fields the loader walk reads.
#[derive(Debug, Clone, Copy, PartialEq, Eq, Structural)]
pub struct Peb {
    /// Whether the process is being debugged.
    pub being_debugged: bool,
    /// Base address of the loaded image.
    pub image_base_address: usize,
    /// Address of the loader data.
    pub ldr_data: usize,
}

/// Thread environment block: the field the loader walk reads.
#[derive(Debug, Clone, Copy, PartialEq, Eq, Structural)]
pub struct Teb {
    /// Address of the process environment block.
    pub process_environmental_block: usize,
}

/// Loader data: the head of the list of loaded modules.
#[derive(Debug, Clone, Copy, PartialEq, Eq, Structural)]
pub struct PebLdrData {
    /// Size of the structure.
    pub len: u32,
    /// Head of the in-memory-order list of loader entries.
    pub in_memory_order_links: ListEntry,
}

/// One loaded module as the loader records it.
#[derive(Debug, Clone, Copy, PartialEq, Eq, Structural)]
pub struct LdrDataTableEntry {
    /// Links to the neighbouring entries, in memory order.
    pub in_memory_order_links: ListEntry,
    /// Base address of the module.
    pub dll_base: usize,
    /// Address of the module's entry point.
    pub entry_point: usize,
    /// Size of the module's image in bytes.
    pub image_size: u32,
    /// Full path of the module.
    pub full_dll_name: UnicodeString,
    /// File name of the module.
    pub base_dll_name: UnicodeString,
}

/// Subtraction of addresses, modulo the size of the address space.
pub open spec fn wrap_sub(a: usize, b: usize) -> usize {
    if a >= b {
        (a - b) as usize
    } else {
        (a - b + (usize::MAX + 1)) as usize
    }
}

/// Address of the loader entry whose in-memory-order links are at `link`.
pub open spec fn entry_of(link: usize) -> usize {
    wrap_sub(link, LDR_ENTRY_LINKS_OFFSET)
}

/// Address of the loader entry whose in-memory-order links are at `link`.
pub fn containing_entry(link: usize) -> (r: usize)
    ensures
        r == entry_of(link),
{
    link.wrapping_sub(LDR_ENTRY_LINKS_OFFSET)
}

/// What case folding gives for a text.
pub uninterp spec fn lower_of(s: Seq<char>) -> Seq<char>;

/// Relies on `str::to_lowercase`: the result depends on the characters alone.
#[verifier::external_body]
fn lowercase(s: &str) -> (r: String)
    ensures
        r@ == lower_of(s@),
{
    s.to_lowercase()
}

/// The form of a module name that the walk compares.
pub open spec fn name_key(name: Seq<char>, fold_case: bool) -> Seq<char> {
    if fold_case {
        lower_of(name)
    } else {
        name
    }
}

fn key_of(name: &str, fold_case: bool) -> (r: String)
    ensures
        r@ == name_key(name@, fold_case),
{
    if fold_case {
        lowercase(name)
    } else {
        name.to_owned()
    }
}

/// The outcome of one step of a loader walk.
#[derive(Debug, Clone, Copy, PartialEq, Eq, Structural)]
pub enum WalkStep {
    /// The entry just read is the module looked for.
    Found(ModuleInfo),
    /// Read the entry at this address next.
    Next(usize),
    /// The list wrapped back to its first entry without a match.
    NotFound,
}

/// A loader walk, as contracts see it.
pub struct WalkView {
    /// Address of the first entry, where the walk stops when it comes back.
    pub first: usize,
    /// Address of the entry to read next.
    pub current: usize,
    /// The name looked for, case-folded when `fold_case` holds.
    pub key: Seq<char>,
    /// Whether names are compared after case folding.
    pub fold_case: bool,
    /// Whether the walk has ended.
    pub finished: bool,
}

/// What one step does: the entry at `current` was read, with its decoded
/// file name (`None` for a null name).
pub open spec fn walk_step(v: WalkView, entry: LdrDataTableEntry, name: Option<Seq<char>>) -> (WalkView, WalkStep) {
    if v.finished {
        (v, WalkStep::NotFound)
    } else if name is Some && name_key(name->0, v.fold_case) == v.key {
        (WalkView { finished: true, ..v }, WalkStep::Found(ModuleInfo {
            dll_base: entry.dll_base,
            image_size: entry.image_size as usize,
            entry_point: entry.entry_point,
        }))
    } else if entry_of(entry.in_memory_order_links.flink) == v.first {
        (WalkView { finished: true, ..v }, WalkStep::NotFound)
    } else {
        (WalkView { current: entry_of(entry.in_memory_order_links.flink), ..v }, WalkStep::Next(entry_of(entry.in_memory_order_links.flink)))
    }
}

/// A walk over the loader's circular list of module entries, looking for a
/// module by file name. The caller reads the entry at `current()` and hands
/// it to `step` until the walk reports `Found` or `NotFound`.
pub struct LoaderWalk {
    first: usize,
    current: usize,
    key: String,
    fold_case: bool,
    finished: bool,
}

impl View for LoaderWalk {
    type V = WalkView;

    closed spec fn view(&self) -> WalkView {
        WalkView {
            first: self.first,
            current: self.current,
            key: self.key@,
            fold_case: self.fold_case,
            finished: self.finished,
        }
    }
}

impl LoaderWalk {
    /// Starts a walk at the entry after the list head `head`, looking for
    /// `name`, compared exactly or, with `fold_case`, after case folding.
    pub fn new(head: &ListEntry, name: &str, fold_case: bool) -> (r: Self)
        ensures
            r@ == (WalkView {
                first: entry_of(head.flink),
                current: entry_of(head.flink),
                key: name_key(name@, fold_case),
                fold_case,
                finished: false,
            }),
    {
        let first: usize = containing_entry(head.flink);
        LoaderWalk { first, current: first, key: key_of(name, fold_case), fold_case, finished: false }
    }

    /// Address of the entry to read next.
    pub fn current(&self) -> (r: usize)
        ensures
            r == self@.current,
    {
        self.current
    }

    /// Takes the entry read at `current()` and its decoded file name.
    pub fn step(&mut self, entry: &LdrDataTableEntry, name: Option<&str>) -> (r: WalkStep)
        ensures
            (final(self)@, r) == walk_step(
                old(self)@,
                *entry,
                match name {
                    Some(n) => Some(n@),
                    None => None,
                },
            ),
    {
        if self.finished {
            return WalkStep::NotFound;
        }
        let matched = match name {
            Some(n) => key_of(n, self.fold_case) == self.key,
            None => false,
        };
        if matched {
            self.finished = true;
            return WalkStep::Found(ModuleInfo {
                dll_base: entry.dll_base,
                image_size: entry.image_size as usize,
                entry_point: entry.entry_point,
            });
        }
        let next: usize = containing_entry(entry.in_memory_order_links.flink);
        if next == self.first {
            self.finished = true;
            WalkStep::NotFound
        } else {
            self.current = next;
            WalkStep::Next(next)
        }
    }
}

} // verus!
