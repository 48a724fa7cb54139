use vstd::prelude::*;

verus! {

/// Windows page protection value: no access.
pub const PAGE_NOACCESS: u32 = 0x01;
/// Windows page protection value: read only.
pub const PAGE_READONLY: u32 = 0x02;
/// Windows page protection value: read and write.
pub const PAGE_READWRITE: u32 = 0x04;
/// Windows page protection value: copy on write.
pub const PAGE_WRITECOPY: u32 = 0x08;
/// Windows page protection value: execute only.
pub const PAGE_EXECUTE: u32 = 0x10;
/// Windows page protection value: execute and read.
pub const PAGE_EXECUTE_READ: u32 = 0x20;
/// Windows page protection value: execute, read and write.
pub const PAGE_EXECUTE_READWRITE: u32 = 0x40;
/// Windows page protection value: execute and copy on write.
pub const PAGE_EXECUTE_WRITECOPY: u32 = 0x80;

/// Memory page protection as read, write and execute bits.
#[derive(Debug, Clone, Copy, PartialEq, Eq, Structural)]
pub struct MemoryProtection {
    bits: u32,
}

/// The Windows page protection value for the given access rights.
pub open spec fn page_flags_for(read: bool, write: bool, execute: bool) -> u32 {
    if !read && !write && !execute {
        PAGE_NOACCESS
    } else if !read && !write && execute {
        PAGE_EXECUTE
    } else if !read && write && !execute {
        PAGE_WRITECOPY
    } else if !read && write && execute {
        PAGE_EXECUTE_WRITECOPY
    } else if read && !write && !execute {
        PAGE_READONLY
    } else if read && !write && execute {
        PAGE_EXECUTE_READ
    } else if read && write && !execute {
        PAGE_READWRITE
    } else {
        PAGE_EXECUTE_READWRITE
    }
}

/// The protection bits a Windows page protection value stands for, if any.
pub open spec fn bits_for_page_flags(flags: u32) -> Option<u32> {
    if flags == PAGE_NOACCESS {
        Some(MemoryProtection::NONE)
    } else if flags == PAGE_EXECUTE {
        Some(MemoryProtection::EXECUTE)
    } else if flags == PAGE_WRITECOPY {
        Some(MemoryProtection::WRITE)
    } else if flags == PAGE_EXECUTE_WRITECOPY {
        Some(MemoryProtection::WRITE_EXECUTE)
    } else if flags == PAGE_READONLY {
        Some(MemoryProtection::READ)
    } else if flags == PAGE_EXECUTE_READ {
        Some(MemoryProtection::READ_EXECUTE)
    } else if flags == PAGE_READWRITE {
        Some(MemoryProtection::READ_WRITE)
    } else if flags == PAGE_EXECUTE_READWRITE {
        Some(MemoryProtection::READ_WRITE_EXECUTE)
    } else {
        None
    }
}

impl View for MemoryProtection {
    type V = u32;

    closed spec fn view(&self) -> u32 {
        self.bits
    }
}

impl MemoryProtection {
    /// No access.
    pub const NONE: u32 = 0b000;
    /// Read access.
    pub const READ: u32 = 0b001;
    /// Write access.
    pub const WRITE: u32 = 0b010;
    /// Execute access.
    pub const EXECUTE: u32 = 0b100;
    /// Read and write access.
    pub const READ_WRITE: u32 = 0b011;
    /// Read and execute access.
    pub const READ_EXECUTE: u32 = 0b101;
    /// Write and execute access.
    pub const WRITE_EXECUTE: u32 = 0b110;
    /// Read, write and execute access.
    pub const READ_WRITE_EXECUTE: u32 = 0b111;

    /// The protection with these bits, or `None` when a bit outside read,
    /// write and execute is set.
    pub fn from_bits(bits: u32) -> (r: Option<Self>)
        ensures
            r is Some <==> bits <= 7,
            r is Some ==> r->0@ == bits,
    {
        if bits <= 7 {
            Some(MemoryProtection { bits })
        } else {
            None
        }
    }

    /// The protection's bits.
    pub fn bits(&self) -> (r: u32)
        ensures
            r == self@,
    {
        self.bits
    }

    /// Whether every bit of `other` is set here.
    pub fn contains(&self, other: u32) -> (r: bool)
        ensures
            r == (self@ & other == other),
    {
        self.bits & other == other
    }

    /// The Unix protection value: read is `PROT_READ`, write `PROT_WRITE`,
    /// execute `PROT_EXEC`.
    pub fn to_os(&self) -> (r: i32)
        ensures
            r == self@ as i32,
    {
        self.bits as i32
    }

    /// The protection a Unix protection value stands for, or `None` when it
    /// holds other bits.
    pub fn from_os(prot: i32) -> (r: Option<Self>)
        ensures
            r is Some <==> 0 <= prot <= 7,
            r is Some ==> r->0@ == prot as u32,
    {
        if 0 <= prot && prot <= 7 {
            Some(MemoryProtection { bits: prot as u32 })
        } else {
            None
        }
    }

    /// The Windows page protection value: `---` no access, `--x` execute,
    /// `-w-` write-copy, `-wx` execute-write-copy, `r--` read only, `r-x`
    /// execute-read, `rw-` read-write, `rwx` execute-read-write.
    pub fn to_page_flags(&self) -> (r: u32)
        ensures
            r == page_flags_for(self@ & 1 != 0, self@ & 2 != 0, self@ & 4 != 0),
    {
        let read = self.bits & 1 != 0;
        let write = self.bits & 2 != 0;
        let execute = self.bits & 4 != 0;
        if !read && !write && !execute {
            PAGE_NOACCESS
        } else if !read && !write && execute {
            PAGE_EXECUTE
        } else if !read && write && !execute {
            PAGE_WRITECOPY
        } else if !read && write && execute {
            PAGE_EXECUTE_WRITECOPY
        } else if read && !write && !execute {
            PAGE_READONLY
        } else if read && !write && execute {
            PAGE_EXECUTE_READ
        } else if read && write && !execute {
            PAGE_READWRITE
        } else {
            PAGE_EXECUTE_READWRITE
        }
    }

    /// The protection a Windows page protection value stands for, or `None`
    /// for any value outside the eight that `to_page_flags` gives.
    pub fn from_page_flags(flags: u32) -> (r: Option<Self>)
        ensures
            r is Some <==> bits_for_page_flags(flags) is Some,
            r is Some ==> r->0@ == bits_for_page_flags(flags)->0,
    {
        let bits: u32 = if flags == PAGE_NOACCESS {
            Self::NONE
        } else if flags == PAGE_EXECUTE {
            Self::EXECUTE
        } else if flags == PAGE_WRITECOPY {
            Self::WRITE
        } else if flags == PAGE_EXECUTE_WRITECOPY {
            Self::WRITE_EXECUTE
        } else if flags == PAGE_READONLY {
            Self::READ
        } else if flags == PAGE_EXECUTE_READ {
            Self::READ_EXECUTE
        } else if flags == PAGE_READWRITE {
            Self::READ_WRITE
        } else if flags == PAGE_EXECUTE_READWRITE {
            Self::READ_WRITE_EXECUTE
        } else {
            return None;
        };
        Some(MemoryProtection { bits })
    }
}

/// Whether memory with this Windows protection value can be read.
pub fn page_readable(flags: u32) -> (r: bool)
    ensures
        r == (flags & PAGE_READONLY != 0 || flags & PAGE_READWRITE != 0 || flags & PAGE_EXECUTE_READ != 0
            || flags & PAGE_EXECUTE_READWRITE != 0 || flags & PAGE_EXECUTE_WRITECOPY != 0),
{
    flags & PAGE_READONLY != 0 || flags & PAGE_READWRITE != 0 || flags & PAGE_EXECUTE_READ != 0
        || flags & PAGE_EXECUTE_READWRITE != 0 || flags & PAGE_EXECUTE_WRITECOPY != 0
}

/// Whether memory with this Windows protection value can be written.
pub fn page_writable(flags: u32) -> (r: bool)
    ensures
        r == (flags & PAGE_WRITECOPY != 0 || flags & PAGE_READWRITE != 0 || flags & PAGE_EXECUTE_READWRITE != 0
            || flags & PAGE_EXECUTE_WRITECOPY != 0),
{
    flags & PAGE_WRITECOPY != 0 || flags & PAGE_READWRITE != 0 || flags & PAGE_EXECUTE_READWRITE != 0
        || flags & PAGE_EXECUTE_WRITECOPY != 0
}

/// Whether memory with this Windows protection value can be executed.
pub fn page_executable(flags: u32) -> (r: bool)
    ensures
        r == (flags & PAGE_EXECUTE != 0 || flags & PAGE_EXECUTE_READ != 0 || flags & PAGE_EXECUTE_READWRITE != 0
            || flags & PAGE_EXECUTE_WRITECOPY != 0),
{
    flags & PAGE_EXECUTE != 0 || flags & PAGE_EXECUTE_READ != 0 || flags & PAGE_EXECUTE_READWRITE != 0
        || flags & PAGE_EXECUTE_WRITECOPY != 0
}

} // verus!
