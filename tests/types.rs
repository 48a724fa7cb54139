use faithe::process::{file_name_of, find_process, threads_of, MemoryChunk, MemoryRegionIter, PointerPath, ProcessEntry, ThreadEntry, MEM_FREE};
use faithe::protection::{page_executable, page_readable, page_writable, MemoryProtection, PAGE_EXECUTE_READ, PAGE_NOACCESS, PAGE_READWRITE};
use faithe::types::{terminated_slice, Ptr, StrPtr, WidePtr};
use faithe::FaitheError;

#[test]
fn terminated_slice_stops_before_terminator() {
    let arr: [u8; 4] = [1, 2, 3, 0];
    assert_eq!(terminated_slice(&arr, 0), &[1, 2, 3]);
    assert_eq!(terminated_slice(&[1u8, 2, 3], 0), &[] as &[u8]);
    let wide: [u16; 3] = [0x61, 0, 0x62];
    assert_eq!(terminated_slice(&wide, 0), &[0x61]);
}

#[test]
fn pointer_arithmetic() {
    let mut p = Ptr::<u32>::new(0xFF);
    assert_eq!(p.address(), 0xFF);
    assert!(!p.is_null());
    p.offset(5);
    assert_eq!(p.address(), 0xFF + 5);
    p.offset(-10);
    assert_eq!(p.address(), 0xFF - 5);
    p.inc();
    p.inc_by(4);
    p.dec();
    p.dec_by(2);
    assert_eq!(p.address(), 0xFF - 3);
    let q = Ptr::<u32>::new(0x200);
    assert_eq!(p.offset_from(q), 0x200 - (0xFF - 3));
    let c: Ptr<u8> = q.cast();
    assert_eq!(c.address(), 0x200);
    assert!(Ptr::<u8>::new(0).is_null());
}

#[test]
fn string_pointers_reject_null() {
    assert!(StrPtr::new(0).is_none());
    let mut s = StrPtr::new(0x1000).unwrap();
    assert_eq!(s.as_ptr(), 0x1000);
    assert_eq!(s.as_mut_ptr(), 0x1000);
    assert!(WidePtr::new(0).is_none());
    let mut w = WidePtr::new(0x2000).unwrap();
    assert_eq!(w.as_ptr(), 0x2000);
    assert_eq!(w.as_mut_ptr(), 0x2000);
}

#[test]
fn protection_round_trips_through_page_flags() {
    for bits in 0u32..8 {
        let p = MemoryProtection::from_bits(bits).unwrap();
        let back = MemoryProtection::from_page_flags(p.to_page_flags()).unwrap();
        assert_eq!(back.bits(), bits);
        assert_eq!(MemoryProtection::from_os(p.to_os()).unwrap().bits(), bits);
    }
    assert!(MemoryProtection::from_bits(8).is_none());
    assert!(MemoryProtection::from_os(-1).is_none());
    assert!(MemoryProtection::from_page_flags(0x100).is_none());
}

#[test]
fn protection_page_flag_values() {
    let rw = MemoryProtection::from_bits(MemoryProtection::READ_WRITE).unwrap();
    assert_eq!(rw.to_page_flags(), PAGE_READWRITE);
    assert!(rw.contains(MemoryProtection::READ));
    assert!(!rw.contains(MemoryProtection::EXECUTE));
    let none = MemoryProtection::from_bits(MemoryProtection::NONE).unwrap();
    assert_eq!(none.to_page_flags(), PAGE_NOACCESS);
    let rx = MemoryProtection::from_page_flags(PAGE_EXECUTE_READ).unwrap();
    assert_eq!(rx.bits(), MemoryProtection::READ_EXECUTE);
}

#[test]
fn page_access_predicates() {
    assert!(page_readable(PAGE_READWRITE));
    assert!(page_writable(PAGE_READWRITE));
    assert!(!page_executable(PAGE_READWRITE));
    assert!(page_executable(PAGE_EXECUTE_READ));
    assert!(!page_writable(PAGE_EXECUTE_READ));
    assert!(!page_readable(PAGE_NOACCESS));
}

fn process(pid: u32, name: &str) -> ProcessEntry {
    ProcessEntry { process_id: pid, cnt_threads: 1, parent_id: 0, thread_base_priority: 8, file_name: name.to_string() }
}

#[test]
fn process_lookup() {
    let procs = vec![process(4, "System"), process(100, "game.exe")];
    assert_eq!(find_process(&procs, "game.exe"), Ok(1));
    assert_eq!(find_process(&procs, "other.exe"), Err(FaitheError::ProcessNotFound));
}

#[test]
fn threads_of_process_only() {
    let threads = vec![
        ThreadEntry { process_id: 1, thread_id: 10, base_priority: 8 },
        ThreadEntry { process_id: 2, thread_id: 20, base_priority: 8 },
        ThreadEntry { process_id: 1, thread_id: 11, base_priority: 9 },
    ];
    let mine = threads_of(&threads, 1);
    assert_eq!(mine.iter().map(|t| t.thread_id).collect::<Vec<_>>(), vec![10, 11]);
    assert!(threads_of(&threads, 3).is_empty());
}

#[test]
fn file_name_after_last_backslash() {
    let path: Vec<u16> = "\\Device\\HarddiskVolume3\\game.exe".encode_utf16().collect();
    let name = file_name_of(&path).unwrap();
    assert_eq!(String::from_utf16(&name).unwrap(), "game.exe");
    let bare: Vec<u16> = "game.exe".encode_utf16().collect();
    assert!(file_name_of(&bare).is_none());
    let trailing: Vec<u16> = "dir\\".encode_utf16().collect();
    assert_eq!(file_name_of(&trailing), Some(vec![]));
}

#[test]
fn pointer_path_reads_all_but_last_offset() {
    // memory: [0x1010] = 0x2000, [0x2008] = 0x3000
    let mut path = PointerPath::new(0x1000, vec![0x10, 0x8, 0x4]);
    assert_eq!(path.target(), None);
    assert_eq!(path.next_read(), Some(0x1010));
    path.feed(0x2000);
    assert_eq!(path.next_read(), Some(0x2008));
    path.feed(0x3000);
    assert_eq!(path.next_read(), None);
    assert_eq!(path.target(), Some(0x3004));
}

#[test]
fn pointer_path_single_offset_and_empty() {
    let path = PointerPath::new(0x1000, vec![0x20]);
    assert_eq!(path.next_read(), None);
    assert_eq!(path.target(), Some(0x1020));
    let empty = PointerPath::new(0x1000, vec![]);
    assert_eq!(empty.next_read(), None);
    assert_eq!(empty.target(), None);
}

#[test]
fn region_walk_skips_free_regions() {
    let mut walk = MemoryRegionIter::new();
    assert_eq!(walk.current(), 0);
    let free = MemoryChunk { base_address: 0, region_size: 0x10000, state: MEM_FREE, protection: 1, alloc_protection: 0 };
    assert_eq!(walk.feed(free), None);
    assert_eq!(walk.current(), 0x10000);
    let used = MemoryChunk { base_address: 0x10000, region_size: 0x1000, state: 0x1000, protection: PAGE_READWRITE, alloc_protection: PAGE_READWRITE };
    let region = walk.feed(used).unwrap();
    assert_eq!((region.start, region.end, region.size), (0x10000, 0x11000, 0x1000));
    assert_eq!(walk.current(), 0x11000);
}
