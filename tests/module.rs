use faithe::loader::{containing_entry, LdrDataTableEntry, ListEntry, LoaderWalk, UnicodeString, WalkStep};
use faithe::module::{find_module_entry, find_pattern, ModuleEntry, ModuleInfo};
use faithe::pattern::Pattern;
use faithe::scanner::{ModulePatIter, ScanStep};
use faithe::FaitheError;

fn entry(name: &str, base: usize) -> ModuleEntry {
    ModuleEntry {
        process_id: 42,
        base_address: base,
        size: 0x1000,
        handle: base,
        name: name.to_string(),
        path: format!("C:\\Windows\\{}", name),
    }
}

#[test]
fn module_lookup_finds_named_entry() {
    let entries = vec![entry("a.dll", 0x1000), entry("b.dll", 0x2000), entry("b.dll", 0x3000)];
    assert_eq!(find_module_entry(&entries, "b.dll"), Ok(1));
    assert_eq!(find_module_entry(&entries, "a.dll"), Ok(0));
}

#[test]
fn module_lookup_of_unloaded_name_fails() {
    let entries = vec![entry("a.dll", 0x1000)];
    assert_eq!(find_module_entry(&entries, "missing.dll"), Err(FaitheError::ModuleNotFound));
    assert_eq!(find_module_entry(&entries, "A.DLL"), Err(FaitheError::ModuleNotFound));
    assert_eq!(find_module_entry(&[], "a.dll"), Err(FaitheError::ModuleNotFound));
}

#[test]
fn find_pattern_in_module_without_it_is_none() {
    let info = ModuleInfo { dll_base: 0x400000, image_size: 6, entry_point: 0x400002 };
    let image = [1u8, 2, 3, 4, 5, 6];
    let pat = Pattern::try_from_ida_style("07 08").unwrap();
    assert_eq!(find_pattern(Ok(info), &image, pat), Ok(None));
}

#[test]
fn find_pattern_passes_lookup_error_on() {
    let pat = Pattern::try_from_ida_style("07 08").unwrap();
    assert_eq!(find_pattern(Err(FaitheError::ModuleNotFound), &[], pat), Err(FaitheError::ModuleNotFound));
}

#[test]
fn pe_header_magic_matches_at_module_base() {
    let info = ModuleInfo { dll_base: 0x7FF6_0000_0000, image_size: 8, entry_point: 0 };
    let image = [0x4Du8, 0x5A, 0x90, 0x00, 0x03, 0x00, 0x00, 0x00];
    let pat = Pattern::try_from_ida_style("4D 5A ? ?").unwrap();
    assert_eq!(find_pattern(Ok(info), &image, pat), Ok(Some(0x7FF6_0000_0000)));
}

#[test]
fn find_pattern_reports_base_plus_offset() {
    let info = ModuleInfo { dll_base: 0x1000, image_size: 6, entry_point: 0 };
    let image = [0u8, 0, 0xC3, 0xCC, 0xC3, 0xCC];
    let pat = Pattern::try_from_peid_style("C3 CC").unwrap();
    assert_eq!(find_pattern(Ok(info), &image, pat), Ok(Some(0x1002)));
}

fn ldr_entry(next_entry: usize, base: usize) -> LdrDataTableEntry {
    let name = UnicodeString { len: 2, maximum_len: 2, buffer: 0x9999 };
    LdrDataTableEntry {
        in_memory_order_links: ListEntry { flink: next_entry + 0x10, blink: 0 },
        dll_base: base,
        entry_point: base + 0x100,
        image_size: 0x2000,
        full_dll_name: name,
        base_dll_name: name,
    }
}

#[test]
fn loader_walk_finds_module_by_exact_name() {
    let head = ListEntry { flink: 0x5010, blink: 0 };
    let mut walk = LoaderWalk::new(&head, "ntdll.dll", false);
    assert_eq!(walk.current(), 0x5000);
    assert_eq!(walk.step(&ldr_entry(0x6000, 0x40_0000), Some("app.exe")), WalkStep::Next(0x6000));
    assert_eq!(walk.current(), 0x6000);
    assert_eq!(
        walk.step(&ldr_entry(0x7000, 0x7FF0_0000), Some("ntdll.dll")),
        WalkStep::Found(ModuleInfo { dll_base: 0x7FF0_0000, image_size: 0x2000, entry_point: 0x7FF0_0100 })
    );
    assert_eq!(walk.step(&ldr_entry(0x7000, 0), Some("ntdll.dll")), WalkStep::NotFound);
}

#[test]
fn loader_walk_stops_when_list_wraps() {
    let head = ListEntry { flink: 0x5010, blink: 0 };
    let mut walk = LoaderWalk::new(&head, "missing.dll", false);
    assert_eq!(walk.step(&ldr_entry(0x6000, 1), Some("a.dll")), WalkStep::Next(0x6000));
    assert_eq!(walk.step(&ldr_entry(0x5000, 2), None), WalkStep::NotFound);
}

#[test]
fn loader_walk_case_folding() {
    let head = ListEntry { flink: 0x5010, blink: 0 };
    let mut exact = LoaderWalk::new(&head, "kernel32.dll", false);
    assert_eq!(exact.step(&ldr_entry(0x5000, 7), Some("KERNEL32.DLL")), WalkStep::NotFound);
    let mut folded = LoaderWalk::new(&head, "kernel32.dll", true);
    assert!(matches!(folded.step(&ldr_entry(0x5000, 7), Some("KERNEL32.DLL")), WalkStep::Found(_)));
}

#[test]
fn containing_entry_subtracts_link_offset() {
    assert_eq!(containing_entry(0x1010), 0x1000);
    assert_eq!(containing_entry(0x8), usize::MAX - 7);
}

#[test]
fn unicode_string_null_checks() {
    assert!(UnicodeString { len: 0, maximum_len: 2, buffer: 1 }.is_null());
    assert!(UnicodeString { len: 2, maximum_len: 0, buffer: 1 }.is_null());
    assert!(UnicodeString { len: 2, maximum_len: 2, buffer: 0 }.is_null());
    assert!(!UnicodeString { len: 2, maximum_len: 2, buffer: 1 }.is_null());
}

fn run_scan(scan: &mut ModulePatIter, memory: &[u8], base: usize) -> Vec<usize> {
    let mut found = Vec::new();
    while let Some(addr) = scan.next_read() {
        let start = addr - base;
        let end = start + scan.window_len();
        let read = if end <= memory.len() { Some(&memory[start..end]) } else { None };
        match scan.feed(read) {
            ScanStep::Found(a) => found.push(a),
            ScanStep::Continue => {}
            ScanStep::Stop => break,
        }
    }
    found
}

#[test]
fn remote_scan_reports_each_match() {
    let memory = [0xAAu8, 0xAA, 0xAA, 0x00];
    let pat = Pattern::try_from_ida_style("AA ?").unwrap();
    let mut scan = ModulePatIter::new(0x100, 0x104, pat);
    assert_eq!(run_scan(&mut scan, &memory, 0x100), vec![0x100, 0x101, 0x102]);
    assert_eq!(scan.next_read(), None);
}

#[test]
fn remote_scan_stops_on_failed_read() {
    let pat = Pattern::try_from_ida_style("01").unwrap();
    let mut scan = ModulePatIter::new(0x100, 0x200, pat);
    assert_eq!(scan.feed(Some(&[1])), ScanStep::Found(0x100));
    assert_eq!(scan.feed(Some(&[2])), ScanStep::Continue);
    assert_eq!(scan.feed(None), ScanStep::Stop);
    assert_eq!(scan.next_read(), None);
}

#[test]
fn remote_scan_agrees_with_find_all() {
    let memory = [0x10u8, 0x4D, 0x5A, 0x4D, 0x5A, 0x00];
    let pat = Pattern::try_from_peid_style("4D 5A").unwrap();
    let local = pat.find_all(&memory);
    let mut scan = ModulePatIter::new(0x2000, 0x2006, pat);
    let remote = run_scan(&mut scan, &memory, 0x2000);
    assert_eq!(remote, local.iter().map(|i| 0x2000 + i).collect::<Vec<_>>());
    assert_eq!(remote, vec![0x2001, 0x2003]);
}
