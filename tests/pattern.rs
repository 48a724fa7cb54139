use faithe::pattern::{ByteMatch, Pattern};
use faithe::FaitheError;

#[test]
fn ida_style_compiles_bytes_and_wildcards() {
    let p = Pattern::try_from_ida_style("48 89 85 F0 00 00 00 4C 8B ? ? ? ? ? 48 8D").unwrap();
    assert_eq!(p.len(), 16);
    assert!(p.matches(&[0x48, 0x89, 0x85, 0xF0, 0, 0, 0, 0x4C, 0x8B, 1, 2, 3, 4, 5, 0x48, 0x8D]));
    assert!(!p.matches(&[0x48, 0x89, 0x85, 0xF0, 0, 0, 0, 0x4C, 0x8B, 1, 2, 3, 4, 5, 0x48, 0x8E]));
}

#[test]
fn ida_style_is_case_insensitive() {
    let upper = Pattern::try_from_ida_style("AB CD").unwrap();
    let lower = Pattern::try_from_ida_style("ab cd").unwrap();
    assert!(upper.matches(&[0xAB, 0xCD]));
    assert!(lower.matches(&[0xAB, 0xCD]));
}

#[test]
fn ida_style_rejects_bad_token() {
    assert!(matches!(Pattern::try_from_ida_style("48 ZZ"), Err(FaitheError::InvalidPattern)));
    assert!(matches!(Pattern::try_from_ida_style("48 100"), Err(FaitheError::InvalidPattern)));
    assert!(matches!(Pattern::try_from_ida_style("48 ??"), Err(FaitheError::InvalidPattern)));
}

#[test]
fn ida_style_rejects_non_ascii() {
    assert!(matches!(Pattern::try_from_ida_style("48 é"), Err(FaitheError::NonAsciiPattern)));
    assert!(matches!(Pattern::try_from_peid_style("48 é"), Err(FaitheError::NonAsciiPattern)));
}

#[test]
fn ida_style_skips_extra_whitespace() {
    let p = Pattern::try_from_ida_style("  48\t\t?\n 8D  ").unwrap();
    assert_eq!(p.len(), 3);
    assert!(p.matches(&[0x48, 0x00, 0x8D]));
}

#[test]
fn panicking_constructors_compile_valid_text() {
    let ida = Pattern::from_ida_style("4D 5A ? ?");
    let peid = Pattern::from_peid_style("4D 5A ?? ??");
    assert!(ida.matches(&[0x4D, 0x5A, 0x90, 0x00]));
    assert!(peid.matches(&[0x4D, 0x5A, 0x90, 0x00]));
}

#[test]
fn peid_style_compiles_bytes_and_wildcards() {
    let p = Pattern::try_from_peid_style("48 89 85 F0 00 00 00 4C 8B ?? ?? ?? ?? ?? 48 8D").unwrap();
    assert_eq!(p.len(), 16);
    assert!(p.matches(&[0x48, 0x89, 0x85, 0xF0, 0, 0, 0, 0x4C, 0x8B, 9, 9, 9, 9, 9, 0x48, 0x8D]));
}

#[test]
fn peid_style_rejects_token_of_wrong_length() {
    assert!(matches!(Pattern::try_from_peid_style("48 ? 8D"), Err(FaitheError::InvalidPattern)));
    assert!(matches!(Pattern::try_from_peid_style("48 8 8D"), Err(FaitheError::InvalidPattern)));
    assert!(matches!(Pattern::try_from_peid_style("048 8D"), Err(FaitheError::InvalidPattern)));
}

#[test]
fn code_style_compiles_mask() {
    let p = Pattern::try_from_code_style(
        b"\x48\x89\x85\xF0\x00\x00\x00\x4C\x8B\x00\x00\x00\x00\x00\x48\x8D",
        b"xxxxxxxxx?????xx",
    )
    .unwrap();
    assert_eq!(p.len(), 16);
    assert!(p.matches(&[0x48, 0x89, 0x85, 0xF0, 0, 0, 0, 0x4C, 0x8B, 7, 7, 7, 7, 7, 0x48, 0x8D]));
    let q = Pattern::from_code_style(b"\x01\x02", b"x?");
    assert!(q.matches(&[1, 200]));
    assert!(!q.matches(&[2, 2]));
}

#[test]
fn code_style_length_mismatch_fails() {
    assert!(matches!(Pattern::try_from_code_style(b"\x01\x02\x03", b"xx"), Err(FaitheError::PatternMaskMismatch)));
    assert!(matches!(Pattern::try_from_code_style(b"", b"x"), Err(FaitheError::PatternMaskMismatch)));
}

#[test]
fn round_trip_each_notation() {
    let bytes = [0x00u8, 0x7F, 0x80, 0xFF, 0x4D];
    let ida = Pattern::try_from_ida_style("00 7F 80 FF 4D").unwrap();
    let peid = Pattern::try_from_peid_style("00 7F 80 FF 4D").unwrap();
    let code = Pattern::try_from_code_style(&bytes, b"xxxxx").unwrap();
    for p in [&ida, &peid, &code] {
        assert!(p.matches(&bytes));
        for k in 0..bytes.len() {
            let mut flipped = bytes;
            flipped[k] ^= 0x01;
            assert!(!p.matches(&flipped));
        }
    }
}

#[test]
fn short_window_never_matches() {
    let p = Pattern::try_from_ida_style("? ? ?").unwrap();
    assert!(!p.matches(&[1, 2]));
    assert!(!p.matches(&[]));
    assert!(p.matches(&[1, 2, 3]));
}

#[test]
fn byte_match_matches() {
    assert!(ByteMatch::Exact(5).matches(5));
    assert!(!ByteMatch::Exact(5).matches(6));
    assert!(ByteMatch::Any.matches(0));
}

#[test]
fn find_all_counts_non_overlapping_occurrences() {
    let p = Pattern::try_from_ida_style("DE AD").unwrap();
    let region = [0u8, 0xDE, 0xAD, 1, 2, 0xDE, 0xAD, 0xDE, 0xAD, 9];
    assert_eq!(p.find_all(&region), vec![1, 5, 7]);
}

#[test]
fn find_all_reports_overlapping_starts() {
    let p = Pattern::try_from_ida_style("AA ?").unwrap();
    assert_eq!(p.find_all(&[0xAA, 0xAA, 0xAA]), vec![0, 1]);
}

#[test]
fn find_all_on_short_region_is_empty() {
    let p = Pattern::try_from_ida_style("01 02 03").unwrap();
    assert!(p.find_all(&[1, 2]).is_empty());
    assert!(p.find_all(&[]).is_empty());
}

#[test]
fn find_first_is_head_of_find_all() {
    let p = Pattern::try_from_ida_style("? 02").unwrap();
    let region = [9u8, 1, 2, 3, 2];
    assert_eq!(p.find_first(&region), Some(1));
    assert_eq!(p.find_all(&region), vec![1, 3]);
    assert_eq!(p.find_first(&[2, 3]), None);
}

#[test]
fn hex_token_with_plus_sign() {
    let p = Pattern::try_from_ida_style("+F").unwrap();
    assert!(p.matches(&[0x0F]));
}
