use keylocate::pattern::{BytePattern, PatElem, scan_range};

fn exact_elems(bytes: &[u8]) -> Vec<PatElem> {
    bytes.iter().map(|b| PatElem::Exact(*b)).collect()
}

#[test]
fn exact_match_returns_earliest_offset() {
    let mut buf = vec![0u8; 20];
    // the exact sequence appears at offset 5 and again at offset 12;
    // the scanner must report the earlier one
    for (i, b) in [0xDEu8, 0xAD, 0xBE].iter().enumerate() {
        buf[5 + i] = *b;
        buf[12 + i] = *b;
    }
    let pat = BytePattern::new(exact_elems(&[0xDE, 0xAD, 0xBE]), 0, 0).unwrap();
    let m = scan_range(&buf, &pat, 0, 20).unwrap();
    assert_eq!(m.offset, 5);
    assert_eq!(m.run_offset, 5);
}

#[test]
fn wildcard_run_tolerates_any_bytes() {
    let pat = BytePattern::new(
        vec![
            PatElem::Exact(0x10),
            PatElem::Wildcard,
            PatElem::Wildcard,
            PatElem::Exact(0x20),
        ],
        1,
        2,
    )
    .unwrap();
    let mut buf1 = vec![0u8; 10];
    buf1[3] = 0x10;
    buf1[6] = 0x20;
    let mut buf2 = buf1.clone();
    buf2[4] = 0xAA;
    buf2[5] = 0xBB;
    let m1 = scan_range(&buf1, &pat, 0, 10).unwrap();
    let m2 = scan_range(&buf2, &pat, 0, 10).unwrap();
    assert_eq!(m1.offset, 3);
    assert_eq!(m2.offset, 3);
    // the reported wildcard offset is the match offset plus the run position
    assert_eq!(m2.run_offset, 3 + 1);
}

#[test]
fn scanner_reports_absence() {
    let buf = vec![7u8; 16];
    let pat = BytePattern::new(exact_elems(&[1, 2, 3]), 0, 0).unwrap();
    assert!(scan_range(&buf, &pat, 0, 16).is_none());
}

#[test]
fn range_shorter_than_pattern_never_matches() {
    let buf = vec![1u8, 2, 3, 1, 2, 3];
    let pat = BytePattern::new(exact_elems(&[1, 2, 3]), 0, 0).unwrap();
    assert!(scan_range(&buf, &pat, 0, 2).is_none());
    assert!(scan_range(&buf, &pat, 4, 6).is_none());
}

#[test]
fn scan_respects_range_bounds() {
    let mut buf = vec![0u8; 20];
    buf[2] = 9;
    buf[10] = 9;
    let pat = BytePattern::new(exact_elems(&[9]), 0, 0).unwrap();
    let m = scan_range(&buf, &pat, 5, 20).unwrap();
    assert_eq!(m.offset, 10);
}

#[test]
fn pattern_constructor_rejects_bad_runs() {
    // run covers a non-wildcard element
    assert!(BytePattern::new(vec![PatElem::Exact(1), PatElem::Wildcard], 0, 2).is_none());
    // run extends past the end of the pattern
    assert!(BytePattern::new(vec![PatElem::Wildcard], 0, 2).is_none());
    // a valid run
    assert!(BytePattern::new(vec![PatElem::Exact(1), PatElem::Wildcard], 1, 1).is_some());
}
