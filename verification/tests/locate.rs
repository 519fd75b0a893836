use keylocate::errors::LocateError;
use keylocate::image::{parse_image, ExecutableImage, Section, SECTION_EXECUTE};
use keylocate::locate::{extract_secret, resolve_displacement};
use keylocate::netkey::{locate_net_key_in, net_key_from_material};
use keylocate::locate::SecretMaterial;

const PATTERN_BYTES: [u8; 18] = [
    0xC7, 0x44, 0x24, 0x38, 0x10, 0x00, 0x00, 0x00, 0x48, 0x8D, 0x05, 0x00, 0x00, 0x00, 0x00,
    0x48, 0xF7, 0xD1,
];

/// Assembles a minimal image: legacy magic, header offset field pointing at
/// 0x40, the signature, a section count, a zero-length optional header, and
/// one 40-byte table entry per requested section.
fn build_image(sections: &[(u32, u32, u32)], total: usize) -> Vec<u8> {
    let mut img = vec![0u8; total];
    img[0] = 0x4D;
    img[1] = 0x5A;
    img[0x3C..0x40].copy_from_slice(&0x40u32.to_le_bytes());
    img[0x40] = 0x50;
    img[0x41] = 0x45;
    img[0x46..0x48].copy_from_slice(&(sections.len() as u16).to_le_bytes());
    for (i, (start, size, flags)) in sections.iter().enumerate() {
        let e = 0x58 + 40 * i;
        img[e + 16..e + 20].copy_from_slice(&size.to_le_bytes());
        img[e + 20..e + 24].copy_from_slice(&start.to_le_bytes());
        img[e + 36..e + 40].copy_from_slice(&flags.to_le_bytes());
    }
    img
}

/// Writes the net-key signature at `at`, with `disp` as the 4-byte
/// little-endian displacement operand.
fn plant_pattern(img: &mut [u8], at: usize, disp: i32) {
    img[at..at + 18].copy_from_slice(&PATTERN_BYTES);
    img[at + 11..at + 15].copy_from_slice(&disp.to_le_bytes());
}

#[test]
fn end_to_end_found_returns_planted_secret() {
    let mut img = build_image(&[(0x100, 0x100, SECTION_EXECUTE)], 0x210);
    // displacement field ends at 0x10F; d = 48 resolves to 0x13F
    plant_pattern(&mut img, 0x100, 48);
    for i in 0..32 {
        img[0x11F + i] = (i + 1) as u8;
    }
    for i in 0..16 {
        img[0x13F + i] = (101 + i) as u8;
    }
    let nk = locate_net_key_in(img).unwrap().unwrap();
    assert_eq!(nk.key, "AQIDBAUGBwgJCgsMDQ4PEBESExQVFhcYGRobHB0eHyA=");
    assert_eq!(nk.iv, "ZWZnaGlqa2xtbm9wcXJzdA==");
}

#[test]
fn first_section_in_table_order_wins() {
    let mut img = build_image(
        &[(0x100, 0x80, SECTION_EXECUTE), (0x180, 0x80, SECTION_EXECUTE)],
        0x210,
    );
    // first section: match late in the section, pointing at 0x41/0x42 content
    plant_pattern(&mut img, 0x140, 0x1F0 - 0x14F);
    for i in 0x1D0..0x1F0 {
        img[i] = 0x41;
    }
    for i in 0x1F0..0x200 {
        img[i] = 0x42;
    }
    // second section: match at its very start, pointing at 0x43/0x44 content
    plant_pattern(&mut img, 0x180, 0x1C0 - 0x18F);
    for i in 0x1A0..0x1C0 {
        img[i] = 0x43;
    }
    for i in 0x1C0..0x1D0 {
        img[i] = 0x44;
    }
    let nk = locate_net_key_in(img).unwrap().unwrap();
    // the first table entry's match decides, regardless of match position
    assert_eq!(nk.key, "QUFBQUFBQUFBQUFBQUFBQUFBQUFBQUFBQUFBQUFBQUE=");
    assert_eq!(nk.iv, "QkJCQkJCQkJCQkJCQkJCQg==");
}

#[test]
fn displacement_positive() {
    let mut buf = vec![0u8; 8];
    buf[0..4].copy_from_slice(&0x10i32.to_le_bytes());
    assert_eq!(resolve_displacement(&buf, 0), 0x14);
}

#[test]
fn displacement_negative() {
    let mut buf = vec![0u8; 8];
    buf[0..4].copy_from_slice(&(-4i32).to_le_bytes());
    assert_eq!(resolve_displacement(&buf, 0), 0);
}

#[test]
fn displacement_wraps_past_32_bits() {
    let mut buf = vec![0u8; 8];
    buf[0..4].copy_from_slice(&(-10i32).to_le_bytes());
    assert_eq!(resolve_displacement(&buf, 0), 0xFFFF_FFFA);
    buf[0..4].copy_from_slice(&i32::MIN.to_le_bytes());
    assert_eq!(resolve_displacement(&buf, 0), 0x8000_0004);
}

#[test]
fn address_too_low_is_out_of_bounds() {
    let mut img = build_image(&[(0x100, 0x100, SECTION_EXECUTE)], 0x210);
    // resolves to 16: the key window would underflow the image start
    plant_pattern(&mut img, 0x100, 16 - 0x10F);
    match locate_net_key_in(img) {
        Err(LocateError::AddressOutOfBounds { match_offset, address }) => {
            assert_eq!(match_offset, 0x100);
            assert_eq!(address, 16);
        },
        other => panic!("expected an out-of-bounds error, got {:?}", other),
    }
}

#[test]
fn address_too_high_is_out_of_bounds() {
    let mut img = build_image(&[(0x100, 0x100, SECTION_EXECUTE)], 0x210);
    // resolves to 0x208: the vector window would overflow the image end
    plant_pattern(&mut img, 0x100, 0x208 - 0x10F);
    match locate_net_key_in(img) {
        Err(LocateError::AddressOutOfBounds { match_offset, address }) => {
            assert_eq!(match_offset, 0x100);
            assert_eq!(address, 0x208);
        },
        other => panic!("expected an out-of-bounds error, got {:?}", other),
    }
}

#[test]
fn extraction_windows_at_exact_boundaries() {
    let buf: Vec<u8> = (0u8..48).collect();
    let m = extract_secret(&buf, 0, 32).unwrap();
    assert_eq!(m.key, (0u8..32).collect::<Vec<u8>>());
    assert_eq!(m.iv, (32u8..48).collect::<Vec<u8>>());
    assert!(extract_secret(&buf, 0, 31).is_err());
    assert!(extract_secret(&buf, 0, 33).is_err());
}

#[test]
fn absent_pattern_is_not_present() {
    let img = build_image(&[(0x100, 0x100, SECTION_EXECUTE)], 0x210);
    assert!(matches!(locate_net_key_in(img), Ok(None)));
}

#[test]
fn pattern_in_non_executable_section_is_ignored() {
    let mut img = build_image(&[(0x100, 0x100, 0)], 0x210);
    plant_pattern(&mut img, 0x100, 48);
    assert!(matches!(locate_net_key_in(img), Ok(None)));
}

#[test]
fn empty_section_table_is_not_present() {
    let img = build_image(&[], 0x210);
    assert!(matches!(locate_net_key_in(img), Ok(None)));
}

#[test]
fn oversized_section_range_is_parse_error_before_scanning() {
    let mut img = build_image(&[(0x100, 0x10000, SECTION_EXECUTE)], 0x210);
    // even with a valid match planted, the inconsistent table aborts first
    plant_pattern(&mut img, 0x100, 48);
    assert!(matches!(locate_net_key_in(img), Err(LocateError::ImageParse)));
}

#[test]
fn truncated_or_mismarked_headers_are_parse_errors() {
    assert!(matches!(locate_net_key_in(vec![0u8; 0x30]), Err(LocateError::ImageParse)));
    let mut img = build_image(&[], 0x210);
    img[0] = 0x00;
    assert!(matches!(locate_net_key_in(img), Err(LocateError::ImageParse)));
    let mut img2 = build_image(&[], 0x210);
    img2[0x41] = 0x00;
    assert!(matches!(locate_net_key_in(img2), Err(LocateError::ImageParse)));
}

#[test]
fn parse_image_reads_the_section_table() {
    let img = build_image(&[(0x100, 0x80, SECTION_EXECUTE), (0x180, 0x10, 0x40)], 0x210);
    let parsed = parse_image(img.clone()).unwrap();
    assert_eq!(parsed.bytes, img);
    assert_eq!(
        parsed.sections,
        vec![
            Section { start: 0x100, size: 0x80, flags: SECTION_EXECUTE },
            Section { start: 0x180, size: 0x10, flags: 0x40 },
        ]
    );
    assert!(parsed.sections[0].is_executable());
    assert!(!parsed.sections[1].is_executable());
}

#[test]
fn image_constructor_enforces_section_ranges() {
    let ok = ExecutableImage::new(
        vec![0u8; 64],
        vec![Section { start: 8, size: 56, flags: 0 }],
    );
    assert!(ok.is_ok());
    let bad = ExecutableImage::new(
        vec![0u8; 64],
        vec![Section { start: 8, size: 57, flags: 0 }],
    );
    assert!(matches!(bad, Err(LocateError::ImageParse)));
}

#[test]
fn material_is_encoded_at_the_output_boundary() {
    let m = SecretMaterial { key: vec![0x41; 32], iv: vec![0x42; 16] };
    let nk = net_key_from_material(&m);
    assert_eq!(nk.key, "QUFBQUFBQUFBQUFBQUFBQUFBQUFBQUFBQUFBQUFBQUE=");
    assert_eq!(nk.iv, "QkJCQkJCQkJCQkJCQkJCQg==");
}
