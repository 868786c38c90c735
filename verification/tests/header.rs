use cpio_header::header::{Header, NewcHeader, OdcHeader, OldHeader};

const OLD_MAGIC: &[u8] = &[199, 113];
const OLD_HEADER_LEN: usize = 26;
const ODC_MAGIC: &[u8] = b"070707";
const ODC_HEADER_LEN: usize = 76;
const NEWC_MAGIC: &[u8] = b"070701";
const NEWC_HEADER_LEN: usize = 110;
const CRC_MAGIC: &[u8] = b"070702";

#[test]
fn old_header() {
    let old_h = OldHeader::new();

    assert!(old_h.as_bytes()[0..2] == OLD_MAGIC[0..2]);
    assert!(old_h.as_bytes().len() == OLD_HEADER_LEN);
}

#[test]
fn odc_header() {
    let odc_h = OdcHeader::new();

    assert!(odc_h.as_bytes()[0..6] == ODC_MAGIC[0..6]);
    assert!(odc_h.as_bytes().len() == ODC_HEADER_LEN);
}

#[test]
fn newc_header() {
    let newc_h = NewcHeader::new();

    assert!(newc_h.as_bytes()[0..6] == NEWC_MAGIC[0..6]);
    assert!(newc_h.as_bytes().len() == NEWC_HEADER_LEN);
}

#[test]
fn crc_header() {
    let crc_h = NewcHeader::new_crc();

    assert!(crc_h.as_bytes()[0..6] == CRC_MAGIC[0..6]);
    assert!(crc_h.as_bytes().len() == NEWC_HEADER_LEN);
}

#[test]
fn old_header_non_magic_bytes_are_zero() {
    let b = OldHeader::new().as_bytes();
    assert_eq!(b.len(), OLD_HEADER_LEN);
    for i in 2..OLD_HEADER_LEN {
        assert_eq!(b[i], 0, "byte {} of a blank old header", i);
    }
}

#[test]
fn odc_header_non_magic_bytes_are_zero() {
    let b = OdcHeader::new().as_bytes();
    assert_eq!(b.len(), ODC_HEADER_LEN);
    for i in 6..ODC_HEADER_LEN {
        assert_eq!(b[i], 0, "byte {} of a blank odc header", i);
    }
}

#[test]
fn newc_header_non_magic_bytes_are_zero() {
    let b = NewcHeader::new().as_bytes();
    assert_eq!(b.len(), NEWC_HEADER_LEN);
    for i in 6..NEWC_HEADER_LEN {
        assert_eq!(b[i], 0, "byte {} of a blank newc header", i);
    }
}

#[test]
fn crc_differs_from_newc_only_in_magic() {
    let newc = NewcHeader::new().as_bytes();
    let crc = NewcHeader::new_crc().as_bytes();
    assert_eq!(newc.len(), crc.len());
    assert_ne!(newc[0..6], crc[0..6]);
    assert_eq!(newc[6..], crc[6..]);
}

#[test]
fn projection_is_idempotent() {
    let old_h = OldHeader::new();
    assert_eq!(old_h.as_bytes(), old_h.as_bytes());
    let odc_h = OdcHeader::new();
    assert_eq!(odc_h.as_bytes(), odc_h.as_bytes());
    let newc_h = NewcHeader::new();
    assert_eq!(newc_h.as_bytes(), newc_h.as_bytes());
    let crc_h = NewcHeader::new_crc();
    assert_eq!(crc_h.as_bytes(), crc_h.as_bytes());
}

#[test]
fn clone_projects_identically() {
    let old_h = OldHeader::new();
    assert_eq!(old_h.clone().as_bytes(), old_h.as_bytes());
    let odc_h = OdcHeader::new();
    assert_eq!(odc_h.clone().as_bytes(), odc_h.as_bytes());
    let newc_h = NewcHeader::new();
    assert_eq!(newc_h.clone().as_bytes(), newc_h.as_bytes());
    let crc_h = NewcHeader::new_crc();
    assert_eq!(crc_h.clone().as_bytes(), crc_h.as_bytes());
}

#[test]
fn old_header_exact_blank_image() {
    let mut expected = vec![0u8; OLD_HEADER_LEN];
    expected[0] = 0xc7;
    expected[1] = 0x71;
    assert_eq!(OldHeader::new().as_bytes(), expected);
}

#[test]
fn odc_header_exact_blank_image() {
    let mut expected = vec![0u8; ODC_HEADER_LEN];
    expected[0..6].copy_from_slice(b"070707");
    assert_eq!(OdcHeader::new().as_bytes(), expected);
}

#[test]
fn newc_header_exact_blank_image() {
    let mut expected = vec![0u8; NEWC_HEADER_LEN];
    expected[0..6].copy_from_slice(b"070701");
    assert_eq!(NewcHeader::new().as_bytes(), expected);

    let mut expected_crc = vec![0u8; NEWC_HEADER_LEN];
    expected_crc[0..6].copy_from_slice(b"070702");
    assert_eq!(NewcHeader::new_crc().as_bytes(), expected_crc);
}
