use bbscript_unpacker::container::{
    extract, field_value, inject, HEADER_LEN, SIZE_OFFSET, SIZE_REGION_LEN, TRAILER_LEN,
};
use bbscript_unpacker::error::FormatError;
use bbscript_unpacker::le32::get_u32;

const MARKER: [u8; 4] = [0xEF, 0xBE, 0xAD, 0xDE];

fn container(header: &[u8], payload: &[u8]) -> Vec<u8> {
    assert_eq!(header.len(), HEADER_LEN);
    let mut bytes = header.to_vec();
    bytes.extend_from_slice(payload);
    bytes.extend_from_slice(&MARKER);
    bytes
}

fn header_with_size_at(at: usize, size: u32) -> Vec<u8> {
    let mut header = vec![0xAAu8; HEADER_LEN];
    header[at..at + 4].copy_from_slice(&size.to_le_bytes());
    header
}

#[test]
fn format_constants() {
    assert_eq!(HEADER_LEN, 0x34);
    assert_eq!(TRAILER_LEN, 0x4);
    assert_eq!(SIZE_OFFSET, 0x24);
    assert_eq!(SIZE_REGION_LEN, 0x30);
}

#[test]
fn extract_returns_the_bytes_between_header_and_trailer() {
    let c = container(&[0u8; 0x34], b"ABCD");
    assert_eq!(extract(&c), Ok(b"ABCD".to_vec()));
}

#[test]
fn extract_of_an_empty_payload() {
    let c = container(&[0u8; 0x34], b"");
    assert_eq!(c.len(), 0x38);
    assert_eq!(extract(&c), Ok(Vec::new()));
}

#[test]
fn extract_rejects_a_container_that_is_too_small() {
    assert_eq!(extract(&[0u8; 0x37]), Err(FormatError::ContainerTooSmall));
    assert_eq!(extract(&[]), Err(FormatError::ContainerTooSmall));
}

#[test]
fn inject_rejects_a_container_that_is_too_small() {
    assert_eq!(inject(b"HELLO", &[0u8; 0x37]), Err(FormatError::ContainerTooSmall));
    assert_eq!(inject(b"", &[]), Err(FormatError::ContainerTooSmall));
}

#[test]
fn inject_into_a_zero_header_falls_back_to_the_nominal_offset() {
    let c = container(&[0u8; 0x34], b"ABCD");
    assert_eq!(extract(&c), Ok(b"ABCD".to_vec()));

    let out = inject(b"HELLOWORLD", &c).unwrap();
    assert_eq!(out.len(), 0x34 + 10 + 4);
    assert_eq!(&out[out.len() - 4..], &MARKER);
    assert_eq!(get_u32(&out, 0x24), 10);
    assert_eq!(get_u32(&out, 0x28), 10);
    assert_eq!(extract(&out), Ok(b"HELLOWORLD".to_vec()));

    let mut expected = vec![0u8; 0x34];
    expected[0x24] = 10;
    expected[0x28] = 10;
    expected.extend_from_slice(b"HELLOWORLD");
    expected.extend_from_slice(&MARKER);
    assert_eq!(out, expected);
}

#[test]
fn inject_writes_both_slots_where_the_old_size_is_found() {
    let header = header_with_size_at(0x10, 4);
    let c = container(&header, b"ABCD");
    let out = inject(b"HELLOWORLD", &c).unwrap();

    let mut expected = header.clone();
    expected[0x10..0x14].copy_from_slice(&[10, 0, 0, 0]);
    expected[0x14..0x18].copy_from_slice(&[10, 0, 0, 0]);
    expected.extend_from_slice(b"HELLOWORLD");
    expected.extend_from_slice(&MARKER);
    assert_eq!(out, expected);
    assert_eq!(get_u32(&out, 0x10), 10);
    assert_eq!(get_u32(&out, 0x14), 10);
}

#[test]
fn inject_uses_the_first_of_several_old_sizes() {
    let mut header = header_with_size_at(0x08, 4);
    header[0x24..0x28].copy_from_slice(&[4, 0, 0, 0]);
    header[0x28..0x2C].copy_from_slice(&[4, 0, 0, 0]);
    let c = container(&header, b"ABCD");
    let out = inject(b"xy", &c).unwrap();
    assert_eq!(get_u32(&out, 0x08), 2);
    assert_eq!(get_u32(&out, 0x0C), 2);
    assert_eq!(get_u32(&out, 0x24), 4);
    assert_eq!(get_u32(&out, 0x28), 4);
}

#[test]
fn inject_finds_a_size_field_that_ends_with_the_header() {
    let header = header_with_size_at(0x2C, 4);
    let c = container(&header, b"ABCD");
    let out = inject(b"HELLOWORLD", &c).unwrap();
    assert_eq!(get_u32(&out, 0x2C), 10);
    assert_eq!(get_u32(&out, 0x30), 10);
    assert_eq!(&out[0x24..0x2C], &[0xAA; 8]);
    assert_eq!(extract(&out), Ok(b"HELLOWORLD".to_vec()));
}

#[test]
fn inject_does_not_take_a_size_whose_second_slot_would_leave_the_header() {
    let header = header_with_size_at(0x30, 4);
    let c = container(&header, b"ABCD");
    let out = inject(b"HELLOWORLD", &c).unwrap();
    assert_eq!(get_u32(&out, 0x24), 10);
    assert_eq!(get_u32(&out, 0x28), 10);
    assert_eq!(get_u32(&out, 0x30), 4);
    assert_eq!(extract(&out), Ok(b"HELLOWORLD".to_vec()));
}

#[test]
fn inject_searches_the_old_container_and_not_the_new_payload() {
    let c = container(&[0u8; 0x34], b"ABCD");
    let payload = [4u8, 0, 0, 0, 9, 9, 9, 9];
    let out = inject(&payload, &c).unwrap();
    assert_eq!(extract(&out), Ok(payload.to_vec()));
    assert_eq!(get_u32(&out, 0x24), 8);
    assert_eq!(get_u32(&out, 0x28), 8);
}

#[test]
fn inject_does_not_search_the_old_payload() {
    let c = container(&[0xAAu8; 0x34], &[4, 0, 0, 0]);
    let out = inject(b"HELLOWORLD", &c).unwrap();
    assert_eq!(get_u32(&out, 0x24), 10);
    assert_eq!(get_u32(&out, 0x28), 10);
    assert_eq!(extract(&out), Ok(b"HELLOWORLD".to_vec()));
}

#[test]
fn inject_shrinks_the_container() {
    let header = header_with_size_at(0x24, 10);
    let c = container(&header, b"HELLOWORLD");
    let out = inject(b"AB", &c).unwrap();
    assert_eq!(out.len(), 0x34 + 2 + 4);
    assert_eq!(&out[0x34..0x36], b"AB");
    assert_eq!(&out[0x36..], &MARKER);
    assert_eq!(get_u32(&out, 0x24), 2);
    assert_eq!(get_u32(&out, 0x28), 2);
}

#[test]
fn inject_of_an_empty_payload() {
    let c = container(&[0u8; 0x34], b"ABCD");
    let out = inject(b"", &c).unwrap();
    assert_eq!(out.len(), 0x38);
    assert_eq!(&out[0x34..], &MARKER);
    assert_eq!(get_u32(&out, 0x24), 0);
    assert_eq!(get_u32(&out, 0x28), 0);
    assert_eq!(extract(&out), Ok(Vec::new()));
}

#[test]
fn inject_into_an_empty_container_finds_the_zero_size() {
    let c = container(&[0u8; 0x34], b"");
    let out = inject(b"abc", &c).unwrap();
    assert_eq!(get_u32(&out, 0), 3);
    assert_eq!(get_u32(&out, 4), 3);
    assert_eq!(get_u32(&out, 0x24), 0);
    assert_eq!(extract(&out), Ok(b"abc".to_vec()));
}

#[test]
fn inject_keeps_the_header_outside_the_size_field() {
    let header: Vec<u8> = (0..0x34u8).map(|i| 0x80 + i).collect();
    let c = container(&header, b"ABCD");
    let out = inject(b"HELLOWORLD", &c).unwrap();
    assert_eq!(&out[..0x24], &header[..0x24]);
    assert_eq!(&out[0x2C..0x34], &header[0x2C..]);
}

#[test]
fn round_trip_on_many_sizes() {
    let header = header_with_size_at(0x24, 4);
    let c = container(&header, b"ABCD");
    for len in [0usize, 1, 3, 4, 5, 255, 256, 257, 70_000] {
        let payload: Vec<u8> = (0..len).map(|i| (i % 251) as u8).collect();
        let out = inject(&payload, &c).unwrap();
        assert_eq!(out.len(), 0x34 + len + 4);
        assert_eq!(extract(&out), Ok(payload));
        assert_eq!(&out[out.len() - 4..], &MARKER);
        assert_eq!(get_u32(&out, 0x24) as usize, len);
        assert_eq!(get_u32(&out, 0x28) as usize, len);
    }
}

#[test]
fn marker_is_kept_whatever_it_is() {
    for marker in [[0u8, 0, 0, 0], [1, 2, 3, 4], [0xFF, 0xFF, 0xFF, 0xFF], [0xC1, 0x83, 0x2A, 0x9E]] {
        let mut c = vec![0u8; 0x34];
        c.extend_from_slice(b"payload");
        c.extend_from_slice(&marker);
        let out = inject(b"another payload", &c).unwrap();
        assert_eq!(&out[out.len() - 4..], &marker);
    }
}

#[test]
fn inject_twice_follows_the_size_field() {
    let header = header_with_size_at(0x18, 4);
    let c = container(&header, b"ABCD");
    let once = inject(b"HELLOWORLD", &c).unwrap();
    let twice = inject(b"xyz", &once).unwrap();
    assert_eq!(get_u32(&twice, 0x18), 3);
    assert_eq!(get_u32(&twice, 0x1C), 3);
    assert_eq!(extract(&twice), Ok(b"xyz".to_vec()));
}

#[test]
fn field_value_is_the_size_up_to_the_largest_field() {
    assert_eq!(field_value(0), Some(0));
    assert_eq!(field_value(10), Some(10));
    assert_eq!(field_value(u32::MAX as usize), Some(u32::MAX));
    assert_eq!(field_value(u32::MAX as usize + 1), None);
    assert_eq!(field_value(usize::MAX), None);
}
