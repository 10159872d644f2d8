use bbscript_unpacker::le32::{encode, get_u32, put_u32};
use bbscript_unpacker::locate::{find_field, find_seq, Lookup};
use byteorder::{ByteOrder, LittleEndian};

#[test]
fn find_seq_returns_the_first_of_several_matches() {
    assert_eq!(find_seq(&[1, 2, 3, 2, 3], &[2, 3]), Some(1));
}

#[test]
fn find_seq_finds_a_match_at_the_start() {
    assert_eq!(find_seq(&[7, 8, 9], &[7, 8]), Some(0));
}

#[test]
fn find_seq_finds_a_match_at_the_end() {
    assert_eq!(find_seq(&[7, 8, 9], &[8, 9]), Some(1));
    assert_eq!(find_seq(&[7, 8, 9], &[9]), Some(2));
}

#[test]
fn find_seq_finds_the_whole_haystack() {
    assert_eq!(find_seq(&[7, 8, 9], &[7, 8, 9]), Some(0));
}

#[test]
fn find_seq_reports_absence() {
    assert_eq!(find_seq(&[1, 2, 3, 4], &[2, 4]), None);
    assert_eq!(find_seq(&[1, 2, 3, 4], &[5]), None);
}

#[test]
fn find_seq_rejects_a_needle_longer_than_the_haystack() {
    assert_eq!(find_seq(&[1, 2], &[1, 2, 3]), None);
    assert_eq!(find_seq(&[], &[1]), None);
}

#[test]
fn find_seq_finds_the_empty_needle_at_zero() {
    assert_eq!(find_seq(&[1, 2, 3], &[]), Some(0));
    assert_eq!(find_seq(&[], &[]), Some(0));
}

#[test]
fn find_seq_does_not_stop_at_a_partial_match() {
    assert_eq!(find_seq(&[1, 1, 1, 2], &[1, 1, 2]), Some(1));
}

#[test]
fn find_seq_agrees_with_a_scan_of_every_window() {
    let haystack: Vec<u8> = vec![0, 1, 0, 0, 1, 1, 0, 1, 0, 0, 0, 1];
    for len in 1..4usize {
        for code in 0..(1u8 << len) {
            let needle: Vec<u8> = (0..len).map(|bit| (code >> bit) & 1).collect();
            let expected = (0..=haystack.len() - len).find(|&at| haystack[at..at + len] == needle[..]);
            assert_eq!(find_seq(&haystack, &needle), expected);
        }
    }
}

#[test]
fn encode_puts_the_least_significant_byte_first() {
    assert_eq!(encode(0x0102_0304), vec![0x04, 0x03, 0x02, 0x01]);
    assert_eq!(encode(10), vec![10, 0, 0, 0]);
    assert_eq!(encode(0), vec![0, 0, 0, 0]);
    assert_eq!(encode(u32::MAX), vec![0xFF, 0xFF, 0xFF, 0xFF]);
    assert_eq!(encode(0xDEAD_BEEF), vec![0xEF, 0xBE, 0xAD, 0xDE]);
}

#[test]
fn encode_agrees_with_byteorder() {
    for value in [0u32, 1, 255, 256, 65_535, 65_536, 1_000_000, 0x7FFF_FFFF, u32::MAX] {
        let mut expected = [0u8; 4];
        LittleEndian::write_u32(&mut expected, value);
        assert_eq!(encode(value), expected.to_vec());
    }
}

#[test]
fn get_u32_decodes_the_field_at_an_offset() {
    let buf = [9, 9, 0x04, 0x03, 0x02, 0x01, 9];
    assert_eq!(get_u32(&buf, 2), 0x0102_0304);
    assert_eq!(get_u32(&buf, 0), 0x0304_0909);
    assert_eq!(get_u32(&buf, 3), 0x0901_0203);
}

#[test]
fn put_u32_overwrites_four_bytes_and_no_more() {
    let mut buf = vec![1, 2, 3, 4, 5, 6, 7];
    put_u32(&mut buf, 2, 0xAABB_CCDD);
    assert_eq!(buf, vec![1, 2, 0xDD, 0xCC, 0xBB, 0xAA, 7]);
}

#[test]
fn put_u32_extends_a_short_buffer_with_zeros() {
    let mut buf = vec![1, 2];
    put_u32(&mut buf, 5, 0x0102_0304);
    assert_eq!(buf, vec![1, 2, 0, 0, 0, 4, 3, 2, 1]);
    let mut partly = vec![1, 2, 3];
    put_u32(&mut partly, 1, 0x0102_0304);
    assert_eq!(partly, vec![1, 4, 3, 2, 1]);
}

#[test]
fn put_then_get_gives_the_value_back() {
    for value in [0u32, 1, 0x1234_5678, u32::MAX] {
        let mut buf = vec![0xEE; 12];
        put_u32(&mut buf, 3, value);
        assert_eq!(get_u32(&buf, 3), value);
        assert_eq!(buf.len(), 12);
    }
}

#[test]
fn find_field_locates_the_encoded_value() {
    let buf = [0, 0, 0x10, 0x27, 0, 0, 0x10, 0x27, 0, 0];
    assert_eq!(find_field(&buf, 10_000), Lookup::Located(2));
    assert_eq!(find_field(&buf, 10_001), Lookup::Missing);
}

#[test]
fn lookup_leaves_the_fallback_to_the_caller() {
    assert_eq!(Lookup::Located(7).or_nominal(0x24), 7);
    assert_eq!(Lookup::Missing.or_nominal(0x24), 0x24);
    assert_eq!(Lookup::Located(7).located(), Some(7));
    assert_eq!(Lookup::Missing.located(), None);
}
