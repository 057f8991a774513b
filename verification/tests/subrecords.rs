use ge_dri_prototype::decode::subrecords::{
    extract_label_bits, parse_group_header, read_i16, read_u16, read_u32, read_valid_i16,
    GroupHeader,
};

#[test]
fn test_read_i16() {
    let data = vec![0x34, 0x12, 0xFF, 0xFF];
    assert_eq!(read_i16(&data, 0), Some(0x1234));
    assert_eq!(read_i16(&data, 2), Some(-1));
    assert_eq!(read_i16(&data, 3), None);
}

#[test]
fn test_group_header() {
    let header = GroupHeader {
        status: 0b11,
        label: 0,
    };
    assert!(header.module_exists());
    assert!(header.active());
}

#[test]
fn test_get_bits() {
    let header = GroupHeader {
        status: 0b11110000,
        label: 0,
    };
    assert_eq!(header.get_bits(4, 7), 0b1111);
}

#[test]
fn readers_agree_with_the_standard_library() {
    let data = vec![0x01, 0x82, 0x4B, 0x00, 0xFF, 0x7F, 0x00, 0x80];
    for offset in 0..7 {
        assert_eq!(
            read_i16(&data, offset),
            Some(i16::from_le_bytes([data[offset], data[offset + 1]]))
        );
        assert_eq!(
            read_u16(&data, offset),
            Some(u16::from_le_bytes([data[offset], data[offset + 1]]))
        );
    }
    for offset in 0..5 {
        assert_eq!(
            read_u32(&data, offset),
            Some(u32::from_le_bytes([
                data[offset],
                data[offset + 1],
                data[offset + 2],
                data[offset + 3]
            ]))
        );
    }
    assert_eq!(read_i16(&data, 0), Some(-32255));
    assert_eq!(read_i16(&data, 6), Some(-32768));
    assert_eq!(read_i16(&data, 4), Some(32767));
    assert_eq!(read_u16(&data, 7), None);
    assert_eq!(read_u32(&data, 5), None);
    assert_eq!(read_u32(&data, usize::MAX), None);
    assert_eq!(read_i16(&data, usize::MAX), None);
    assert_eq!(read_u16(&[], 0), None);
    assert_eq!(read_u32(&[0xFF, 0xFF, 0xFF, 0xFF], 0), Some(u32::MAX));
}

#[test]
fn read_valid_i16_drops_reserved_values() {
    assert_eq!(read_valid_i16(&[0x01, 0x80], 0), None); // -32767
    assert_eq!(read_valid_i16(&[0xFF, 0x82], 0), None); // -32001
    assert_eq!(read_valid_i16(&[0x00, 0x83], 0), Some(-32000));
    assert_eq!(read_valid_i16(&[0x4B, 0x00], 0), Some(75));
    assert_eq!(read_valid_i16(&[0x4B], 0), None);
}

#[test]
fn group_header_is_status_then_label() {
    let data = vec![0xAA, 0x03, 0x00, 0x00, 0x80, 0x21, 0x00, 0x04, 0x99];
    assert_eq!(
        parse_group_header(&data, 1),
        Some(GroupHeader {
            status: 0x8000_0003,
            label: 0x0021
        })
    );
    assert_eq!(
        parse_group_header(&data, 3),
        Some(GroupHeader {
            status: 0x0021_8000,
            label: 0x9904
        })
    );
    assert_eq!(parse_group_header(&data, 4), None);
    assert_eq!(parse_group_header(&data[..5], 0), None);
}

#[test]
fn status_bits_of_a_group_header() {
    let header = GroupHeader {
        status: 0x8000_0301,
        label: 0,
    };
    assert!(header.module_exists());
    assert!(!header.active());
    assert!(header.get_bit(0));
    assert!(!header.get_bit(1));
    assert!(header.get_bit(8));
    assert!(header.get_bit(9));
    assert!(header.get_bit(31));
    assert!(!header.get_bit(32));
    assert!(!header.get_bit(255));
    assert_eq!(header.get_bits(8, 9), 3);
    assert_eq!(header.get_bits(0, 31), 0x8000_0301);
    assert_eq!(header.get_bits(31, 31), 1);
    assert_eq!(header.get_bits(9, 8), 0);
    assert_eq!(header.get_bits(0, 32), 0);
    assert_eq!(header.get_bits(32, 32), 0);
}

#[test]
fn label_bits() {
    assert_eq!(extract_label_bits(0x0321, 0, 3), 1);
    assert_eq!(extract_label_bits(0x0321, 4, 7), 2);
    assert_eq!(extract_label_bits(0x0321, 8, 11), 3);
    assert_eq!(extract_label_bits(0xFFFF, 0, 15), 0xFFFF);
    assert_eq!(extract_label_bits(0xFFFF, 15, 15), 1);
    assert_eq!(extract_label_bits(0xFFFF, 5, 4), 0);
    assert_eq!(extract_label_bits(0xFFFF, 0, 16), 0);
    assert_eq!(extract_label_bits(0xFFFF, 16, 16), 0);
}
