use ge_dri_prototype::protocol::checksum::{calculate_checksum, validate_checksum};

#[test]
fn test_checksum_calculation() {
    let data = vec![0x01, 0x02, 0x03, 0x04];
    let checksum = calculate_checksum(&data);
    assert_eq!(checksum, 0x0A);
}

#[test]
fn test_checksum_wrapping() {
    let data = vec![0xFF, 0xFF, 0xFF];
    let checksum = calculate_checksum(&data);
    assert_eq!(checksum, 0xFD);
}

#[test]
fn test_validate_checksum_valid() {
    let mut data = vec![0x01, 0x02, 0x03, 0x04];
    let checksum = calculate_checksum(&data);
    data.push(checksum);

    assert!(validate_checksum(&data));
}

#[test]
fn test_validate_checksum_invalid() {
    let data = vec![0x01, 0x02, 0x03, 0x04, 0xFF];
    assert!(!validate_checksum(&data));
}

#[test]
fn checksum_of_nothing_is_zero() {
    assert_eq!(calculate_checksum(&[]), 0);
}

#[test]
fn empty_data_has_no_valid_checksum() {
    assert!(!validate_checksum(&[]));
}

#[test]
fn single_zero_byte_is_the_checksum_of_nothing() {
    assert!(validate_checksum(&[0x00]));
    assert!(!validate_checksum(&[0x01]));
}

#[test]
fn checksum_is_the_byte_sum_modulo_256() {
    let data: Vec<u8> = (0..=255u8).collect();
    let sum: u32 = data.iter().map(|b| *b as u32).sum();
    assert_eq!(calculate_checksum(&data) as u32, sum % 256);
    assert_eq!(calculate_checksum(&data), 0x80);
}
