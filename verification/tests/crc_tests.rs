use ndstrim::crc::checksum;

#[test]
fn checksum_deterministic() {
    let data = vec![0x12u8, 0x34, 0x56, 0x78, 0x9a, 0xbc, 0xde, 0xf0];
    let first = checksum(&data);
    let second = checksum(&data);
    assert_eq!(first, second);
}

#[test]
fn checksum_known_vector() {
    let data = vec![0xdeu8, 0xad, 0xbe, 0xef];
    assert_eq!(checksum(&data), 0xc19b);
}

#[test]
fn checksum_empty_is_initial_accumulator() {
    let data: Vec<u8> = Vec::new();
    assert_eq!(checksum(&data), 0xffff);
}

#[test]
fn checksum_single_byte() {
    // One byte folded into 0xffff: pinned by an independent computation.
    assert_eq!(checksum(&[0x00u8]), 0x40bf);
}
