use radio_sniffer::crc::crc_poly_mask;

#[test]
fn sniffer_taps_give_the_documented_mask() {
    let taps: Vec<u8> = vec![10, 9, 6, 4, 3, 1, 0];
    let mask = crc_poly_mask(&taps);
    assert_eq!(mask, 0x65B);
    assert_eq!(mask, 0b0000_0110_0101_1011);
}

#[test]
fn mask_is_not_discarded() {
    // A fold that discards its result would report zero for non-empty taps.
    let taps: Vec<u8> = vec![10, 9, 6, 4, 3, 1, 0];
    assert_ne!(crc_poly_mask(&taps), 0);
}

#[test]
fn empty_tap_list_gives_zero() {
    let taps: Vec<u8> = Vec::new();
    assert_eq!(crc_poly_mask(&taps), 0);
}

#[test]
fn single_taps() {
    assert_eq!(crc_poly_mask(&vec![0]), 1);
    assert_eq!(crc_poly_mask(&vec![31]), 0x8000_0000);
}

#[test]
fn repeated_taps_do_not_change_the_mask() {
    assert_eq!(crc_poly_mask(&vec![3, 3, 3]), 8);
}
