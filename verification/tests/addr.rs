use io_bluetooth::BtAddr;

#[test]
fn raw_bytes_round_trip() {
    let b = [1u8, 2, 3, 4, 5, 6];
    assert_eq!(BtAddr::from_raw_bytes(b).to_raw_bytes(), b);
    let b2 = [0u8, 0xff, 0x7f, 0x80, 0x01, 0xfe];
    assert_eq!(BtAddr::from_raw_bytes(b2).to_raw_bytes(), b2);
}

#[test]
fn nap_sap_round_trip() {
    let a = BtAddr::nap_sap(0xabcd, 0x1234_5678);
    assert_eq!(a.nap(), 0xabcd);
    assert_eq!(a.sap(), 0x1234_5678);

    let z = BtAddr::nap_sap(0, 0);
    assert_eq!(z.nap(), 0);
    assert_eq!(z.sap(), 0);

    let m = BtAddr::nap_sap(0xffff, 0xffff_ffff);
    assert_eq!(m.nap(), 0xffff);
    assert_eq!(m.sap(), 0xffff_ffff);
}

#[test]
fn nap_sap_byte_layout() {
    // The SAP's four little-endian bytes come first, then the NAP's two.
    let a = BtAddr::nap_sap(0x0605, 0x0403_0201);
    assert_eq!(a.to_raw_bytes(), [1, 2, 3, 4, 5, 6]);
}

#[test]
fn to_text_formats_most_significant_byte_first() {
    let a = BtAddr::from_raw_bytes([0x01, 0x02, 0x03, 0x04, 0x05, 0x06]);
    assert_eq!(a.to_text(), "06:05:04:03:02:01");
}

#[test]
fn to_text_lowercase_hex() {
    let a = BtAddr::from_raw_bytes([0xab, 0xcd, 0xef, 0x00, 0x99, 0x10]);
    assert_eq!(a.to_text(), "10:99:00:ef:cd:ab");
}

#[test]
fn bth_u64_packs_nap_above_sap() {
    let a = BtAddr::nap_sap(0xabcd, 0x1234_5678);
    assert_eq!(a.to_bth_u64(), 0x0000_abcd_1234_5678u64);
}

#[test]
fn bth_u64_round_trip() {
    let a = BtAddr::from_raw_bytes([9, 8, 7, 6, 5, 4]);
    let back = BtAddr::from_bth_u64(a.to_bth_u64());
    assert_eq!(back.to_raw_bytes(), a.to_raw_bytes());
}

#[test]
fn from_bth_u64_ignores_bits_above_48() {
    let v = 0x0000_abcd_1234_5678u64;
    let tagged = v | 0xffff_0000_0000_0000u64;
    assert_eq!(
        BtAddr::from_bth_u64(tagged).to_raw_bytes(),
        BtAddr::from_bth_u64(v).to_raw_bytes()
    );
}
