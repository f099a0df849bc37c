use emu8080::flags::ConditionalFlags;
use emu8080::i8080::{concat_bytes, split_bytes};

#[test]
fn cpu8080_can_split_bytes() {
    let (high, low) = split_bytes(0xea14);
    assert_eq!(high, 0xea);
    assert_eq!(low, 0x14);
}

#[test]
fn i8080_can_split_bytes() {
    let (high, low) = split_bytes(0xea14);
    assert_eq!(high, 0xea);
    assert_eq!(low, 0x14);
}

#[test]
fn cpu8080_can_concat_bytes() {
    let low = 0x14;
    let high = 0xea;
    assert_eq!(concat_bytes(high, low), 0xea14);
}

#[test]
fn i8080_can_concat_bytes() {
    let low = 0x14;
    let high = 0xea;
    assert_eq!(concat_bytes(high, low), 0xea14);
}

#[test]
fn cpu8080_can_test_parity() {
    let odd = 0x5b; // 91
    assert_eq!(ConditionalFlags::check_parity(odd), false);
    let even = 0x9f; // 159
    assert_eq!(ConditionalFlags::check_parity(even), true);
}

#[test]
fn flags_can_test_parity() {
    let odd = 0x5b; // 91
    assert_eq!(ConditionalFlags::check_parity(odd), false);
    let even = 0x9f; // 159
    assert_eq!(ConditionalFlags::check_parity(even), true);
}

#[test]
fn cpu8080_flags_as_bytes() {
    let mut f = ConditionalFlags::new();
    assert_eq!(u8::from(f), 0x02);
    f.s = true;
    assert_eq!(u8::from(f), 0x82);
    f.z = true;
    assert_eq!(u8::from(f), 0xc2);
    f.ac = true;
    assert_eq!(u8::from(f), 0xd2);
    f.p = true;
    assert_eq!(u8::from(f), 0xd6);
    f.cy = true;
    assert_eq!(u8::from(f), 0xd7);
}

#[test]
fn flags_flags_as_bytes() {
    let mut f = ConditionalFlags::new();
    assert_eq!(u8::from(f), 0x02);
    f.s = true;
    assert_eq!(u8::from(f), 0x82);
    f.z = true;
    assert_eq!(u8::from(f), 0xc2);
    f.ac = true;
    assert_eq!(u8::from(f), 0xd2);
    f.p = true;
    assert_eq!(u8::from(f), 0xd6);
    f.cy = true;
    assert_eq!(u8::from(f), 0xd7);
}

#[test]
fn flags_byte_round_trip() {
    let f = ConditionalFlags { z: true, s: false, p: true, cy: true, ac: false };
    let byte = u8::from(f);
    assert_eq!(byte, 0x47);
    assert_eq!(ConditionalFlags::from(byte), f);
    // The constant bits 1, 3 and 5 of the status byte are ignored on decode.
    assert_eq!(ConditionalFlags::from(0x02), ConditionalFlags::new());
    assert_eq!(ConditionalFlags::from(0x28), ConditionalFlags::new());
}

#[test]
fn flags_accessors_report_fields() {
    let f = ConditionalFlags { z: true, s: false, p: true, cy: false, ac: true };
    assert_eq!(f.z(), true);
    assert_eq!(f.s(), false);
    assert_eq!(f.p(), true);
    assert_eq!(f.cy(), false);
    assert_eq!(f.ac(), true);
}
