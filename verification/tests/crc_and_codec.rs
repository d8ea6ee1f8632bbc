//! Checksum and codec behaviour, including agreement with the reference
//! CRC-16/AUG-CCITT implementation from the `crc16` crate.

use one_button_keyboard::crc::crc16;
use one_button_keyboard::pattern::ReportPattern;

fn reference_crc16(data: &[u8]) -> u16 {
    crc16::State::<crc16::AUG_CCITT>::calculate(data)
}

#[test]
fn crc_matches_catalogue_check_value() {
    assert_eq!(crc16(b"123456789"), 0xE5CC);
}

#[test]
fn crc_matches_reference_implementation() {
    let samples: [&[u8]; 6] = [
        b"",
        b"\x00",
        b"123456789",
        b"\x00\x00\x00\x00\x00\x00\x00",
        b"\xFF\xFF\xFF\xFF\xFF\xFF\xFF\xFF\xFF",
        b"\x02\x2B\x00\x00\x00\x00\x00",
    ];
    for s in samples {
        assert_eq!(crc16(s), reference_crc16(s), "sample {:02X?}", s);
    }
}

#[test]
fn crc_of_empty_input_is_the_initial_value() {
    assert_eq!(crc16(b""), 0x1D0F);
}

#[test]
fn framed_blob_has_zero_crc() {
    let payloads: [&[u8]; 3] = [b"\x00\x00\x00\x00\x00\x00\x00", b"\x00\x04\x00\x00\x00\x00\x00", b"hello"];
    for p in payloads {
        let c = crc16(p);
        let mut framed = p.to_vec();
        framed.push((c >> 8) as u8);
        framed.push(c as u8);
        assert_eq!(crc16(&framed), 0, "payload {:02X?}", p);
        assert_eq!(reference_crc16(&framed), 0, "payload {:02X?} (reference)", p);
    }
}

#[test]
fn pack_lays_out_modifier_then_keycodes() {
    let p = ReportPattern { modifier: 0x02, keycodes: [0x2B, 0, 0, 0, 0, 0] };
    assert_eq!(p.pack(), [0x02, 0x2B, 0, 0, 0, 0, 0]);
}

#[test]
fn unpack_accepts_exactly_seven_bytes() {
    let bytes = [0x00u8, 0x04, 0, 0, 0, 0, 0];
    let p = ReportPattern::unpack(&bytes).expect("seven bytes must decode");
    assert_eq!(p.modifier, 0x00);
    assert_eq!(p.keycodes, [0x04, 0, 0, 0, 0, 0]);
}

#[test]
fn unpack_rejects_wrong_lengths() {
    assert!(ReportPattern::unpack(&[0u8; 6]).is_err());
    assert!(ReportPattern::unpack(&[0u8; 8]).is_err());
    assert!(ReportPattern::unpack(&[]).is_err());
}

#[test]
fn codec_round_trips() {
    let p = ReportPattern { modifier: 0xA5, keycodes: [1, 2, 3, 4, 5, 6] };
    let q = ReportPattern::unpack(&p.pack()).expect("round trip");
    assert_eq!(q, p);

    let s = [9u8, 8, 7, 6, 5, 4, 3];
    assert_eq!(ReportPattern::unpack(&s).expect("seven bytes").pack(), s);
}
