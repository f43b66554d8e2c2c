use keyflag::mode::{
    decode_stored_mode, encode_stored_mode, klid_for, stored_mode_bytes, stored_value, Mode,
};
use keyflag::paint::{force_opaque, icon_mask, rgb};
use keyflag::wide::{encode_utf16, encode_wide, le_bytes, tip_field, units_before_nul};

fn padded(units: &[u16], len: usize) -> Vec<u16> {
    let mut v = units.to_vec();
    v.resize(len, 0);
    v
}

#[test]
fn klid_of_each_mode() {
    assert_eq!(klid_for(Mode::UsIntl), "00020409");
    assert_eq!(klid_for(Mode::Abnt2), "00010416");
}

#[test]
fn stored_value_of_each_mode() {
    assert_eq!(stored_value(Mode::UsIntl), "US");
    assert_eq!(stored_value(Mode::Abnt2), "ABNT");
    assert_eq!(encode_stored_mode(Mode::UsIntl), vec![0x55, 0x53, 0]);
    assert_eq!(encode_stored_mode(Mode::Abnt2), vec![0x41, 0x42, 0x4E, 0x54, 0]);
}

#[test]
fn stored_bytes_are_little_endian_with_terminator() {
    assert_eq!(stored_mode_bytes(Mode::UsIntl), vec![0x55, 0, 0x53, 0, 0, 0]);
    assert_eq!(
        stored_mode_bytes(Mode::Abnt2),
        vec![0x41, 0, 0x42, 0, 0x4E, 0, 0x54, 0, 0, 0]
    );
}

#[test]
fn stored_mode_round_trips_through_a_read_buffer() {
    for mode in [Mode::UsIntl, Mode::Abnt2] {
        let buf = padded(&encode_stored_mode(mode), 16);
        assert_eq!(decode_stored_mode(true, &buf), mode);
    }
}

#[test]
fn decode_falls_back_to_us() {
    let abnt = padded(&[0x41, 0x42, 0x4E, 0x54], 16);
    assert_eq!(decode_stored_mode(false, &abnt), Mode::UsIntl);
    assert_eq!(decode_stored_mode(true, &abnt), Mode::Abnt2);
    let longer = padded(&[0x41, 0x42, 0x4E, 0x54, 0x58], 16);
    assert_eq!(decode_stored_mode(true, &longer), Mode::UsIntl);
    let lower = padded(&[0x61, 0x62, 0x6E, 0x74], 16);
    assert_eq!(decode_stored_mode(true, &lower), Mode::UsIntl);
    assert_eq!(decode_stored_mode(true, &vec![0u16; 16]), Mode::UsIntl);
    // Text after the terminator is ignored; a full buffer without one is read whole.
    assert_eq!(decode_stored_mode(true, &vec![0x41, 0x42, 0x4E, 0x54, 0, 0x58]), Mode::Abnt2);
    assert_eq!(decode_stored_mode(true, &vec![0x41, 0x42, 0x4E, 0x54]), Mode::Abnt2);
}

#[test]
fn rgb_packs_blue_green_red() {
    assert_eq!(rgb(1, 2, 3), 0x0003_0201);
    assert_eq!(rgb(37, 99, 235), 0x00EB_6325);
    assert_eq!(rgb(255, 255, 255), 0x00FF_FFFF);
}

#[test]
fn utf16_encoding_of_bmp_and_astral_characters() {
    assert_eq!(encode_utf16("A€"), vec![0x41, 0x20AC]);
    assert_eq!(encode_utf16("😀"), vec![0xD83D, 0xDE00]);
    assert_eq!(encode_wide("Ok"), vec![0x4F, 0x6B, 0]);
    assert_eq!(encode_wide(""), vec![0]);
    let s = "KeyFlag — Português ABNT2 😀";
    let mut expected: Vec<u16> = s.encode_utf16().collect();
    assert_eq!(encode_utf16(s), expected);
    expected.push(0);
    assert_eq!(encode_wide(s), expected);
}

#[test]
fn le_bytes_split_each_unit() {
    assert_eq!(le_bytes(&vec![0x1234, 0x00FF]), vec![0x34, 0x12, 0xFF, 0x00]);
    assert_eq!(le_bytes(&vec![]), Vec::<u8>::new());
}

#[test]
fn units_before_first_nul() {
    assert_eq!(units_before_nul(&vec![1, 2, 0, 3]), vec![1, 2]);
    assert_eq!(units_before_nul(&vec![1, 2, 3]), vec![1, 2, 3]);
    assert_eq!(units_before_nul(&vec![0, 1]), Vec::<u16>::new());
}

#[test]
fn tip_field_truncates_and_terminates() {
    let short = tip_field(&vec![7, 8, 0]);
    assert_eq!(short.len(), 128);
    assert_eq!(&short[..3], &[7, 8, 0]);
    assert!(short[3..].iter().all(|&u| u == 0));
    let long = tip_field(&vec![9u16; 300]);
    assert_eq!(long.len(), 128);
    assert!(long[..127].iter().all(|&u| u == 9));
    assert_eq!(long[127], 0);
}

#[test]
fn force_opaque_sets_every_alpha_byte() {
    let mut bits = vec![7u8; 4100];
    force_opaque(&mut bits);
    for (i, b) in bits.iter().enumerate() {
        if i < 4096 && i % 4 == 3 {
            assert_eq!(*b, 255);
        } else {
            assert_eq!(*b, 7);
        }
    }
    let mask = icon_mask();
    assert_eq!(mask.len(), 1024);
    assert!(mask.iter().all(|&b| b == 0));
}
