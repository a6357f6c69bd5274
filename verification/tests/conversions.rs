use four_cc::{FourCC, InsufficientLength};
use std::str::FromStr;

#[test]
fn eq() {
    assert!(FourCC(*b"uuid") == b"uuid".into());
    assert!(FourCC(*b"uuid") != b"diuu".into());
}

#[test]
fn int_conversions() {
    let val: u32 = FourCC(*b"ABCD").into();
    assert_eq!(0x41424344_u32, val);
    assert!(FourCC(*b"ABCD") == 0x41424344u32.into());
}

#[test]
fn deserialize() {
    let data = "uuid";
    let code = FourCC::from_str(data).unwrap();
    assert!(code == FourCC(*b"uuid"));
}

#[test]
fn uuid_as_integer() {
    assert_eq!(FourCC(*b"uuid").from_u32(), 0x75756964);
}

#[test]
fn integer_form_is_big_endian() {
    assert_eq!(FourCC([0x41, 0x42, 0x43, 0x44]).from_u32(), 0x41424344);
    assert_eq!(FourCC([0x01, 0x00, 0x00, 0x00]).from_u32(), 0x0100_0000);
    assert_eq!(FourCC([0x00, 0x00, 0x00, 0x01]).from_u32(), 1);
    assert_eq!(FourCC([0xff, 0xff, 0xff, 0xff]).from_u32(), u32::MAX);
    assert_eq!(FourCC::from(0x12345678u32).0, [0x12, 0x34, 0x56, 0x78]);
    assert_eq!(FourCC::from(0u32).0, [0, 0, 0, 0]);
}

#[test]
fn integer_round_trip() {
    let samples: [u32; 8] =
        [0, 1, 0xff, 0x100, 0x6d6f6f66, 0x8000_0000, 0xdead_beef, u32::MAX];
    for n in samples {
        assert_eq!(FourCC::from(n).from_u32(), n);
        assert_eq!(u32::from(FourCC::from(n)), n);
    }
}

#[test]
fn code_round_trip() {
    let code = FourCC(*b"ABCD");
    let back = FourCC::from(code.from_u32());
    assert!(back == code);
    let odd = FourCC([0x00, 0xff, 0x5c, 0x22]);
    assert!(FourCC::from(odd.from_u32()) == odd);
}

#[test]
fn octet_round_trip() {
    let a: [u8; 4] = [0x00, 0x7f, 0x80, 0xff];
    assert_eq!(FourCC(a).0, a);
    assert_eq!(FourCC::from(&a).0, a);
    assert_eq!(FourCC::from_slice(&a).0, a);
}

#[test]
fn equality_is_octet_wise() {
    let a = FourCC(*b"moov");
    assert!(a == FourCC(*b"moov"));
    assert!(a != FourCC(*b"Moov"));
    assert!(a != FourCC(*b"mOov"));
    assert!(a != FourCC(*b"moOv"));
    assert!(a != FourCC(*b"mooV"));
}

#[test]
fn slice_takes_first_four() {
    let data = b"moofftyp";
    assert!(FourCC::from_slice(&data[0..4]) == FourCC(*b"moof"));
    assert!(FourCC::from_slice(data) == FourCC(*b"moof"));
    assert!(FourCC::try_from_slice(data) == Ok(FourCC(*b"moof")));
    assert!(FourCC::try_from_slice(&data[4..]) == Ok(FourCC(*b"ftyp")));
}

#[test]
fn short_slice_is_refused() {
    let data = b"abc";
    assert!(FourCC::try_from_slice(data) == Err(InsufficientLength { len: 3 }));
    assert!(FourCC::try_from_slice(&[]) == Err(InsufficientLength { len: 0 }));
}

#[test]
fn text_of_wrong_length_is_refused() {
    assert!(FourCC::from_str("uuid123") == Err(7));
    assert!(FourCC::from_str("") == Err(0));
    assert!(FourCC::from_str("abc") == Err(3));
    assert!(FourCC::from_str("abcde") == Err(5));
}

#[test]
fn text_length_counts_octets() {
    // two characters of two octets each
    assert!(FourCC::from_str("\u{e9}\u{e9}") == Ok(FourCC([0xc3, 0xa9, 0xc3, 0xa9])));
    // four characters, eight octets
    assert!(FourCC::from_str("\u{e9}\u{e9}\u{e9}\u{e9}") == Err(8));
    // one character of four octets
    assert!(FourCC::from_str("\u{1f600}") == Ok(FourCC([0xf0, 0x9f, 0x98, 0x80])));
}

#[test]
fn parse_goes_by_the_text_constructor() {
    let parsed: Result<FourCC, u32> = "moof".parse();
    assert!(parsed == Ok(FourCC(*b"moof")));
    let refused: Result<FourCC, u32> = "moo".parse();
    assert!(refused == Err(3));
}

#[test]
fn copies_are_equal() {
    let a = FourCC(*b"trak");
    let b = a;
    let c = a.clone();
    assert!(a == b);
    assert!(a == c);
}
