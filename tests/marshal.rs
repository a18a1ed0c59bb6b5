use wren_rs::{from_c_bytes, to_c_bytes, NulError};

#[test]
fn text_round_trips_through_c_encoding() {
    let s = "hello, world";
    let encoded = to_c_bytes(s.as_bytes()).unwrap();
    assert_eq!(encoded, b"hello, world\0".to_vec());
    assert_eq!(from_c_bytes(&encoded), s.as_bytes().to_vec());
}

#[test]
fn empty_text_round_trips() {
    let encoded = to_c_bytes(b"").unwrap();
    assert_eq!(encoded, vec![0u8]);
    assert_eq!(from_c_bytes(&encoded), Vec::<u8>::new());
}

#[test]
fn utf8_text_round_trips() {
    let s = "größe ✓";
    let back = from_c_bytes(&to_c_bytes(s.as_bytes()).unwrap());
    assert_eq!(String::from_utf8(back).unwrap(), s);
}

#[test]
fn interior_nul_is_refused_at_first_position() {
    assert_eq!(to_c_bytes(b"b\0y\0t\0e"), Err(NulError { position: 1 }));
    assert_eq!(to_c_bytes(b"\0"), Err(NulError { position: 0 }));
}

#[test]
fn reading_stops_at_first_nul() {
    assert_eq!(from_c_bytes(b"abc\0def\0"), b"abc".to_vec());
    assert_eq!(from_c_bytes(b"no terminator"), b"no terminator".to_vec());
    assert_eq!(from_c_bytes(b""), Vec::<u8>::new());
}
