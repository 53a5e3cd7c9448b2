use liqpay::codec::{decode, encode};

fn round_trip(bytes: &[u8]) {
    let text = encode(bytes);
    assert_eq!(decode(&text), Some(bytes.to_vec()));
}

#[test]
fn encode_known_values() {
    assert_eq!(encode(b""), "");
    assert_eq!(encode(b"f"), "Zg==");
    assert_eq!(encode(b"fo"), "Zm8=");
    assert_eq!(encode(b"foo"), "Zm9v");
    assert_eq!(encode(b"foob"), "Zm9vYg==");
    assert_eq!(encode(b"fooba"), "Zm9vYmE=");
    assert_eq!(encode(b"foobar"), "Zm9vYmFy");
    assert_eq!(encode("h\u{e9}llo".as_bytes()), "aMOpbGxv");
    assert_eq!(encode(&[0xfb, 0xff]), "+/8=");
}

#[test]
fn decode_inverts_encode() {
    round_trip(b"");
    round_trip(b"a");
    round_trip(b"ab");
    round_trip(b"abc");
    round_trip(b"abcd");
    round_trip(&[0, 255, 128, 63, 64, 1, 254]);
    let all: Vec<u8> = (0..=255u8).collect();
    round_trip(&all);
}

#[test]
fn decode_rejects_non_canonical_text() {
    assert_eq!(decode("Zg="), None);
    assert_eq!(decode("Zh=="), None);
    assert_eq!(decode("Z==="), None);
    assert_eq!(decode("Zm9v!"), None);
    assert_eq!(decode("Zm 9v"), None);
    assert_eq!(decode("Zg==Zg=="), None);
}

#[test]
fn decode_known_values() {
    assert_eq!(decode("Zm9vYmFy"), Some(b"foobar".to_vec()));
    assert_eq!(decode(""), Some(Vec::new()));
}
