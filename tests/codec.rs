use workshop_fetch::codec::{decode_byte, decode_bytes, encode_byte, encode_bytes, SHIFT};

#[test]
fn shift_is_eighty_eight() {
    assert_eq!(SHIFT, 88);
}

#[test]
fn decode_byte_subtracts_shift() {
    assert_eq!(decode_byte(100), 12);
    assert_eq!(decode_byte(88), 0);
}

#[test]
fn decode_byte_wraps_below_zero() {
    assert_eq!(decode_byte(0), 168);
    assert_eq!(decode_byte(87), 255);
}

#[test]
fn encode_byte_wraps_above_255() {
    assert_eq!(encode_byte(200), 32);
    assert_eq!(encode_byte(0), 88);
}

#[test]
fn decode_bytes_of_empty_is_empty() {
    assert_eq!(decode_bytes(&[]), Vec::<u8>::new());
}

#[test]
fn decode_bytes_exact_values() {
    assert_eq!(decode_bytes(&[88, 89, 0, 255]), vec![0, 1, 168, 167]);
}

#[test]
fn round_trip_every_byte() {
    let all: Vec<u8> = (0..=255u8).collect();
    let encoded = encode_bytes(&all);
    assert_ne!(encoded, all);
    assert_eq!(decode_bytes(&encoded), all);
}

#[test]
fn round_trip_text() {
    let plain = b"key = value\nother = 12\n".to_vec();
    assert_eq!(decode_bytes(&encode_bytes(&plain)), plain);
    assert_eq!(encode_bytes(&decode_bytes(&plain)), plain);
}
