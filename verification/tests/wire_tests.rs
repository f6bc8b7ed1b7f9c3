use zos_apps::error::ProtocolError;
use zos_apps::serializable::WireSerializable;
use zos_apps::wire::{
    decode_envelope, decode_optional_char, decode_string, decode_u16, decode_u32, decode_u8,
    encode_envelope, encode_optional_char, encode_string, Envelope, PROTOCOL_VERSION,
};

#[test]
fn test_envelope_roundtrip() {
    let envelope = Envelope::new(0x01, vec![1, 2, 3, 4, 5]);
    let encoded = encode_envelope(&envelope);
    let decoded = decode_envelope(&encoded).unwrap();

    assert_eq!(decoded.version, PROTOCOL_VERSION);
    assert_eq!(decoded.type_tag, 0x01);
    assert_eq!(decoded.payload, vec![1, 2, 3, 4, 5]);
}

#[test]
fn test_string_roundtrip() {
    let s = "Hello, World!";
    let encoded = encode_string(s);
    let mut cursor = 0;
    let decoded = decode_string(&encoded, &mut cursor).unwrap();

    assert_eq!(decoded, s);
    assert_eq!(cursor, encoded.len());
}

#[test]
fn test_optional_char_roundtrip() {
    let encoded = encode_optional_char(None);
    let mut cursor = 0;
    let decoded = decode_optional_char(&encoded, &mut cursor).unwrap();
    assert_eq!(decoded, None);

    let encoded = encode_optional_char(Some('+'));
    let mut cursor = 0;
    let decoded = decode_optional_char(&encoded, &mut cursor).unwrap();
    assert_eq!(decoded, Some('+'));
}

#[test]
fn envelope_exact_bytes() {
    let envelope = Envelope::new(0x07, vec![9, 8, 7]);
    assert_eq!(encode_envelope(&envelope), vec![0x01, 0x07, 3, 0, 9, 8, 7]);
}

#[test]
fn envelope_errors() {
    assert_eq!(decode_envelope(&[1, 2, 3]).unwrap_err(), ProtocolError::TooShort);
    assert_eq!(decode_envelope(&[2, 0, 0, 0]).unwrap_err(), ProtocolError::UnknownVersion(2));
    assert_eq!(
        decode_envelope(&[1, 0, 5, 0, 1, 2]).unwrap_err(),
        ProtocolError::PayloadOverflow { declared: 5, available: 2 }
    );
}

#[test]
fn envelope_ignores_trailing_bytes() {
    let d = decode_envelope(&[1, 9, 2, 0, 10, 11, 12, 13]).unwrap();
    assert_eq!(d.type_tag, 9);
    assert_eq!(d.payload, vec![10, 11]);
}

#[test]
fn string_errors_and_cursor() {
    let mut cursor = 0;
    assert_eq!(decode_string(&[5], &mut cursor).unwrap_err(), ProtocolError::TooShort);
    assert_eq!(cursor, 0);
    let mut cursor = 0;
    assert_eq!(
        decode_string(&[4, 0, b'a'], &mut cursor).unwrap_err(),
        ProtocolError::StringOverflow { declared: 4, available: 1 }
    );
    assert_eq!(cursor, 2);
    let mut cursor = 0;
    assert_eq!(decode_string(&[1, 0, 0xff], &mut cursor).unwrap_err(), ProtocolError::InvalidUtf8);
    assert_eq!(cursor, 3);
}

#[test]
fn string_encoding_is_utf8_with_byte_length() {
    assert_eq!(encode_string("é"), vec![2, 0, 0xc3, 0xa9]);
}

#[test]
fn integer_decoding_is_little_endian() {
    let data = [0x34, 0x12, 0x78, 0x56, 0x34, 0x12, 0xAB];
    let mut cursor = 0;
    assert_eq!(decode_u16(&data, &mut cursor).unwrap(), 0x1234);
    assert_eq!(cursor, 2);
    let mut cursor = 2;
    assert_eq!(decode_u32(&data, &mut cursor).unwrap(), 0x12345678);
    assert_eq!(cursor, 6);
    assert_eq!(decode_u8(&data, &mut cursor).unwrap(), 0xAB);
    assert_eq!(decode_u8(&data, &mut cursor).unwrap_err(), ProtocolError::TooShort);
    let mut cursor = 5;
    assert_eq!(decode_u32(&data, &mut cursor).unwrap_err(), ProtocolError::TooShort);
    assert_eq!(cursor, 5);
}

#[test]
fn optional_char_invalid_code_point_is_none() {
    let mut cursor = 0;
    let d = decode_optional_char(&[1, 0x00, 0xD8, 0, 0], &mut cursor).unwrap();
    assert_eq!(d, None);
    assert_eq!(cursor, 5);
}

#[derive(Debug, PartialEq)]
struct TestState {
    value: u8,
}

impl WireSerializable for TestState {
    const TYPE_TAG: u8 = 0xAB;

    fn encode_payload(&self) -> Vec<u8> {
        vec![Self::TYPE_TAG, self.value]
    }

    fn decode_payload(payload: &[u8]) -> Result<Self, ProtocolError> {
        if payload.len() < 2 {
            return Err(ProtocolError::TooShort);
        }
        Ok(TestState { value: payload[1] })
    }
}

#[test]
fn test_wire_serializable_roundtrip() {
    let state = TestState { value: 42 };
    let bytes = state.to_bytes();
    let decoded = TestState::from_bytes(&bytes).unwrap();
    assert_eq!(decoded, state);
}

#[test]
fn test_wire_serializable_wrong_type_tag() {
    let envelope = Envelope::new(0xFF, vec![0xFF, 42]);
    let bytes = encode_envelope(&envelope);

    let result = TestState::from_bytes(&bytes);
    assert!(matches!(
        result,
        Err(ProtocolError::UnexpectedType {
            expected: 0xAB,
            got: 0xFF
        })
    ));
}

#[test]
fn test_wire_serializable_empty_payload() {
    let envelope = Envelope::new(0xAB, vec![]);
    let bytes = encode_envelope(&envelope);

    let result = TestState::from_bytes(&bytes);
    assert!(matches!(result, Err(ProtocolError::EmptyPayload)));
}
