use stratum_v1::error::Error;
use stratum_v1::hex::{decode_hex, decode_u32_le, encode_hex, encode_u32_le};
use stratum_v1::primitives::{ExtraNonce1, HexBytes, HexU32Le};
use stratum_v1::value::{check_number_text, Value};

#[test]
fn hex_encodes_lower_case_without_prefix() {
    assert_eq!(encode_hex(&[0xAB, 0xCD, 0x01, 0x00]), "abcd0100");
    assert_eq!(encode_hex(&[]), "");
}

#[test]
fn hex_decodes_either_case() {
    assert_eq!(decode_hex("abCD01").unwrap(), vec![0xAB, 0xCD, 0x01]);
    assert_eq!(decode_hex("").unwrap(), Vec::<u8>::new());
}

#[test]
fn hex_rejects_odd_length_and_bad_digits() {
    assert_eq!(decode_hex("abc"), Err(Error::MalformedHex));
    assert_eq!(decode_hex("zz"), Err(Error::MalformedHex));
    assert_eq!(decode_hex("0x12"), Err(Error::MalformedHex));
}

#[test]
fn hex_round_trips_every_byte() {
    let all: Vec<u8> = (0..=255u8).collect();
    let text = encode_hex(&all);
    assert_eq!(text.len(), 512);
    assert_eq!(decode_hex(&text).unwrap(), all);
}

#[test]
fn little_endian_reads_reversed_bytes() {
    assert_eq!(decode_u32_le("00000001").unwrap(), 16777216);
    assert_eq!(decode_u32_le("01000000").unwrap(), 1);
}

#[test]
fn little_endian_writes_reversed_bytes() {
    assert_eq!(encode_u32_le(0x20000000), "00000020");
    assert_eq!(encode_u32_le(1), "01000000");
    assert_eq!(encode_u32_le(0x5F000000), "0000005f");
}

#[test]
fn little_endian_round_trips() {
    for x in [0u32, 1, 0x42, 0x1234_5678, u32::MAX] {
        assert_eq!(decode_u32_le(&encode_u32_le(x)).unwrap(), x);
    }
}

#[test]
fn little_endian_needs_four_bytes() {
    assert_eq!(decode_u32_le("000001"), Err(Error::MalformedHex));
    assert_eq!(decode_u32_le("0000000001"), Err(Error::MalformedHex));
    assert_eq!(decode_u32_le("0000000g"), Err(Error::MalformedHex));
}

#[test]
fn primitives_become_hex_strings() {
    match HexBytes(vec![0xde, 0xad]).into_value() {
        Value::Str(s) => assert_eq!(s, "dead"),
        other => panic!("unexpected {:?}", other),
    }
    match HexU32Le(0x01020304).into_value() {
        Value::Str(s) => assert_eq!(s, "04030201"),
        other => panic!("unexpected {:?}", other),
    }
    let token = ExtraNonce1(HexBytes(vec![1, 2]));
    assert_eq!(token.0 .0, vec![1, 2]);
}

#[test]
fn primitives_refuse_other_wire_types() {
    assert_eq!(HexBytes::from_value(Value::Int(3)), Err(Error::ParamShape));
    assert_eq!(HexU32Le::from_value(Value::Str("0102".to_string())), Err(Error::ParamShape));
    assert_eq!(HexU32Le::from_value(Value::Str("04030201".to_string())), Ok(HexU32Le(0x01020304)));
}

#[test]
fn number_text_follows_json_grammar() {
    for ok in ["0", "-0", "12", "0.5", "-3.25", "1e9", "2.5E-3", "7e+2"] {
        assert!(check_number_text(ok), "{}", ok);
    }
    for bad in ["", "-", "01", "1.", ".5", "1e", "1e+", "+1", "0x10", "1.2.3", "NaN", "abc"] {
        assert!(!check_number_text(bad), "{}", bad);
    }
}
