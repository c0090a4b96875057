use script_bridge::params::{unpack, DecodeError, PackedBuffer, ParamValue, ParameterList};
use script_bridge::registry::{decode_single_return, ProtocolError};

fn list_of(values: Vec<ParamValue>) -> ParameterList {
    let mut list = ParameterList::new();
    for v in values {
        list.push(v);
    }
    list
}

#[test]
fn test() {
}

#[test]
fn round_trip_all_kinds() {
    let values = vec![
        ParamValue::Int(-5),
        ParamValue::Int(i64::MAX),
        ParamValue::Int(i64::MIN),
        ParamValue::FloatBits(1.5f32.to_bits()),
        ParamValue::Text(String::from("héllo, wörld")),
        ParamValue::Text(String::new()),
        ParamValue::Handle(7),
        ParamValue::Handle(u64::MAX),
    ];
    let list = list_of(values.clone());
    let packed = list.pack();
    let back = unpack(packed).expect("round trip must decode");
    assert_eq!(back.values, values);
}

#[test]
fn round_trip_empty() {
    let packed = ParameterList::new().pack();
    let back = unpack(packed).expect("empty list must decode");
    assert_eq!(back.values.len(), 0);
}

#[test]
fn pack_is_deterministic() {
    let a = list_of(vec![
        ParamValue::Int(42),
        ParamValue::Text(String::from("same")),
        ParamValue::FloatBits(0.25f32.to_bits()),
    ]);
    let b = list_of(vec![
        ParamValue::Int(42),
        ParamValue::Text(String::from("same")),
        ParamValue::FloatBits(0.25f32.to_bits()),
    ]);
    assert_eq!(a.pack().bytes, b.pack().bytes);
}

#[test]
fn pack_exact_bytes_for_one_int() {
    let list = list_of(vec![ParamValue::Int(1)]);
    let packed = list.pack();
    let expected = vec![
        1u8, 0, 0, 0, 0, 0, 0, 0, // element count 1, little endian
        1u8, // integer tag
        1u8, 0, 0, 0, 0, 0, 0, 0, // two's-complement value 1, little endian
    ];
    assert_eq!(packed.bytes, expected);
}

#[test]
fn pack_exact_bytes_for_text() {
    let list = list_of(vec![ParamValue::Text(String::from("ab"))]);
    let packed = list.pack();
    let expected = vec![
        1u8, 0, 0, 0, 0, 0, 0, 0, // element count 1
        3u8, // text tag
        2u8, 0, 0, 0, 0, 0, 0, 0, // byte length 2
        b'a', b'b',
    ];
    assert_eq!(packed.bytes, expected);
}

#[test]
fn unpack_rejects_truncated_buffer() {
    let r = unpack(PackedBuffer { bytes: vec![1, 0, 0] });
    assert_eq!(r.unwrap_err(), DecodeError::Truncated);
}

#[test]
fn unpack_rejects_count_beyond_payload() {
    // declares one element but carries none
    let r = unpack(PackedBuffer { bytes: vec![1, 0, 0, 0, 0, 0, 0, 0] });
    assert_eq!(r.unwrap_err(), DecodeError::Truncated);
}

#[test]
fn unpack_rejects_unknown_tag() {
    let mut bytes = vec![1u8, 0, 0, 0, 0, 0, 0, 0];
    bytes.push(9); // no such tag
    bytes.extend_from_slice(&[0; 8]);
    let r = unpack(PackedBuffer { bytes });
    assert_eq!(r.unwrap_err(), DecodeError::UnknownTag);
}

#[test]
fn unpack_rejects_invalid_text() {
    let mut bytes = vec![1u8, 0, 0, 0, 0, 0, 0, 0];
    bytes.push(3); // text tag
    bytes.extend_from_slice(&[2, 0, 0, 0, 0, 0, 0, 0]);
    bytes.extend_from_slice(&[0xff, 0xfe]); // not UTF-8
    let r = unpack(PackedBuffer { bytes });
    assert_eq!(r.unwrap_err(), DecodeError::InvalidText);
}

#[test]
fn unpack_rejects_trailing_data() {
    let mut packed = list_of(vec![ParamValue::Int(5)]).pack();
    packed.bytes.push(0);
    let r = unpack(packed);
    assert_eq!(r.unwrap_err(), DecodeError::TrailingData);
}

#[test]
fn single_return_accepts_one_value() {
    let packed = list_of(vec![ParamValue::Int(99)]).pack();
    let v = decode_single_return(packed).expect("one value expected");
    assert_eq!(v, ParamValue::Int(99));
}

#[test]
fn single_return_rejects_empty_list() {
    let packed = ParameterList::new().pack();
    let e = decode_single_return(packed).unwrap_err();
    assert_eq!(e, ProtocolError::WrongArity(0));
}

#[test]
fn single_return_rejects_two_values() {
    let packed = list_of(vec![ParamValue::Int(1), ParamValue::Int(2)]).pack();
    let e = decode_single_return(packed).unwrap_err();
    assert_eq!(e, ProtocolError::WrongArity(2));
}

#[test]
fn single_return_rejects_malformed_buffer() {
    let e = decode_single_return(PackedBuffer { bytes: vec![5, 5] }).unwrap_err();
    assert_eq!(e, ProtocolError::Malformed);
}
