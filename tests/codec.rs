use triton_ng::codec::{
    decode_fp32_tensor, decode_fp64_tensor, decode_int32_tensor, decode_int64_tensor,
    decode_string, decode_string_tensor, encode_fp32_tensor, encode_fp64_tensor,
    encode_int32_tensor, encode_int64_tensor, encode_string, encode_string_tensor, lossy_string,
};
use triton_ng::error::ErrorKind;

fn bits32(v: &[f32]) -> Vec<u32> {
    v.iter().map(|x| x.to_bits()).collect()
}

#[test]
fn encode_string_prefixes_little_endian_length() {
    let b = encode_string("abc").unwrap();
    assert_eq!(b, vec![3, 0, 0, 0, b'a', b'b', b'c']);
}

#[test]
fn encode_string_counts_utf8_bytes() {
    let b = encode_string("é").unwrap();
    assert_eq!(b, vec![2, 0, 0, 0, 0xc3, 0xa9]);
}

#[test]
fn decode_string_recovers_first_with_remaining() {
    let mut b = encode_string("hello").unwrap();
    b.extend(encode_string("world").unwrap());
    let v = decode_string(&b).unwrap();
    assert_eq!(v, vec!["hello".to_string(), "world".to_string()]);
}

#[test]
fn decode_string_empty_buffer_is_empty_list() {
    assert_eq!(decode_string(&[]).unwrap(), Vec::<String>::new());
}

#[test]
fn decode_string_empty_element() {
    assert_eq!(decode_string(&[0, 0, 0, 0]).unwrap(), vec![String::new()]);
}

#[test]
fn decode_string_truncated_payload_fails() {
    let e = decode_string(&[5, 0, 0, 0, b'a']).unwrap_err();
    assert_eq!(e.kind, ErrorKind::DecodeError);
}

#[test]
fn decode_string_truncated_prefix_fails() {
    let mut b = encode_string("ok").unwrap();
    b.extend([1, 0]);
    let e = decode_string(&b).unwrap_err();
    assert_eq!(e.kind, ErrorKind::DecodeError);
}

#[test]
fn decode_string_replaces_invalid_utf8() {
    let v = decode_string(&[1, 0, 0, 0, 0xff]).unwrap();
    assert_eq!(v, vec!["\u{fffd}".to_string()]);
}

#[test]
fn string_list_round_trip() {
    let list = vec!["".to_string(), "Input3".to_string(), "żółw".to_string()];
    let b = encode_string_tensor(&list).unwrap();
    assert_eq!(decode_string_tensor(&b).unwrap(), list);
    let mut expected = Vec::new();
    for s in &list {
        expected.extend(encode_string(s).unwrap());
    }
    assert_eq!(b, expected);
}

#[test]
fn fp32_layout_is_little_endian() {
    assert_eq!(encode_fp32_tensor(&bits32(&[1.0])), vec![0, 0, 0x80, 0x3f]);
}

#[test]
fn fp32_round_trip_is_bit_exact() {
    let v = bits32(&[0.123, -1.5, f32::INFINITY, -0.0, f32::MIN_POSITIVE]);
    let mut with_nan = v.clone();
    with_nan.push(0x7fc0_1234);
    let b = encode_fp32_tensor(&with_nan);
    assert_eq!(b.len(), 4 * with_nan.len());
    assert_eq!(decode_fp32_tensor(&b).unwrap(), with_nan);
}

#[test]
fn fp32_truncated_buffer_fails() {
    let e = decode_fp32_tensor(&[0, 0, 0x80]).unwrap_err();
    assert_eq!(e.kind, ErrorKind::DecodeError);
}

#[test]
fn fp64_round_trip_is_bit_exact() {
    let v: Vec<u64> = [1.0f64, -2.25, f64::NAN, 1e300].iter().map(|x| x.to_bits()).collect();
    let b = encode_fp64_tensor(&v);
    assert_eq!(&b[0..8], &[0, 0, 0, 0, 0, 0, 0xf0, 0x3f]);
    assert_eq!(decode_fp64_tensor(&b).unwrap(), v);
}

#[test]
fn int32_layout_and_round_trip() {
    let v = vec![-1i32, 1, i32::MIN, i32::MAX];
    let b = encode_int32_tensor(&v);
    assert_eq!(&b[0..8], &[0xff, 0xff, 0xff, 0xff, 1, 0, 0, 0]);
    assert_eq!(decode_int32_tensor(&b).unwrap(), v);
}

#[test]
fn int64_layout_and_round_trip() {
    let v = vec![1i64, -2, i64::MIN];
    let b = encode_int64_tensor(&v);
    assert_eq!(&b[0..16], &[1, 0, 0, 0, 0, 0, 0, 0, 0xfe, 0xff, 0xff, 0xff, 0xff, 0xff, 0xff, 0xff]);
    assert_eq!(decode_int64_tensor(&b).unwrap(), v);
}

#[test]
fn int64_truncated_buffer_fails() {
    assert_eq!(decode_int64_tensor(&[0; 12]).unwrap_err().kind, ErrorKind::DecodeError);
    assert_eq!(decode_int32_tensor(&[0; 6]).unwrap_err().kind, ErrorKind::DecodeError);
}

#[test]
fn bytes_decode_then_encode_is_byte_exact() {
    let b = vec![2, 0, 0, 0, b'o', b'k', 0, 0, 0, 0, 3, 0, 0, 0, 0xe2, 0x82, 0xac];
    let v = decode_string_tensor(&b).unwrap();
    assert_eq!(v, vec!["ok".to_string(), String::new(), "€".to_string()]);
    assert_eq!(encode_string_tensor(&v).unwrap(), b);
}

#[test]
fn lossy_string_keeps_valid_and_replaces_invalid() {
    assert_eq!(lossy_string(b"{\"name\":\"mnist\"}"), "{\"name\":\"mnist\"}");
    assert_eq!(lossy_string(&[b'a', 0xff, b'b']), "a\u{fffd}b");
}
