use triton_ng::client::{decode_output, InferResponse, InferenceOutput, OutputData, OutputMetadata};
use triton_ng::codec::{encode_fp32_tensor, encode_string_tensor};
use triton_ng::error::ErrorKind;

fn meta(name: &str, datatype: &str, shape: Vec<i64>) -> OutputMetadata {
    OutputMetadata { name: name.to_string(), datatype: datatype.to_string(), shape }
}

#[test]
fn reply_outputs_decode_by_datatype() {
    let probs = [0.5f32, 0.25];
    let bits: Vec<u32> = probs.iter().map(|x| x.to_bits()).collect();
    let labels = vec!["cat".to_string(), "dog".to_string()];
    let response = InferResponse {
        outputs: vec![meta("p", "FP32", vec![2]), meta("l", "BYTES", vec![2]), meta("o", "BOOL", vec![1])],
        raw_output_contents: vec![encode_fp32_tensor(&bits), encode_string_tensor(&labels).unwrap(), vec![1]],
    };
    let outs = InferenceOutput::from_response(&response).unwrap();
    assert_eq!(outs.len(), 3);
    assert_eq!(outs[0].name, "p");
    assert_eq!(outs[0].shape, vec![2]);
    match &outs[0].data {
        OutputData::FP32(v) => assert_eq!(v.iter().map(|b| f32::from_bits(*b)).collect::<Vec<_>>(), probs.to_vec()),
        _ => panic!("expected FP32"),
    }
    match &outs[1].data {
        OutputData::Bytes(v) => assert_eq!(v, &labels),
        _ => panic!("expected BYTES"),
    }
    match &outs[2].data {
        OutputData::Unknown(v) => assert_eq!(v, &vec![1u8]),
        _ => panic!("expected raw bytes"),
    }
}

#[test]
fn reply_missing_raw_contents_fails() {
    let response = InferResponse { outputs: vec![meta("p", "FP32", vec![1])], raw_output_contents: vec![] };
    assert_eq!(InferenceOutput::from_response(&response).err().unwrap().kind, ErrorKind::DecodeError);
}

#[test]
fn decode_output_integers() {
    match decode_output(&"INT64".to_string(), &vec![2, 0, 0, 0, 0, 0, 0, 0]).unwrap() {
        OutputData::INT64(v) => assert_eq!(v, vec![2]),
        _ => panic!("expected INT64"),
    }
    match decode_output(&"INT32".to_string(), &vec![0xfe, 0xff, 0xff, 0xff]).unwrap() {
        OutputData::INT32(v) => assert_eq!(v, vec![-2]),
        _ => panic!("expected INT32"),
    }
    match decode_output(&"FP64".to_string(), &vec![0, 0, 0, 0, 0, 0, 0xf0, 0x3f]).unwrap() {
        OutputData::FP64(v) => assert_eq!(f64::from_bits(v[0]), 1.0),
        _ => panic!("expected FP64"),
    }
    assert!(decode_output(&"FP32".to_string(), &vec![0; 5]).is_err());
}

#[test]
fn reply_missing_raw_contents_names_first_index() {
    let response = InferResponse {
        outputs: vec![meta("a", "BOOL", vec![1]), meta("b", "BOOL", vec![1]), meta("c", "BOOL", vec![1])],
        raw_output_contents: vec![vec![1]],
    };
    let e = InferenceOutput::from_response(&response).err().unwrap();
    assert_eq!(e.message, "Missing raw data for output 1");
}
