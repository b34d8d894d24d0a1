use triton_ng::allocator::ResponseAllocator;
use triton_ng::codec::{decode_fp32_tensor, encode_fp32_tensor};
use triton_ng::dispatch::{dispatch_execute, Backend};
use triton_ng::error::TritonError;
use triton_ng::model::{Model, Request};
use triton_ng::request::InferenceRequest;
use triton_ng::server::{collect_outputs, open_inference, RawOutput};
use triton_ng::tensor::{Input, InputProperties, Output, DATATYPE_FP32};

const PREDICTIONS: [f32; 10] = [
    -1.2, 0.5, 3.25, -0.125, 7.0, 2.5e-3, -9.75, 0.0, 1.0e6, -0.333,
];

/// The nested call of one request, with the engine's completion played by the test.
fn run_nested(input: &Input) -> (InferenceRequest, Vec<u32>) {
    let values = input.as_fp32_vec().unwrap();
    let mut req = InferenceRequest::new("mnist_onnx", 1);
    req.add_input("Input3", DATATYPE_FP32, &input.properties().shape);
    req.append_input_data("Input3", &encode_fp32_tensor(&values)).unwrap();
    req.add_requested_output("Plus214_Output_0");

    let allocator = ResponseAllocator::new(None, 0x1000).unwrap();
    let (context, pending) = open_inference(allocator);
    let bits: Vec<u32> = PREDICTIONS.iter().map(|x| x.to_bits()).collect();
    let raw = RawOutput {
        name: Some("Plus214_Output_0".to_string()),
        datatype: DATATYPE_FP32,
        shape: vec![10],
        data: encode_fp32_tensor(&bits),
    };
    assert!(context.complete(0x2000, None, collect_outputs(None, vec![Ok(raw)])).is_ok());
    let result = pending.wait().unwrap();
    assert_eq!(result.outputs.len(), 1);
    assert_eq!(result.outputs[0].name, "Plus214_Output_0");
    assert_eq!(result.outputs[0].datatype, "FP32");
    assert_eq!(result.outputs[0].shape, vec![10]);
    (req, decode_fp32_tensor(&result.outputs[0].data).unwrap())
}

struct Mnist;

impl Backend for Mnist {
    fn model_instance_execute(_model: Model, requests: &[Request]) -> Result<(), TritonError> {
        if requests.len() == 1 {
            Ok(())
        } else {
            Err(TritonError::from_message("expected one request"))
        }
    }
}

#[test]
fn mnist_nested_inference_round_trip() {
    let values = vec![0.123f32; 784];
    let bits: Vec<u32> = values.iter().map(|x| x.to_bits()).collect();
    let buffer = encode_fp32_tensor(&bits);
    let props = InputProperties {
        name: "Input3".to_string(),
        datatype: DATATYPE_FP32,
        shape: vec![1, 1, 28, 28],
        dims_count: 4,
        byte_size: buffer.len() as u64,
        buffer_count: 1,
    };
    let input = Input::new(props, buffer.clone());

    let (req, predictions) = run_nested(&input);
    assert_eq!(req.model_name, "mnist_onnx");
    assert_eq!(req.model_version, 1);
    assert_eq!(req.inputs.len(), 1);
    assert_eq!(req.inputs[0].name, "Input3");
    assert_eq!(req.inputs[0].shape, vec![1, 1, 28, 28]);
    assert_eq!(req.inputs[0].data, buffer);
    assert_eq!(req.requested_outputs, vec!["Plus214_Output_0".to_string()]);

    let floats: Vec<f32> = predictions.iter().map(|b| f32::from_bits(*b)).collect();
    assert_eq!(floats.len(), 10);
    for (got, want) in floats.iter().zip(PREDICTIONS.iter()) {
        assert_eq!(got.to_bits(), want.to_bits());
    }

    let mut responses: Vec<Output> = Vec::new();
    let mut out = Output::new("Plus214_Output_0".to_string(), DATATYPE_FP32, vec![10]);
    out.write_fp32_vec(&predictions);
    responses.push(out);
    assert_eq!(responses.len(), 1);
    assert_eq!(responses[0].shape, vec![10]);
    let expected: Vec<u8> = PREDICTIONS.iter().flat_map(|f| f.to_le_bytes()).collect();
    assert_eq!(responses[0].data, expected);

    assert!(dispatch_execute::<Mnist>(None, 0x10, &[0x20]).is_none());
}
