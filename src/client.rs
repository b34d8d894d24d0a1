use vstd::prelude::*;
use vstd::string::*;

use crate::codec::{
    as_i32s, as_i64s, decode_fp32_tensor, decode_fp64_tensor, decode_int32_tensor,
    decode_int64_tensor, decode_string_tensor, decoded_strings, le32_words, le64_words,
    parse_frames, string_views,
};
use crate::error::{ErrorKind, TritonError, ERROR_CODE_INTERNAL};
use crate::text::{decimal, decimal_string};

verus! {

/// The decoded elements of an output tensor, by datatype; FP32 and FP64
/// values are given by their IEEE-754 bit patterns.
#[derive(Debug)]
pub enum OutputData {
    FP32(Vec<u32>),
    FP64(Vec<u64>),
    INT32(Vec<i32>),
    INT64(Vec<i64>),
    Bytes(Vec<String>),
    Unknown(Vec<u8>),
}

/// Whether the raw bytes of an output with datatype tag `tag` decode.
pub open spec fn decodable(tag: Seq<char>, raw: Seq<u8>) -> bool {
    if tag == "FP32"@ || tag == "INT32"@ {
        raw.len() % 4 == 0
    } else if tag == "FP64"@ || tag == "INT64"@ {
        raw.len() % 8 == 0
    } else if tag == "BYTES"@ {
        parse_frames(raw) is Some
    } else {
        true
    }
}

/// Whether `d` is what the raw bytes of an output with datatype tag `tag` decode to.
pub open spec fn decodes_to(tag: Seq<char>, raw: Seq<u8>, d: OutputData) -> bool {
    if tag == "FP32"@ {
        d matches OutputData::FP32(v) && v@ == le32_words(raw)
    } else if tag == "FP64"@ {
        d matches OutputData::FP64(v) && v@ == le64_words(raw)
    } else if tag == "INT32"@ {
        d matches OutputData::INT32(v) && v@ == as_i32s(le32_words(raw))
    } else if tag == "INT64"@ {
        d matches OutputData::INT64(v) && v@ == as_i64s(le64_words(raw))
    } else if tag == "BYTES"@ {
        d matches OutputData::Bytes(v) && decoded_strings(raw) == Some(string_views(v@))
    } else {
        d matches OutputData::Unknown(v) && v@ == raw
    }
}

fn tag_is(tag: &String, expected: &str) -> (r: bool)
    ensures
        r == (tag@ == expected@),
{
    let e = expected.to_owned();
    *tag == e
}

/// Decodes the raw bytes of an output by its datatype tag; an unrecognized
/// tag keeps the bytes as they are.
pub fn decode_output(datatype: &String, raw: &Vec<u8>) -> (r: Result<OutputData, TritonError>)
    ensures
        r is Ok <==> decodable(datatype@, raw@),
        r matches Ok(d) ==> decodes_to(datatype@, raw@, d),
        r matches Err(e) ==> e.kind == ErrorKind::DecodeError,
{
    proof {
        reveal_strlit("FP32");
        reveal_strlit("FP64");
        reveal_strlit("INT32");
        reveal_strlit("INT64");
        reveal_strlit("BYTES");
        assert("FP64"@[2] != "FP32"@[2]);
        assert("INT32"@[0] != "FP32"@[0]);
        assert("INT64"@[0] != "FP32"@[0]);
        assert("INT64"@[3] != "INT32"@[3]);
        assert("BYTES"@[0] != "FP32"@[0]);
        assert("BYTES"@[0] != "INT32"@[0]);
    }
    let bytes = raw.as_slice();
    if tag_is(datatype, "FP32") {
        Ok(OutputData::FP32(decode_fp32_tensor(bytes)?))
    } else if tag_is(datatype, "FP64") {
        Ok(OutputData::FP64(decode_fp64_tensor(bytes)?))
    } else if tag_is(datatype, "INT32") {
        Ok(OutputData::INT32(decode_int32_tensor(bytes)?))
    } else if tag_is(datatype, "INT64") {
        Ok(OutputData::INT64(decode_int64_tensor(bytes)?))
    } else if tag_is(datatype, "BYTES") {
        Ok(OutputData::Bytes(decode_string_tensor(bytes)?))
    } else {
        let mut copy: Vec<u8> = Vec::new();
        copy.extend_from_slice(bytes);
        assert(copy@ =~= raw@);
        Ok(OutputData::Unknown(copy))
    }
}

/// The description of one output in a remote inference reply.
#[derive(Debug)]
pub struct OutputMetadata {
    pub name: String,
    pub datatype: String,
    pub shape: Vec<i64>,
}

/// A remote inference reply: its outputs' descriptions and, in the same
/// order, their raw contents.
#[derive(Debug)]
pub struct InferResponse {
    pub outputs: Vec<OutputMetadata>,
    pub raw_output_contents: Vec<Vec<u8>>,
}

/// One decoded output of a remote inference reply.
#[derive(Debug)]
pub struct InferenceOutput {
    pub name: String,
    pub datatype: String,
    pub shape: Vec<i64>,
    pub data: OutputData,
}

/// The message of the error for output `index`, which has no raw contents.
pub open spec fn missing_raw_message(index: nat) -> Seq<char> {
    "Missing raw data for output "@ + decimal(index)
}

/// Whether every output of a reply has raw contents that decode.
pub open spec fn reply_decodable(response: InferResponse) -> bool {
    &&& response.outputs@.len() <= response.raw_output_contents@.len()
    &&& forall|i: int|
        0 <= i < response.outputs@.len() ==> decodable(
            (#[trigger] response.outputs@[i]).datatype@,
            response.raw_output_contents@[i]@,
        )
}

impl InferenceOutput {
    /// Decodes every output of a reply, in order; an output without raw
    /// contents, or whose contents do not decode, is an error.
    pub fn from_response(response: &InferResponse) -> (r: Result<Vec<InferenceOutput>, TritonError>)
        ensures
            r is Ok <==> reply_decodable(*response),
            r matches Ok(v) ==> v@.len() == response.outputs@.len() && forall|i: int|
                0 <= i < v@.len() ==> {
                    let o = #[trigger] v@[i];
                    let m = response.outputs@[i];
                    &&& o.name@ == m.name@
                    &&& o.datatype@ == m.datatype@
                    &&& o.shape@ == m.shape@
                    &&& decodes_to(m.datatype@, response.raw_output_contents@[i]@, o.data)
                },
            r matches Err(e) ==> e.kind == ErrorKind::DecodeError,
            ({
                let k = response.raw_output_contents@.len();
                k < response.outputs@.len() && (forall|i: int|
                    0 <= i < k ==> decodable(
                        (#[trigger] response.outputs@[i]).datatype@,
                        response.raw_output_contents@[i]@,
                    ))
            }) ==> (r matches Err(e) && e.message@ == missing_raw_message(
                response.raw_output_contents@.len(),
            )),
    {
        let mut outputs: Vec<InferenceOutput> = Vec::new();
        let mut i: usize = 0;
        while i < response.outputs.len()
            invariant
                i <= response.outputs@.len(),
                outputs@.len() == i,
                i <= response.raw_output_contents@.len(),
                forall|j: int|
                    0 <= j < i ==> decodable(
                        (#[trigger] response.outputs@[j]).datatype@,
                        response.raw_output_contents@[j]@,
                    ),
                forall|j: int|
                    0 <= j < i ==> {
                        let o = #[trigger] outputs@[j];
                        let m = response.outputs@[j];
                        &&& o.name@ == m.name@
                        &&& o.datatype@ == m.datatype@
                        &&& o.shape@ == m.shape@
                        &&& decodes_to(m.datatype@, response.raw_output_contents@[j]@, o.data)
                    },
            decreases response.outputs@.len() - i,
        {
            if i >= response.raw_output_contents.len() {
                proof {
                    reveal_strlit("Missing raw data for output ");
                }
                let message = "Missing raw data for output ".to_owned().concat(
                    decimal_string(i as u64).as_str(),
                );
                return Err(TritonError { kind: ErrorKind::DecodeError, code: ERROR_CODE_INTERNAL, message });
            }
            let meta = &response.outputs[i];
            let data = decode_output(&meta.datatype, &response.raw_output_contents[i])?;
            let mut shape: Vec<i64> = Vec::new();
            shape.extend_from_slice(meta.shape.as_slice());
            assert(shape@ =~= meta.shape@);
            outputs.push(
                InferenceOutput {
                    name: meta.name.clone(),
                    datatype: meta.datatype.clone(),
                    shape,
                    data,
                },
            );
            i = i + 1;
        }
        Ok(outputs)
    }
}

} // verus!
