use vstd::bytes::*;
use vstd::prelude::*;
use vstd::string::*;

use crate::codec::{
    decode_fp32_tensor, decode_string, decoded_strings, encode_fp32_tensor, encode_string, frame,
    le32_words, read_u64_le, words32_le, write_u64_le,
};
use crate::error::{ErrorKind, TritonError};

verus! {

/// Engine datatype codes of the element types the core encodes and decodes.
pub const DATATYPE_INT32: u32 = 8;

pub const DATATYPE_INT64: u32 = 9;

pub const DATATYPE_FP32: u32 = 11;

pub const DATATYPE_FP64: u32 = 12;

pub const DATATYPE_BYTES: u32 = 13;

/// The tag of an engine datatype code; codes the core does not decode are "UNKNOWN".
pub open spec fn datatype_tag(code: u32) -> Seq<char> {
    if code == DATATYPE_FP32 {
        "FP32"@
    } else if code == DATATYPE_FP64 {
        "FP64"@
    } else if code == DATATYPE_INT32 {
        "INT32"@
    } else if code == DATATYPE_INT64 {
        "INT64"@
    } else if code == DATATYPE_BYTES {
        "BYTES"@
    } else {
        "UNKNOWN"@
    }
}

/// The tag of an engine datatype code.
pub fn datatype_to_string(code: u32) -> (r: String)
    ensures
        r@ == datatype_tag(code),
{
    proof {
        reveal_strlit("FP32");
        reveal_strlit("FP64");
        reveal_strlit("INT32");
        reveal_strlit("INT64");
        reveal_strlit("BYTES");
        reveal_strlit("UNKNOWN");
    }
    if code == DATATYPE_FP32 {
        "FP32".to_owned()
    } else if code == DATATYPE_FP64 {
        "FP64".to_owned()
    } else if code == DATATYPE_INT32 {
        "INT32".to_owned()
    } else if code == DATATYPE_INT64 {
        "INT64".to_owned()
    } else if code == DATATYPE_BYTES {
        "BYTES".to_owned()
    } else {
        "UNKNOWN".to_owned()
    }
}

/// A read-only snapshot of an input's properties, fetched once.
#[derive(Debug)]
pub struct InputProperties {
    pub name: String,
    pub datatype: u32,
    pub shape: Vec<i64>,
    pub dims_count: u32,
    pub byte_size: u64,
    pub buffer_count: u32,
}

/// A request input: its properties and the bytes of its first buffer,
/// copied out of the engine for the duration of one dispatch call.
/// Inputs spread over several buffers are not reassembled.
#[derive(Debug)]
pub struct Input {
    pub properties: InputProperties,
    pub buffer: Vec<u8>,
}

impl Input {
    pub fn new(properties: InputProperties, buffer: Vec<u8>) -> (r: Input)
        ensures
            r.properties == properties,
            r.buffer@ == buffer@,
    {
        Input { properties, buffer }
    }

    /// The input's properties snapshot.
    pub fn properties(&self) -> (r: &InputProperties)
        ensures
            *r == self.properties,
    {
        &self.properties
    }

    /// The first string of a BYTES input.
    pub fn as_string(&self) -> (r: Result<String, TritonError>)
        ensures
            r is Ok <==> (decoded_strings(self.buffer@) matches Some(l) && l.len() > 0),
            r matches Ok(s) ==> s@ == decoded_strings(self.buffer@)->Some_0[0],
            r matches Err(e) ==> e.kind == ErrorKind::DecodeError,
    {
        let strings = decode_string(self.buffer.as_slice())?;
        if strings.len() == 0 {
            return Err(TritonError::with_kind(ErrorKind::DecodeError, "input holds no string"));
        }
        Ok(strings[0].clone())
    }

    /// The input read as one unsigned 64-bit little-endian integer.
    pub fn as_u64(&self) -> (r: Result<u64, TritonError>)
        ensures
            r is Ok <==> self.buffer@.len() == 8,
            r matches Ok(v) ==> v == spec_u64_from_le_bytes(self.buffer@),
            r matches Err(e) ==> e.kind == ErrorKind::DecodeError,
    {
        if self.buffer.len() != 8 {
            return Err(TritonError::with_kind(ErrorKind::DecodeError, "input is not 8 bytes long"));
        }
        assert(self.buffer@.subrange(0, 8) =~= self.buffer@);
        Ok(read_u64_le(self.buffer.as_slice()))
    }

    /// The input read as FP32 values, given by their IEEE-754 bit patterns.
    pub fn as_fp32_vec(&self) -> (r: Result<Vec<u32>, TritonError>)
        ensures
            r is Ok <==> self.buffer@.len() % 4 == 0,
            r matches Ok(v) ==> v@ == le32_words(self.buffer@),
            r matches Err(e) ==> e.kind == ErrorKind::DecodeError,
    {
        decode_fp32_tensor(self.buffer.as_slice())
    }
}

/// A response output being prepared: its name, datatype and shape, and the
/// bytes that go into the buffer the engine provides for it.
#[derive(Debug)]
pub struct Output {
    pub name: String,
    pub datatype: u32,
    pub shape: Vec<i64>,
    pub data: Vec<u8>,
}

impl Output {
    /// A new output with nothing written yet.
    pub fn new(name: String, datatype: u32, shape: Vec<i64>) -> (r: Output)
        ensures
            r.name@ == name@,
            r.datatype == datatype,
            r.shape@ == shape@,
            r.data@.len() == 0,
    {
        Output { name, datatype, shape, data: Vec::new() }
    }

    /// Sets the output's bytes.
    pub fn write_bytes(&mut self, data: &[u8])
        ensures
            final(self).data@ == data@,
            final(self).name == old(self).name,
            final(self).datatype == old(self).datatype,
            final(self).shape == old(self).shape,
    {
        let mut bytes: Vec<u8> = Vec::new();
        bytes.extend_from_slice(data);
        self.data = bytes;
    }

    /// Writes one string as a BYTES element.
    pub fn write_string(&mut self, value: &str) -> (r: Result<(), TritonError>)
        ensures
            r is Ok <==> value.spec_bytes().len() <= u32::MAX,
            r is Ok ==> final(self).data@ == frame(value.spec_bytes()),
            r is Err ==> final(self).data == old(self).data,
            r matches Err(e) ==> e.kind == ErrorKind::EncodeError,
            final(self).name == old(self).name,
            final(self).datatype == old(self).datatype,
            final(self).shape == old(self).shape,
    {
        let encoded = encode_string(value)?;
        self.write_bytes(encoded.as_slice());
        Ok(())
    }

    /// Writes FP32 values, given by their IEEE-754 bit patterns.
    pub fn write_fp32_vec(&mut self, bits: &Vec<u32>)
        ensures
            final(self).data@ == words32_le(bits@),
            final(self).name == old(self).name,
            final(self).datatype == old(self).datatype,
            final(self).shape == old(self).shape,
    {
        let encoded = encode_fp32_tensor(bits);
        self.write_bytes(encoded.as_slice());
    }

    /// Writes one unsigned 64-bit integer, little-endian.
    pub fn write_u64(&mut self, value: u64)
        ensures
            final(self).data@ == spec_u64_to_le_bytes(value),
            final(self).name == old(self).name,
            final(self).datatype == old(self).datatype,
            final(self).shape == old(self).shape,
    {
        let encoded = write_u64_le(value);
        self.write_bytes(encoded.as_slice());
    }
}

} // verus!
