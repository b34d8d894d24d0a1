use vstd::prelude::*;

use crate::error::{ErrorKind, TritonError};

verus! {

/// One input of a nested-inference request: its descriptor and the bytes
/// appended to it so far.
#[derive(Debug)]
pub struct RequestInput {
    pub name: String,
    pub datatype: u32,
    pub shape: Vec<i64>,
    pub data: Vec<u8>,
}

/// A nested-inference request as the backend builds it: the target model,
/// its inputs and the outputs asked for. It is handed to the engine whole
/// when the call is issued.
#[derive(Debug)]
pub struct InferenceRequest {
    pub model_name: String,
    pub model_version: i64,
    pub inputs: Vec<RequestInput>,
    pub requested_outputs: Vec<String>,
}

/// The names of a request's inputs.
pub open spec fn input_names(inputs: Seq<RequestInput>) -> Seq<Seq<char>> {
    inputs.map_values(|i: RequestInput| i.name@)
}

impl InferenceRequest {
    /// A request against version `model_version` of the model `model_name`,
    /// with no inputs or outputs yet.
    pub fn new(model_name: &str, model_version: i64) -> (r: InferenceRequest)
        ensures
            r.model_name@ == model_name@,
            r.model_version == model_version,
            r.inputs@.len() == 0,
            r.requested_outputs@.len() == 0,
    {
        InferenceRequest {
            model_name: model_name.to_owned(),
            model_version,
            inputs: Vec::new(),
            requested_outputs: Vec::new(),
        }
    }

    /// Adds an input descriptor with no data yet.
    pub fn add_input(&mut self, name: &str, datatype: u32, shape: &[i64])
        ensures
            final(self).inputs@.len() == old(self).inputs@.len() + 1,
            forall|j: int|
                0 <= j < old(self).inputs@.len() ==> final(self).inputs@[j] == old(self).inputs@[j],
            final(self).inputs@.last().name@ == name@,
            final(self).inputs@.last().datatype == datatype,
            final(self).inputs@.last().shape@ == shape@,
            final(self).inputs@.last().data@.len() == 0,
            final(self).model_name == old(self).model_name,
            final(self).model_version == old(self).model_version,
            final(self).requested_outputs == old(self).requested_outputs,
    {
        let mut dims: Vec<i64> = Vec::new();
        dims.extend_from_slice(shape);
        assert(dims@ =~= shape@);
        self.inputs.push(RequestInput { name: name.to_owned(), datatype, shape: dims, data: Vec::new() });
    }

    /// Appends bytes to the first input named `name`; a name with no input is
    /// a `NullHandle` error and changes nothing.
    pub fn append_input_data(&mut self, name: &str, data: &[u8]) -> (r: Result<(), TritonError>)
        ensures
            r is Ok <==> input_names(old(self).inputs@).contains(name@),
            r is Err ==> *final(self) == *old(self),
            r matches Err(e) ==> e.kind == ErrorKind::NullHandle,
            r is Ok ==> exists|k: int|
                0 <= k < old(self).inputs@.len() && old(self).inputs@[k].name@ == name@
                    && final(self).inputs@.len() == old(self).inputs@.len()
                    && (forall|j: int|
                    0 <= j < final(self).inputs@.len() && j != k ==> final(self).inputs@[j]
                        == old(self).inputs@[j]) && final(self).inputs@[k].data@ == old(
                    self,
                ).inputs@[k].data@ + data@ && final(self).inputs@[k].name
                    == old(self).inputs@[k].name && final(self).inputs@[k].shape
                    == old(self).inputs@[k].shape && final(self).inputs@[k].datatype
                    == old(self).inputs@[k].datatype,
            final(self).model_name == old(self).model_name,
            final(self).model_version == old(self).model_version,
            final(self).requested_outputs == old(self).requested_outputs,
    {
        let wanted = name.to_owned();
        let mut k: usize = 0;
        while k < self.inputs.len()
            invariant
                k <= self.inputs@.len(),
                wanted@ == name@,
                *self == *old(self),
                forall|j: int| 0 <= j < k ==> self.inputs@[j].name@ != name@,
            decreases self.inputs@.len() - k,
        {
            if self.inputs[k].name == wanted {
                let ghost before = self.inputs@;
                let mut input = self.inputs.remove(k);
                input.data.extend_from_slice(data);
                self.inputs.insert(k, input);
                proof {
                    assert(self.inputs@ =~= before.update(k as int, self.inputs@[k as int]));
                    assert(input_names(before)[k as int] == name@);
                }
                return Ok(());
            }
            k = k + 1;
        }
        proof {
            assert forall|j: int| 0 <= j < old(self).inputs@.len() implies input_names(
                old(self).inputs@,
            )[j] != name@ by {}
        }
        Err(TritonError::with_kind(ErrorKind::NullHandle, "no input of that name"))
    }

    /// Asks for the output named `name`.
    pub fn add_requested_output(&mut self, name: &str)
        ensures
            final(self).requested_outputs@.len() == old(self).requested_outputs@.len() + 1,
            final(self).requested_outputs@.drop_last() == old(self).requested_outputs@,
            final(self).requested_outputs@.last()@ == name@,
            final(self).model_name == old(self).model_name,
            final(self).model_version == old(self).model_version,
            final(self).inputs == old(self).inputs,
    {
        self.requested_outputs.push(name.to_owned());
        assert(self.requested_outputs@.drop_last() =~= old(self).requested_outputs@);
    }
}

} // verus!
