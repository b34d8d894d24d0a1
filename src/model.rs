use vstd::prelude::*;
use vstd::string::*;

use crate::error::{
    created, ensure_handle, native_message, null_handle_message, ErrorKind, NativeErrorInfo,
    TritonError,
};
use crate::text::{decimal, decimal_string};

verus! {

/// The path of an artifact file: repository location, version, file name.
pub open spec fn artifact_path_of(location: Seq<char>, version: u64, filename: Seq<char>) -> Seq<
    char,
> {
    location + "/"@ + decimal(version as nat) + "/"@ + filename
}

/// The path of the artifact file `filename` of a model at `location`, version `version`.
pub fn artifact_path(location: &str, version: u64, filename: &str) -> (r: String)
    ensures
        r@ == artifact_path_of(location@, version, filename@),
{
    proof {
        reveal_strlit("/");
    }
    let r = location.to_owned().concat("/").concat(decimal_string(version).as_str()).concat(
        "/",
    ).concat(filename);
    r
}

/// The model of a dispatch call, borrowed for the call's duration.
#[derive(Debug)]
pub struct Model {
    handle: usize,
}

impl Model {
    pub closed spec fn handle(&self) -> usize {
        self.handle
    }

    pub fn from_ptr(handle: usize) -> (r: Model)
        ensures
            r.handle() == handle,
    {
        Model { handle }
    }

    /// The engine handle of the model.
    pub fn as_ptr(&self) -> (r: usize)
        ensures
            r == self.handle(),
    {
        self.handle
    }
}

/// One request of a batch, borrowed for the dispatch call's duration.
#[derive(Debug)]
pub struct Request {
    handle: usize,
}

impl Request {
    pub closed spec fn handle(&self) -> usize {
        self.handle
    }

    pub fn from_ptr(handle: usize) -> (r: Request)
        ensures
            r.handle() == handle,
    {
        Request { handle }
    }

    /// The engine handle of the request.
    pub fn as_ptr(&self) -> (r: usize)
        ensures
            r == self.handle(),
    {
        self.handle
    }

    /// The request's handle, checked before any engine call is made on it:
    /// a null request is a `NullHandle` error.
    pub fn checked_ptr(&self) -> (r: Result<usize, TritonError>)
        ensures
            r is Ok <==> self.handle() != 0,
            r matches Ok(h) ==> h == self.handle(),
            r matches Err(e) ==> e.kind == ErrorKind::NullHandle && e.message@ == null_handle_message(
                "request"@,
            ),
    {
        ensure_handle(self.handle, "request")
    }

    /// The input the engine looked up by name, from the lookup's status and
    /// handle: a null request, an engine error or an absent input is an
    /// error, never a handle.
    pub fn get_input(
        &self,
        status: Option<NativeErrorInfo>,
        input_handle: usize,
    ) -> (r: Result<usize, TritonError>)
        ensures
            r is Ok <==> self.handle() != 0 && status.is_none() && input_handle != 0,
            r matches Ok(h) ==> h == input_handle,
            self.handle() == 0 ==> (r matches Err(e) && e.kind == ErrorKind::NullHandle
                && e.message@ == null_handle_message("request"@)),
            self.handle() != 0 ==> (status matches Some(info) ==> (r matches Err(e) && e.kind
                == ErrorKind::NativeError && e.code == info.code && e.message@ == native_message(
                info,
            ))),
            self.handle() != 0 && status.is_none() && input_handle == 0 ==> (r matches Err(e)
                && e.kind == ErrorKind::NullHandle && e.message@ == null_handle_message("input"@)),
    {
        self.checked_ptr()?;
        created(status, input_handle, "input")
    }
}

} // verus!
