use triton_ng::dispatch::{
    dispatch_execute, dispatch_finalize, dispatch_initialize, dispatch_instance_finalize,
    dispatch_instance_initialize, error_to_native, execute_arguments, Backend, ExecutionGuard,
};
use triton_ng::error::{ErrorKind, NativeErrorInfo, TritonError, ERROR_CODE_INTERNAL};
use triton_ng::model::{artifact_path, Model, Request};
use triton_ng::text::decimal_string;

struct Echo;

impl Backend for Echo {
    fn model_instance_execute(model: Model, requests: &[Request]) -> Result<(), TritonError> {
        if model.as_ptr() == 0x99 || requests.is_empty() {
            Err(TritonError::from_message("nothing to do"))
        } else {
            Ok(())
        }
    }
}

struct Failing;

impl Backend for Failing {
    fn initialize() -> Result<(), TritonError> {
        Err(TritonError::from_message("init failed"))
    }

    fn model_instance_execute(_model: Model, _requests: &[Request]) -> Result<(), TritonError> {
        Ok(())
    }
}

#[test]
fn default_hooks_succeed() {
    assert!(dispatch_initialize::<Echo>().is_none());
    assert!(dispatch_finalize::<Echo>().is_none());
    assert!(dispatch_instance_initialize::<Echo>().is_none());
    assert!(dispatch_instance_finalize::<Echo>().is_none());
}

#[test]
fn hook_error_becomes_internal_native_error() {
    let n = dispatch_initialize::<Failing>().unwrap();
    assert_eq!(n.code, ERROR_CODE_INTERNAL);
    assert_eq!(n.message.as_deref(), Some("init failed"));
    assert!(error_to_native(Ok(())).is_none());
}

#[test]
fn execute_passes_typed_arguments() {
    assert!(dispatch_execute::<Echo>(None, 0x10, &[0x20, 0x30]).is_none());
    let n = dispatch_execute::<Echo>(None, 0x10, &[]).unwrap();
    assert_eq!(n.message.as_deref(), Some("nothing to do"));
    let (model, requests) = execute_arguments(None, 0x10, &[0x20, 0x30]).unwrap();
    assert_eq!(model.as_ptr(), 0x10);
    assert_eq!(requests.iter().map(|r| r.as_ptr()).collect::<Vec<_>>(), vec![0x20, 0x30]);
}

#[test]
fn execute_with_failed_model_lookup_returns_that_error() {
    let info = NativeErrorInfo { code: 4, message: Some("no model".to_string()) };
    let n = dispatch_execute::<Echo>(Some(info), 0, &[0x20]).unwrap();
    assert_eq!(n.message.as_deref(), Some("no model"));
    let e = execute_arguments(None, 0, &[0x20]).err().unwrap();
    assert_eq!(e.kind, ErrorKind::NullHandle);
}

#[test]
fn execute_is_serialized_per_instance() {
    let mut guard = ExecutionGuard::new();
    assert!(guard.enter(1));
    assert!(!guard.enter(1));
    assert!(guard.enter(2));
    assert!(guard.is_active(1));
    guard.leave(1);
    assert!(!guard.is_active(1));
    assert!(guard.enter(1));
    guard.leave(1);
    guard.leave(2);
    assert!(!guard.is_active(2));
}

#[test]
fn artifact_path_joins_location_version_file() {
    assert_eq!(artifact_path("/models/mnist", 1, "model.onnx"), "/models/mnist/1/model.onnx");
    assert_eq!(artifact_path("repo", 20250, "a"), "repo/20250/a");
}

#[test]
fn decimal_strings() {
    assert_eq!(decimal_string(0), "0");
    assert_eq!(decimal_string(907), "907");
    assert_eq!(decimal_string(u64::MAX), u64::MAX.to_string());
}

#[test]
fn request_input_lookup() {
    let r = Request::from_ptr(0x20);
    assert_eq!(r.get_input(None, 0x44).unwrap(), 0x44);
    assert_eq!(r.get_input(None, 0).unwrap_err().kind, ErrorKind::NullHandle);
}

#[test]
fn execute_with_null_model_names_it() {
    let n = dispatch_execute::<Echo>(None, 0, &[0x20]).unwrap();
    assert_eq!(n.code, ERROR_CODE_INTERNAL);
    assert_eq!(n.message.as_deref(), Some("Pointer is null: model"));
}

#[test]
fn input_lookup_error_is_engine_error() {
    let r = Request::from_ptr(0x20);
    let info = NativeErrorInfo { code: 2, message: Some("no input Input3".to_string()) };
    let e = r.get_input(Some(info), 0).unwrap_err();
    assert_eq!(e.kind, ErrorKind::NativeError);
    assert_eq!(e.code, 2);
    assert_eq!(e.message, "no input Input3");
    assert_eq!(r.get_input(None, 0).unwrap_err().message, "Pointer is null: input");
}

#[test]
fn null_request_handle_is_refused() {
    let r = Request::from_ptr(0);
    let e = r.get_input(None, 0x44).unwrap_err();
    assert_eq!(e.kind, ErrorKind::NullHandle);
    assert_eq!(e.message, "Pointer is null: request");
    assert_eq!(r.checked_ptr().unwrap_err().kind, ErrorKind::NullHandle);
    assert_eq!(Request::from_ptr(0x20).checked_ptr().unwrap(), 0x20);
    let e = execute_arguments(None, 0x10, &[0x20, 0]).err().unwrap();
    assert_eq!(e.message, "Pointer is null: request");
    let n = dispatch_execute::<Echo>(None, 0x10, &[0]).unwrap();
    assert_eq!(n.message.as_deref(), Some("Pointer is null: request"));
}
