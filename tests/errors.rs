use triton_ng::error::{check_status, created, ensure_handle, ErrorKind, NativeErrorInfo, TritonError};

#[test]
fn null_handle_from_creation_is_error() {
    let e = created(None, 0, "request_ptr").unwrap_err();
    assert_eq!(e.kind, ErrorKind::NullHandle);
    assert_eq!(e.to_string(), "Pointer is null: request_ptr");
}

#[test]
fn creation_with_handle_succeeds() {
    assert_eq!(created(None, 0x40, "request_ptr").unwrap(), 0x40);
}

#[test]
fn engine_error_wins_over_null_handle() {
    let info = NativeErrorInfo { code: 3, message: Some("bad model".to_string()) };
    let e = created(Some(info), 0, "request_ptr").unwrap_err();
    assert_eq!(e.kind, ErrorKind::NativeError);
    assert_eq!(e.code, 3);
    assert_eq!(e.message, "bad model");
}

#[test]
fn engine_error_without_message_is_unknown() {
    let e = check_status(Some(NativeErrorInfo { code: 0, message: None })).unwrap_err();
    assert_eq!(e.message, "Unknown Triton error");
    assert!(check_status(None).is_ok());
}

#[test]
fn ensure_handle_checks_null() {
    assert_eq!(ensure_handle(0, "x").unwrap_err().kind, ErrorKind::NullHandle);
    assert_eq!(ensure_handle(7, "x").unwrap(), 7);
}

#[test]
fn message_errors() {
    let e = TritonError::from_message("boom");
    assert_eq!(e.to_string(), "boom");
    assert_eq!(TritonError::channel_closed().kind, ErrorKind::ChannelClosed);
    assert_eq!(TritonError::channel_closed().message, "Inference channel closed");
}
