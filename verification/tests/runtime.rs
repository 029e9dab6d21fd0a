use sz_sdk_rust_grpc::status::{
    grpc_to_sz_error, json_parse_error, parse_senzing_error_code, rpc_outcome, RpcFailure,
};
use sz_sdk_rust_grpc::{SzError, SzErrorKind};

#[test]
fn test_parse_simple_reason() {
    let msg = r#"{"id":"SZSDK60044001","reason":"SENZ0023E|Conflicting DATA_SOURCE values"}"#;
    assert_eq!(parse_senzing_error_code(msg), Some(23));
}

#[test]
fn test_parse_with_prefix() {
    let msg = r#"rpc error: code = Unknown desc = {"id":"X","reason":"SENZ1006E|Connection lost"}"#;
    assert_eq!(parse_senzing_error_code(msg), Some(1006));
}

#[test]
fn test_parse_nested_error() {
    let msg = r#"{"id":"outer","error":{"id":"inner","reason":"SENZ0033E|Unknown record"}}"#;
    assert_eq!(parse_senzing_error_code(msg), Some(33));
}

#[test]
fn test_parse_no_json() {
    assert_eq!(parse_senzing_error_code("plain text error"), None);
}

#[test]
fn test_parse_no_reason_field() {
    let msg = r#"{"id":"X","message":"something"}"#;
    assert_eq!(parse_senzing_error_code(msg), None);
}

#[test]
fn test_parse_short_reason() {
    let msg = r#"{"reason":"SEN"}"#;
    assert_eq!(parse_senzing_error_code(msg), None);
}

#[test]
fn test_parse_non_numeric_code() {
    let msg = r#"{"reason":"SENZxxxxE|bad"}"#;
    assert_eq!(parse_senzing_error_code(msg), None);
}

#[test]
fn test_parse_reason_not_starting_with_senz() {
    // the four characters after the first four are read whatever they follow
    let msg = r#"{"reason":"ABCD0042E|odd"}"#;
    assert_eq!(parse_senzing_error_code(msg), Some(42));
    // a sign is read as `str::parse` reads it
    let msg = r#"{"reason":"SENZ-042E|signed"}"#;
    assert_eq!(parse_senzing_error_code(msg), Some(-42));
}

#[test]
fn test_grpc_to_sz_error_with_senzing_code() {
    // status code 2 is `Unknown`
    let err = grpc_to_sz_error(
        2,
        r#"{"id":"test","reason":"SENZ2207E|Data source code [BOGUS] does not exist."}"#.to_string(),
        "add_record",
    );
    assert!(matches!(err, SzError::UnknownDataSource { .. }));
    assert_eq!(err.code(), 2207);
}

#[test]
fn test_json_parse_error() {
    let err: serde_json::Error = serde_json::from_str::<serde_json::Value>("}{").unwrap_err();
    let sz_err = json_parse_error("entity", &err.to_string());
    match &sz_err {
        SzError::General { code, message } => {
            assert_eq!(*code, 0);
            assert!(message.contains("entity"));
            assert!(message.contains("JSON"));
        }
        _ => panic!("expected SzError::General, got {sz_err:?}"),
    }
}

#[test]
fn test_grpc_to_sz_error_fallback() {
    // status code 5 is `NotFound`
    let err = grpc_to_sz_error(5, "no such thing".to_string(), "get_entity");
    match &err {
        SzError::General { code, message } => {
            assert_eq!(*code, 0);
            assert!(message.contains("get_entity"));
            assert!(message.contains("no such thing"));
        }
        _ => panic!("expected SzError::General, got {err:?}"),
    }
}

#[test]
fn test_grpc_to_sz_error_fallback_exact() {
    let err = grpc_to_sz_error(5, "no such thing".to_string(), "get_entity");
    assert_eq!(
        err.message().as_str(),
        "gRPC get_entity failed (Some requested entity was not found): no such thing"
    );
    let err = grpc_to_sz_error(99, "odd".to_string(), "m");
    assert_eq!(err.message().as_str(), "gRPC m failed (Unknown error): odd");
}

#[test]
fn test_json_parse_error_exact() {
    let err = json_parse_error("stats", "expected value at line 1 column 1");
    assert_eq!(err.kind(), SzErrorKind::General);
    assert_eq!(
        err.message().as_str(),
        "failed to parse stats JSON: expected value at line 1 column 1"
    );
}

#[test]
fn test_rpc_outcome() {
    let ok: Result<i64, RpcFailure> = Ok(7);
    assert_eq!(rpc_outcome(ok, "get_default_config_id").unwrap(), 7);
    let failed: Result<i64, RpcFailure> = Err(RpcFailure {
        code: 14,
        message: "connection refused".to_string(),
    });
    let err = rpc_outcome(failed, "get_default_config_id").unwrap_err();
    assert_eq!(
        err.message().as_str(),
        "gRPC get_default_config_id failed (The service is currently unavailable): connection refused"
    );
}
