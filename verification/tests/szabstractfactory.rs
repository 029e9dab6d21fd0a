use sz_sdk_rust_grpc::szabstractfactory::{
    GrpcConnectionConfig, GrpcUrl, SzAbstractFactoryBuilder, SzAbstractFactoryGrpc,
};
use std::str::FromStr;
use sz_sdk_rust_grpc::{Duration, SzError, SzErrorKind};

const GRPC_URL: &str = "http://localhost:8261";

/// A channel that connects on first use, so that no server is needed.
fn lazy_channel(rt: &tokio::runtime::Runtime) -> tonic::transport::Channel {
    let _guard = rt.enter();
    tonic::transport::Endpoint::from_static(GRPC_URL).connect_lazy()
}

fn runtime() -> tokio::runtime::Runtime {
    tokio::runtime::Runtime::new().expect("failed to start a runtime")
}

#[test]
fn test_grpc_url_valid() {
    let url: GrpcUrl = "http://localhost:8261".parse().unwrap();
    assert_eq!(url.as_str(), "http://localhost:8261");
    assert_eq!(url.display(), "http://localhost:8261");
}

#[test]
fn test_grpc_url_https() {
    let url = GrpcUrl::try_from("https://senzing.example.com:443").unwrap();
    assert_eq!(url.as_str(), "https://senzing.example.com:443");
}

#[test]
fn test_grpc_url_invalid_scheme() {
    let result = "ftp://localhost:8261".parse::<GrpcUrl>();
    assert!(result.is_err());
}

#[test]
fn test_grpc_url_from_string() {
    let url = GrpcUrl::try_from("http://localhost:8261".to_string()).unwrap();
    assert_eq!(url.as_str(), "http://localhost:8261");
}

#[test]
fn test_grpc_url_from_str_trait() {
    let url = GrpcUrl::from_str("http://localhost:8261").unwrap();
    assert_eq!(url.as_str(), "http://localhost:8261");
    let bad = GrpcUrl::from_str("ftp://localhost");
    assert!(bad.is_err());
}

#[test]
fn test_grpc_url_as_ref() {
    let url: GrpcUrl = "http://localhost:8261".parse().unwrap();
    let s: &str = url.as_ref();
    assert_eq!(s, "http://localhost:8261");
}

#[test]
fn test_grpc_url_display() {
    let url: GrpcUrl = "https://senzing.example.com:443".parse().unwrap();
    assert_eq!(url.display(), "https://senzing.example.com:443");
}

#[test]
fn test_grpc_url_clone_and_eq() {
    let url1: GrpcUrl = "http://localhost:8261".parse().unwrap();
    let url2 = url1.clone();
    assert_eq!(url1, url2);
}

#[test]
fn test_grpc_url_error_names_the_url() {
    let err = GrpcUrl::new("ftp://host").unwrap_err();
    assert_eq!(err.kind(), SzErrorKind::BadInput);
    assert_eq!(err.code(), 0);
    assert_eq!(
        err.message().as_str(),
        "gRPC URL must use http:// or https:// scheme (got: ftp://host)"
    );
}

#[test]
fn test_grpc_url_into_string() {
    let url = GrpcUrl::new("https://a:1").unwrap();
    assert_eq!(url.into_string(), "https://a:1");
}

#[test]
fn test_invalid_url_scheme() {
    let result = GrpcUrl::new("ftp://localhost:8261");
    assert!(result.is_err());
    let err = result.unwrap_err();
    assert!(
        matches!(err, SzError::BadInput { .. }),
        "expected BadInput, got {err:?}"
    );
}

#[test]
fn test_config_validate_zero_connect_timeout() {
    let config = GrpcConnectionConfig {
        connect_timeout: Duration::from_secs(0),
        ..GrpcConnectionConfig::default()
    };
    assert!(config.validate().is_err());
}

#[test]
fn test_config_validate_zero_rpc_timeout() {
    let config = GrpcConnectionConfig {
        rpc_timeout: Duration::from_secs(0),
        ..GrpcConnectionConfig::default()
    };
    assert!(config.validate().is_err());
}

#[test]
fn test_config_validate_keepalive_interval_too_small() {
    let config = GrpcConnectionConfig {
        keepalive_interval: Some(Duration::from_secs(5)),
        keepalive_timeout: Duration::from_secs(20),
        ..GrpcConnectionConfig::default()
    };
    assert!(config.validate().is_err());
}

#[test]
fn test_config_validate_default_ok() {
    assert!(GrpcConnectionConfig::default().validate().is_ok());
}

#[test]
fn test_config_validate_presets_ok() {
    assert!(GrpcConnectionConfig::for_development().validate().is_ok());
    assert!(GrpcConnectionConfig::for_production().validate().is_ok());
}

#[test]
fn test_config_for_development() {
    let config = GrpcConnectionConfig::for_development();
    assert_eq!(config.connect_timeout, Duration::from_secs(3));
    assert_eq!(config.rpc_timeout, Duration::from_secs(30));
    assert!(config.keepalive_interval.is_none());
}

#[test]
fn test_config_for_production() {
    let config = GrpcConnectionConfig::for_production();
    assert_eq!(config.connect_timeout, Duration::from_secs(30));
    assert_eq!(config.rpc_timeout, Duration::from_secs(300));
    assert_eq!(config.keepalive_interval, Some(Duration::from_secs(60)));
}

#[test]
fn test_config_display() {
    let config = GrpcConnectionConfig::default();
    let display = config.display();
    assert!(display.contains("connect_timeout"));
    assert!(display.contains("rpc_timeout"));
    assert!(display.contains("keepalive_interval"));
}

#[test]
fn test_config_display_exact() {
    assert_eq!(
        GrpcConnectionConfig::for_production().display(),
        "GrpcConnectionConfig { connect_timeout: 30s, rpc_timeout: 300s, \
         keepalive_interval: Some(60s), keepalive_timeout: 20s }"
    );
}

#[test]
fn test_config_validate_rpc_timeout_less_than_connect_timeout() {
    let config = GrpcConnectionConfig {
        connect_timeout: Duration::from_secs(30),
        rpc_timeout: Duration::from_secs(5),
        ..GrpcConnectionConfig::default()
    };
    assert!(config.validate().is_err());
}

#[test]
fn test_config_validate_messages() {
    let config = GrpcConnectionConfig {
        connect_timeout: Duration::from_secs(30),
        rpc_timeout: Duration::from_millis(1500),
        ..GrpcConnectionConfig::default()
    };
    let err = config.validate().unwrap_err();
    assert_eq!(err.kind(), SzErrorKind::BadInput);
    assert_eq!(
        err.message().as_str(),
        "rpc_timeout (1.5s) must be >= connect_timeout (30s)"
    );
    let config = GrpcConnectionConfig {
        keepalive_interval: Some(Duration::from_secs(5)),
        keepalive_timeout: Duration::from_secs(0),
        ..GrpcConnectionConfig::default()
    };
    assert_eq!(
        config.validate().unwrap_err().message().as_str(),
        "keepalive_timeout must be greater than zero when keepalive is enabled"
    );
    let config = GrpcConnectionConfig {
        keepalive_interval: Some(Duration::from_secs(20)),
        keepalive_timeout: Duration::from_secs(20),
        ..GrpcConnectionConfig::default()
    };
    assert_eq!(
        config.validate().unwrap_err().message().as_str(),
        "keepalive_interval (20s) must be greater than keepalive_timeout (20s)"
    );
}

#[test]
fn test_builder_missing_url() {
    let result = SzAbstractFactoryGrpc::builder().prepare();
    assert!(result.is_err());
    let err = result.unwrap_err();
    assert!(
        matches!(err, SzError::BadInput { .. }),
        "expected BadInput for missing URL"
    );
    assert_eq!(
        err.message().as_str(),
        "gRPC URL is required — call .url() on the builder"
    );
}

#[test]
fn test_builder_invalid_url_reported_at_prepare() {
    let err = SzAbstractFactoryBuilder::new().url("ftp://x").prepare().unwrap_err();
    assert_eq!(err.kind(), SzErrorKind::BadInput);
    assert_eq!(
        err.message().as_str(),
        "gRPC URL must use http:// or https:// scheme (got: ftp://x)"
    );
}

#[test]
fn test_builder_invalid_keepalive_interval_too_small() {
    let result = SzAbstractFactoryGrpc::builder()
        .url(GRPC_URL)
        .keepalive_interval(Duration::from_secs(5))
        .keepalive_timeout(Duration::from_secs(20))
        .prepare();
    assert!(
        result.is_err(),
        "prepare() should fail when keepalive_interval < keepalive_timeout"
    );
}

#[test]
fn test_builder_invalid_timeout_rpc_less_than_connect() {
    let result = SzAbstractFactoryGrpc::builder()
        .url(GRPC_URL)
        .connect_timeout(Duration::from_secs(30))
        .rpc_timeout(Duration::from_secs(5))
        .prepare();
    assert!(
        result.is_err(),
        "prepare() should fail when rpc_timeout < connect_timeout"
    );
}

#[test]
fn test_builder_plan_keeps_settings() {
    let plan = SzAbstractFactoryBuilder::default()
        .from_config(GrpcConnectionConfig::for_production())
        .rpc_timeout(Duration::from_secs(600))
        .url(GRPC_URL)
        .prepare()
        .expect("valid settings");
    assert_eq!(plan.url.as_str(), GRPC_URL);
    assert_eq!(plan.config.rpc_timeout, Duration::from_secs(600));
    assert_eq!(plan.config.connect_timeout, Duration::from_secs(30));
    assert!(plan.tls.is_none());
}

#[test]
fn test_prepare_connection_refuses_invalid_config() {
    let url = GrpcUrl::new(GRPC_URL).unwrap();
    let config = GrpcConnectionConfig {
        connect_timeout: Duration::from_secs(0),
        ..GrpcConnectionConfig::default()
    };
    let err = SzAbstractFactoryGrpc::prepare_connection(url, config, None).unwrap_err();
    assert_eq!(err.message().as_str(), "connect_timeout must be greater than zero");
}

#[test]
fn test_is_closed() {
    let rt = runtime();
    let mut factory = SzAbstractFactoryGrpc::new_from_channel(lazy_channel(&rt));
    assert!(!factory.is_closed());
    factory.close().unwrap();
    assert!(factory.is_closed());
}

#[test]
fn test_close_is_idempotent() {
    let rt = runtime();
    let mut factory = SzAbstractFactoryGrpc::new_from_channel(lazy_channel(&rt));
    factory.close().unwrap();
    factory.close().unwrap(); // second close should not panic or error
    assert!(factory.is_closed());
}

#[test]
fn test_close_prevents_creation() {
    let rt = runtime();
    let mut factory = SzAbstractFactoryGrpc::from(lazy_channel(&rt));
    assert!(factory.create_engine().is_ok());
    let close_result = factory.close();
    assert!(close_result.is_ok());

    assert!(factory.create_config_manager().is_err());
    assert!(factory.create_diagnostic().is_err());
    assert!(factory.create_engine().is_err());
    assert!(factory.create_product().is_err());
    let err = factory.check_closed().unwrap_err();
    assert_eq!(err.kind(), SzErrorKind::NotInitialized);
    assert_eq!(err.message().as_str(), "SzAbstractFactory has been closed");
}
