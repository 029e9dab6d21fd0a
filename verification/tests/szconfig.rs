use sz_sdk_rust_grpc::status::RpcFailure;
use sz_sdk_rust_grpc::szconfig::{DataSourceDiff, RegisterDataSourceReply, SzConfigGrpc};
use sz_sdk_rust_grpc::szconfigmanager::SzConfigManagerGrpc;
use sz_sdk_rust_grpc::SzErrorKind;

const REGISTRY: &str = r#"{"DATA_SOURCES":[
    {"DSRC_ID":1,"DSRC_CODE":"TEST"},
    {"DSRC_ID":2,"DSRC_CODE":"SEARCH"},
    {"DSRC_ID":1001,"DSRC_CODE":"CUSTOMERS"},
    {"DSRC_ID":1002}
]}"#;

const OTHER_REGISTRY: &str = r#"{"DATA_SOURCES":[
    {"DSRC_CODE":"TEST"},{"DSRC_CODE":"SEARCH"},{"DSRC_CODE":"WATCHLIST"},{"DSRC_CODE":"REFERENCE"}
]}"#;

fn lazy_channel(rt: &tokio::runtime::Runtime) -> tonic::transport::Channel {
    let _guard = rt.enter();
    tonic::transport::Endpoint::from_static("http://localhost:8261").connect_lazy()
}

#[test]
fn test_get_data_sources_from_registry() {
    let sources = SzConfigGrpc::get_data_sources(REGISTRY).unwrap();
    assert_eq!(sources, vec!["TEST", "SEARCH", "CUSTOMERS"]);
    assert_eq!(SzConfigGrpc::data_source_count(REGISTRY).unwrap(), 3);
    assert!(SzConfigGrpc::contains_data_source(REGISTRY, "CUSTOMERS").unwrap());
    assert!(!SzConfigGrpc::contains_data_source(REGISTRY, "WATCHLIST").unwrap());
    assert!(SzConfigGrpc::get_data_sources("{}").unwrap().is_empty());
}

#[test]
fn test_get_data_sources_bad_json() {
    let err = SzConfigGrpc::get_data_sources("{oops").unwrap_err();
    assert_eq!(err.kind(), SzErrorKind::General);
    assert!(err
        .message()
        .starts_with("failed to parse data source registry JSON: "));
}

#[test]
fn test_data_sources_to_add() {
    let to_add =
        SzConfigGrpc::data_sources_to_add(REGISTRY, &["CUSTOMERS", "WATCHLIST", "REF", "WATCHLIST"])
            .unwrap();
    // a missing name given twice is selected once
    assert_eq!(to_add, vec!["WATCHLIST", "REF"]);
    assert!(SzConfigGrpc::data_sources_to_add(REGISTRY, &[]).unwrap().is_empty());
}

#[test]
fn test_diff_data_sources() {
    let diff = SzConfigGrpc::diff_data_sources(REGISTRY, OTHER_REGISTRY).unwrap();
    assert_eq!(diff.added, vec!["CUSTOMERS"]);
    assert_eq!(diff.removed, vec!["REFERENCE", "WATCHLIST"]);
    assert!(!diff.is_empty());
    assert_eq!(
        diff.display(),
        "added: CUSTOMERS; removed: REFERENCE, WATCHLIST"
    );
    let swapped = SzConfigGrpc::diff_data_sources(OTHER_REGISTRY, REGISTRY).unwrap();
    assert_eq!(swapped.added, diff.removed);
    assert_eq!(swapped.removed, diff.added);
}

#[test]
fn test_diff_identical_registries() {
    let diff = SzConfigGrpc::diff_data_sources(REGISTRY, REGISTRY).unwrap();
    assert!(diff.is_empty());
    assert_eq!(diff.display(), "no differences");
}

#[test]
fn test_diff_sorted_without_repetition() {
    let mine = vec!["b".to_string(), "a".to_string(), "b".to_string(), "Z".to_string()];
    let theirs = vec!["c".to_string()];
    let diff = DataSourceDiff::between(&mine, &theirs);
    assert_eq!(diff.added, vec!["Z", "a", "b"]);
    assert_eq!(diff.removed, vec!["c"]);
    let only_added = DataSourceDiff {
        added: vec!["X".to_string()],
        removed: vec![],
    };
    assert_eq!(only_added.display(), "added: X");
}

#[test]
fn test_register_updates_definition_only_on_success() {
    let rt = tokio::runtime::Runtime::new().unwrap();
    let mut config = SzConfigGrpc::new(lazy_channel(&rt), "{\"v\":1}".to_string());
    let result = config.apply_register_data_source(Ok(RegisterDataSourceReply {
        config_definition: "{\"v\":2}".to_string(),
        result: "{\"DSRC_ID\":1001}".to_string(),
    }));
    assert_eq!(result.unwrap(), "{\"DSRC_ID\":1001}");
    assert_eq!(config.export_config().unwrap(), "{\"v\":2}");

    let failed = config.apply_register_data_source(Err(RpcFailure {
        code: 2,
        message: r#"{"reason":"SENZ7220E|already exists"}"#.to_string(),
    }));
    let err = failed.unwrap_err();
    assert_eq!(err.code(), 7220);
    assert_eq!(config.export_config().unwrap(), "{\"v\":2}");

    config.apply_unregister_data_source(Ok("{\"v\":3}".to_string())).unwrap();
    assert_eq!(config.config_definition(), "{\"v\":3}");
    let clone = config.clone();
    assert!(config
        .apply_unregister_data_source(Err(RpcFailure {
            code: 14,
            message: "down".to_string(),
        }))
        .is_err());
    assert_eq!(clone.config_definition(), "{\"v\":3}");
}

#[test]
fn test_config_ids_from_registry() {
    let ids = SzConfigManagerGrpc::get_config_ids(
        r#"{"CONFIGS":[{"CONFIG_ID":11},{"CONFIG_COMMENT":"x"},{"CONFIG_ID":12}]}"#,
    )
    .unwrap();
    assert_eq!(ids, vec![11, 12]);
    assert!(SzConfigManagerGrpc::get_config_ids("{}").unwrap().is_empty());
    assert!(SzConfigManagerGrpc::get_config_ids("x").is_err());
}

#[test]
fn test_create_config_from_reply() {
    let rt = tokio::runtime::Runtime::new().unwrap();
    let manager = SzConfigManagerGrpc::new(lazy_channel(&rt));
    let config = manager
        .create_config_from_reply(Ok("{\"t\":1}".to_string()), "get_template_config")
        .unwrap();
    assert_eq!(config.config_definition(), "{\"t\":1}");
    let err = manager
        .create_config_from_reply(
            Err(RpcFailure {
                code: 5,
                message: "no config".to_string(),
            }),
            "get_config",
        )
        .unwrap_err();
    assert_eq!(
        err.message().as_str(),
        "gRPC get_config failed (Some requested entity was not found): no config"
    );
    assert_eq!(manager.create_config_from_string("{}").config_definition(), "{}");
}
