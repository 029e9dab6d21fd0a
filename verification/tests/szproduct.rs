use sz_sdk_rust_grpc::szdiagnostic::{RepositoryInfo, SzDiagnosticGrpc};
use sz_sdk_rust_grpc::szproduct::SzProductGrpc;

#[test]
fn test_version_info_from_reply() {
    let raw = r#"{"PRODUCT_NAME":"Senzing SDK","VERSION":"4.0.0","BUILD_VERSION":"4.0.0.25001","BUILD_DATE":"2025-01-01","BUILD_NUMBER":"2025_01_01__00_00"}"#;
    let info = SzProductGrpc::get_version_info(raw.to_string()).unwrap();
    assert_eq!(info.version, "4.0.0");
    assert_eq!(info.build_version, "4.0.0.25001");
    assert_eq!(info.build_date, "2025-01-01");
    let display = info.display();
    assert!(display.contains(&info.version));
    assert!(display.starts_with("Senzing "));
    assert_eq!(display, "Senzing 4.0.0 (build 2025_01_01__00_00)");
}

#[test]
fn test_license_info_from_reply() {
    let raw = r#"{"customer":"Acme","licenseType":"EVAL","expireDate":"2026-01-01","recordLimit":500000}"#;
    let info = SzProductGrpc::get_license_info(raw.to_string()).unwrap();
    assert_eq!(info.record_limit, 500000);
    let display = info.display();
    assert!(!display.is_empty());
    assert!(display.contains(&info.license_type));
    assert_eq!(display, "EVAL license for Acme (expires 2026-01-01)");
}

#[test]
fn test_missing_fields_default() {
    let info = SzProductGrpc::get_license_info(r#"{"recordLimit":"many"}"#.to_string()).unwrap();
    assert_eq!(info.customer, "");
    assert_eq!(info.record_limit, 0);
    assert!(SzProductGrpc::get_version_info("nope".to_string()).is_err());
}

#[test]
fn test_repository_info_from_reply() {
    let info = SzDiagnosticGrpc::get_repository_info_parsed(
        r#"{"dataStores":[{"id":"CORE","recordCount":42},{"id":"RES","recordCount":7}]}"#
            .to_string(),
    )
    .unwrap();
    assert_eq!(info.record_count, 42);
    assert_eq!(info.display(), "Repository (42 records)");
    let empty = SzDiagnosticGrpc::get_repository_info_parsed(r#"{"dataStores":[]}"#.to_string())
        .unwrap();
    assert_eq!(empty.record_count, 0);
}

#[test]
fn test_performance_report_from_reply() {
    let report = SzDiagnosticGrpc::get_performance_report(
        r#"{"numRecordsInserted":100,"numRecordsInsertedPerSecond":-3,"insertTime":1}"#
            .to_string(),
    )
    .unwrap();
    assert_eq!(report.inserts_per_second, -3);
    assert_eq!(report.display(), "-3 inserts/sec");
    let err = SzDiagnosticGrpc::get_performance_report(String::new()).unwrap_err();
    assert!(err.message().starts_with("failed to parse performance report JSON: "));
}

#[test]
fn test_display_extreme_counts() {
    let info = RepositoryInfo {
        record_count: i64::MIN,
        raw_json: String::new(),
    };
    assert_eq!(info.display(), "Repository (-9223372036854775808 records)");
    let info = RepositoryInfo {
        record_count: i64::MAX,
        raw_json: String::new(),
    };
    assert_eq!(info.display(), "Repository (9223372036854775807 records)");
    let info = RepositoryInfo {
        record_count: 0,
        raw_json: String::new(),
    };
    assert_eq!(info.display(), "Repository (0 records)");
}
