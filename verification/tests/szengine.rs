use sz_sdk_rust_grpc::szengine::{
    BatchResult, EngineStats, EntityData, ExportCollector, RedoAction, RedoDrain, RedoEvent,
    RedoSummary, SearchEntity, SearchResults, SzEngineGrpc, SZ_CSV_DEFAULT_COLUMNS,
};
use sz_sdk_rust_grpc::{SzError, SzErrorKind};

fn entity(entity_id: i64, name: &str, match_score: i64) -> SearchEntity {
    SearchEntity {
        entity_id,
        entity_name: name.into(),
        match_score,
    }
}

#[test]
fn test_batch_result_display() {
    let result = BatchResult {
        successes: 3,
        errors: vec![("bad".to_string(), SzError::general("test"))],
    };
    assert_eq!(result.display(), "3 succeeded, 1 failed");
}

#[test]
fn test_batch_result_default() {
    let result = BatchResult::default();
    assert_eq!(result.successes, 0);
    assert!(result.errors.is_empty());
    assert!(result.is_ok());
    assert_eq!(result.display(), "0 succeeded, 0 failed");
}

#[test]
fn test_batch_result_total_empty() {
    let result = BatchResult::default();
    assert_eq!(result.total(), 0);
}

#[test]
fn test_batch_result_total_with_data() {
    let result = BatchResult {
        successes: 5,
        errors: vec![
            ("rec1".to_string(), SzError::bad_input("bad").with_code(23)),
            ("rec2".to_string(), SzError::not_found("missing").with_code(33)),
        ],
    };
    assert_eq!(result.total(), 7);
}

#[test]
fn test_batch_result_into_iterator() {
    let result = BatchResult {
        successes: 2,
        errors: vec![
            ("rec1".to_string(), SzError::bad_input("bad").with_code(23)),
            ("rec2".to_string(), SzError::not_found("missing").with_code(33)),
        ],
    };
    let collected: Vec<_> = result.into_iter().collect();
    assert_eq!(collected.len(), 2);
    assert_eq!(collected[0].0, "rec1");
    assert_eq!(collected[1].0, "rec2");
}

#[test]
fn test_batch_result_retryable_errors() {
    let result = BatchResult {
        successes: 1,
        errors: vec![
            ("rec1".to_string(), SzError::bad_input("bad").with_code(23)),
            ("rec2".to_string(), SzError::database_transient("deadlock").with_code(1008)),
            ("rec3".to_string(), SzError::not_found("gone").with_code(33)),
        ],
    };
    let retryable = result.retryable_errors();
    assert_eq!(retryable.len(), 1);
    assert_eq!(retryable[0].0, "rec2");
}

#[test]
fn test_batch_result_retryable_errors_empty() {
    let result = BatchResult {
        successes: 3,
        errors: vec![],
    };
    assert!(result.retryable_errors().is_empty());
}

#[test]
fn test_batch_result_failed_record_ids() {
    let result = BatchResult {
        successes: 1,
        errors: vec![
            ("rec_a".to_string(), SzError::bad_input("bad").with_code(23)),
            ("rec_b".to_string(), SzError::not_found("gone").with_code(33)),
        ],
    };
    assert_eq!(result.failed_record_ids(), vec!["rec_a", "rec_b"]);
}

#[test]
fn test_batch_result_record_outcomes() {
    let mut result = BatchResult::default();
    result.record("1001", Ok(String::new()));
    result.record("1002", Err(SzError::bad_input("bad").with_code(23)));
    result.record("1003", Ok("{}".to_string()));
    assert_eq!(result.successes, 2);
    assert_eq!(result.total(), 3);
    assert_eq!(result.failed_record_ids(), vec!["1002"]);
    assert!(!result.is_ok());
}

#[test]
fn test_search_results_top_n() {
    let results = SearchResults {
        entities: vec![entity(1, "A", 90), entity(2, "B", 80), entity(3, "C", 70)],
        raw_json: "{}".into(),
    };
    let top = results.top_n(2);
    assert_eq!(top.len(), 2);
    assert_eq!(top[0].entity_id, 1);
    assert_eq!(top[1].entity_id, 2);
}

#[test]
fn test_search_results_top_n_exceeds_len() {
    let results = SearchResults {
        entities: vec![entity(1, "A", 90)],
        raw_json: "{}".into(),
    };
    let top = results.top_n(5);
    assert_eq!(top.len(), 1);
}

#[test]
fn test_search_results_filter_by_min_score() {
    let results = SearchResults {
        entities: vec![entity(1, "A", 90), entity(2, "B", 50), entity(3, "C", 30)],
        raw_json: "{}".into(),
    };
    let filtered = results.filter_by_min_score(50);
    assert_eq!(filtered.len(), 2);
    assert_eq!(filtered.entities[0].entity_id, 1);
    assert_eq!(filtered.entities[1].entity_id, 2);
}

#[test]
fn test_search_results_entity_ids() {
    let results = SearchResults {
        entities: vec![entity(10, "A", 90), entity(20, "B", 80)],
        raw_json: "{}".into(),
    };
    assert_eq!(results.entity_ids(), vec![10, 20]);
}

#[test]
fn test_search_results_empty_filter() {
    let results = SearchResults {
        entities: vec![],
        raw_json: "{}".into(),
    };
    let filtered = results.filter_by_min_score(50);
    assert!(filtered.is_empty());
    assert!(filtered.entity_ids().is_empty());
    assert!(results.top_n(3).is_empty());
}

#[test]
fn test_search_results_best_match_and_display() {
    let results = SearchResults {
        entities: vec![entity(7, "Bob Smith", 95), entity(8, "Rob Smith", 60)],
        raw_json: "{}".into(),
    };
    assert_eq!(results.best_match().unwrap().entity_id, 7);
    assert_eq!(results.display(), "2 matching entities");
    assert_eq!(results.entities[0].display(), "Entity 7 (Bob Smith, score 95)");
    let empty = SearchResults {
        entities: vec![],
        raw_json: String::new(),
    };
    assert!(empty.best_match().is_none());
}

#[test]
fn test_search_parsed_ranks_by_score() {
    let raw = r#"{"RESOLVED_ENTITIES":[
        {"MATCH_INFO":{"MATCH_SCORE":40},"ENTITY":{"RESOLVED_ENTITY":{"ENTITY_ID":1,"ENTITY_NAME":"Low"}}},
        {"MATCH_INFO":{"ERRULE_CODE":90},"ENTITY":{"RESOLVED_ENTITY":{"ENTITY_ID":2,"ENTITY_NAME":"High"}}},
        {"MATCH_INFO":{},"ENTITY":{"RESOLVED_ENTITY":{"ENTITY_NAME":"No id"}}},
        {"ENTITY":{"RESOLVED_ENTITY":{"ENTITY_ID":3}}},
        {"MATCH_INFO":{"MATCH_SCORE":40},"ENTITY":{"RESOLVED_ENTITY":{"ENTITY_ID":4,"ENTITY_NAME":"Tie"}}}
    ]}"#;
    let results = SzEngineGrpc::search_parsed(raw.to_string()).unwrap();
    assert_eq!(results.entity_ids(), vec![2, 1, 4, 3]);
    assert_eq!(results.entities[0].entity_name, "High");
    assert_eq!(results.entities[0].match_score, 90);
    assert_eq!(results.entities[3].entity_name, "");
    assert_eq!(results.entities[3].match_score, 0);
    assert_eq!(results.raw_json, raw);
}

#[test]
fn test_search_parsed_no_match_and_bad_json() {
    let results = SzEngineGrpc::search_parsed("{}".to_string()).unwrap();
    assert!(results.is_empty());
    let err = SzEngineGrpc::search_parsed("not json".to_string()).unwrap_err();
    assert_eq!(err.kind(), SzErrorKind::General);
    assert!(err.message().starts_with("failed to parse search results JSON: "));
}

#[test]
fn test_search_and_resolve_target() {
    let raw = r#"{"RESOLVED_ENTITIES":[{"ENTITY":{"RESOLVED_ENTITY":{"ENTITY_ID":12}}},
                                         {"ENTITY":{"RESOLVED_ENTITY":{"ENTITY_ID":13}}}]}"#;
    assert_eq!(SzEngineGrpc::search_and_resolve_target(raw).unwrap(), Some(12));
    assert_eq!(
        SzEngineGrpc::search_and_resolve_target(r#"{"RESOLVED_ENTITIES":[]}"#).unwrap(),
        None
    );
    assert!(SzEngineGrpc::search_and_resolve_target("[").is_err());
}

#[test]
fn test_stats_parsed_from_reply() {
    let stats =
        SzEngineGrpc::get_stats_parsed(r#"{"workload":{"loadedRecords":12}}"#.to_string())
            .unwrap();
    assert_eq!(stats.workload, 12);
    let stats = SzEngineGrpc::get_stats_parsed(
        r#"{"workload":{"apiVersion":4,"loadedRecords":12}}"#.to_string(),
    )
    .unwrap();
    assert_eq!(stats.workload, 4);
    let stats: EngineStats = SzEngineGrpc::get_stats_parsed("{}".to_string()).unwrap();
    assert_eq!(stats.workload, 0);
    assert_eq!(stats.display(), "Engine stats (0 workloads)");
}

#[test]
fn test_entity_parsed_from_reply() {
    let raw = r#"{"RESOLVED_ENTITY":{"ENTITY_ID":1,"ENTITY_NAME":"Bob Smith",
        "RECORD_SUMMARY":[{"DATA_SOURCE":"A","RECORD_COUNT":2},{"DATA_SOURCE":"B","RECORD_COUNT":1},{"DATA_SOURCE":"C"}]}}"#;
    let entity: EntityData = SzEngineGrpc::get_entity_parsed(raw.to_string())
        .expect("counts fit")
        .expect("entity parses");
    assert_eq!(entity.entity_id, 1);
    assert_eq!(entity.entity_name, "Bob Smith");
    assert_eq!(entity.record_count, 3);
    assert_eq!(entity.display(), "Entity 1 (Bob Smith, 3 records)");
}

#[test]
fn test_get_entity_parsed_errors() {
    let err = SzEngineGrpc::get_entity_parsed(r#"{"RESOLVED_ENTITY":{}}"#.to_string())
        .unwrap()
        .unwrap_err();
    assert_eq!(err.message().as_str(), "ENTITY_ID not found in entity response");
    let err = SzEngineGrpc::get_entity_parsed("{".to_string()).unwrap().unwrap_err();
    assert!(err.message().starts_with("failed to parse entity JSON: "));
    // record counts whose sum overflows
    let raw = r#"{"RESOLVED_ENTITY":{"ENTITY_ID":1,
        "RECORD_SUMMARY":[{"RECORD_COUNT":9223372036854775807},{"RECORD_COUNT":1}]}}"#;
    assert!(SzEngineGrpc::get_entity_parsed(raw.to_string()).is_none());
}

#[test]
fn test_lookup_entity_id_from_reply() {
    assert_eq!(
        SzEngineGrpc::lookup_entity_id(r#"{"RESOLVED_ENTITY":{"ENTITY_ID":42}}"#).unwrap(),
        42
    );
    let err = SzEngineGrpc::lookup_entity_id(r#"{"RESOLVED_ENTITY":{"ENTITY_ID":"42"}}"#)
        .unwrap_err();
    assert_eq!(err.message().as_str(), "ENTITY_ID not found in response");
}

#[test]
fn test_redo_summary_helpers() {
    let summary = RedoSummary {
        processed: 8,
        failed: 2,
        errors: vec![SzError::general("err1"), SzError::general("err2")],
    };
    assert!(summary.has_failures());
    assert!(!summary.is_ok());
    assert_eq!(summary.total(), 10);
    assert_eq!(summary.display(), "Redo: 8 processed, 2 failed");
}

#[test]
fn test_redo_drain_run() {
    let (mut drain, action) = RedoDrain::start();
    assert_eq!(action, RedoAction::CountRedoRecords);
    assert_eq!(drain.next(RedoEvent::Counted(2)), RedoAction::GetRedoRecord);
    assert_eq!(
        drain.next(RedoEvent::Fetched("r1".to_string())),
        RedoAction::ProcessRedoRecord("r1".to_string())
    );
    assert_eq!(
        drain.next(RedoEvent::Processed(Ok(String::new()))),
        RedoAction::CountRedoRecords
    );
    assert_eq!(drain.next(RedoEvent::Counted(1)), RedoAction::GetRedoRecord);
    assert_eq!(
        drain.next(RedoEvent::Fetched("r2".to_string())),
        RedoAction::ProcessRedoRecord("r2".to_string())
    );
    assert_eq!(
        drain.next(RedoEvent::Processed(Err(SzError::bad_input("bad")))),
        RedoAction::CountRedoRecords
    );
    assert_eq!(drain.next(RedoEvent::Counted(0)), RedoAction::Finish);
    let summary = drain.finish();
    assert_eq!(summary.processed, 1);
    assert_eq!(summary.failed, 1);
    assert_eq!(summary.errors.len(), 1);
}

#[test]
fn test_redo_drain_stops_on_empty_record() {
    let (mut drain, _) = RedoDrain::start();
    assert_eq!(drain.next(RedoEvent::Counted(5)), RedoAction::GetRedoRecord);
    assert_eq!(drain.next(RedoEvent::Fetched(String::new())), RedoAction::Finish);
    let summary = drain.finish();
    assert_eq!(summary.total(), 0);
    assert!(summary.is_ok());
}

#[test]
fn test_export_collector() {
    let mut collector = ExportCollector::new();
    collector.push("a,b\n");
    collector.push("1,2\n");
    assert_eq!(collector.chunks(), 2);
    assert_eq!(collector.into_text(), "a,b\n1,2\n");
    assert_eq!(SZ_CSV_DEFAULT_COLUMNS, "");
}

#[test]
fn test_best_match_is_highest_score_first_among_ties() {
    let results = SearchResults {
        entities: vec![entity(1, "A", 50), entity(2, "B", 80), entity(3, "C", 80)],
        raw_json: "{}".into(),
    };
    assert_eq!(results.best_match().unwrap().entity_id, 2);
}
