use health_check::{decide_sync, run_health_checks, LndGetInfoRes};

#[test]
fn decision_table_both_synced() {
    let r = decide_sync(&LndGetInfoRes { synced_to_chain: true, synced_to_graph: true });
    assert_eq!(r.code, 0);
    assert_eq!(r.message, None);
}

#[test]
fn decision_table_chain_behind() {
    let r = decide_sync(&LndGetInfoRes { synced_to_chain: false, synced_to_graph: true });
    assert_eq!(r.code, 61);
    assert_eq!(r.message, Some("Syncing to chain".to_string()));
}

#[test]
fn decision_table_graph_behind() {
    let r = decide_sync(&LndGetInfoRes { synced_to_chain: true, synced_to_graph: false });
    assert_eq!(r.code, 61);
    assert_eq!(r.message, Some("Syncing to graph".to_string()));
}

#[test]
fn decision_table_both_behind() {
    let r = decide_sync(&LndGetInfoRes { synced_to_chain: false, synced_to_graph: false });
    assert_eq!(r.code, 61);
    assert_eq!(r.message, Some("Syncing to graph and chain".to_string()));
}

#[test]
fn missing_credential_reports_starting() {
    let r = run_health_checks(None);
    assert_eq!(r.code, 60);
    assert_eq!(r.message, None);
}

#[test]
fn failed_request_reports_starting_with_error_text() {
    let r = run_health_checks(Some(Err("connection refused".to_string())));
    assert_eq!(r.code, 60);
    let message = r.message.expect("a failed request carries the error's text");
    assert!(!message.is_empty());
    assert_eq!(message, "connection refused");
}

#[test]
fn unparseable_body_reports_starting_with_error_text() {
    let r = run_health_checks(Some(Err("expected value at line 1 column 1".to_string())));
    assert_eq!(r.code, 60);
    assert_eq!(r.message, Some("expected value at line 1 column 1".to_string()));
}

#[test]
fn healthy_answer_reports_success() {
    let r = run_health_checks(Some(Ok(LndGetInfoRes {
        synced_to_chain: true,
        synced_to_graph: true,
    })));
    assert_eq!(r.code, 0);
    assert_eq!(r.message, None);
}

#[test]
fn end_to_end_scenarios() {
    // Credential absent: code 60, nothing to print on the diagnostic line.
    let starting = run_health_checks(None);
    assert_eq!(starting.code, 60);
    assert_eq!(starting.message.unwrap_or_default(), "");

    // Credential present, the endpoint answers synced to graph only:
    // code 61 and the diagnostic line "Syncing to chain".
    let syncing = run_health_checks(Some(Ok(LndGetInfoRes {
        synced_to_chain: false,
        synced_to_graph: true,
    })));
    assert_eq!(syncing.code, 61);
    assert_eq!(syncing.message.unwrap_or_default(), "Syncing to chain");
}
