use zsak::query::{
    call_shape, consolidation_token, describe_reply, query_consolidation, query_target,
    target_token, ConsolidationMode, QueryCall,
    QueryReply, QueryRequest, QueryTarget, ReplyReport, ReplySample,
};

#[test]
fn target_tokens_map_to_policies() {
    assert_eq!(query_target(Some("best")).policy, QueryTarget::BestMatching);
    assert_eq!(query_target(Some("all")).policy, QueryTarget::All);
    assert_eq!(query_target(Some("all-complete")).policy, QueryTarget::AllComplete);
    assert!(!query_target(Some("all")).fell_back);
    let bogus = query_target(Some("bogus"));
    assert_eq!(bogus.policy, QueryTarget::BestMatching);
    assert!(bogus.fell_back);
    let absent = query_target(None);
    assert_eq!(absent.policy, QueryTarget::BestMatching);
    assert!(!absent.fell_back);
    assert!(query_target(Some("ALL")).fell_back);
}

#[test]
fn consolidation_tokens_map_to_modes() {
    assert_eq!(query_consolidation(Some("none")).policy, ConsolidationMode::NoConsolidation);
    assert_eq!(query_consolidation(Some("monotonic")).policy, ConsolidationMode::Monotonic);
    assert_eq!(query_consolidation(Some("latest")).policy, ConsolidationMode::Latest);
    assert!(!query_consolidation(Some("latest")).fell_back);
    let bogus = query_consolidation(Some("bogus"));
    assert_eq!(bogus.policy, ConsolidationMode::NoConsolidation);
    assert!(bogus.fell_back);
    assert!(!query_consolidation(None).fell_back);
    assert_eq!(query_consolidation(None).policy, ConsolidationMode::NoConsolidation);
}

fn request(payload: Option<&str>, attachment: Option<&str>) -> QueryRequest {
    QueryRequest {
        key: "demo/**".to_string(),
        payload: payload.map(|p| p.to_string()),
        attachment: attachment.map(|a| a.to_string()),
        target: QueryTarget::BestMatching,
        consolidation: ConsolidationMode::NoConsolidation,
    }
}

#[test]
fn payload_only_selects_payload_call() {
    assert_eq!(call_shape(&request(Some("body"), None)), QueryCall::WithPayload);
}

#[test]
fn each_combination_selects_its_call() {
    assert_eq!(call_shape(&request(None, None)), QueryCall::Plain);
    assert_eq!(call_shape(&request(None, Some("a"))), QueryCall::WithAttachment);
    assert_eq!(call_shape(&request(Some("b"), Some("a"))), QueryCall::WithPayloadAndAttachment);
}

#[test]
fn successful_reply_reports_fields() {
    let reply = QueryReply {
        replier: Some("abc123".to_string()),
        result: Ok(ReplySample {
            key: "demo/x".to_string(),
            source_id: None,
            source_sn: None,
            timestamp: None,
            body: "42".to_string(),
        }),
    };
    match describe_reply(3, reply) {
        ReplyReport::Success { index, replier, source, source_sn, key, timestamp, value } => {
            assert_eq!(index, 3);
            assert_eq!(replier, "abc123");
            assert_eq!(source, "Unknown");
            assert_eq!(source_sn, 0);
            assert_eq!(key, "demo/x");
            assert_eq!(timestamp, "None");
            assert_eq!(value, "42");
        }
        other => panic!("unexpected {:?}", other),
    }
}

#[test]
fn reply_with_source_reports_it() {
    let reply = QueryReply {
        replier: None,
        result: Ok(ReplySample {
            key: "k".to_string(),
            source_id: Some("f00d".to_string()),
            source_sn: Some(9),
            timestamp: Some("7/abc".to_string()),
            body: "v".to_string(),
        }),
    };
    match describe_reply(1, reply) {
        ReplyReport::Success { replier, source, source_sn, timestamp, .. } => {
            assert_eq!(replier, "Unknown");
            assert_eq!(source, "f00d");
            assert_eq!(source_sn, 9);
            assert_eq!(timestamp, "7/abc");
        }
        other => panic!("unexpected {:?}", other),
    }
}

#[test]
fn failed_reply_reports_error() {
    let reply = QueryReply { replier: None, result: Err("timeout".to_string()) };
    match describe_reply(2, reply) {
        ReplyReport::Failure { index, replier, error } => {
            assert_eq!(index, 2);
            assert_eq!(replier, "Unknown");
            assert_eq!(error, "timeout");
        }
        other => panic!("unexpected {:?}", other),
    }
}

#[test]
fn policy_tokens_read_back() {
    for t in [QueryTarget::BestMatching, QueryTarget::All, QueryTarget::AllComplete] {
        let back = query_target(Some(target_token(t)));
        assert_eq!(back.policy, t);
        assert!(!back.fell_back);
    }
    for c in [ConsolidationMode::NoConsolidation, ConsolidationMode::Monotonic, ConsolidationMode::Latest] {
        let back = query_consolidation(Some(consolidation_token(c)));
        assert_eq!(back.policy, c);
        assert!(!back.fell_back);
    }
    assert_eq!(target_token(QueryTarget::AllComplete), "all-complete");
    assert_eq!(consolidation_token(ConsolidationMode::NoConsolidation), "none");
}
