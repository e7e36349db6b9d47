use zsak::queryable::{evaluator_script, Responder, ResponderAction};

#[test]
fn replies_with_template_verbatim() {
    let r = Responder::new("pong {N}".to_string(), false, false, None);
    assert!(!r.complete);
    match r.on_query("demo/ping".to_string(), Some(vec![1, 2])) {
        ResponderAction::Reply { key, body } => {
            assert_eq!(key, "demo/ping");
            assert_eq!(body, "pong {N}");
        }
        other => panic!("unexpected {:?}", other),
    }
}

#[test]
fn evaluator_gets_key_and_payload() {
    let r = Responder::new("result = key_expr".to_string(), true, true, None);
    match r.on_query("demo/eval".to_string(), None) {
        ResponderAction::Evaluate { key, payload, program } => {
            assert_eq!(key, "demo/eval");
            assert!(payload.is_empty());
            assert_eq!(program, "result = key_expr");
        }
        other => panic!("unexpected {:?}", other),
    }
    match r.on_query("demo/eval".to_string(), Some(vec![7, 8])) {
        ResponderAction::Evaluate { payload, .. } => assert_eq!(payload, vec![7, 8]),
        other => panic!("unexpected {:?}", other),
    }
}

#[test]
fn evaluation_result_is_the_reply_and_failure_aborts() {
    let r = Responder::new("x".to_string(), false, true, None);
    match r.on_evaluated("k".to_string(), Ok("computed".to_string())) {
        ResponderAction::Reply { key, body } => {
            assert_eq!(key, "k");
            assert_eq!(body, "computed");
        }
        other => panic!("unexpected {:?}", other),
    }
    match r.on_evaluated("k".to_string(), Err("NameError".to_string())) {
        ResponderAction::Abort { error } => assert_eq!(error, "NameError"),
        other => panic!("unexpected {:?}", other),
    }
}

#[test]
fn packages_prefix_the_program() {
    assert_eq!(
        evaluator_script(Some("/opt/site"), "result = '1'"),
        "import sys\nsys.path.append('/opt/site')\nresult = '1'"
    );
    assert_eq!(evaluator_script(None, "result = '1'"), "result = '1'");
    let r = Responder::new("result = 'a'".to_string(), false, true, Some("/p"));
    assert_eq!(r.program.as_deref(), Some("import sys\nsys.path.append('/p')\nresult = 'a'"));
}
