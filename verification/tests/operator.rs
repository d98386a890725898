use openclaw_linux::operator_rpc::{
    call_without_params, channel_start_call, cron_run_call, device_pair_approve_call,
    invoke_error_payload, invoke_result_call, node_pair_reject_call, sessions_describe_call,
    sessions_preview_call, voicewake_set_call,
};

#[test]
fn calls_with_single_members() {
    let c = channel_start_call("telegram");
    assert_eq!(c.method, "channels.start");
    assert_eq!(c.params.as_deref(), Some("{\"channel\":\"telegram\"}"));
    assert_eq!(cron_run_call("job-1").params.as_deref(), Some("{\"id\":\"job-1\"}"));
    assert_eq!(device_pair_approve_call("r1").params.as_deref(), Some("{\"requestId\":\"r1\"}"));
    assert_eq!(node_pair_reject_call("r2").method, "node.pair.reject");
    let h = call_without_params("health");
    assert_eq!(h.method, "health");
    assert!(h.params.is_none());
}

#[test]
fn sessions_calls() {
    let keys = vec!["a".to_string(), "b".to_string()];
    assert_eq!(
        sessions_preview_call(&keys, Some(5)).params.as_deref(),
        Some("{\"keys\":[\"a\",\"b\"],\"limit\":5}")
    );
    assert_eq!(sessions_preview_call(&vec![], None).params.as_deref(), Some("{\"keys\":[]}"));
    let d = sessions_describe_call("  main  ", true, false).unwrap();
    assert_eq!(d.params.as_deref(), Some("{\"includeDerivedTitles\":true,\"key\":\"main\"}"));
    let d = sessions_describe_call("k", true, true).unwrap();
    assert_eq!(
        d.params.as_deref(),
        Some("{\"includeDerivedTitles\":true,\"includeLastMessage\":true,\"key\":\"k\"}")
    );
    assert_eq!(sessions_describe_call("   ", false, false).unwrap_err(), "session key required");
}

#[test]
fn voicewake_and_invoke_results() {
    let v = voicewake_set_call(&vec!["open claw".to_string()]);
    assert_eq!(v.params.as_deref(), Some("{\"triggers\":[\"open claw\"]}"));
    let r = invoke_result_call("id-1", false, &invoke_error_payload("boom"));
    assert_eq!(r.method, "node.invoke.result");
    assert_eq!(
        r.params.as_deref(),
        Some("{\"id\":\"id-1\",\"ok\":false,\"payload\":{\"error\":\"boom\"}}")
    );
}
