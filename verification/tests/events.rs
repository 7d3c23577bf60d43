//! Lifecycle events, carried out to the bytes that would be written.

use herdr::environment::ProcessEnv;
use herdr::lifecycle::{perform, Action, Delivery};
use herdr::registry::SessionRegistry;
use herdr::{
    enabled_for_session, on_session_end, on_session_start, on_turn_end, on_turn_start,
    register_session, report_session_for_session, report_state_for_session, State,
};

fn process(pane: &str, socket: &str) -> ProcessEnv {
    ProcessEnv {
        herdr_env: Some("1".to_string()),
        pane_id: Some(pane.to_string()),
        socket_path: Some(socket.as_bytes().to_vec()),
    }
}

fn outside() -> ProcessEnv {
    ProcessEnv { herdr_env: None, pane_id: None, socket_path: None }
}

fn register(registry: &mut SessionRegistry, session: &str, pane: &str, socket: &str) {
    register_session(
        registry,
        session,
        &[
            ("HERDR_ENV".to_string(), "1".to_string()),
            ("HERDR_SOCKET_PATH".to_string(), socket.to_string()),
            ("HERDR_PANE_ID".to_string(), pane.to_string()),
        ],
    );
}

fn carry_out(
    registry: &mut SessionRegistry,
    env: &ProcessEnv,
    session: &str,
    plan: Vec<Action>,
) -> Vec<Delivery> {
    let mut sent = Vec::new();
    for action in plan {
        if let Some(delivery) = perform(registry, env, session, action) {
            sent.push(delivery);
        }
    }
    sent
}

fn received(delivery: &Delivery) -> serde_json::Value {
    let text = String::from_utf8(delivery.bytes()).expect("utf8");
    assert!(text.ends_with('\n'), "request is newline-terminated");
    let line = text.trim_end_matches('\n');
    assert_eq!(line.len() + 1, text.len());
    serde_json::from_str(line).expect("valid JSON on socket")
}

#[test]
fn a_turn_start_reports_working() {
    let mut registry = SessionRegistry::new();
    let env = process("w1:p1", "/tmp/herdr.sock");
    let plan = on_turn_start(&registry, &env, "ses_e2e_1");
    let sent = carry_out(&mut registry, &env, "ses_e2e_1", plan);
    assert_eq!(sent.len(), 1);
    assert_eq!(sent[0].socket_path, b"/tmp/herdr.sock".to_vec());
    let parsed = received(&sent[0]);
    assert_eq!(parsed["method"], "pane.report_agent");
    assert_eq!(parsed["params"]["pane_id"], "w1:p1");
    assert_eq!(parsed["params"]["source"], "herdr:jcode");
    assert_eq!(parsed["params"]["agent"], "jcode");
    assert_eq!(parsed["params"]["state"], "working");
    assert_eq!(parsed["params"]["message"], "working");
}

#[test]
fn a_session_start_reports_the_id_first() {
    let mut registry = SessionRegistry::new();
    let env = process("w2:p3", "/tmp/herdr.sock");
    let plan = on_session_start(&registry, &env, "ses_xyz789", "create");
    let sent = carry_out(&mut registry, &env, "ses_xyz789", plan);
    assert_eq!(sent.len(), 2);
    let first = received(&sent[0]);
    assert_eq!(first["method"], "pane.report_agent_session");
    assert_eq!(first["params"]["pane_id"], "w2:p3");
    assert_eq!(first["params"]["agent_session_id"], "ses_xyz789");
    assert_eq!(first["params"]["agent"], "jcode");
    let second = received(&sent[1]);
    assert_eq!(second["method"], "pane.report_agent");
    assert_eq!(second["params"]["state"], "idle");
    assert_eq!(second["params"]["message"], "new session");
}

#[test]
fn the_source_of_a_session_picks_the_message() {
    let mut registry = SessionRegistry::new();
    let env = process("p", "/s");
    for (source, message) in [
        ("create", Some("new session")),
        ("resume", Some("resumed")),
        ("attach", Some("attached")),
        ("Create", None),
        ("", None),
    ] {
        let plan = on_session_start(&registry, &env, "a", source);
        let sent = carry_out(&mut registry, &env, "a", plan);
        let parsed = received(&sent[1]);
        match message {
            Some(text) => assert_eq!(parsed["params"]["message"], text),
            None => assert!(parsed["params"].get("message").is_none()),
        }
    }
}

#[test]
fn a_turn_end_tells_success_from_failure() {
    let mut registry = SessionRegistry::new();
    let env = process("p", "/s");
    for (ok, message) in [(true, "ready"), (false, "turn failed")] {
        let plan = on_turn_end(&registry, &env, "a", ok);
        let sent = carry_out(&mut registry, &env, "a", plan);
        assert_eq!(sent.len(), 1);
        let parsed = received(&sent[0]);
        assert_eq!(parsed["params"]["state"], "idle");
        assert_eq!(parsed["params"]["message"], message);
    }
}

#[test]
fn an_ended_session_falls_silent() {
    let mut registry = SessionRegistry::new();
    register(&mut registry, "a", "w1:p1", "/s1");
    register(&mut registry, "b", "w2:p2", "/s2");
    let plan = on_session_end(&registry, &outside(), "a");
    let sent = carry_out(&mut registry, &outside(), "a", plan);
    assert_eq!(sent.len(), 1);
    assert_eq!(sent[0].socket_path, b"/s1".to_vec());
    let parsed = received(&sent[0]);
    assert_eq!(parsed["params"]["state"], "done");
    assert_eq!(parsed["params"]["message"], "session closed");
    assert!(!enabled_for_session(&registry, &outside(), "a"));
    assert!(on_turn_start(&registry, &outside(), "a").is_empty());
    assert!(enabled_for_session(&registry, &outside(), "b"));
}

#[test]
fn an_ended_session_still_falls_back_to_the_process() {
    let mut registry = SessionRegistry::new();
    let env = process("server", "/server");
    register(&mut registry, "a", "w1:p1", "/s1");
    let plan = on_session_end(&registry, &env, "a");
    let sent = carry_out(&mut registry, &env, "a", plan);
    assert_eq!(received(&sent[0])["params"]["pane_id"], "w1:p1");
    let plan = on_turn_start(&registry, &env, "a");
    let sent = carry_out(&mut registry, &env, "a", plan);
    assert_eq!(sent[0].socket_path, b"/server".to_vec());
    assert_eq!(received(&sent[0])["params"]["pane_id"], "server");
}

#[test]
fn nothing_happens_outside_of_herdr() {
    let mut registry = SessionRegistry::new();
    register(&mut registry, "b", "p", "/s");
    let env = outside();
    assert!(on_session_start(&registry, &env, "a", "create").is_empty());
    assert!(on_session_end(&registry, &env, "a").is_empty());
    assert!(on_turn_start(&registry, &env, "a").is_empty());
    assert!(on_turn_end(&registry, &env, "a", true).is_empty());
    assert!(report_session_for_session(&registry, &env, "a").is_none());
    assert!(report_state_for_session(&registry, &env, "a", State::Blocked, None).is_none());
    assert!(perform(&mut registry, &env, "a", Action::ReportSession).is_none());
}

#[test]
fn a_permission_prompt_reports_blocked_and_then_idle() {
    let mut registry = SessionRegistry::new();
    register(&mut registry, "ses_e2e_blocked", "w3:p9", "/tmp/herdr.sock");
    let blocked = report_state_for_session(
        &registry,
        &outside(),
        "ses_e2e_blocked",
        State::Blocked,
        Some("create_pull_request"),
    )
    .unwrap();
    assert_eq!(received(&blocked)["params"]["state"], "blocked");
    assert_eq!(received(&blocked)["params"]["message"], "create_pull_request");
    let idle = report_state_for_session(&registry, &outside(), "ses_e2e_blocked", State::Idle, None)
        .unwrap();
    assert_eq!(received(&idle)["params"]["state"], "idle");
    assert_eq!(received(&idle)["params"]["pane_id"], "w3:p9");
}

#[test]
fn each_action_looks_the_session_up_anew() {
    let mut registry = SessionRegistry::new();
    register(&mut registry, "a", "w1:p1", "/s1");
    let plan = on_session_start(&registry, &outside(), "a", "resume");
    let first = perform(&mut registry, &outside(), "a", plan[0]).unwrap();
    assert_eq!(received(&first)["params"]["pane_id"], "w1:p1");
    register(&mut registry, "a", "w4:p4", "/s4");
    let second = perform(&mut registry, &outside(), "a", plan[1]).unwrap();
    assert_eq!(second.socket_path, b"/s4".to_vec());
    assert_eq!(received(&second)["params"]["pane_id"], "w4:p4");
    assert!(perform(&mut registry, &outside(), "a", Action::Unregister).is_none());
    assert!(perform(&mut registry, &outside(), "a", plan[1]).is_none());
}
