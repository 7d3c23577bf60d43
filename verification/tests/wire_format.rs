//! The lines that go over the socket.

use herdr::wire::{encode_report_agent, encode_report_agent_session, frame};
use herdr::State;

#[test]
fn state_as_str_covers_all_variants() {
    assert_eq!(State::Idle.as_str(), "idle");
    assert_eq!(State::Working.as_str(), "working");
    assert_eq!(State::Blocked.as_str(), "blocked");
    assert_eq!(State::Done.as_str(), "done");
}

#[test]
fn report_agent_encodes_state_without_message() {
    let line = encode_report_agent("w1:p1", State::Working, None);
    let parsed: serde_json::Value = serde_json::from_str(&line).expect("valid JSON");
    assert_eq!(parsed["method"], "pane.report_agent");
    assert_eq!(parsed["params"]["pane_id"], "w1:p1");
    assert_eq!(parsed["params"]["source"], "herdr:jcode");
    assert_eq!(parsed["params"]["agent"], "jcode");
    assert_eq!(parsed["params"]["state"], "working");
    assert!(parsed["params"].get("message").is_none());
}

#[test]
fn report_agent_encodes_idle_with_message() {
    let line = encode_report_agent("w1:p2", State::Idle, Some("ready"));
    let parsed: serde_json::Value = serde_json::from_str(&line).expect("valid JSON");
    assert_eq!(parsed["params"]["state"], "idle");
    assert_eq!(parsed["params"]["message"], "ready");
}

#[test]
fn report_agent_message_is_escaped() {
    let line = encode_report_agent("w1:p1", State::Working, Some("he said \"hi\"\nnew line"));
    // The whole thing must parse as JSON (i.e. escaping is valid).
    let parsed: serde_json::Value = serde_json::from_str(&line).expect("valid JSON");
    assert_eq!(parsed["params"]["message"], "he said \"hi\"\nnew line");
}

#[test]
fn report_agent_blocked_and_done_encode() {
    let blocked = encode_report_agent("w1:p1", State::Blocked, Some("approve write?"));
    let parsed: serde_json::Value = serde_json::from_str(&blocked).expect("valid JSON");
    assert_eq!(parsed["params"]["state"], "blocked");
    let done = encode_report_agent("w1:p1", State::Done, None);
    let parsed: serde_json::Value = serde_json::from_str(&done).expect("valid JSON");
    assert_eq!(parsed["params"]["state"], "done");
}

#[test]
fn report_agent_session_encodes_id() {
    let line = encode_report_agent_session("w1:p1", "ses_abc123");
    let parsed: serde_json::Value = serde_json::from_str(&line).expect("valid JSON");
    assert_eq!(parsed["method"], "pane.report_agent_session");
    assert_eq!(parsed["params"]["pane_id"], "w1:p1");
    assert_eq!(parsed["params"]["agent_session_id"], "ses_abc123");
    assert_eq!(parsed["params"]["agent"], "jcode");
    assert_eq!(parsed["params"]["source"], "herdr:jcode");
}

#[test]
fn a_state_report_has_exactly_its_members() {
    let line = encode_report_agent("w1:p1", State::Working, Some("building docs"));
    let parsed: serde_json::Value = serde_json::from_str(&line).expect("valid JSON");
    assert_eq!(parsed["id"], "jcode");
    assert_eq!(parsed.as_object().unwrap().len(), 3);
    assert_eq!(parsed["params"].as_object().unwrap().len(), 5);
    assert_eq!(parsed["params"]["message"], "building docs");
}

#[test]
fn a_session_report_has_exactly_its_members() {
    let line = encode_report_agent_session("w1:p1", "ses");
    let parsed: serde_json::Value = serde_json::from_str(&line).expect("valid JSON");
    assert_eq!(parsed["id"], "jcode");
    assert_eq!(parsed.as_object().unwrap().len(), 3);
    assert_eq!(parsed["params"].as_object().unwrap().len(), 4);
}

#[test]
fn the_text_is_compact() {
    assert_eq!(
        encode_report_agent_session("p", "s"),
        "{\"id\":\"jcode\",\"method\":\"pane.report_agent_session\",\"params\":{\"agent\":\"jcode\",\
         \"agent_session_id\":\"s\",\"pane_id\":\"p\",\"source\":\"herdr:jcode\"}}"
    );
    assert_eq!(
        encode_report_agent("p", State::Done, Some("a\"b\\c\n\u{1}")),
        "{\"id\":\"jcode\",\"method\":\"pane.report_agent\",\"params\":{\"agent\":\"jcode\",\
         \"message\":\"a\\\"b\\\\c\\n\\u0001\",\"pane_id\":\"p\",\"source\":\"herdr:jcode\",\
         \"state\":\"done\"}}"
    );
}

#[test]
fn every_text_reads_back_and_stays_on_one_line() {
    let texts = ["", "\n", "\r\n\t\u{8}\u{c}\u{0}\u{1f}\u{7f}", "\"\\/{}[]:,", "żółć \u{2028}\u{1f600}"];
    for pane in texts {
        for message in texts {
            let line = encode_report_agent(pane, State::Blocked, Some(message));
            assert!(!line.contains('\n'));
            let parsed: serde_json::Value = serde_json::from_str(&line).expect("valid JSON");
            assert_eq!(parsed["params"]["pane_id"], pane);
            assert_eq!(parsed["params"]["message"], message);
            let session = encode_report_agent_session(pane, message);
            assert!(!session.contains('\n'));
            let parsed: serde_json::Value = serde_json::from_str(&session).expect("valid JSON");
            assert_eq!(parsed["params"]["agent_session_id"], message);
        }
    }
}

#[test]
fn no_control_character_gets_onto_the_line() {
    let controls: String = ('\u{0}'..'\u{20}').collect();
    let lines = [
        encode_report_agent(&controls, State::Blocked, Some(&controls)),
        encode_report_agent_session(&controls, &controls),
    ];
    for line in lines {
        assert!(line.chars().all(|c| c >= '\u{20}'));
        let parsed: serde_json::Value = serde_json::from_str(&line).expect("valid JSON");
        assert_eq!(parsed["params"]["pane_id"], controls.as_str());
    }
}

#[test]
fn an_empty_message_is_still_a_message() {
    let with = encode_report_agent("p", State::Idle, Some(""));
    let without = encode_report_agent("p", State::Idle, None);
    assert_ne!(with, without);
    let parsed: serde_json::Value = serde_json::from_str(&with).expect("valid JSON");
    assert_eq!(parsed["params"]["message"], "");
}

#[test]
fn different_reports_are_different_lines() {
    let states = [State::Idle, State::Working, State::Blocked, State::Done];
    for a in states {
        for b in states {
            let same = encode_report_agent("p", a, None) == encode_report_agent("p", b, None);
            assert_eq!(same, a == b);
        }
    }
    assert_ne!(encode_report_agent_session("p", "s"), encode_report_agent_session("s", "p"));
}

#[test]
fn a_frame_ends_in_its_only_newline() {
    assert_eq!(frame(""), vec![10u8]);
    assert_eq!(frame("ab"), vec![97u8, 98, 10]);
    assert_eq!(frame("é"), vec![0xc3u8, 0xa9, 10]);
    let line = encode_report_agent("Ċ", State::Idle, Some("a\nb ਊ \u{1000a}"));
    let bytes = frame(&line);
    assert_eq!(bytes.iter().filter(|byte| **byte == 10).count(), 1);
    assert_eq!(bytes.last(), Some(&10));
    assert_eq!(&bytes[..bytes.len() - 1], line.as_bytes());
}
