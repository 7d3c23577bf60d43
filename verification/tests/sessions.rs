//! Where the reports of a session go.

use herdr::environment::{env_lookup, is_truthy, ProcessEnv};
use herdr::registry::{resolve_identity, Registration, SessionRegistry};
use herdr::{enabled_for_session, register_session, unregister_session};

fn vars(list: &[(&str, &str)]) -> Vec<(String, String)> {
    list.iter().map(|(name, value)| (name.to_string(), value.to_string())).collect()
}

fn terminal(pane: &str, socket: &str) -> Vec<(String, String)> {
    vars(&[("HERDR_ENV", "1"), ("HERDR_SOCKET_PATH", socket), ("HERDR_PANE_ID", pane)])
}

fn process(env: Option<&str>, pane: Option<&str>, socket: Option<&[u8]>) -> ProcessEnv {
    ProcessEnv {
        herdr_env: env.map(|value| value.to_string()),
        pane_id: pane.map(|value| value.to_string()),
        socket_path: socket.map(|value| value.to_vec()),
    }
}

fn outside() -> ProcessEnv {
    process(None, None, None)
}

fn target(registry: &SessionRegistry, env: &ProcessEnv, session: &str) -> Option<(String, Vec<u8>)> {
    resolve_identity(registry, env, Some(session)).map(|id| (id.pane_id, id.socket_path))
}

#[test]
fn yes_words_switch_on() {
    for word in ["1", "true", "TRUE", "True", "yes", "on"] {
        assert!(is_truthy(word));
    }
    for word in ["", "0", "2", "11", "tRUE", "YES", "Yes", "ON", "On", "y", "no", "off", "false", "t rue"] {
        assert!(!is_truthy(word));
    }
}

#[test]
fn white_space_around_a_yes_word_is_ignored() {
    assert!(is_truthy(" 1"));
    assert!(is_truthy("\ttrue\r\n"));
    assert!(is_truthy("\u{b}\u{c}\u{20}on\u{85}\u{a0}\u{1680}"));
    assert!(is_truthy("\u{2000}\u{200a}\u{2028}\u{2029}\u{202f}\u{205f}\u{3000}yes"));
    assert!(!is_truthy(" \n\t "));
    assert!(!is_truthy("\u{200b}1"));
    assert!(!is_truthy("\u{feff}1"));
    assert!(!is_truthy("\u{1c}1"));
    assert!(!is_truthy("\u{180e}1"));
}

#[test]
fn std_white_space_is_the_listed_set() {
    let listed = |c: char| {
        matches!(
            c,
            '\u{9}'..='\u{d}' | '\u{20}' | '\u{85}' | '\u{a0}' | '\u{1680}' | '\u{2000}'..='\u{200a}'
                | '\u{2028}' | '\u{2029}' | '\u{202f}' | '\u{205f}' | '\u{3000}'
        )
    };
    for c in '\u{0}'..='\u{10ffff}' {
        assert_eq!(is_truthy(&format!("{c}1")), listed(c));
    }
}

#[test]
fn the_first_of_two_pairs_is_found() {
    let env = vars(&[("A", "1"), ("B", "2"), ("A", "3")]);
    assert_eq!(env_lookup(&env, "A"), Some("1".to_string()));
    assert_eq!(env_lookup(&env, "B"), Some("2".to_string()));
    assert_eq!(env_lookup(&env, "a"), None);
    assert_eq!(env_lookup(&env, ""), None);
    assert_eq!(env_lookup(&[], "A"), None);
}

#[test]
fn a_registered_session_reports_to_its_own_pane() {
    let mut registry = SessionRegistry::new();
    assert!(!enabled_for_session(&registry, &outside(), "a"));
    let outcome = register_session(&mut registry, "a", &terminal("w1:p1", "/tmp/h.sock"));
    assert_eq!(outcome, Registration::Registered);
    assert!(enabled_for_session(&registry, &outside(), "a"));
    assert!(!enabled_for_session(&registry, &outside(), "b"));
    assert_eq!(
        target(&registry, &outside(), "a"),
        Some(("w1:p1".to_string(), b"/tmp/h.sock".to_vec()))
    );
}

#[test]
fn two_sessions_of_one_server_keep_apart() {
    let mut registry = SessionRegistry::new();
    register_session(&mut registry, "a", &terminal("w1:p1", "/s1"));
    register_session(&mut registry, "b", &terminal("w2:p2", "/s2"));
    let env = process(Some("1"), Some("server"), Some(b"/server"));
    assert_eq!(target(&registry, &env, "a"), Some(("w1:p1".to_string(), b"/s1".to_vec())));
    assert_eq!(target(&registry, &env, "b"), Some(("w2:p2".to_string(), b"/s2".to_vec())));
    assert_eq!(target(&registry, &env, "c"), Some(("server".to_string(), b"/server".to_vec())));
}

#[test]
fn registering_again_moves_the_session() {
    let mut registry = SessionRegistry::new();
    register_session(&mut registry, "a", &terminal("w1:p1", "/s1"));
    register_session(&mut registry, "a", &terminal("w9:p9", "/s9"));
    register_session(&mut registry, "a", &terminal("w9:p9", "/s9"));
    assert_eq!(target(&registry, &outside(), "a"), Some(("w9:p9".to_string(), b"/s9".to_vec())));
    unregister_session(&mut registry, "a");
    assert_eq!(target(&registry, &outside(), "a"), None);
}

#[test]
fn a_terminal_outside_herdr_is_skipped() {
    let cases: [(Vec<(String, String)>, Registration); 6] = [
        (vars(&[]), Registration::NoPaneId),
        (vars(&[("HERDR_ENV", "1"), ("HERDR_SOCKET_PATH", "/s")]), Registration::NoPaneId),
        (vars(&[("HERDR_PANE_ID", "p"), ("HERDR_SOCKET_PATH", "/s")]), Registration::NoHerdrEnv),
        (
            vars(&[("HERDR_PANE_ID", "p"), ("HERDR_SOCKET_PATH", "/s"), ("HERDR_ENV", "0")]),
            Registration::HerdrEnvNotTruthy,
        ),
        (vars(&[("HERDR_PANE_ID", "p"), ("HERDR_ENV", "no")]), Registration::HerdrEnvNotTruthy),
        (vars(&[("HERDR_PANE_ID", "p"), ("HERDR_ENV", "1")]), Registration::NoSocketPath),
    ];
    for (env, expected) in cases {
        let mut registry = SessionRegistry::new();
        register_session(&mut registry, "a", &terminal("w1:p1", "/s1"));
        assert_eq!(register_session(&mut registry, "b", &env), expected);
        assert_eq!(target(&registry, &outside(), "b"), None);
        assert_eq!(register_session(&mut registry, "a", &env), expected);
        assert_eq!(target(&registry, &outside(), "a"), Some(("w1:p1".to_string(), b"/s1".to_vec())));
    }
}

#[test]
fn a_terminal_may_name_an_empty_pane() {
    let mut registry = SessionRegistry::new();
    assert_eq!(register_session(&mut registry, "a", &terminal("", "")), Registration::Registered);
    assert_eq!(target(&registry, &outside(), "a"), Some((String::new(), Vec::new())));
}

#[test]
fn unregistering_one_session_leaves_the_other() {
    let mut registry = SessionRegistry::new();
    register_session(&mut registry, "a", &terminal("w1:p1", "/s1"));
    register_session(&mut registry, "b", &terminal("w2:p2", "/s2"));
    unregister_session(&mut registry, "a");
    unregister_session(&mut registry, "a");
    unregister_session(&mut registry, "never there");
    assert!(!enabled_for_session(&registry, &outside(), "a"));
    assert!(enabled_for_session(&registry, &outside(), "b"));
    let env = process(Some(" on "), Some("p"), Some(b"/s"));
    assert_eq!(target(&registry, &env, "a"), Some(("p".to_string(), b"/s".to_vec())));
}

#[test]
fn the_fallback_wants_all_three_variables() {
    let registry = SessionRegistry::new();
    let path: &[u8] = b"/tmp/\xff.sock";
    let full = process(Some("1"), Some("w1:p1"), Some(path));
    assert_eq!(target(&registry, &full, "a"), Some(("w1:p1".to_string(), path.to_vec())));
    assert!(resolve_identity(&registry, &full, None).is_some());
    for env in [
        process(None, Some("w1:p1"), Some(path)),
        process(Some(""), Some("w1:p1"), Some(path)),
        process(Some("0"), Some("w1:p1"), Some(path)),
        process(Some("1"), None, Some(path)),
        process(Some("1"), Some(""), Some(path)),
        process(Some("1"), Some("w1:p1"), None),
        process(Some("1"), Some("w1:p1"), Some(b"")),
    ] {
        assert!(!enabled_for_session(&registry, &env, "a"));
        assert!(resolve_identity(&registry, &env, None).is_none());
    }
}
