use felay_gui::codec::{
    daemon_stop, is_daemon_running, list_bots, outcome_of, payload_or_null, read_daemon_status,
    request_daemon_status, send_stop_request, BotWarning, Exchange, Outcome, Session,
};
use felay_gui::json::Json;

fn s(v: &str) -> Json {
    Json::Str(v.to_string())
}

fn obj(members: Vec<(&str, Json)>) -> Json {
    Json::Object(members.into_iter().map(|(k, v)| (k.to_string(), v)).collect())
}

fn session_doc(id: &str, bot: Option<&str>) -> Json {
    let mut m = vec![
        ("sessionId", s(id)),
        ("cli", s("codex")),
        ("cwd", s("/w")),
        ("status", s("running")),
        ("startedAt", s("2024-01-01")),
    ];
    if let Some(b) = bot {
        m.push(("interactiveBotId", s(b)));
        m.push(("interactiveBotConnected", Json::Bool(true)));
    }
    obj(m)
}

fn status_reply(sessions: Vec<Json>, warnings: Option<Json>) -> Json {
    let mut p = vec![
        ("daemonPid", Json::Int(77)),
        ("activeSessions", Json::Int(sessions.len() as i128)),
        ("sessions", Json::Array(sessions)),
    ];
    if let Some(w) = warnings {
        p.push(("warnings", w));
    }
    obj(vec![("type", s("status_response")), ("payload", obj(p))])
}

#[test]
fn status_reply_is_decoded() {
    let reply = status_reply(
        vec![session_doc("s1", Some("b1")), session_doc("s2", None)],
        Some(Json::Array(vec![obj(vec![("botId", s("b1")), ("message", s("offline"))])])),
    );
    let st = read_daemon_status(&Exchange::Reply(reply));
    assert!(st.running);
    assert_eq!(st.daemon_pid, Some(77));
    assert_eq!(st.active_sessions, 2);
    assert_eq!(st.sessions.len(), 2);
    assert_eq!(
        st.sessions[0],
        Session {
            session_id: "s1".to_string(),
            cli: "codex".to_string(),
            cwd: "/w".to_string(),
            status: "running".to_string(),
            started_at: "2024-01-01".to_string(),
            interactive_bot_id: Some("b1".to_string()),
            interactive_bot_connected: Some(true),
            push_bot_id: None,
            push_enabled: None,
        }
    );
    assert_eq!(st.sessions[1].interactive_bot_id, None);
    assert_eq!(st.warnings, vec![BotWarning { bot_id: "b1".to_string(), message: "offline".to_string() }]);
}

#[test]
fn missing_or_null_warnings_show_none() {
    let st = read_daemon_status(&Exchange::Reply(status_reply(vec![], None)));
    assert!(st.running);
    assert!(st.warnings.is_empty());
    let st = read_daemon_status(&Exchange::Reply(status_reply(vec![], Some(Json::Null))));
    assert!(st.running);
    assert!(st.warnings.is_empty());
}

#[test]
fn mismatched_status_is_not_running() {
    let bad_session = obj(vec![("sessionId", s("x"))]);
    let reply = status_reply(vec![bad_session], None);
    assert!(request_daemon_status(&reply).is_none());
    let st = read_daemon_status(&Exchange::Reply(reply));
    assert!(!st.running);
    assert_eq!(st.daemon_pid, None);
    assert_eq!(st.active_sessions, 0);
    let bad_warnings = status_reply(vec![], Some(s("oops")));
    assert!(!is_daemon_running(&Exchange::Reply(bad_warnings)));
    assert!(!read_daemon_status(&Exchange::Unreachable).running);
    assert!(!read_daemon_status(&Exchange::NoEndpoint).running);
}

#[test]
fn stop_reports_the_daemons_flag() {
    let yes = obj(vec![("payload", obj(vec![("ok", Json::Bool(true))]))]);
    let no = obj(vec![("payload", obj(vec![("ok", Json::Bool(false))]))]);
    assert!(send_stop_request(&yes));
    assert!(!send_stop_request(&no));
    assert!(!send_stop_request(&obj(vec![("payload", obj(vec![]))])));
    assert!(daemon_stop(&Exchange::Reply(yes)));
    assert!(!daemon_stop(&Exchange::Unreachable));
    assert!(!daemon_stop(&Exchange::NoEndpoint));
}

#[test]
fn outcome_passes_ok_and_error_through() {
    let reply = obj(vec![("payload", obj(vec![("ok", Json::Bool(false)), ("error", s("bad bot"))]))]);
    assert_eq!(outcome_of(&Exchange::Reply(reply)), Outcome { ok: false, error: Some("bad bot".to_string()) });
    let reply = obj(vec![("payload", obj(vec![("ok", Json::Bool(true)), ("error", Json::Null)]))]);
    assert_eq!(outcome_of(&Exchange::Reply(reply)), Outcome { ok: true, error: None });
}

#[test]
fn outcome_failures_are_fixed_messages() {
    assert_eq!(
        outcome_of(&Exchange::NoEndpoint),
        Outcome { ok: false, error: Some("daemon not running".to_string()) }
    );
    assert_eq!(
        outcome_of(&Exchange::Unreachable),
        Outcome { ok: false, error: Some("no response from daemon".to_string()) }
    );
    let wrong = obj(vec![("payload", obj(vec![("ok", s("yes"))]))]);
    assert_eq!(
        outcome_of(&Exchange::Reply(wrong)),
        Outcome { ok: false, error: Some("no response from daemon".to_string()) }
    );
}

#[test]
fn read_verbs_return_payload_or_default() {
    let reply = obj(vec![("type", s("x")), ("payload", obj(vec![("a", Json::Int(1))]))]);
    assert_eq!(payload_or_null(Exchange::Reply(reply)), obj(vec![("a", Json::Int(1))]));
    assert_eq!(payload_or_null(Exchange::Unreachable), Json::Null);
    assert_eq!(payload_or_null(Exchange::Reply(obj(vec![]))), Json::Null);
    let empty = obj(vec![("interactive", Json::Array(vec![])), ("push", Json::Array(vec![]))]);
    assert_eq!(list_bots(Exchange::NoEndpoint), empty);
    let lists = obj(vec![("payload", obj(vec![("interactive", Json::Array(vec![s("b")]))]))]);
    assert_eq!(list_bots(Exchange::Reply(lists)), obj(vec![("interactive", Json::Array(vec![s("b")]))]));
}
