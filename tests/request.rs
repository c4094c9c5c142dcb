use felay_gui::json::Json;
use felay_gui::request::{
    activate_bot_request, bind_bot_request, delete_bot_request, query_request, save_bot_request,
    save_config_request, test_bot_request, unbind_bot_request, Query,
};

fn s(v: &str) -> Json {
    Json::Str(v.to_string())
}

fn obj(members: Vec<(&str, Json)>) -> Json {
    Json::Object(members.into_iter().map(|(k, v)| (k.to_string(), v)).collect())
}

fn req(t: &str, payload: Json) -> Json {
    obj(vec![("type", s(t)), ("payload", payload)])
}

#[test]
fn plain_requests_carry_only_their_type() {
    assert_eq!(query_request(Query::Status), obj(vec![("type", s("status_request"))]));
    assert_eq!(query_request(Query::Stop), obj(vec![("type", s("stop_request"))]));
    assert_eq!(query_request(Query::ListBots), obj(vec![("type", s("list_bots_request"))]));
    assert_eq!(query_request(Query::GetConfig), obj(vec![("type", s("get_config_request"))]));
    assert_eq!(query_request(Query::CheckCodexConfig), obj(vec![("type", s("check_codex_config_request"))]));
    assert_eq!(query_request(Query::SetupCodexConfig), obj(vec![("type", s("setup_codex_config_request"))]));
    assert_eq!(query_request(Query::CheckClaudeConfig), obj(vec![("type", s("check_claude_config_request"))]));
    assert_eq!(query_request(Query::SetupClaudeConfig), obj(vec![("type", s("setup_claude_config_request"))]));
}

#[test]
fn save_bot_places_config_under_its_kind() {
    assert_eq!(
        save_bot_request("interactive", Json::Int(1)),
        req("save_bot_request", obj(vec![("botType", s("interactive")), ("interactive", Json::Int(1))]))
    );
    assert_eq!(
        save_bot_request("push", Json::Int(2)),
        req("save_bot_request", obj(vec![("botType", s("push")), ("push", Json::Int(2))]))
    );
    assert_eq!(
        save_bot_request("other", Json::Null),
        req("save_bot_request", obj(vec![("botType", s("push")), ("push", Json::Null)]))
    );
}

#[test]
fn bot_requests_name_their_targets() {
    assert_eq!(
        delete_bot_request("push", "b1"),
        req("delete_bot_request", obj(vec![("botType", s("push")), ("botId", s("b1"))]))
    );
    assert_eq!(
        test_bot_request("interactive", "b2"),
        req("test_bot_request", obj(vec![("botType", s("interactive")), ("botId", s("b2"))]))
    );
    assert_eq!(
        bind_bot_request("s1", "push", "b3"),
        req("bind_bot_request", obj(vec![("sessionId", s("s1")), ("botType", s("push")), ("botId", s("b3"))]))
    );
    assert_eq!(
        unbind_bot_request("s1", "interactive"),
        req("unbind_bot_request", obj(vec![("sessionId", s("s1")), ("botType", s("interactive"))]))
    );
    assert_eq!(activate_bot_request("b4"), req("activate_bot_request", obj(vec![("botId", s("b4"))])));
    assert_eq!(save_config_request(obj(vec![])), req("save_config_request", obj(vec![])));
}
