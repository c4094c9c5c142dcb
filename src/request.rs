use vstd::prelude::*;
use vstd::string::StringExecFns;

use crate::json::{as_text, field, keys, member, text, Json};
use crate::text::str_equal;

verus! {

/// The requests that carry no payload.
#[derive(Clone, Copy, Debug, PartialEq, Eq, Structural)]
pub enum Query {
    Status,
    Stop,
    ListBots,
    GetConfig,
    CheckCodexConfig,
    SetupCodexConfig,
    CheckClaudeConfig,
    SetupClaudeConfig,
}

pub open spec fn query_verb(q: Query) -> Seq<char> {
    match q {
        Query::Status => "status"@,
        Query::Stop => "stop"@,
        Query::ListBots => "list_bots"@,
        Query::GetConfig => "get_config"@,
        Query::CheckCodexConfig => "check_codex_config"@,
        Query::SetupCodexConfig => "setup_codex_config"@,
        Query::CheckClaudeConfig => "check_claude_config"@,
        Query::SetupClaudeConfig => "setup_claude_config"@,
    }
}

/// The `type` of a request for `verb`.
pub open spec fn request_type(verb: Seq<char>) -> Seq<char> {
    verb + "_request"@
}

/// `{ type: "<verb>_request" }`.
pub open spec fn is_plain_request(r: Json, verb: Seq<char>) -> bool {
    keys(r) == seq!["type"@] && as_text(field(r, "type"@)) == Some(request_type(verb))
}

/// `{ type: "<verb>_request", payload }`.
pub open spec fn is_request(r: Json, verb: Seq<char>, payload: Json) -> bool {
    &&& keys(r) == seq!["type"@, "payload"@]
    &&& as_text(field(r, "type"@)) == Some(request_type(verb))
    &&& field(r, "payload"@) == Some(payload)
}

/// A text member.
pub open spec fn text_member(j: Json, key: Seq<char>, value: Seq<char>) -> bool {
    as_text(field(j, key)) == Some(value)
}

/// In an object whose earlier members all have other names, a member is
/// found at its own place.
pub proof fn lemma_member_at(es: Seq<(String, Json)>, i: int)
    requires
        0 <= i < es.len(),
        forall|j: int| 0 <= j < i ==> (#[trigger] es[j]).0@ != es[i].0@,
    ensures
        member(es, es[i].0@) == Some(es[i].1),
    decreases i,
{
    if i > 0 {
        let rest = es.drop_first();
        assert(rest[i - 1] == es[i]);
        assert forall|j: int| 0 <= j < i - 1 implies (#[trigger] rest[j]).0@ != rest[i - 1].0@ by {
            assert(rest[j] == es[j + 1]);
        }
        lemma_member_at(rest, i - 1);
    }
}

fn named(name: &str, value: Json) -> (r: (String, Json))
    ensures
        r.0@ == name@,
        r.1 == value,
{
    (String::from_str(name), value)
}

fn verb_name(q: Query) -> (r: &'static str)
    ensures
        r@ == query_verb(q),
{
    match q {
        Query::Status => "status",
        Query::Stop => "stop",
        Query::ListBots => "list_bots",
        Query::GetConfig => "get_config",
        Query::CheckCodexConfig => "check_codex_config",
        Query::SetupCodexConfig => "setup_codex_config",
        Query::CheckClaudeConfig => "check_claude_config",
        Query::SetupClaudeConfig => "setup_claude_config",
    }
}

fn type_member(verb: &str) -> (r: (String, Json))
    ensures
        r.0@ == "type"@,
        as_text(Some(r.1)) == Some(request_type(verb@)),
{
    let t = String::from_str(verb).concat("_request");
    named("type", text(t.as_str()))
}

/// A request without payload.
pub fn query_request(q: Query) -> (r: Json)
    ensures
        is_plain_request(r, query_verb(q)),
{
    let mut es: Vec<(String, Json)> = Vec::new();
    es.push(type_member(verb_name(q)));
    proof {
        assert(es@.map_values(|e: (String, Json)| e.0@) =~= seq!["type"@]);
        lemma_member_at(es@, 0);
    }
    Json::Object(es)
}

/// A request with a payload.
pub fn request_with(verb: &str, payload: Json) -> (r: Json)
    ensures
        is_request(r, verb@, payload),
{
    let mut es: Vec<(String, Json)> = Vec::new();
    es.push(type_member(verb));
    es.push(named("payload", payload));
    proof {
        reveal_strlit("type");
        assert("type"@.len() == 4);
        reveal_strlit("payload");
        assert("payload"@.len() == 7);
        assert(es@.map_values(|e: (String, Json)| e.0@) =~= seq!["type"@, "payload"@]);
        lemma_member_at(es@, 0);
        lemma_member_at(es@, 1);
    }
    Json::Object(es)
}

/// `{ botType: "interactive", interactive: config }` for an interactive bot,
/// `{ botType: "push", push: config }` for any other kind.
pub open spec fn save_bot_payload(p: Json, bot_type: Seq<char>, config: Json) -> bool {
    let kind = if bot_type == "interactive"@ {
        "interactive"@
    } else {
        "push"@
    };
    &&& keys(p) == seq!["botType"@, kind]
    &&& text_member(p, "botType"@, kind)
    &&& field(p, kind) == Some(config)
}

/// Saves a bot's configuration.
pub fn save_bot_request(bot_type: &str, config: Json) -> (r: Json)
    ensures
        field(r, "payload"@) is Some,
        is_request(r, "save_bot"@, field(r, "payload"@)->0),
        save_bot_payload(field(r, "payload"@)->0, bot_type@, config),
{
    let kind = if str_equal(bot_type, "interactive") {
        "interactive"
    } else {
        "push"
    };
    let mut es: Vec<(String, Json)> = Vec::new();
    es.push(named("botType", text(kind)));
    es.push(named(kind, config));
    proof {
        reveal_strlit("botType");
        assert("botType"@.len() == 7);
        reveal_strlit("interactive");
        assert("interactive"@.len() == 11);
        reveal_strlit("push");
        assert("push"@.len() == 4);
        assert(es@.map_values(|e: (String, Json)| e.0@) =~= seq!["botType"@, kind@]);
        lemma_member_at(es@, 0);
        lemma_member_at(es@, 1);
    }
    request_with("save_bot", Json::Object(es))
}

/// `{ botType, botId }`.
pub open spec fn bot_ref_payload(p: Json, bot_type: Seq<char>, bot_id: Seq<char>) -> bool {
    &&& keys(p) == seq!["botType"@, "botId"@]
    &&& text_member(p, "botType"@, bot_type)
    &&& text_member(p, "botId"@, bot_id)
}

fn bot_ref(bot_type: &str, bot_id: &str) -> (r: Json)
    ensures
        bot_ref_payload(r, bot_type@, bot_id@),
{
    let mut es: Vec<(String, Json)> = Vec::new();
    es.push(named("botType", text(bot_type)));
    es.push(named("botId", text(bot_id)));
    proof {
        reveal_strlit("botType");
        assert("botType"@.len() == 7);
        reveal_strlit("botId");
        assert("botId"@.len() == 5);
        assert(es@.map_values(|e: (String, Json)| e.0@) =~= seq!["botType"@, "botId"@]);
        lemma_member_at(es@, 0);
        lemma_member_at(es@, 1);
    }
    Json::Object(es)
}

/// Deletes a bot.
pub fn delete_bot_request(bot_type: &str, bot_id: &str) -> (r: Json)
    ensures
        field(r, "payload"@) is Some,
        is_request(r, "delete_bot"@, field(r, "payload"@)->0),
        bot_ref_payload(field(r, "payload"@)->0, bot_type@, bot_id@),
{
    request_with("delete_bot", bot_ref(bot_type, bot_id))
}

/// Sends a test message through a bot.
pub fn test_bot_request(bot_type: &str, bot_id: &str) -> (r: Json)
    ensures
        field(r, "payload"@) is Some,
        is_request(r, "test_bot"@, field(r, "payload"@)->0),
        bot_ref_payload(field(r, "payload"@)->0, bot_type@, bot_id@),
{
    request_with("test_bot", bot_ref(bot_type, bot_id))
}

/// `{ sessionId, botType, botId }`.
pub open spec fn bind_payload(p: Json, session_id: Seq<char>, bot_type: Seq<char>, bot_id: Seq<char>) -> bool {
    &&& keys(p) == seq!["sessionId"@, "botType"@, "botId"@]
    &&& text_member(p, "sessionId"@, session_id)
    &&& text_member(p, "botType"@, bot_type)
    &&& text_member(p, "botId"@, bot_id)
}

/// Binds a bot to a session.
pub fn bind_bot_request(session_id: &str, bot_type: &str, bot_id: &str) -> (r: Json)
    ensures
        field(r, "payload"@) is Some,
        is_request(r, "bind_bot"@, field(r, "payload"@)->0),
        bind_payload(field(r, "payload"@)->0, session_id@, bot_type@, bot_id@),
{
    let mut es: Vec<(String, Json)> = Vec::new();
    es.push(named("sessionId", text(session_id)));
    es.push(named("botType", text(bot_type)));
    es.push(named("botId", text(bot_id)));
    proof {
        reveal_strlit("sessionId");
        assert("sessionId"@.len() == 9);
        reveal_strlit("botType");
        assert("botType"@.len() == 7);
        reveal_strlit("botId");
        assert("botId"@.len() == 5);
        assert(es@.map_values(|e: (String, Json)| e.0@) =~= seq!["sessionId"@, "botType"@, "botId"@]);
        lemma_member_at(es@, 0);
        lemma_member_at(es@, 1);
        lemma_member_at(es@, 2);
    }
    request_with("bind_bot", Json::Object(es))
}

/// `{ sessionId, botType }`.
pub open spec fn unbind_payload(p: Json, session_id: Seq<char>, bot_type: Seq<char>) -> bool {
    &&& keys(p) == seq!["sessionId"@, "botType"@]
    &&& text_member(p, "sessionId"@, session_id)
    &&& text_member(p, "botType"@, bot_type)
}

/// Unbinds a session's bot of one kind.
pub fn unbind_bot_request(session_id: &str, bot_type: &str) -> (r: Json)
    ensures
        field(r, "payload"@) is Some,
        is_request(r, "unbind_bot"@, field(r, "payload"@)->0),
        unbind_payload(field(r, "payload"@)->0, session_id@, bot_type@),
{
    let mut es: Vec<(String, Json)> = Vec::new();
    es.push(named("sessionId", text(session_id)));
    es.push(named("botType", text(bot_type)));
    proof {
        reveal_strlit("sessionId");
        assert("sessionId"@.len() == 9);
        reveal_strlit("botType");
        assert("botType"@.len() == 7);
        assert(es@.map_values(|e: (String, Json)| e.0@) =~= seq!["sessionId"@, "botType"@]);
        lemma_member_at(es@, 0);
        lemma_member_at(es@, 1);
    }
    request_with("unbind_bot", Json::Object(es))
}

/// `{ botId }`.
pub open spec fn activate_payload(p: Json, bot_id: Seq<char>) -> bool {
    keys(p) == seq!["botId"@] && text_member(p, "botId"@, bot_id)
}

/// Makes a bot the active one.
pub fn activate_bot_request(bot_id: &str) -> (r: Json)
    ensures
        field(r, "payload"@) is Some,
        is_request(r, "activate_bot"@, field(r, "payload"@)->0),
        activate_payload(field(r, "payload"@)->0, bot_id@),
{
    let mut es: Vec<(String, Json)> = Vec::new();
    es.push(named("botId", text(bot_id)));
    proof {
        assert(es@.map_values(|e: (String, Json)| e.0@) =~= seq!["botId"@]);
        lemma_member_at(es@, 0);
    }
    request_with("activate_bot", Json::Object(es))
}

/// Replaces the daemon's configuration with `config`.
pub fn save_config_request(config: Json) -> (r: Json)
    ensures
        is_request(r, "save_config"@, config),
{
    request_with("save_config", config)
}

} // verus!
