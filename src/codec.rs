use vstd::prelude::*;
use vstd::string::StringExecFns;

use crate::json::{
    member, as_bool, as_i64, as_text, bool_field, field, i64_field, keys, opt_bool, opt_bool_field,
    opt_string_view, opt_text, opt_text_field, take_field, text_field, Json,
};

verus! {

/// Bound on one channel exchange, in seconds.
pub const IPC_TIMEOUT_SECS: u64 = 10;

/// What one use of the channel gave.
#[derive(Debug)]
pub enum Exchange {
    /// No endpoint could be resolved, so nothing was sent.
    NoEndpoint,
    /// Connect, write, read, timeout or parse failure: all the same here.
    Unreachable,
    /// The daemon answered with this document.
    Reply(Json),
}

/// One CLI session tracked by the daemon.
#[derive(Debug, PartialEq)]
pub struct Session {
    pub session_id: String,
    pub cli: String,
    pub cwd: String,
    pub status: String,
    pub started_at: String,
    pub interactive_bot_id: Option<String>,
    pub interactive_bot_connected: Option<bool>,
    pub push_bot_id: Option<String>,
    pub push_enabled: Option<bool>,
}

/// A warning the daemon raises about one bot.
#[derive(Debug, PartialEq)]
pub struct BotWarning {
    pub bot_id: String,
    pub message: String,
}

/// The payload of a status reply.
#[derive(Debug, PartialEq)]
pub struct DaemonStatusPayload {
    pub daemon_pid: i64,
    pub active_sessions: i64,
    pub sessions: Vec<Session>,
    pub warnings: Option<Vec<BotWarning>>,
}

/// The daemon's state as the front end shows it.
#[derive(Debug, PartialEq)]
pub struct GuiStatus {
    pub running: bool,
    pub daemon_pid: Option<i64>,
    pub active_sessions: i64,
    pub sessions: Vec<Session>,
    pub warnings: Vec<BotWarning>,
}

/// The generic outcome of a mutating request.
#[derive(Debug, PartialEq)]
pub struct Outcome {
    pub ok: bool,
    pub error: Option<String>,
}

// ---- what a reply must hold ----

pub open spec fn session_fits(j: Json) -> bool {
    &&& as_text(field(j, "sessionId"@)) is Some
    &&& as_text(field(j, "cli"@)) is Some
    &&& as_text(field(j, "cwd"@)) is Some
    &&& as_text(field(j, "status"@)) is Some
    &&& as_text(field(j, "startedAt"@)) is Some
    &&& opt_text(field(j, "interactiveBotId"@)) is Some
    &&& opt_bool(field(j, "interactiveBotConnected"@)) is Some
    &&& opt_text(field(j, "pushBotId"@)) is Some
    &&& opt_bool(field(j, "pushEnabled"@)) is Some
}

/// `s` is what the session document `j` says.
pub open spec fn session_of(j: Json, s: Session) -> bool {
    &&& as_text(field(j, "sessionId"@)) == Some(s.session_id@)
    &&& as_text(field(j, "cli"@)) == Some(s.cli@)
    &&& as_text(field(j, "cwd"@)) == Some(s.cwd@)
    &&& as_text(field(j, "status"@)) == Some(s.status@)
    &&& as_text(field(j, "startedAt"@)) == Some(s.started_at@)
    &&& opt_text(field(j, "interactiveBotId"@)) == Some(opt_string_view(s.interactive_bot_id))
    &&& opt_bool(field(j, "interactiveBotConnected"@)) == Some(s.interactive_bot_connected)
    &&& opt_text(field(j, "pushBotId"@)) == Some(opt_string_view(s.push_bot_id))
    &&& opt_bool(field(j, "pushEnabled"@)) == Some(s.push_enabled)
}

pub open spec fn warning_fits(j: Json) -> bool {
    as_text(field(j, "botId"@)) is Some && as_text(field(j, "message"@)) is Some
}

pub open spec fn warning_of(j: Json, w: BotWarning) -> bool {
    as_text(field(j, "botId"@)) == Some(w.bot_id@) && as_text(field(j, "message"@)) == Some(w.message@)
}

pub open spec fn sessions_fit(j: Option<Json>) -> bool {
    match j {
        Some(Json::Array(xs)) => forall|i: int| 0 <= i < xs@.len() ==> session_fits(#[trigger] xs@[i]),
        _ => false,
    }
}

pub open spec fn sessions_of(j: Option<Json>, v: Seq<Session>) -> bool {
    match j {
        Some(Json::Array(xs)) => xs@.len() == v.len() && forall|i: int|
            0 <= i < xs@.len() ==> session_of(#[trigger] xs@[i], v[i]),
        _ => false,
    }
}

/// Warnings are optional: a missing member or `null` is no list.
pub open spec fn warnings_fit(j: Option<Json>) -> bool {
    match j {
        None => true,
        Some(Json::Null) => true,
        Some(Json::Array(xs)) => forall|i: int| 0 <= i < xs@.len() ==> warning_fits(#[trigger] xs@[i]),
        _ => false,
    }
}

pub open spec fn warnings_of(j: Option<Json>, v: Option<Vec<BotWarning>>) -> bool {
    match j {
        Some(Json::Array(xs)) => match v {
            Some(ws) => xs@.len() == ws@.len() && forall|i: int|
                0 <= i < xs@.len() ==> warning_of(#[trigger] xs@[i], ws@[i]),
            None => false,
        },
        _ => v is None,
    }
}

pub open spec fn status_payload_fits(p: Json) -> bool {
    &&& as_i64(field(p, "daemonPid"@)) is Some
    &&& as_i64(field(p, "activeSessions"@)) is Some
    &&& sessions_fit(field(p, "sessions"@))
    &&& warnings_fit(field(p, "warnings"@))
}

pub open spec fn status_payload_of(p: Json, s: DaemonStatusPayload) -> bool {
    &&& as_i64(field(p, "daemonPid"@)) == Some(s.daemon_pid)
    &&& as_i64(field(p, "activeSessions"@)) == Some(s.active_sessions)
    &&& sessions_of(field(p, "sessions"@), s.sessions@)
    &&& warnings_of(field(p, "warnings"@), s.warnings)
}

/// A status reply: `{ payload: { daemonPid, activeSessions, sessions, warnings? } }`.
pub open spec fn status_reply_fits(reply: Json) -> bool {
    match field(reply, "payload"@) {
        Some(p) => status_payload_fits(p),
        None => false,
    }
}

pub open spec fn status_reply_of(reply: Json, s: DaemonStatusPayload) -> bool {
    match field(reply, "payload"@) {
        Some(p) => status_payload_of(p, s),
        None => false,
    }
}

// ---- decoding ----

/// Reads one session document.
pub fn decode_session(j: &Json) -> (r: Option<Session>)
    ensures
        r is Some <==> session_fits(*j),
        r is Some ==> session_of(*j, r->0),
{
    let session_id = text_field(j, "sessionId");
    let cli = text_field(j, "cli");
    let cwd = text_field(j, "cwd");
    let status = text_field(j, "status");
    let started_at = text_field(j, "startedAt");
    let interactive_bot_id = opt_text_field(j, "interactiveBotId");
    let interactive_bot_connected = opt_bool_field(j, "interactiveBotConnected");
    let push_bot_id = opt_text_field(j, "pushBotId");
    let push_enabled = opt_bool_field(j, "pushEnabled");
    match (session_id, cli, cwd, status, started_at) {
        (Some(session_id), Some(cli), Some(cwd), Some(status), Some(started_at)) => {
            match (interactive_bot_id, interactive_bot_connected, push_bot_id, push_enabled) {
                (Some(interactive_bot_id), Some(interactive_bot_connected), Some(push_bot_id), Some(push_enabled)) => {
                    Some(Session {
                        session_id,
                        cli,
                        cwd,
                        status,
                        started_at,
                        interactive_bot_id,
                        interactive_bot_connected,
                        push_bot_id,
                        push_enabled,
                    })
                },
                _ => None,
            }
        },
        _ => None,
    }
}

/// Reads one warning document.
pub fn decode_warning(j: &Json) -> (r: Option<BotWarning>)
    ensures
        r is Some <==> warning_fits(*j),
        r is Some ==> warning_of(*j, r->0),
{
    match (text_field(j, "botId"), text_field(j, "message")) {
        (Some(bot_id), Some(message)) => Some(BotWarning { bot_id, message }),
        _ => None,
    }
}

/// Reads the session list; one unreadable session fails the whole list.
pub fn decode_sessions(j: Option<&Json>) -> (r: Option<Vec<Session>>)
    ensures
        r is Some <==> sessions_fit(match j { Some(x) => Some(*x), None => None }),
        r is Some ==> sessions_of(match j { Some(x) => Some(*x), None => None }, r->0@),
{
    match j {
        Some(Json::Array(xs)) => {
            let ghost jj = match j {
                Some(x) => Some(*x),
                None => None,
            };
            let mut out: Vec<Session> = Vec::new();
            let mut i: usize = 0;
            while i < xs.len()
                invariant
                    i <= xs@.len(),
                    out@.len() == i,
                    jj == Some(Json::Array(*xs)),
                    jj == match j {
                        Some(x) => Some(*x),
                        None => None,
                    },
                    forall|k: int| 0 <= k < i ==> session_fits(#[trigger] xs@[k]),
                    forall|k: int| 0 <= k < i ==> session_of(#[trigger] xs@[k], out@[k]),
                decreases xs@.len() - i,
            {
                match decode_session(&xs[i]) {
                    Some(s) => out.push(s),
                    None => {
                        assert(!session_fits(xs@[i as int]));
                        assert(jj->0->Array_0@ == xs@);
                        assert(!sessions_fit(jj));
                        return None;
                    },
                }
                i = i + 1;
            }
            Some(out)
        },
        _ => None,
    }
}

/// Reads the optional warning list; one unreadable warning fails it.
pub fn decode_warnings(j: Option<&Json>) -> (r: Option<Option<Vec<BotWarning>>>)
    ensures
        r is Some <==> warnings_fit(match j { Some(x) => Some(*x), None => None }),
        r is Some ==> warnings_of(match j { Some(x) => Some(*x), None => None }, r->0),
{
    match j {
        None => Some(None),
        Some(Json::Null) => Some(None),
        Some(Json::Array(xs)) => {
            let ghost jj = match j {
                Some(x) => Some(*x),
                None => None,
            };
            let mut out: Vec<BotWarning> = Vec::new();
            let mut i: usize = 0;
            while i < xs.len()
                invariant
                    i <= xs@.len(),
                    out@.len() == i,
                    jj == Some(Json::Array(*xs)),
                    jj == match j {
                        Some(x) => Some(*x),
                        None => None,
                    },
                    forall|k: int| 0 <= k < i ==> warning_fits(#[trigger] xs@[k]),
                    forall|k: int| 0 <= k < i ==> warning_of(#[trigger] xs@[k], out@[k]),
                decreases xs@.len() - i,
            {
                match decode_warning(&xs[i]) {
                    Some(w) => out.push(w),
                    None => {
                        assert(!warning_fits(xs@[i as int]));
                        assert(jj->0->Array_0@ == xs@);
                        assert(!warnings_fit(jj));
                        return None;
                    },
                }
                i = i + 1;
            }
            Some(Some(out))
        },
        _ => None,
    }
}

/// Reads a status reply.
pub fn request_daemon_status(reply: &Json) -> (r: Option<DaemonStatusPayload>)
    ensures
        r is Some <==> status_reply_fits(*reply),
        r is Some ==> status_reply_of(*reply, r->0),
{
    let p = match reply.get("payload") {
        Some(p) => p,
        None => return None,
    };
    let daemon_pid = i64_field(p, "daemonPid");
    let active_sessions = i64_field(p, "activeSessions");
    let sessions = decode_sessions(p.get("sessions"));
    let warnings = decode_warnings(p.get("warnings"));
    match (daemon_pid, active_sessions, sessions, warnings) {
        (Some(daemon_pid), Some(active_sessions), Some(sessions), Some(warnings)) => {
            Some(DaemonStatusPayload { daemon_pid, active_sessions, sessions, warnings })
        },
        _ => None,
    }
}

/// Warnings as the front end shows them: the list if there is one, else none.
pub open spec fn shown_warnings_of(j: Option<Json>, ws: Seq<BotWarning>) -> bool {
    match j {
        Some(Json::Array(xs)) => xs@.len() == ws.len() && forall|i: int|
            0 <= i < xs@.len() ==> warning_of(#[trigger] xs@[i], ws[i]),
        _ => ws.len() == 0,
    }
}

/// The reply of an exchange, if the daemon answered.
pub open spec fn reply_of(ex: Exchange) -> Option<Json> {
    match ex {
        Exchange::Reply(j) => Some(j),
        _ => None,
    }
}

/// The daemon counts as running when it answered a status request with a
/// readable status.
pub open spec fn running_spec(ex: Exchange) -> bool {
    match reply_of(ex) {
        Some(j) => status_reply_fits(j),
        None => false,
    }
}

/// Whether the daemon answered a status request.
pub fn is_daemon_running(ex: &Exchange) -> (r: bool)
    ensures
        r == running_spec(*ex),
{
    match ex {
        Exchange::Reply(j) => request_daemon_status(j).is_some(),
        _ => false,
    }
}

/// The front end's view of the daemon after one status exchange: not
/// running, with nothing to show, unless the reply reads as a status.
pub fn read_daemon_status(ex: &Exchange) -> (r: GuiStatus)
    ensures
        r.running == running_spec(*ex),
        !r.running ==> r.daemon_pid is None && r.active_sessions == 0 && r.sessions@.len() == 0
            && r.warnings@.len() == 0,
        r.running ==> ({
            let p = field(reply_of(*ex)->0, "payload"@)->0;
            &&& r.daemon_pid == as_i64(field(p, "daemonPid"@))
            &&& Some(r.active_sessions) == as_i64(field(p, "activeSessions"@))
            &&& sessions_of(field(p, "sessions"@), r.sessions@)
            &&& shown_warnings_of(field(p, "warnings"@), r.warnings@)
        }),
{
    let status = match ex {
        Exchange::Reply(j) => request_daemon_status(j),
        _ => None,
    };
    match status {
        Some(st) => {
            let warnings = match st.warnings {
                Some(ws) => ws,
                None => Vec::new(),
            };
            GuiStatus {
                running: true,
                daemon_pid: Some(st.daemon_pid),
                active_sessions: st.active_sessions,
                sessions: st.sessions,
                warnings,
            }
        },
        None => GuiStatus {
            running: false,
            daemon_pid: None,
            active_sessions: 0,
            sessions: Vec::new(),
            warnings: Vec::new(),
        },
    }
}

/// The `ok` flag of a stop reply `{ payload: { ok } }`.
pub open spec fn stop_ok_spec(reply: Json) -> bool {
    match field(reply, "payload"@) {
        Some(p) => as_bool(field(p, "ok"@)) == Some(true),
        None => false,
    }
}

/// Whether a stop reply reports success.
pub fn send_stop_request(reply: &Json) -> (r: bool)
    ensures
        r == stop_ok_spec(*reply),
{
    match reply.get("payload") {
        Some(p) => match bool_field(p, "ok") {
            Some(b) => b,
            None => false,
        },
        None => false,
    }
}

/// Whether a stop exchange succeeded; sent once, never retried.
pub fn daemon_stop(ex: &Exchange) -> (r: bool)
    ensures
        r == match reply_of(*ex) {
            Some(j) => stop_ok_spec(j),
            None => false,
        },
{
    match ex {
        Exchange::Reply(j) => send_stop_request(j),
        _ => false,
    }
}

/// A generic outcome reply: `{ payload: { ok, error? } }`.
pub open spec fn outcome_fits(reply: Json) -> bool {
    match field(reply, "payload"@) {
        Some(p) => as_bool(field(p, "ok"@)) is Some && opt_text(field(p, "error"@)) is Some,
        None => false,
    }
}

/// The outcome of a mutating request, as `(ok, error)`.
pub open spec fn outcome_spec(ex: Exchange) -> (bool, Option<Seq<char>>) {
    match ex {
        Exchange::NoEndpoint => (false, Some("daemon not running"@)),
        Exchange::Reply(j) => if outcome_fits(j) {
            let p = field(j, "payload"@)->0;
            (as_bool(field(p, "ok"@))->0, opt_text(field(p, "error"@))->0)
        } else {
            (false, Some("no response from daemon"@))
        },
        Exchange::Unreachable => (false, Some("no response from daemon"@)),
    }
}

/// The outcome of a mutating request: the daemon's own `ok` and `error`
/// when it answered in shape, a fixed failure otherwise.
pub fn outcome_of(ex: &Exchange) -> (r: Outcome)
    ensures
        (r.ok, opt_string_view(r.error)) == outcome_spec(*ex),
{
    match ex {
        Exchange::NoEndpoint => Outcome { ok: false, error: Some(String::from_str("daemon not running")) },
        Exchange::Reply(j) => {
            let decoded = match j.get("payload") {
                Some(p) => match (bool_field(p, "ok"), opt_text_field(p, "error")) {
                    (Some(ok), Some(error)) => Some(Outcome { ok, error }),
                    _ => None,
                },
                None => None,
            };
            match decoded {
                Some(o) => o,
                None => Outcome { ok: false, error: Some(String::from_str("no response from daemon")) },
            }
        },
        Exchange::Unreachable => Outcome {
            ok: false,
            error: Some(String::from_str("no response from daemon")),
        },
    }
}

/// The payload of a read reply, if the daemon answered with one.
pub open spec fn payload_spec(ex: Exchange) -> Option<Json> {
    match reply_of(ex) {
        Some(j) => field(j, "payload"@),
        None => None,
    }
}

/// The payload of a read reply (configuration, configuration checks), or
/// `null` when there is none.
pub fn payload_or_null(ex: Exchange) -> (r: Json)
    ensures
        r == match payload_spec(ex) {
            Some(p) => p,
            None => Json::Null,
        },
{
    let got = match ex {
        Exchange::Reply(j) => take_field(j, "payload"),
        _ => None,
    };
    match got {
        Some(p) => p,
        None => Json::Null,
    }
}

pub open spec fn is_empty_array(j: Option<Json>) -> bool {
    match j {
        Some(Json::Array(xs)) => xs@.len() == 0,
        _ => false,
    }
}

/// The bot lists of a reply, or `{ interactive: [], push: [] }` when there
/// are none.
pub fn list_bots(ex: Exchange) -> (r: Json)
    ensures
        payload_spec(ex) is Some ==> r == payload_spec(ex)->0,
        payload_spec(ex) is None ==> keys(r) == seq!["interactive"@, "push"@] && is_empty_array(
            field(r, "interactive"@),
        ) && is_empty_array(field(r, "push"@)),
{
    let got = match ex {
        Exchange::Reply(j) => take_field(j, "payload"),
        _ => None,
    };
    assert(got == payload_spec(ex));
    match got {
        Some(p) => p,
        None => {
            let mut es: Vec<(String, Json)> = Vec::new();
            es.push((String::from_str("interactive"), Json::Array(Vec::new())));
            es.push((String::from_str("push"), Json::Array(Vec::new())));
            proof {
                reveal_strlit("interactive");
                reveal_strlit("push");
                assert(es@.map_values(|e: (String, Json)| e.0@) =~= seq!["interactive"@, "push"@]);
                assert(es@.drop_first()[0] == es@[1]);
                assert("interactive"@.len() != "push"@.len());
                assert(member(es@.drop_first(), "push"@) == Some(es@[1].1));
                assert(member(es@, "push"@) == Some(es@[1].1));
            }
            Json::Object(es)
        },
    }
}

} // verus!
