use vstd::prelude::*;

use vstd::string::StringExecFns;

use crate::json::{as_i64, as_text, field, i64_field, text_field, Json};

verus! {

/// The two kinds of local channel the daemon can listen on.
#[derive(Clone, Copy, Debug, PartialEq, Eq, Structural)]
pub enum Platform {
    /// A stream socket at a filesystem path.
    Unix,
    /// A named pipe.
    Windows,
}

/// The record the daemon publishes in its lock file.
#[derive(Debug, PartialEq)]
pub struct LockFileRecord {
    pub pid: i64,
    pub ipc: String,
}

pub open spec fn separator(p: Platform) -> Seq<char> {
    match p {
        Platform::Unix => "/"@,
        Platform::Windows => "\\"@,
    }
}

/// `<home>/.felay/daemon.json`, with the platform's separator.
pub open spec fn lock_file_path_spec(p: Platform, home: Seq<char>) -> Seq<char> {
    home + separator(p) + ".felay"@ + separator(p) + "daemon.json"@
}

/// The endpoint the daemon uses when it has published none.
pub open spec fn default_endpoint_spec(p: Platform, home: Option<Seq<char>>) -> Option<Seq<char>> {
    match p {
        Platform::Windows => Some("\\\\.\\pipe\\felay"@),
        Platform::Unix => match home {
            Some(h) => Some(h + "/.felay/daemon.sock"@),
            None => None,
        },
    }
}

/// A lock document is usable when it has an `i64` member `pid` and a text
/// member `ipc`; other members are ignored.
pub open spec fn lock_record_spec(doc: Json) -> Option<(i64, Seq<char>)> {
    match (as_i64(field(doc, "pid"@)), as_text(field(doc, "ipc"@))) {
        (Some(pid), Some(ipc)) => Some((pid, ipc)),
        _ => None,
    }
}

/// Where the daemon is reached: a usable lock document wins, anything else
/// falls through to the platform default.
pub open spec fn resolve_spec(lock: Option<Json>, p: Platform, home: Option<Seq<char>>) -> Option<Seq<char>> {
    match lock {
        Some(doc) => match lock_record_spec(doc) {
            Some(rec) => Some(rec.1),
            None => default_endpoint_spec(p, home),
        },
        None => default_endpoint_spec(p, home),
    }
}

pub open spec fn opt_view(s: Option<String>) -> Option<Seq<char>> {
    match s {
        Some(t) => Some(t@),
        None => None,
    }
}

/// The home directory: the first of the two conventional variables that is set.
pub fn get_home_dir(userprofile: Option<String>, home: Option<String>) -> (r: Option<String>)
    ensures
        r == if userprofile is Some {
            userprofile
        } else {
            home
        },
{
    match userprofile {
        Some(u) => Some(u),
        None => home,
    }
}

/// The path of the daemon's lock file, when the home directory is known.
pub fn get_lock_file_path(platform: Platform, home: Option<&str>) -> (r: Option<String>)
    ensures
        r is Some <==> home is Some,
        r is Some ==> r->0@ == lock_file_path_spec(platform, home->0@),
{
    match home {
        Some(h) => {
            let sep = match platform {
                Platform::Unix => "/",
                Platform::Windows => "\\",
            };
            let path = String::from_str(h).concat(sep).concat(".felay").concat(sep).concat("daemon.json");
            Some(path)
        },
        None => None,
    }
}

/// The platform's conventional endpoint.
pub fn default_ipc_path(platform: Platform, home: Option<&str>) -> (r: Option<String>)
    ensures
        opt_view(r) == default_endpoint_spec(platform, match home {
            Some(h) => Some(h@),
            None => None,
        }),
{
    match platform {
        Platform::Windows => Some(String::from_str("\\\\.\\pipe\\felay")),
        Platform::Unix => match home {
            Some(h) => Some(String::from_str(h).concat("/.felay/daemon.sock")),
            None => None,
        },
    }
}

/// Reads the lock record out of a parsed lock document.
pub fn parse_lock_record(doc: &Json) -> (r: Option<LockFileRecord>)
    ensures
        r is Some <==> lock_record_spec(*doc) is Some,
        r is Some ==> lock_record_spec(*doc) == Some((r->0.pid, r->0.ipc@)),
{
    let pid = i64_field(doc, "pid");
    let ipc = text_field(doc, "ipc");
    match (pid, ipc) {
        (Some(pid), Some(ipc)) => Some(LockFileRecord { pid, ipc }),
        _ => None,
    }
}

/// Resolves the daemon's endpoint from the lock document (if one was read
/// and parsed) and the home directory.
pub fn get_ipc_path(lock: Option<&Json>, platform: Platform, home: Option<&str>) -> (r: Option<String>)
    ensures
        opt_view(r) == resolve_spec(
            match lock {
                Some(d) => Some(*d),
                None => None,
            },
            platform,
            match home {
                Some(h) => Some(h@),
                None => None,
            },
        ),
{
    match lock {
        Some(doc) => match parse_lock_record(doc) {
            Some(rec) => Some(rec.ipc),
            None => default_ipc_path(platform, home),
        },
        None => default_ipc_path(platform, home),
    }
}

/// Endpoint resolution is a function of the lock document, the platform
/// and the home directory alone. A lock document with an `i64` `pid` and a
/// text `ipc` resolves to that `ipc`; a document without such a record
/// (malformed) resolves, like no document at all, to the platform default.
pub proof fn lemma_lock_file_precedence(doc: Json, p: Platform, home: Option<Seq<char>>)
    ensures
        as_i64(field(doc, "pid"@)) is Some && as_text(field(doc, "ipc"@)) is Some ==> resolve_spec(
            Some(doc),
            p,
            home,
        ) == as_text(field(doc, "ipc"@)),
        !(as_i64(field(doc, "pid"@)) is Some && as_text(field(doc, "ipc"@)) is Some) ==> resolve_spec(
            Some(doc),
            p,
            home,
        ) == default_endpoint_spec(p, home),
        resolve_spec(None, p, home) == default_endpoint_spec(p, home),
{
}

} // verus!
