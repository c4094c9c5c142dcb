use vstd::prelude::*;
use vstd::string::{StrSliceExecFns, StringExecFns};

use crate::json::{as_text, field, text_field, Json};
use crate::text::chars_of;
use crate::version::{version_gt, version_gt_spec};

verus! {

/// Bound on the update request, in seconds.
pub const UPDATE_TIMEOUT_SECS: u64 = 15;

/// What the update check reports.
#[derive(Debug, PartialEq)]
pub struct UpdateInfo {
    pub not_modified: bool,
    pub etag: String,
    pub has_update: bool,
    pub current_version: String,
    pub latest_version: String,
    pub release_url: String,
    pub release_notes: String,
}

/// Why an update check failed after the server answered.
#[derive(Clone, Copy, Debug, PartialEq, Eq, Structural)]
pub enum UpdateError {
    /// A status that is neither success nor "not modified".
    HttpStatus(u16),
}

/// `s` without its leading `v`s.
pub open spec fn strip_v(s: Seq<char>) -> Seq<char>
    decreases s.len(),
{
    if s.len() > 0 && s[0] == 'v' {
        strip_v(s.drop_first())
    } else {
        s
    }
}

/// `s` up to its first `-`.
pub open spec fn before_dash(s: Seq<char>) -> Seq<char>
    decreases s.len(),
{
    if s.len() == 0 {
        s
    } else if s[0] == '-' {
        Seq::empty()
    } else {
        seq![s[0]] + before_dash(s.drop_first())
    }
}

/// The numeric part of a release tag: `v1.3.0-beta` gives `1.3.0`.
pub open spec fn normalize_tag_spec(tag: Seq<char>) -> Seq<char> {
    before_dash(strip_v(tag))
}

/// The numeric part of a release tag.
pub fn normalize_tag(tag: &str) -> (r: &str)
    ensures
        r@ == normalize_tag_spec(tag@),
{
    let cs = chars_of(tag);
    let n = cs.len();
    let mut i: usize = 0;
    assert(tag@.subrange(0, n as int) =~= tag@);
    while i < n && cs[i] == 'v'
        invariant
            i <= n,
            n == tag@.len(),
            cs@ == tag@,
            strip_v(tag@) == strip_v(tag@.subrange(i as int, n as int)),
        decreases n - i,
    {
        let ghost rest = tag@.subrange(i as int, n as int);
        assert(rest.drop_first() =~= tag@.subrange(i + 1, n as int));
        i = i + 1;
    }
    let ghost stripped = tag@.subrange(i as int, n as int);
    assert(strip_v(stripped) == stripped);
    let mut j: usize = i;
    assert(tag@.subrange(i as int, j as int) =~= Seq::<char>::empty());
    while j < n && cs[j] != '-'
        invariant
            i <= j <= n,
            n == tag@.len(),
            cs@ == tag@,
            before_dash(stripped) == tag@.subrange(i as int, j as int) + before_dash(
                tag@.subrange(j as int, n as int),
            ),
        decreases n - j,
    {
        let ghost rest = tag@.subrange(j as int, n as int);
        assert(rest.drop_first() =~= tag@.subrange(j + 1, n as int));
        assert(tag@.subrange(i as int, j + 1) =~= tag@.subrange(i as int, j as int) + seq![rest[0]]);
        j = j + 1;
    }
    assert(before_dash(tag@.subrange(j as int, n as int)) =~= Seq::<char>::empty());
    assert(tag@.subrange(i as int, j as int) + Seq::<char>::empty() =~= tag@.subrange(i as int, j as int));
    tag.substring_char(i, j)
}

/// The conditional-request header value: the cached tag when there is a
/// non-empty one.
pub fn if_none_match(cached_etag: &Option<String>) -> (r: Option<String>)
    ensures
        match cached_etag {
            Some(e) => if e@.len() > 0 {
                r == Some(*e)
            } else {
                r is None
            },
            None => r is None,
        },
{
    match cached_etag {
        Some(e) => {
            if e.as_str().unicode_len() > 0 {
                Some(e.clone())
            } else {
                None
            }
        },
        None => None,
    }
}

pub open spec fn opt_field(j: Option<Json>, key: Seq<char>) -> Option<Json> {
    match j {
        Some(d) => field(d, key),
        None => None,
    }
}

/// Text of a release member, or `default` when it is missing or not text.
pub open spec fn text_or(j: Option<Json>, key: Seq<char>, default: Seq<char>) -> Seq<char> {
    match as_text(opt_field(j, key)) {
        Some(t) => t,
        None => default,
    }
}

pub open spec fn text_or_empty(s: Option<String>) -> Seq<char> {
    match s {
        Some(t) => t@,
        None => Seq::empty(),
    }
}

pub open spec fn is_success(status: u16) -> bool {
    200 <= status <= 299
}

fn text_or_default(j: Option<&Json>, key: &str, default: &str) -> (r: String)
    ensures
        r@ == text_or(
            match j {
                Some(d) => Some(*d),
                None => None,
            },
            key@,
            default@,
        ),
{
    let got = match j {
        Some(d) => text_field(d, key),
        None => None,
    };
    match got {
        Some(t) => t,
        None => String::from_str(default),
    }
}

/// Decides the update check from the server's answer: its status, its
/// `ETag` header and, on success, the release document (`None` reads as an
/// empty document).
pub fn check_update(
    current: &str,
    cached_etag: Option<String>,
    status: u16,
    etag_header: Option<String>,
    release: Option<&Json>,
) -> (r: Result<UpdateInfo, UpdateError>)
    ensures
        status == 304 ==> r is Ok && ({
            let info = r->Ok_0;
            &&& info.not_modified
            &&& !info.has_update
            &&& info.etag@ == text_or_empty(cached_etag)
            &&& info.current_version@ == current@
            &&& info.latest_version@.len() == 0
            &&& info.release_url@.len() == 0
            &&& info.release_notes@.len() == 0
        }),
        status != 304 && !is_success(status) ==> r == Err::<UpdateInfo, UpdateError>(
            UpdateError::HttpStatus(status),
        ),
        status != 304 && is_success(status) ==> r is Ok && ({
            let info = r->Ok_0;
            let rel = match release {
                Some(d) => Some(*d),
                None => None,
            };
            let tag = text_or(rel, "tag_name"@, "v0.0.0"@);
            &&& !info.not_modified
            &&& info.etag@ == text_or_empty(etag_header)
            &&& info.has_update == version_gt_spec(normalize_tag_spec(tag), current@)
            &&& info.current_version@ == current@
            &&& info.latest_version@ == tag
            &&& info.release_url@ == text_or(rel, "html_url"@, Seq::empty())
            &&& info.release_notes@ == text_or(rel, "body"@, Seq::empty())
        }),
{
    if status == 304 {
        let etag = match cached_etag {
            Some(e) => e,
            None => String::new(),
        };
        return Ok(
            UpdateInfo {
                not_modified: true,
                etag,
                has_update: false,
                current_version: String::from_str(current),
                latest_version: String::new(),
                release_url: String::new(),
                release_notes: String::new(),
            },
        );
    }
    if !(200 <= status && status <= 299) {
        return Err(UpdateError::HttpStatus(status));
    }
    let etag = match etag_header {
        Some(e) => e,
        None => String::new(),
    };
    let tag = text_or_default(release, "tag_name", "v0.0.0");
    let latest = normalize_tag(tag.as_str());
    let has_update = version_gt(latest, current);
    let release_url = text_or_default(release, "html_url", "");
    let release_notes = text_or_default(release, "body", "");
    proof {
        reveal_strlit("");
    }
    Ok(
        UpdateInfo {
            not_modified: false,
            etag,
            has_update,
            current_version: String::from_str(current),
            latest_version: tag,
            release_url,
            release_notes,
        },
    )
}

} // verus!
