use vstd::prelude::*;

use crate::json::Json;
use crate::text::chars_of;
use vstd::string::StrSliceExecFns;

verus! {

/// `needle` occurs in `hay` as a run of consecutive characters.
pub open spec fn contains_seq(hay: Seq<char>, needle: Seq<char>) -> bool {
    exists|i: int| 0 <= i <= hay.len() - needle.len() && #[trigger] hay.subrange(i, i + needle.len()) == needle
}

/// A member name that marks a credential: it contains, case-sensitively,
/// one of the fragments `appSecret`, `encryptKey`, `secret`, `webhook`.
pub open spec fn is_sensitive_key_spec(k: Seq<char>) -> bool {
    contains_seq(k, "appSecret"@) || contains_seq(k, "encryptKey"@) || contains_seq(k, "secret"@)
        || contains_seq(k, "webhook"@)
}

/// What the mask does to the value of a sensitive member: a non-empty string
/// becomes `***`; anything else stays as it is.
pub open spec fn is_masked_of(before: Json, after: Json) -> bool {
    match before {
        Json::Str(s) => if s@.len() > 0 {
            match after {
                Json::Str(t) => t@ == "***"@,
                _ => false,
            }
        } else {
            after == before
        },
        _ => after == before,
    }
}

/// `after` is `before` with every sensitive member masked, at any depth:
/// the walk goes through arrays and through the members that are not
/// sensitive, and keeps every name and every other value.
pub open spec fn is_sanitized_of(before: Json, after: Json) -> bool
    decreases before,
{
    match before {
        Json::Array(xs) => match after {
            Json::Array(ys) => xs@.len() == ys@.len() && forall|i: int|
                0 <= i < xs@.len() ==> is_sanitized_of(#[trigger] xs[i], ys@[i]),
            _ => false,
        },
        Json::Object(es) => match after {
            Json::Object(fs) => es@.len() == fs@.len() && forall|i: int|
                0 <= i < es@.len() ==> (#[trigger] fs@[i]).0 == es[i].0 && if is_sensitive_key_spec(
                    es[i].0@,
                ) {
                    is_masked_of(es[i].1, fs@[i].1)
                } else {
                    is_sanitized_of(es[i].1, fs@[i].1)
                },
            _ => false,
        },
        _ => after == before,
    }
}

/// Whether `needle` occurs in `hay`.
pub fn contains_chars(hay: &Vec<char>, needle: &Vec<char>) -> (r: bool)
    ensures
        r == contains_seq(hay@, needle@),
{
    let n = hay.len();
    let m = needle.len();
    if m > n {
        return false;
    }
    let mut i: usize = 0;
    while i <= n - m
        invariant
            m <= n,
            n == hay@.len(),
            m == needle@.len(),
            forall|p: int| 0 <= p < i ==> #[trigger] hay@.subrange(p, p + m) != needle@,
        decreases n - m + 1 - i,
    {
        let mut j: usize = 0;
        let mut same = true;
        while j < m
            invariant
                m <= n,
                i <= n - m,
                n == hay@.len(),
                m == needle@.len(),
                j <= m,
                same == (forall|q: int| 0 <= q < j ==> hay@[i + q] == needle@[q]),
            decreases m - j,
        {
            if hay[i + j] != needle[j] {
                same = false;
            }
            j = j + 1;
        }
        if same {
            assert(hay@.subrange(i as int, i + m) =~= needle@);
            return true;
        }
        assert(hay@.subrange(i as int, i + m) != needle@) by {
            let q = choose|q: int| 0 <= q < m && hay@[i + q] != needle@[q];
            assert(hay@.subrange(i as int, i + m)[q] == hay@[i + q]);
        }
        i = i + 1;
    }
    false
}

/// Whether a member name marks a credential.
pub fn is_sensitive_key(k: &str) -> (r: bool)
    ensures
        r == is_sensitive_key_spec(k@),
{
    let ks = chars_of(k);
    contains_chars(&ks, &chars_of("appSecret")) || contains_chars(&ks, &chars_of("encryptKey"))
        || contains_chars(&ks, &chars_of("secret")) || contains_chars(&ks, &chars_of("webhook"))
}

fn mask(v: Json) -> (r: Json)
    ensures
        is_masked_of(v, r),
{
    match v {
        Json::Str(s) => {
            if s.as_str().unicode_len() > 0 {
                Json::Str(String::from_str("***"))
            } else {
                Json::Str(s)
            }
        },
        other => other,
    }
}

/// The sanitized form of `v`.
pub fn sanitized(v: Json) -> (r: Json)
    ensures
        is_sanitized_of(v, r),
    decreases v,
{
    let ghost v0 = v;
    match v {
        Json::Array(xs) => {
            let ghost orig = xs;
            let mut src = xs;
            let mut out: Vec<Json> = Vec::new();
            while src.len() > 0
                invariant
                    v0 == v,
                    v0 == Json::Array(orig),
                    out@.len() + src@.len() == orig@.len(),
                    src@ == orig@.subrange(out@.len() as int, orig@.len() as int),
                    forall|i: int| 0 <= i < out@.len() ==> is_sanitized_of(#[trigger] orig[i], out@[i]),
                decreases src@.len(),
            {
                let ghost k = out@.len() as int;
                let x = src.remove(0);
                assert(x == orig[k]);
                proof {
                    assert(decreases_to!(v0 => v0->Array_0));
                    assert(decreases_to!(orig => orig@));
                    assert(decreases_to!(orig@ => orig@[k]));
                    assert(decreases_to!(v0 => x));
                }
                let y = sanitized(x);
                out.push(y);
                assert(src@ =~= orig@.subrange(out@.len() as int, orig@.len() as int));
            }
            Json::Array(out)
        },
        Json::Object(es) => {
            let ghost orig = es;
            let mut src = es;
            let mut out: Vec<(String, Json)> = Vec::new();
            while src.len() > 0
                invariant
                    v0 == v,
                    v0 == Json::Object(orig),
                    out@.len() + src@.len() == orig@.len(),
                    src@ == orig@.subrange(out@.len() as int, orig@.len() as int),
                    forall|i: int|
                        0 <= i < out@.len() ==> (#[trigger] out@[i]).0 == orig[i].0 && if is_sensitive_key_spec(
                            orig[i].0@,
                        ) {
                            is_masked_of(orig[i].1, out@[i].1)
                        } else {
                            is_sanitized_of(orig[i].1, out@[i].1)
                        },
                decreases src@.len(),
            {
                let ghost k = out@.len() as int;
                let (name, x) = src.remove(0);
                assert(name == orig[k].0 && x == orig[k].1);
                let y = if is_sensitive_key(name.as_str()) {
                    mask(x)
                } else {
                    proof {
                        assert(decreases_to!(v0 => v0->Object_0));
                        assert(decreases_to!(orig => orig@));
                        assert(decreases_to!(orig@ => orig@[k]));
                        assert(decreases_to!(orig@[k] => orig@[k].1));
                        assert(decreases_to!(v0 => x));
                    }
                    sanitized(x)
                };
                out.push((name, y));
                assert(src@ =~= orig@.subrange(out@.len() as int, orig@.len() as int));
            }
            Json::Object(out)
        },
        other => other,
    }
}

/// Masks, in place, every credential-like member of a configuration document.
pub fn sanitize_value(value: &mut Json)
    ensures
        is_sanitized_of(*old(value), *final(value)),
{
    let mut v = Json::Null;
    std::mem::swap(&mut v, value);
    *value = sanitized(v);
}

/// What sanitizing does to one member of an object: the name is kept; a
/// sensitive name with non-empty text gets `***`; a sensitive name with
/// empty text keeps it; a name that is not sensitive keeps any value that
/// is neither an array nor an object, and has its arrays and objects
/// sanitized in turn.
pub proof fn lemma_sanitize_member(es: Vec<(String, Json)>, after: Json, i: int)
    requires
        is_sanitized_of(Json::Object(es), after),
        0 <= i < es@.len(),
    ensures
        after is Object,
        after->Object_0@.len() == es@.len(),
        after->Object_0@[i].0 == es@[i].0,
        is_sensitive_key_spec(es@[i].0@) ==> match es@[i].1 {
            Json::Str(s) => if s@.len() > 0 {
                match after->Object_0@[i].1 {
                    Json::Str(t) => t@ == "***"@,
                    _ => false,
                }
            } else {
                after->Object_0@[i].1 == es@[i].1
            },
            _ => after->Object_0@[i].1 == es@[i].1,
        },
        !is_sensitive_key_spec(es@[i].0@) ==> match es@[i].1 {
            Json::Array(_) => is_sanitized_of(es@[i].1, after->Object_0@[i].1),
            Json::Object(_) => is_sanitized_of(es@[i].1, after->Object_0@[i].1),
            _ => after->Object_0@[i].1 == es@[i].1,
        },
{
    let fs = after->Object_0;
    assert((fs@[i]).0 == es[i].0);
    if !is_sensitive_key_spec(es@[i].0@) {
        assert(is_sanitized_of(es[i].1, fs@[i].1));
    }
}

} // verus!
