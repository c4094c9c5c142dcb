use vstd::prelude::*;
use vstd::string::StringExecFns;

use crate::endpoint::{separator, Platform};
use crate::text::chars_of;

verus! {

/// `p` begins `s`.
pub open spec fn has_prefix(s: Seq<char>, p: Seq<char>) -> bool {
    p.len() <= s.len() && s.subrange(0, p.len() as int) == p
}

/// Only web addresses are handed to the system opener.
pub open spec fn is_web_url_spec(url: Seq<char>) -> bool {
    has_prefix(url, "https://"@) || has_prefix(url, "http://"@)
}

fn starts_with_chars(s: &Vec<char>, p: &Vec<char>) -> (r: bool)
    ensures
        r == has_prefix(s@, p@),
{
    if p.len() > s.len() {
        return false;
    }
    let mut i: usize = 0;
    while i < p.len()
        invariant
            p@.len() <= s@.len(),
            i <= p@.len(),
            forall|k: int| 0 <= k < i ==> s@[k] == p@[k],
        decreases p@.len() - i,
    {
        if s[i] != p[i] {
            assert(s@.subrange(0, p@.len() as int)[i as int] != p@[i as int]);
            return false;
        }
        i = i + 1;
    }
    assert(s@.subrange(0, p@.len() as int) =~= p@);
    true
}

/// Whether `url` may be opened: it must start with `http://` or `https://`.
pub fn is_web_url(url: &str) -> (r: bool)
    ensures
        r == is_web_url_spec(url@),
{
    let u = chars_of(url);
    starts_with_chars(&u, &chars_of("https://")) || starts_with_chars(&u, &chars_of("http://"))
}

pub open spec fn codex_dir_spec() -> Seq<char> {
    ".codex"@
}

pub open spec fn codex_file_spec() -> Seq<char> {
    "config.toml"@
}

fn separator_str(p: Platform) -> (r: &'static str)
    ensures
        r@ == separator(p),
{
    match p {
        Platform::Unix => "/",
        Platform::Windows => "\\",
    }
}

/// What a new Codex configuration file is created with: nothing.
pub const CODEX_INITIAL_CONTENTS: &'static str = "";

/// The Codex configuration directory under the home directory.
pub fn codex_config_dir_path(p: Platform, home: &str) -> (r: String)
    ensures
        r@ == home@ + separator(p) + codex_dir_spec(),
{
    String::from_str(home).concat(separator_str(p)).concat(".codex")
}

/// The Codex configuration file.
pub fn codex_config_file_path(p: Platform, home: &str) -> (r: String)
    ensures
        r@ == home@ + separator(p) + codex_dir_spec() + separator(p) + codex_file_spec(),
{
    codex_config_dir_path(p, home).concat(separator_str(p)).concat("config.toml")
}

/// What to do before opening a configuration file.
#[derive(Clone, Copy, Debug, PartialEq, Eq, Structural)]
pub enum ConfigFilePlan {
    /// The file exists: open it.
    Open,
    /// Only its directory exists: create the file with its initial
    /// contents, then open it.
    CreateThenOpen,
    /// The tool is not installed: report it.
    MissingDirectory,
}

/// Decides how to open a configuration file.
pub fn plan_config_file(file_exists: bool, dir_exists: bool) -> (r: ConfigFilePlan)
    ensures
        file_exists ==> r == ConfigFilePlan::Open,
        !file_exists && dir_exists ==> r == ConfigFilePlan::CreateThenOpen,
        !file_exists && !dir_exists ==> r == ConfigFilePlan::MissingDirectory,
{
    if file_exists {
        ConfigFilePlan::Open
    } else if dir_exists {
        ConfigFilePlan::CreateThenOpen
    } else {
        ConfigFilePlan::MissingDirectory
    }
}

} // verus!
