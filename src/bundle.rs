use vstd::prelude::*;
use vstd::string::StringExecFns;

verus! {

/// Files copied verbatim from the daemon's data directory, when present.
pub const LOG_FILES: [&'static str; 3] = ["daemon.json", "proxy-debug.log", "proxy-hook-debug.log"];

/// The configuration document that is sanitized before it is archived.
pub const CONFIG_FILE: &'static str = "config.json";

/// The archive entry that holds the sanitized configuration.
pub const CONFIG_ENTRY: &'static str = "config-sanitized.json";

/// The archive entry that holds the system information record.
pub const SYSINFO_ENTRY: &'static str = "system-info.txt";

pub open spec fn digit_char(d: nat) -> char {
    (('0' as nat) + d) as char
}

/// Decimal digits of `n`, most significant first, without leading zeros.
pub open spec fn decimal_spec(n: nat) -> Seq<char>
    decreases n,
{
    if n < 10 {
        seq![digit_char(n)]
    } else {
        decimal_spec(n / 10).push(digit_char(n % 10))
    }
}

pub open spec fn bool_text(b: bool) -> Seq<char> {
    if b {
        "true"@
    } else {
        "false"@
    }
}

fn digit_str(d: u64) -> (r: &'static str)
    requires
        d < 10,
    ensures
        r@ == seq![digit_char(d as nat)],
{
    proof {
        reveal_strlit("0");
        reveal_strlit("1");
        reveal_strlit("2");
        reveal_strlit("3");
        reveal_strlit("4");
        reveal_strlit("5");
        reveal_strlit("6");
        reveal_strlit("7");
        reveal_strlit("8");
        reveal_strlit("9");
    }
    let r = match d {
        0 => "0",
        1 => "1",
        2 => "2",
        3 => "3",
        4 => "4",
        5 => "5",
        6 => "6",
        7 => "7",
        8 => "8",
        _ => "9",
    };
    assert(r@ =~= seq![digit_char(d as nat)]);
    r
}

/// `n` written in decimal.
pub fn decimal(n: u64) -> (r: String)
    ensures
        r@ == decimal_spec(n as nat),
    decreases n,
{
    if n < 10 {
        String::from_str(digit_str(n))
    } else {
        let mut s = decimal(n / 10);
        s.append(digit_str(n % 10));
        s
    }
}

/// `true` or `false`.
pub fn bool_str(b: bool) -> (r: &'static str)
    ensures
        r@ == bool_text(b),
{
    if b {
        "true"
    } else {
        "false"
    }
}

/// The name offered for a new bundle: `felay-logs-<seconds>.zip`.
pub fn bundle_file_name(now_secs: u64) -> (r: String)
    ensures
        r@ == "felay-logs-"@ + decimal_spec(now_secs as nat) + ".zip"@,
{
    String::from_str("felay-logs-").concat(decimal(now_secs).as_str()).concat(".zip")
}

/// The system information record.
pub open spec fn system_info_spec(
    version: Seq<char>,
    os: Seq<char>,
    arch: Seq<char>,
    lock_exists: bool,
    now_secs: nat,
) -> Seq<char> {
    "App Version: "@ + version + "\nOS: "@ + os + "\nArch: "@ + arch + "\nDaemon Lock Exists: "@
        + bool_text(lock_exists) + "\nTimestamp: "@ + decimal_spec(now_secs)
}

/// The plain-text system record of a bundle: application version, OS,
/// architecture, whether the lock file exists, and the time in seconds.
pub fn system_info_text(version: &str, os: &str, arch: &str, lock_exists: bool, now_secs: u64) -> (r: String)
    ensures
        r@ == system_info_spec(version@, os@, arch@, lock_exists, now_secs as nat),
{
    String::from_str("App Version: ").concat(version).concat("\nOS: ").concat(os).concat(
        "\nArch: ",
    ).concat(arch).concat("\nDaemon Lock Exists: ").concat(bool_str(lock_exists)).concat(
        "\nTimestamp: ",
    ).concat(decimal(now_secs).as_str())
}

} // verus!
