use felay_gui::bundle::{bundle_file_name, decimal, system_info_text, CONFIG_ENTRY, LOG_FILES, SYSINFO_ENTRY};
use felay_gui::desktop::{
    codex_config_dir_path, codex_config_file_path, is_web_url, plan_config_file, ConfigFilePlan,
    CODEX_INITIAL_CONTENTS,
};
use felay_gui::endpoint::Platform;

#[test]
fn decimal_rendering() {
    assert_eq!(decimal(0), "0");
    assert_eq!(decimal(7), "7");
    assert_eq!(decimal(1700000000), "1700000000");
    assert_eq!(decimal(u64::MAX), u64::MAX.to_string());
}

#[test]
fn bundle_layout_names() {
    assert_eq!(LOG_FILES, ["daemon.json", "proxy-debug.log", "proxy-hook-debug.log"]);
    assert_eq!(CONFIG_ENTRY, "config-sanitized.json");
    assert_eq!(SYSINFO_ENTRY, "system-info.txt");
    assert_eq!(bundle_file_name(1700000000), "felay-logs-1700000000.zip");
}

#[test]
fn system_info_record() {
    assert_eq!(
        system_info_text("0.1.0", "linux", "x86_64", true, 12),
        "App Version: 0.1.0\nOS: linux\nArch: x86_64\nDaemon Lock Exists: true\nTimestamp: 12"
    );
    assert!(system_info_text("1", "windows", "aarch64", false, 0).contains("Daemon Lock Exists: false\n"));
}

#[test]
fn only_web_urls_open() {
    assert!(is_web_url("https://github.com"));
    assert!(is_web_url("http://x"));
    assert!(!is_web_url("file:///etc/passwd"));
    assert!(!is_web_url("HTTPS://x"));
    assert!(!is_web_url("http:/"));
}

#[test]
fn config_file_locations() {
    assert_eq!(codex_config_file_path(Platform::Unix, "/h"), "/h/.codex/config.toml");
    assert_eq!(codex_config_file_path(Platform::Windows, "C:\\u"), "C:\\u\\.codex\\config.toml");
    assert_eq!(codex_config_dir_path(Platform::Windows, "C:\\u"), "C:\\u\\.codex");
    assert_eq!(CODEX_INITIAL_CONTENTS, "");
}

#[test]
fn config_file_plans() {
    assert_eq!(plan_config_file(true, false), ConfigFilePlan::Open);
    assert_eq!(plan_config_file(false, true), ConfigFilePlan::CreateThenOpen);
    assert_eq!(plan_config_file(false, false), ConfigFilePlan::MissingDirectory);
}
