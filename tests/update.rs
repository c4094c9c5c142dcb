use felay_gui::json::Json;
use felay_gui::update::{check_update, if_none_match, normalize_tag, UpdateError};

fn release(tag: Option<&str>) -> Json {
    let mut m = vec![
        ("html_url".to_string(), Json::Str("https://example.org/r".to_string())),
        ("body".to_string(), Json::Str("notes".to_string())),
    ];
    if let Some(t) = tag {
        m.push(("tag_name".to_string(), Json::Str(t.to_string())));
    }
    Json::Object(m)
}

#[test]
fn not_modified_echoes_cached_etag() {
    let info = check_update("1.2.0", Some("W/\"abc\"".to_string()), 304, Some("ignored".to_string()), None).unwrap();
    assert!(info.not_modified);
    assert!(!info.has_update);
    assert_eq!(info.etag, "W/\"abc\"");
    assert_eq!(info.current_version, "1.2.0");
    assert_eq!(info.latest_version, "");
    assert_eq!(info.release_url, "");
    assert_eq!(info.release_notes, "");
}

#[test]
fn newer_prerelease_tag_is_an_update() {
    let rel = release(Some("v1.3.0-beta"));
    let info = check_update("1.2.0", None, 200, Some("\"e1\"".to_string()), Some(&rel)).unwrap();
    assert!(!info.not_modified);
    assert!(info.has_update);
    assert_eq!(info.latest_version, "v1.3.0-beta");
    assert_eq!(info.etag, "\"e1\"");
    assert_eq!(info.release_url, "https://example.org/r");
    assert_eq!(info.release_notes, "notes");
}

#[test]
fn same_or_missing_tag_is_no_update() {
    let rel = release(Some("v1.2.0"));
    assert!(!check_update("1.2.0", None, 200, None, Some(&rel)).unwrap().has_update);
    let rel = release(None);
    let info = check_update("1.2.0", None, 200, None, Some(&rel)).unwrap();
    assert!(!info.has_update);
    assert_eq!(info.latest_version, "v0.0.0");
    assert_eq!(info.etag, "");
}

#[test]
fn other_statuses_are_errors() {
    assert_eq!(check_update("1.0.0", None, 403, None, None), Err(UpdateError::HttpStatus(403)));
    assert_eq!(check_update("1.0.0", None, 500, None, None), Err(UpdateError::HttpStatus(500)));
    assert!(check_update("1.0.0", None, 204, None, None).is_ok());
}

#[test]
fn tags_are_normalized() {
    assert_eq!(normalize_tag("v1.3.0-beta"), "1.3.0");
    assert_eq!(normalize_tag("vv2.0"), "2.0");
    assert_eq!(normalize_tag("1.0-rc-1"), "1.0");
    assert_eq!(normalize_tag(""), "");
}

#[test]
fn etag_header_only_when_non_empty() {
    assert_eq!(if_none_match(&Some("x".to_string())), Some("x".to_string()));
    assert_eq!(if_none_match(&Some(String::new())), None);
    assert_eq!(if_none_match(&None), None);
}
