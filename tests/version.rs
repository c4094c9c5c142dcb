use felay_gui::version::{parse_u64, version_gt, version_numbers};

fn chars(s: &str) -> Vec<char> {
    s.chars().collect()
}

#[test]
fn newer_minor_beats_older_patch() {
    assert!(version_gt("1.2.0", "1.1.9"));
}

#[test]
fn equal_versions_are_not_newer() {
    assert!(!version_gt("1.0.0", "1.0.0"));
}

#[test]
fn missing_components_default_to_zero() {
    assert!(version_gt("2.0", "1.9.9"));
    assert!(!version_gt("1.9.9", "2.0"));
    assert!(!version_gt("1", "1.0.0"));
}

#[test]
fn only_three_components_are_compared() {
    assert!(!version_gt("1.0.0.5", "1.0.0"));
}

#[test]
fn unparsable_pieces_are_skipped() {
    assert_eq!(version_numbers("1.x.3"), vec![1, 3]);
    assert!(version_gt("1.x.3", "1.2.0"));
}

#[test]
fn parse_accepts_plus_and_rejects_overflow() {
    assert_eq!(parse_u64(&chars("+42")), Some(42));
    assert_eq!(parse_u64(&chars("+")), None);
    assert_eq!(parse_u64(&chars("")), None);
    assert_eq!(parse_u64(&chars("-1")), None);
    assert_eq!(parse_u64(&chars("18446744073709551615")), Some(u64::MAX));
    assert_eq!(parse_u64(&chars("18446744073709551616")), None);
    assert_eq!(parse_u64(&chars("007")), Some(7));
}
