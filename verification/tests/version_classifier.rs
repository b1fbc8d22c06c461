use quorum_list_server::version::{classify_version, is_modern, strip_leading_v};

#[test]
fn plain_release_two_is_modern() {
    assert!(is_modern("2.0.0"));
}

#[test]
fn prefixed_prerelease_two_is_modern() {
    assert!(is_modern("v2.0.0-dev.1"));
}

#[test]
fn release_three_is_modern() {
    assert!(is_modern("3.5.2"));
}

#[test]
fn release_one_is_not_modern() {
    assert!(!is_modern("1.9.9"));
}

#[test]
fn garbage_is_not_modern() {
    assert!(!is_modern("garbage"));
}

#[test]
fn empty_version_is_not_modern() {
    assert!(!is_modern(""));
    assert!(!is_modern("v"));
}

#[test]
fn only_one_leading_v_is_stripped() {
    assert_eq!(strip_leading_v("v2.0.0"), "2.0.0");
    assert_eq!(strip_leading_v("vv2.0.0"), "v2.0.0");
    assert_eq!(strip_leading_v("2.0.0"), "2.0.0");
    assert_eq!(strip_leading_v(""), "");
    assert!(!is_modern("vv2.0.0"));
}

#[test]
fn unparsable_version_falls_back_to_its_prefix() {
    assert!(is_modern("2.1"));
    assert!(is_modern("3.x"));
    assert!(is_modern("4.0.0.0"));
    assert!(!is_modern("5.x"));
    assert!(!is_modern("1.x"));
    assert!(!is_modern("22.x"));
    assert!(!is_modern("2"));
}

#[test]
fn parsed_major_decides_before_the_prefix() {
    assert!(is_modern("10.0.0"));
    assert!(is_modern("5.0.0"));
    assert!(!is_modern("0.2.0"));
    assert!(classify_version("1.0.0", Some(2)));
    assert!(!classify_version("2.0.0", Some(1)));
    assert!(classify_version("2.", None));
    assert!(!classify_version("1.", None));
}

#[test]
fn version_that_does_not_begin_with_a_digit_is_not_modern() {
    for version in ["", "v", "x2.0.0", "-2.0.0", " 2.0.0", "V2.0.0", ".2.0", "v.2.", "two", "٢.0.0"] {
        assert!(!is_modern(version), "{:?}", version);
    }
}
