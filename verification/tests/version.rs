use tachyon::version::{classify_update, UpdatePriority, Version};

fn version(major: u64, minor: u64, patch: u64) -> Version {
    Version { major, minor, patch }
}

#[test]
fn version_parse_handles_v_prefix() {
    let version = Version::parse("v2.13.7").expect("version parsed");
    assert_eq!(version.major, 2);
    assert_eq!(version.minor, 13);
    assert_eq!(version.patch, 7);
}

#[test]
fn classify_update_prefers_major_and_minor_prompts() {
    let current = Version::parse("1.12.4").expect("current parsed");
    let major = Version::parse("2.0.0").expect("major parsed");
    let minor = Version::parse("1.13.0").expect("minor parsed");
    let patch = Version::parse("1.12.5").expect("patch parsed");

    assert_eq!(classify_update(current, major), UpdatePriority::Major);
    assert_eq!(classify_update(current, minor), UpdatePriority::Minor);
    assert_eq!(classify_update(current, patch), UpdatePriority::Patch);
}

#[test]
fn classify_update_finds_nothing_newer() {
    let current = version(1, 12, 4);
    assert_eq!(classify_update(current, current), UpdatePriority::NoUpdate);
    assert_eq!(classify_update(current, version(1, 12, 3)), UpdatePriority::NoUpdate);
    assert_eq!(classify_update(current, version(1, 11, 99)), UpdatePriority::NoUpdate);
    assert_eq!(classify_update(current, version(0, 99, 99)), UpdatePriority::NoUpdate);
}

#[test]
fn only_major_and_minor_updates_prompt() {
    assert!(!UpdatePriority::NoUpdate.requires_prompt());
    assert!(!UpdatePriority::Patch.requires_prompt());
    assert!(UpdatePriority::Minor.requires_prompt());
    assert!(UpdatePriority::Major.requires_prompt());
}

#[test]
fn version_parse_accepts_what_numbers_accept() {
    assert_eq!(Version::parse("1.2.3"), Some(version(1, 2, 3)));
    assert_eq!(Version::parse("vvv1.2.3"), Some(version(1, 2, 3)));
    assert_eq!(Version::parse("+1.02.003"), Some(version(1, 2, 3)));
    assert_eq!(
        Version::parse("18446744073709551615.0.0"),
        Some(version(u64::MAX, 0, 0))
    );
    assert_eq!(
        Version::parse("000000000000000000000000000001.0.0"),
        Some(version(1, 0, 0))
    );
}

#[test]
fn version_parse_refuses_everything_else() {
    for text in [
        "", "v", "1", "1.2", "1.2.3.4", "1..3", ".1.2", "1.2.", "1.2.x", "1.2.3-rc1", "-1.2.3",
        "+.1.2", "++1.2.3", " 1.2.3", "1.2.3 ", "1.v2.3", "18446744073709551616.0.0", "1.2.\u{663}",
    ] {
        assert_eq!(Version::parse(text), None, "{text}");
    }
}

#[test]
fn version_text_reads_back() {
    for v in [version(0, 0, 0), version(1, 20, 300), version(u64::MAX, 10, 9)] {
        assert_eq!(Version::parse(v.to_string().as_str()), Some(v));
    }
    assert_eq!(version(1, 20, 300).to_string(), "1.20.300");
    assert_eq!(version(u64::MAX, 0, 9).to_string(), "18446744073709551615.0.9");
}

#[test]
fn versions_compare_by_significance() {
    assert!(version(1, 2, 3) < version(1, 2, 4));
    assert!(version(1, 2, 99) < version(1, 3, 0));
    assert!(version(1, 99, 99) < version(2, 0, 0));
    assert!(version(2, 0, 0) > version(1, 99, 99));
    assert_eq!(version(1, 2, 3).max(version(1, 2, 4)), version(1, 2, 4));
}
