use release_core::commit::CommitId;
use release_core::release_tag::{
    find_release_tag, latest_accepted, InvalidRegex, NoVersion, ReleaseRegex,
};
use release_core::tags::{get_tag_commit, get_tags, tag_resolves, TagError, TagRef};
use release_core::version::{tag_version, TagVersion};

fn texts(list: &[&str]) -> Vec<String> {
    list.iter().map(|s| s.to_string()).collect()
}

fn object(name: Option<&str>, first_byte: Option<u8>) -> TagRef {
    TagRef::Object {
        name: name.map(|n| n.to_string()),
        commit: first_byte.map(|b| {
            let mut bytes = [0u8; 20];
            bytes[0] = b;
            CommitId { bytes }
        }),
    }
}

#[test]
fn unreadable_tag_names_are_left_out() {
    let names = vec![Some("v1".to_string()), None, Some("v2".to_string())];
    assert_eq!(get_tags(&names), texts(&["v1", "v2"]));
    assert_eq!(get_tags(&Vec::new()), Vec::<String>::new());
}

#[test]
fn commit_of_a_tag_is_found() {
    let tags = vec![
        TagRef::Unreadable,
        object(Some("v1"), Some(0xab)),
        object(Some("v2"), Some(0x01)),
        object(Some("other"), None),
    ];
    assert!(tag_resolves(&tags, "v1"));
    assert!(!tag_resolves(&tags, "other"));
    let mut expected = "ab".to_string();
    expected.push_str(&"0".repeat(38));
    assert_eq!(get_tag_commit(&tags, "v1").unwrap(), expected);
    let missing = get_tag_commit(&tags, "v3").unwrap_err();
    assert_eq!(missing, TagError::NoCommit);
    assert_eq!(missing.message(), "No commit associated with tag");
}

#[test]
fn last_tag_of_a_name_decides() {
    let tags = vec![object(Some("v1"), Some(0x11)), object(Some("v1"), Some(0x22))];
    assert!(get_tag_commit(&tags, "v1").unwrap().starts_with("22"));
}

#[test]
fn unreadable_name_counts_as_empty() {
    let tags = vec![object(None, Some(0x33))];
    assert!(get_tag_commit(&tags, "").unwrap().starts_with("33"));
    assert!(get_tag_commit(&tags, "v1").is_err());
}

#[test]
fn latest_matching_tag_is_the_release() {
    let regex = ReleaseRegex::new(r"^v\d").unwrap();
    let tags = texts(&["v0.1.2", "nightly", "v0.1.3"]);
    assert_eq!(find_release_tag(&regex, &tags), Ok(Some("v0.1.3".to_string())));
    let tags = texts(&["v0.10.0", "v0.9.12", "w1.0.0"]);
    assert_eq!(find_release_tag(&regex, &tags), Ok(Some("v0.10.0".to_string())));
    assert_eq!(find_release_tag(&regex, &texts(&["nightly"])), Ok(None));
    assert_eq!(find_release_tag(&regex, &Vec::new()), Ok(None));
    assert!(regex.is_match("v0.0.1"));
    assert!(!regex.is_match("^v\\d"));
}

#[test]
fn release_tag_without_version_is_refused() {
    let regex = ReleaseRegex::new("release").unwrap();
    assert_eq!(find_release_tag(&regex, &texts(&["release-final"])), Err(NoVersion {}));
    let tags = texts(&["release-1.0.0", "release-final", "release-2.0.0"]);
    assert_eq!(find_release_tag(&regex, &tags), Err(NoVersion {}));
    let tags = texts(&["release-1.0.0", "final", "release-2.0.0"]);
    assert_eq!(find_release_tag(&regex, &tags), Ok(Some("release-2.0.0".to_string())));
}

#[test]
fn order_of_tags_does_not_decide() {
    let regex = ReleaseRegex::new("^v").unwrap();
    let versions = ["v1.0.0-alpha", "v1.0.0-alpha.1", "v1.0.0-beta.2", "v1.0.0-beta.11", "v1.0.0"];
    let mut tags = texts(&versions);
    for n in (1..=versions.len()).rev() {
        assert_eq!(find_release_tag(&regex, &tags), Ok(Some(versions[n - 1].to_string())));
        tags.reverse();
        assert_eq!(find_release_tag(&regex, &tags), Ok(Some(versions[n - 1].to_string())));
        tags.retain(|tag| tag != versions[n - 1]);
        tags.sort();
    }
}

#[test]
fn older_tag_leaves_the_release_as_it_is() {
    let regex = ReleaseRegex::new("^v").unwrap();
    let mut tags = texts(&["a", "v1.0.0"]);
    let release = find_release_tag(&regex, &tags);
    tags.push("v0.9.0".to_string());
    tags.push("v1.0.0-rc.1".to_string());
    tags.push("v01.0.0".to_string());
    assert_eq!(find_release_tag(&regex, &tags), release);
    tags.push("v1.0.1".to_string());
    assert_eq!(find_release_tag(&regex, &tags), Ok(Some("v1.0.1".to_string())));
}

fn version(major: u64, minor: u64, patch: u64, pre: &str, build: &str) -> TagVersion<String> {
    TagVersion { major, minor, patch, pre: pre.to_string(), build: build.to_string() }
}

#[test]
fn version_is_read_from_a_tag() {
    assert_eq!(tag_version("v0.1.3"), Some(version(0, 1, 3, "", "")));
    assert_eq!(tag_version("core-v12.0.7"), Some(version(12, 0, 7, "", "")));
    assert_eq!(tag_version("1.2.3-rc.1+b.01"), Some(version(1, 2, 3, "rc.1", "b.01")));
    assert_eq!(tag_version("2024-05-v1.2.3_final"), Some(version(1, 2, 3, "", "")));
    assert_eq!(tag_version("v1.2.3-"), Some(version(1, 2, 3, "", "")));
    assert_eq!(tag_version("v1.2.3-01"), Some(version(1, 2, 3, "0", "")));
    assert_eq!(tag_version("v1.2.3.4"), Some(version(1, 2, 3, "", "")));
    assert_eq!(tag_version("été-v18446744073709551615.0.1"), Some(version(u64::MAX, 0, 1, "", "")));
}

#[test]
fn tag_without_version_has_none() {
    for tag in ["", "release-final", "v1", "v1.2", "v1.2.x", "1..2.3", "v.1.2"] {
        assert_eq!(tag_version(tag), None);
    }
}

#[test]
fn pattern_that_does_not_compile_is_refused() {
    assert_eq!(ReleaseRegex::new("foo(bar").unwrap_err(), InvalidRegex::Syntax);
    assert_eq!(ReleaseRegex::new(r"\p{Nothing}").unwrap_err(), InvalidRegex::Syntax);
    assert_eq!(ReleaseRegex::new(r"\w{1000}").unwrap_err(), InvalidRegex::TooBig);
    assert!(ReleaseRegex::new(r"(?-u:\w){1000}").is_ok());
    assert!(ReleaseRegex::new("").is_ok());
}

#[test]
fn accepted_tag_with_the_greatest_version_is_taken() {
    let tags = texts(&["v3.0.0", "v1.0.0", "v2.0.0", "w2.0.0", "none"]);
    let latest = |accepted: [bool; 5]| latest_accepted(&tags, &accepted.to_vec());
    assert_eq!(latest([false, true, true, false, false]), Ok(Some("v2.0.0".to_string())));
    assert_eq!(latest([false, true, true, true, false]), Ok(Some("v2.0.0".to_string())));
    assert_eq!(latest([true, true, true, true, false]), Ok(Some("v3.0.0".to_string())));
    assert_eq!(latest([false; 5]), Ok(None));
    assert_eq!(latest([true, false, false, false, true]), Err(NoVersion {}));
}
