use zcash_artifacts::error::InputError;
use zcash_artifacts::identity::{build_key, is_key_component, Identity, SCHEMA_VERSION};
use zcash_artifacts::registry::ServiceId;

fn identity(commit: &str, hash: Option<&str>, platform: &str, schema: u32) -> Identity {
    Identity::new(
        ServiceId::new_static("zcashd"),
        commit.to_string(),
        hash.map(|h| h.to_string()),
        platform.to_string(),
        schema,
    )
    .unwrap()
}

#[test]
fn key_of_a_clean_build() {
    let id = identity("abc123", None, "linux-x86_64", 1);
    assert_eq!(build_key(&id), "zcashd|abc123|linux-x86_64|v1");
}

#[test]
fn key_of_a_dirty_build() {
    let id = identity("abc123", Some("9f2c"), "linux-x86_64", 1);
    assert_eq!(build_key(&id), "zcashd|abc123+9f2c|linux-x86_64|v1");
}

#[test]
fn key_with_a_schema_of_several_digits() {
    let id = identity("abc123", None, "macos-arm64", 120);
    assert_eq!(build_key(&id), "zcashd|abc123|macos-arm64|v120");
}

#[test]
fn key_is_the_same_on_every_computation() {
    let a = identity("abc123", Some("9f2c"), "linux-x86_64", 1);
    let b = identity("abc123", Some("9f2c"), "linux-x86_64", 1);
    assert_eq!(build_key(&a), build_key(&a));
    assert_eq!(build_key(&a), build_key(&b));
}

#[test]
fn key_changes_with_each_component() {
    let base = build_key(&identity("abc123", None, "linux-x86_64", 1));
    assert_ne!(base, build_key(&identity("abc124", None, "linux-x86_64", 1)));
    assert_ne!(base, build_key(&identity("abc123", Some("9f2c"), "linux-x86_64", 1)));
    assert_ne!(base, build_key(&identity("abc123", None, "linux-aarch64", 1)));
    assert_ne!(base, build_key(&identity("abc123", None, "linux-x86_64", 2)));
    let dirty = build_key(&identity("abc123", Some("9f2c"), "linux-x86_64", 1));
    assert_ne!(dirty, build_key(&identity("abc123", Some("9f2d"), "linux-x86_64", 1)));
    let other_service = Identity::new(
        ServiceId::new_static("zebrad"),
        "abc123".to_string(),
        None,
        "linux-x86_64".to_string(),
        1,
    )
    .unwrap();
    assert_ne!(base, build_key(&other_service));
}

#[test]
fn schema_version_is_one() {
    assert_eq!(SCHEMA_VERSION, 1);
}

#[test]
fn components_hold_no_delimiter() {
    assert!(is_key_component("abc123"));
    assert!(is_key_component("linux-x86_64"));
    assert!(!is_key_component(""));
    assert!(!is_key_component("a|b"));
    assert!(!is_key_component("a+b"));
    assert!(!is_key_component("a/b"));
}

fn reason_of(res: Result<Identity, InputError>) -> (String, String) {
    match res {
        Err(InputError::InvalidSource { service, reason }) => (service.name(), reason),
        _ => panic!("an invalid source was expected"),
    }
}

#[test]
fn identity_refuses_a_bad_service() {
    let res = Identity::new(
        ServiceId::new_owned("zc|ashd".to_string()),
        "abc123".to_string(),
        None,
        "linux-x86_64".to_string(),
        1,
    );
    assert_eq!(
        reason_of(res),
        ("zc|ashd".to_string(), "service name is empty or holds one of | + /".to_string())
    );
}

#[test]
fn identity_refuses_a_bad_commit() {
    let res = Identity::new(
        ServiceId::new_static("zcashd"),
        "".to_string(),
        None,
        "linux-x86_64".to_string(),
        1,
    );
    assert_eq!(
        reason_of(res),
        ("zcashd".to_string(), "commit is empty or holds one of | + /".to_string())
    );
}

#[test]
fn identity_refuses_a_bad_worktree_hash() {
    let res = Identity::new(
        ServiceId::new_static("zcashd"),
        "abc123".to_string(),
        Some("9f+2c".to_string()),
        "linux-x86_64".to_string(),
        1,
    );
    assert_eq!(
        reason_of(res),
        ("zcashd".to_string(), "worktree hash is empty or holds one of | + /".to_string())
    );
}

#[test]
fn identity_refuses_a_bad_platform() {
    let res = Identity::new(
        ServiceId::new_static("zcashd"),
        "abc123".to_string(),
        None,
        "linux/x86_64".to_string(),
        1,
    );
    assert_eq!(
        reason_of(res),
        ("zcashd".to_string(), "platform is empty or holds one of | + /".to_string())
    );
}

#[test]
fn identity_knows_whether_it_is_dirty() {
    assert!(!identity("abc123", None, "linux-x86_64", 1).is_dirty());
    assert!(identity("abc123", Some("9f2c"), "linux-x86_64", 1).is_dirty());
}

#[test]
fn service_ids_compare_by_name() {
    assert!(ServiceId::new_static("zcashd") == ServiceId::new_owned("zcashd".to_string()));
    assert!(ServiceId::new_static("zcashd") != ServiceId::new_static("zebrad"));
    assert_eq!(ServiceId::new_static("zcashd").as_str(), "zcashd");
    assert_eq!(ServiceId::new_static("zcashd").clone().as_str(), "zcashd");
}
