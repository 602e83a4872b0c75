use zcash_artifacts::provenance::{json_optional_string_text, json_string_text, Provenance};

fn record() -> Provenance {
    Provenance {
        service: "zcashd".to_string(),
        source: "local-repo".to_string(),
        repo: "/home/dario/src/zcashd".to_string(),
        refspec: "HEAD".to_string(),
        commit: "1a2b3c4d5e6f".to_string(),
        dirty: false,
        worktree_hash: None,
        jobs: 8,
        host: "linux-x86_64".to_string(),
        built_at: 1759155663,
        builder_schema: 1,
        version_string: Some("Zcashd version v5.9.0".to_string()),
    }
}

#[test]
fn document_of_a_clean_build() {
    let expected = "{\n  \"service\": \"zcashd\",\n  \"source\": \"local-repo\",\n  \"repo\": \"/home/dario/src/zcashd\",\n  \"refspec\": \"HEAD\",\n  \"commit\": \"1a2b3c4d5e6f\",\n  \"dirty\": false,\n  \"worktree_hash\": null,\n  \"jobs\": 8,\n  \"host\": \"linux-x86_64\",\n  \"built_at\": 1759155663,\n  \"builder_schema\": 1,\n  \"version_string\": \"Zcashd version v5.9.0\"\n}\n";
    assert_eq!(record().render(), expected);
}

#[test]
fn document_of_a_dirty_build_without_version() {
    let mut p = record();
    p.dirty = true;
    p.worktree_hash = Some("9f2c".to_string());
    p.version_string = None;
    let doc = p.render();
    assert!(doc.contains("\n  \"dirty\": true,\n"));
    assert!(doc.contains("\n  \"worktree_hash\": \"9f2c\",\n"));
    assert!(doc.ends_with("  \"version_string\": null\n}\n"));
}

#[test]
fn strings_are_escaped() {
    assert_eq!(json_string_text("plain"), "\"plain\"");
    assert_eq!(json_string_text(""), "\"\"");
    assert_eq!(json_string_text("a\"b"), "\"a\\\"b\"");
    assert_eq!(json_string_text("a\\b"), "\"a\\\\b\"");
    assert_eq!(json_string_text("a\nb\rc\td"), "\"a\\nb\\rc\\td\"");
    assert_eq!(json_string_text("a\u{1}b\u{1f}c"), "\"a\\u0001b\\u001fc\"");
    assert_eq!(json_string_text("a\u{0}"), "\"a\\u0000\"");
    assert_eq!(json_string_text("z\u{e9}\u{4e2d}"), "\"z\u{e9}\u{4e2d}\"");
}

#[test]
fn optional_strings_may_be_null() {
    assert_eq!(json_optional_string_text(&None), "null");
    assert_eq!(json_optional_string_text(&Some("null".to_string())), "\"null\"");
}

#[test]
fn document_escapes_its_values() {
    let mut p = record();
    p.repo = "C:\\src\\\"zcashd\"".to_string();
    let doc = p.render();
    assert!(doc.contains("\n  \"repo\": \"C:\\\\src\\\\\\\"zcashd\\\"\",\n"));
}
