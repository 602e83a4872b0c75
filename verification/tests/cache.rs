use zcash_artifacts::cache::cache_paths;

#[test]
fn layout_of_an_entry() {
    let layout = cache_paths("/cache", "zcashd", "zcashd|abc123|linux-x86_64|v1");
    assert_eq!(layout.root, "/cache/zcashd/zcashd|abc123|linux-x86_64|v1");
    assert_eq!(layout.out, "/cache/zcashd/zcashd|abc123|linux-x86_64|v1/out");
    assert_eq!(layout.logs, "/cache/zcashd/zcashd|abc123|linux-x86_64|v1/logs");
    assert_eq!(layout.meta, "/cache/zcashd/zcashd|abc123|linux-x86_64|v1/meta");
    assert_eq!(layout.lock_path, "/cache/zcashd/zcashd|abc123|linux-x86_64|v1/.lock");
}

#[test]
fn layout_below_a_root_with_a_slash() {
    let layout = cache_paths("/cache/", "zcashd", "k");
    assert_eq!(layout.root, "/cache/zcashd/k");
    assert_eq!(layout.out, "/cache/zcashd/k/out");
}

#[test]
fn layout_paths_of_files() {
    let layout = cache_paths("/cache", "zcashd", "k");
    assert_eq!(layout.artifact_path("zcashd"), "/cache/zcashd/k/out/zcashd");
    assert_eq!(layout.artifact_temp_path("zcashd"), "/cache/zcashd/k/out/zcashd.tmp");
    assert_eq!(layout.provenance_path(), "/cache/zcashd/k/meta/META.json");
    assert_eq!(layout.provenance_temp_path(), "/cache/zcashd/k/meta/META.json.tmp");
    assert_eq!(layout.log_path(1759155663), "/cache/zcashd/k/logs/build-1759155663.log");
}

#[test]
fn layout_areas_are_distinct() {
    let layout = cache_paths("/cache", "zcashd", "k");
    let all = vec![
        layout.root.clone(),
        layout.out.clone(),
        layout.logs.clone(),
        layout.meta.clone(),
        layout.lock_path.clone(),
    ];
    for i in 0..all.len() {
        for j in 0..all.len() {
            if i != j {
                assert_ne!(all[i], all[j]);
            }
        }
    }
}

#[test]
fn different_keys_have_different_locks() {
    let a = cache_paths("/cache", "zcashd", "zcashd|abc123|linux-x86_64|v1");
    let b = cache_paths("/cache", "zcashd", "zcashd|abc123|linux-x86_64|v2");
    assert_ne!(a.lock_path, b.lock_path);
    assert_ne!(a.root, b.root);
}

#[test]
fn temporary_path_is_beside_the_final_path() {
    let layout = cache_paths("/cache", "zcashd", "k");
    assert_ne!(layout.artifact_temp_path("zcashd"), layout.artifact_path("zcashd"));
    assert!(layout.artifact_temp_path("zcashd").starts_with("/cache/zcashd/k/out/"));
    assert_ne!(layout.provenance_temp_path(), layout.provenance_path());
}

#[test]
fn logs_of_different_attempts_differ() {
    let layout = cache_paths("/cache", "zcashd", "k");
    assert_ne!(layout.log_path(1), layout.log_path(2));
    assert_ne!(layout.log_path(1), layout.log_path(10));
}

#[test]
fn layout_can_be_copied() {
    let layout = cache_paths("/cache", "zcashd", "k");
    let copy = layout.clone();
    assert_eq!(copy.root, layout.root);
    assert_eq!(copy.lock_path, layout.lock_path);
}
