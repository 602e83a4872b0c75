use zcash_artifacts::error::ArtifactError;
use zcash_artifacts::registry::{
    BuildRecipe, PlatformNames, Registry, ReleaseIndex, ServiceId, ToolSpec, VersionProbe,
};
use zcash_artifacts::source::{IndexerKind, NodeKind};
use zcash_artifacts::zcashd::{spec_zcashd, zcashd_id};

struct NoBuild;

impl BuildRecipe for NoBuild {
    fn build(&self, _repo: &str, _jobs: usize, _log: &str) -> Result<String, ArtifactError> {
        Ok("src/zcashd".to_string())
    }
}

struct FixedVersion;

impl VersionProbe for FixedVersion {
    fn probe(&self, _exe: &str) -> Option<String> {
        Some("v1".to_string())
    }
}

struct NoReleases;

impl ReleaseIndex for NoReleases {
    fn asset_for(&self, _version: &str, _platform: &str) -> Option<(String, String)> {
        None
    }
}

#[test]
fn zcashd_descriptor() {
    let spec = spec_zcashd();
    assert_eq!(spec.id.as_str(), "zcashd");
    assert_eq!(spec.binary_names, vec!["zcashd".to_string()]);
    assert!(spec.platform_names.is_empty());
    assert_eq!(spec.default_expected_output, "src/zcashd");
    assert_eq!(
        spec.required_tools,
        vec![
            "git", "bash", "make", "gcc", "g++", "ar", "ranlib", "perl", "autoconf", "libtool",
            "pkg-config"
        ]
    );
    assert!(spec.build.is_none());
    assert!(spec.releases.is_none());
    assert!(spec.version_probe.is_none());
}

#[test]
fn zcashd_is_called_zcashd_on_every_platform() {
    let spec = spec_zcashd();
    for platform in ["linux-x86_64", "linux-aarch64", "macos-x86_64", "macos-arm64", "plan9"] {
        assert_eq!(spec.names_on(platform), &vec!["zcashd".to_string()]);
        assert_eq!(spec.published_name(platform), Some("zcashd".to_string()));
    }
}

#[test]
fn names_of_a_listed_platform_win() {
    let mut spec = spec_zcashd();
    spec.platform_names = vec![
        PlatformNames { platform: "windows-x86_64".to_string(), names: vec!["zcashd.exe".to_string()] },
        PlatformNames { platform: "windows-x86_64".to_string(), names: vec!["other.exe".to_string()] },
        PlatformNames { platform: "odd".to_string(), names: vec![] },
        PlatformNames { platform: "bad".to_string(), names: vec!["bin/zcashd".to_string()] },
    ];
    assert_eq!(spec.published_name("windows-x86_64"), Some("zcashd.exe".to_string()));
    assert_eq!(spec.published_name("linux-x86_64"), Some("zcashd".to_string()));
    assert_eq!(spec.published_name("odd"), None);
    assert_eq!(spec.published_name("bad"), None);
}

#[test]
fn capabilities_can_be_added() {
    let spec = spec_zcashd().with_build(&NoBuild).with_version_probe(&FixedVersion);
    assert!(spec.build.is_some());
    assert!(spec.version_probe.is_some());
    assert!(spec.releases.is_none());
    assert_eq!(spec.id.as_str(), "zcashd");
    let spec = spec.with_releases(&NoReleases);
    assert!(spec.releases.is_some());
    assert!(spec.build.is_some());
}

#[test]
fn empty_registry_knows_nothing() {
    let registry = Registry::empty();
    assert!(registry.get(&zcashd_id()).is_none());
}

#[test]
fn builtins_hold_zcashd() {
    let registry = Registry::with_builtins();
    let spec = registry.get(&ServiceId::new_static("zcashd")).unwrap();
    assert_eq!(spec.default_expected_output, "src/zcashd");
    assert!(registry.get(&ServiceId::new_static("zebrad")).is_none());
    let registry = Registry::default();
    assert!(registry.get(&zcashd_id()).is_some());
}

fn tool(name: &str, output: &str) -> ToolSpec {
    ToolSpec {
        id: ServiceId::new_owned(name.to_string()),
        binary_names: vec![name.to_string()],
        platform_names: vec![],
        default_expected_output: output.to_string(),
        required_tools: vec![],
        build: None,
        releases: None,
        version_probe: None,
    }
}

#[test]
fn register_adds_and_replaces() {
    let registry = Registry::empty().register(tool("zebrad", "target/release/zebrad"));
    assert_eq!(
        registry.get(&ServiceId::new_static("zebrad")).unwrap().default_expected_output,
        "target/release/zebrad"
    );
    assert!(registry.get(&zcashd_id()).is_none());
    let registry = registry.register(tool("zainod", "target/zainod"));
    let registry = registry.register(tool("zebrad", "elsewhere/zebrad"));
    assert_eq!(
        registry.get(&ServiceId::new_static("zebrad")).unwrap().default_expected_output,
        "elsewhere/zebrad"
    );
    assert_eq!(
        registry.get(&ServiceId::new_static("zainod")).unwrap().default_expected_output,
        "target/zainod"
    );
}

#[test]
fn kinds_have_their_service_names() {
    assert_eq!(NodeKind::Zcashd.service_id().as_str(), "zcashd");
    assert_eq!(NodeKind::Zebrad.service_id().as_str(), "zebrad");
    assert_eq!(IndexerKind::Lightwalletd.service_id().as_str(), "lightwalletd");
    assert_eq!(IndexerKind::Zainod.service_id().as_str(), "zainod");
    assert!(NodeKind::Zcashd.service_id() == zcashd_id());
}
