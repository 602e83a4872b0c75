use zcash_artifacts::error::{
    ArtifactError, BuildError, FetchError, FsError, InputError, LocateError, OciError,
    PlatformError, UnpackError, VerifyError,
};
use zcash_artifacts::registry::ServiceId;

fn s(text: &str) -> String {
    text.to_string()
}

fn zcashd() -> ServiceId {
    ServiceId::new_static("zcashd")
}

#[test]
fn input_errors_say_what_is_wrong() {
    assert_eq!(
        InputError::NotFound { path: s("/x") }.message(),
        "path does not exist or is not a file: /x"
    );
    assert_eq!(InputError::NotExecutable { path: s("/x") }.message(), "path is not executable: /x");
    assert_eq!(
        InputError::InvalidSource { service: zcashd(), reason: s("no commit") }.message(),
        "invalid source for zcashd: no commit"
    );
}

#[test]
fn locate_errors_say_what_is_wrong() {
    assert_eq!(
        LocateError::NoAsset { service: zcashd(), version: s("5.9.0"), platform: s("plan9") }
            .message(),
        "no asset for zcashd 5.9.0 on plan9"
    );
    assert_eq!(
        LocateError::ReleaseIndex { service: zcashd(), version: s("5.9.0"), why: s("offline") }
            .message(),
        "failed to resolve release index for zcashd 5.9.0: offline"
    );
}

#[test]
fn fetch_errors_say_what_is_wrong() {
    assert_eq!(
        FetchError::Http { url: s("u"), source: s("404") }.message(),
        "http error fetching u"
    );
    assert_eq!(FetchError::Timeout { url: s("u") }.message(), "timeout fetching u");
    assert_eq!(
        FetchError::Network { url: s("u"), source: s("reset") }.message(),
        "network error fetching u"
    );
    assert_eq!(
        FetchError::Disabled { url: s("u") }.message(),
        "http support disabled; cannot fetch u"
    );
}

#[test]
fn verify_errors_say_what_is_wrong() {
    assert_eq!(
        VerifyError::ChecksumMismatch { url: s("u"), expected: s("aa"), actual: s("bb") }.message(),
        "checksum mismatch for u: expected aa, got bb"
    );
    assert_eq!(VerifyError::MissingChecksum { url: s("u") }.message(), "missing checksum for u");
    assert_eq!(
        VerifyError::SignatureInvalid { what: s("zcashd.tar.gz"), source: s("bad key") }.message(),
        "signature verification failed for zcashd.tar.gz"
    );
}

#[test]
fn unpack_errors_say_what_is_wrong() {
    assert_eq!(
        UnpackError::UnsupportedFormat { archive: s("a.rar") }.message(),
        "unsupported archive format: a.rar"
    );
    assert_eq!(
        UnpackError::Entry { archive: s("a.tar"), entry: s("bin/zcashd"), source: s("eof") }
            .message(),
        "failed to extract bin/zcashd from a.tar"
    );
    assert_eq!(
        UnpackError::Tool { archive: s("a.tar"), source: s("exit 2") }.message(),
        "archive tool error for a.tar"
    );
}

#[test]
fn oci_errors_say_what_is_wrong() {
    assert_eq!(
        OciError::InvalidReference { reference: s("r") }.message(),
        "invalid OCI reference: r"
    );
    assert_eq!(
        OciError::Pull { reference: s("r"), source: s("x") }.message(),
        "failed to pull image r"
    );
    assert_eq!(OciError::Unauthorized { reference: s("r") }.message(), "unauthorized for image r");
    assert_eq!(
        OciError::Disabled { reference: s("r") }.message(),
        "oci support disabled; cannot use r"
    );
}

#[test]
fn fs_errors_say_what_is_wrong() {
    assert_eq!(
        FsError::Io { context: s("stat /x"), source: s("denied") }.message(),
        "io at stat /x"
    );
    assert_eq!(
        FsError::Chmod { path: s("/x"), source: s("denied") }.message(),
        "failed to set executable bit: /x"
    );
}

#[test]
fn platform_errors_say_what_is_wrong() {
    assert_eq!(
        PlatformError::Unsupported { service: zcashd(), platform: s("plan9") }.message(),
        "unsupported platform for zcashd: plan9"
    );
}

#[test]
fn build_errors_say_what_is_wrong() {
    assert_eq!(
        BuildError::PreflightMissingTools { missing: s("gcc, perl") }.message(),
        "missing build tool(s): gcc, perl"
    );
    assert_eq!(BuildError::DisabledRuntime.message(), "build disabled by the configuration");
    assert_eq!(
        BuildError::DisabledFeature.message(),
        "no build recipe is available for the service"
    );
    assert_eq!(
        BuildError::ScriptFailed { exit_code: 2, log_path: s("/l/build-1.log") }.message(),
        "build script failed with exit code 2; see log at /l/build-1.log"
    );
    assert_eq!(
        BuildError::ScriptFailed { exit_code: -9, log_path: s("/l") }.message(),
        "build script failed with exit code -9; see log at /l"
    );
    assert_eq!(
        BuildError::MissingOutput { expected: s("/repo/src/zcashd") }.message(),
        "unknown build output; expected binary at /repo/src/zcashd"
    );
    assert_eq!(
        BuildError::DirtyWorktree { repo: s("/repo") }.message(),
        "worktree of /repo is dirty; cannot build"
    );
    assert_eq!(
        BuildError::OutOfSequence.message(),
        "the resolution was handed an event that it did not wait for"
    );
}

#[test]
fn artifact_errors_say_what_the_failure_inside_says() {
    assert_eq!(
        ArtifactError::from(InputError::NotExecutable { path: s("/x") }).message(),
        "path is not executable: /x"
    );
    assert_eq!(
        ArtifactError::from(LocateError::NoAsset {
            service: zcashd(),
            version: s("1"),
            platform: s("p")
        })
        .message(),
        "no asset for zcashd 1 on p"
    );
    assert_eq!(
        ArtifactError::from(FetchError::Timeout { url: s("u") }).message(),
        "timeout fetching u"
    );
    assert_eq!(
        ArtifactError::from(VerifyError::MissingChecksum { url: s("u") }).message(),
        "missing checksum for u"
    );
    assert_eq!(
        ArtifactError::from(UnpackError::UnsupportedFormat { archive: s("a") }).message(),
        "unsupported archive format: a"
    );
    assert_eq!(
        ArtifactError::from(OciError::Unauthorized { reference: s("r") }).message(),
        "unauthorized for image r"
    );
    assert_eq!(
        ArtifactError::from(FsError::Chmod { path: s("/x"), source: s("e") }).message(),
        "failed to set executable bit: /x"
    );
    assert_eq!(
        ArtifactError::from(PlatformError::Unsupported { service: zcashd(), platform: s("p") })
            .message(),
        "unsupported platform for zcashd: p"
    );
    assert_eq!(
        ArtifactError::from(BuildError::DisabledRuntime).message(),
        "build disabled by the configuration"
    );
}

#[test]
fn conversions_keep_the_failure() {
    assert!(matches!(
        ArtifactError::from(BuildError::DisabledFeature),
        ArtifactError::Build(BuildError::DisabledFeature)
    ));
    assert!(matches!(
        ArtifactError::from(FsError::Io { context: s("c"), source: s("e") }),
        ArtifactError::Fs(FsError::Io { .. })
    ));
}
