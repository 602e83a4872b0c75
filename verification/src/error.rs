//! The failures that a resolution can end in, each with the context needed to
//! act on it: paths, expected and actual values, exit codes.

use crate::registry::ServiceId;
use crate::text::{signed_decimal, signed_decimal_string};
use vstd::prelude::*;
use vstd::std_specs::convert::FromSpecImpl;
use vstd::string::*;

verus! {

/// What is wrong with a request as it was made.
#[non_exhaustive]
#[derive(Debug)]
pub enum InputError {
    /// The path does not exist or is not a regular file.
    NotFound { path: String },
    /// The file may not be executed.
    NotExecutable { path: String },
    /// The request cannot name an artifact.
    InvalidSource { service: ServiceId, reason: String },
}

/// The mathematical value of a [`InputError`].
pub enum InputErrorView {
    NotFound { path: Seq<char> },
    NotExecutable { path: Seq<char> },
    InvalidSource { service: Seq<char>, reason: Seq<char> },
}

impl View for InputError {
    type V = InputErrorView;

    open spec fn view(&self) -> InputErrorView {
        match self {
            InputError::NotFound { path } => InputErrorView::NotFound { path: path@ },
            InputError::NotExecutable { path } => InputErrorView::NotExecutable { path: path@ },
            InputError::InvalidSource { service, reason } => InputErrorView::InvalidSource {
                service: service@,
                reason: reason@,
            },
        }
    }
}

/// Why no release asset was found for a request.
#[non_exhaustive]
#[derive(Debug)]
pub enum LocateError {
    /// The release has no asset for the platform.
    NoAsset { service: ServiceId, version: String, platform: String },
    /// The release index could not be consulted.
    ReleaseIndex { service: ServiceId, version: String, why: String },
}

/// The mathematical value of a [`LocateError`].
pub enum LocateErrorView {
    NoAsset { service: Seq<char>, version: Seq<char>, platform: Seq<char> },
    ReleaseIndex { service: Seq<char>, version: Seq<char>, why: Seq<char> },
}

impl View for LocateError {
    type V = LocateErrorView;

    open spec fn view(&self) -> LocateErrorView {
        match self {
            LocateError::NoAsset { service, version, platform } => LocateErrorView::NoAsset {
                service: service@,
                version: version@,
                platform: platform@,
            },
            LocateError::ReleaseIndex { service, version, why } => LocateErrorView::ReleaseIndex {
                service: service@,
                version: version@,
                why: why@,
            },
        }
    }
}

/// Why a download did not complete.
#[non_exhaustive]
#[derive(Debug)]
pub enum FetchError {
    /// The server answered with an error.
    Http { url: String, source: String },
    /// The transfer took too long.
    Timeout { url: String },
    /// The connection failed.
    Network { url: String, source: String },
    /// Downloads are switched off.
    Disabled { url: String },
}

/// The mathematical value of a [`FetchError`].
pub enum FetchErrorView {
    Http { url: Seq<char>, source: Seq<char> },
    Timeout { url: Seq<char> },
    Network { url: Seq<char>, source: Seq<char> },
    Disabled { url: Seq<char> },
}

impl View for FetchError {
    type V = FetchErrorView;

    open spec fn view(&self) -> FetchErrorView {
        match self {
            FetchError::Http { url, source } => FetchErrorView::Http { url: url@, source: source@ },
            FetchError::Timeout { url } => FetchErrorView::Timeout { url: url@ },
            FetchError::Network { url, source } => FetchErrorView::Network {
                url: url@,
                source: source@,
            },
            FetchError::Disabled { url } => FetchErrorView::Disabled { url: url@ },
        }
    }
}

/// Why downloaded content was not accepted.
#[non_exhaustive]
#[derive(Debug)]
pub enum VerifyError {
    /// The content has another digest than the one expected.
    ChecksumMismatch { url: String, expected: String, actual: String },
    /// No digest was given to check the content against.
    MissingChecksum { url: String },
    /// The signature does not match.
    SignatureInvalid { what: String, source: String },
}

/// The mathematical value of a [`VerifyError`].
pub enum VerifyErrorView {
    ChecksumMismatch { url: Seq<char>, expected: Seq<char>, actual: Seq<char> },
    MissingChecksum { url: Seq<char> },
    SignatureInvalid { what: Seq<char>, source: Seq<char> },
}

impl View for VerifyError {
    type V = VerifyErrorView;

    open spec fn view(&self) -> VerifyErrorView {
        match self {
            VerifyError::ChecksumMismatch {
                url,
                expected,
                actual,
            } => VerifyErrorView::ChecksumMismatch {
                url: url@,
                expected: expected@,
                actual: actual@,
            },
            VerifyError::MissingChecksum { url } => VerifyErrorView::MissingChecksum { url: url@ },
            VerifyError::SignatureInvalid { what, source } => VerifyErrorView::SignatureInvalid {
                what: what@,
                source: source@,
            },
        }
    }
}

/// Why an archive could not be unpacked.
#[non_exhaustive]
#[derive(Debug)]
pub enum UnpackError {
    /// The archive is of a kind that is not handled.
    UnsupportedFormat { archive: String },
    /// One entry could not be extracted.
    Entry { archive: String, entry: String, source: String },
    /// The archive tool failed.
    Tool { archive: String, source: String },
}

/// The mathematical value of a [`UnpackError`].
pub enum UnpackErrorView {
    UnsupportedFormat { archive: Seq<char> },
    Entry { archive: Seq<char>, entry: Seq<char>, source: Seq<char> },
    Tool { archive: Seq<char>, source: Seq<char> },
}

impl View for UnpackError {
    type V = UnpackErrorView;

    open spec fn view(&self) -> UnpackErrorView {
        match self {
            UnpackError::UnsupportedFormat { archive } => UnpackErrorView::UnsupportedFormat {
                archive: archive@,
            },
            UnpackError::Entry { archive, entry, source } => UnpackErrorView::Entry {
                archive: archive@,
                entry: entry@,
                source: source@,
            },
            UnpackError::Tool { archive, source } => UnpackErrorView::Tool {
                archive: archive@,
                source: source@,
            },
        }
    }
}

/// Why a container image could not be used.
#[non_exhaustive]
#[derive(Debug)]
pub enum OciError {
    /// The reference is malformed.
    InvalidReference { reference: String },
    /// The image could not be pulled.
    Pull { reference: String, source: String },
    /// The registry refused access.
    Unauthorized { reference: String },
    /// Container images are switched off.
    Disabled { reference: String },
}

/// The mathematical value of a [`OciError`].
pub enum OciErrorView {
    InvalidReference { reference: Seq<char> },
    Pull { reference: Seq<char>, source: Seq<char> },
    Unauthorized { reference: Seq<char> },
    Disabled { reference: Seq<char> },
}

impl View for OciError {
    type V = OciErrorView;

    open spec fn view(&self) -> OciErrorView {
        match self {
            OciError::InvalidReference { reference } => OciErrorView::InvalidReference {
                reference: reference@,
            },
            OciError::Pull { reference, source } => OciErrorView::Pull {
                reference: reference@,
                source: source@,
            },
            OciError::Unauthorized { reference } => OciErrorView::Unauthorized {
                reference: reference@,
            },
            OciError::Disabled { reference } => OciErrorView::Disabled { reference: reference@ },
        }
    }
}

/// A failed operation on the file system, with the operation and the path.
#[non_exhaustive]
#[derive(Debug)]
pub enum FsError {
    /// Reading, writing, locking or renaming failed.
    Io { context: String, source: String },
    /// The executable bit could not be set.
    Chmod { path: String, source: String },
}

/// The mathematical value of a [`FsError`].
pub enum FsErrorView {
    Io { context: Seq<char>, source: Seq<char> },
    Chmod { path: Seq<char>, source: Seq<char> },
}

impl View for FsError {
    type V = FsErrorView;

    open spec fn view(&self) -> FsErrorView {
        match self {
            FsError::Io { context, source } => FsErrorView::Io {
                context: context@,
                source: source@,
            },
            FsError::Chmod { path, source } => FsErrorView::Chmod { path: path@, source: source@ },
        }
    }
}

/// A platform on which a service cannot be had.
#[non_exhaustive]
#[derive(Debug)]
pub enum PlatformError {
    /// The service does not exist for the platform.
    Unsupported { service: ServiceId, platform: String },
}

/// The mathematical value of a [`PlatformError`].
pub enum PlatformErrorView {
    Unsupported { service: Seq<char>, platform: Seq<char> },
}

impl View for PlatformError {
    type V = PlatformErrorView;

    open spec fn view(&self) -> PlatformErrorView {
        match self {
            PlatformError::Unsupported { service, platform } => PlatformErrorView::Unsupported {
                service: service@,
                platform: platform@,
            },
        }
    }
}

/// Why a local build did not produce an artifact.
#[non_exhaustive]
#[derive(Debug)]
pub enum BuildError {
    /// Tools that the build needs are not installed.
    PreflightMissingTools { missing: String },
    /// The configuration forbids builds.
    DisabledRuntime,
    /// No build recipe is available for the service.
    DisabledFeature,
    /// The build ran and failed; its output is in the log.
    ScriptFailed { exit_code: i32, log_path: String },
    /// The build reported success but left no executable where one was expected.
    MissingOutput { expected: String },
    /// The worktree has uncommitted changes and the policy requires a clean one.
    DirtyWorktree { repo: String },
    /// The resolution was handed an answer to a question it had not asked.
    OutOfSequence,
}

/// The mathematical value of a [`BuildError`].
pub enum BuildErrorView {
    PreflightMissingTools { missing: Seq<char> },
    DisabledRuntime,
    DisabledFeature,
    ScriptFailed { exit_code: i32, log_path: Seq<char> },
    MissingOutput { expected: Seq<char> },
    DirtyWorktree { repo: Seq<char> },
    OutOfSequence,
}

impl View for BuildError {
    type V = BuildErrorView;

    open spec fn view(&self) -> BuildErrorView {
        match self {
            BuildError::PreflightMissingTools { missing } => BuildErrorView::PreflightMissingTools {
                missing: missing@,
            },
            BuildError::DisabledRuntime => BuildErrorView::DisabledRuntime,
            BuildError::DisabledFeature => BuildErrorView::DisabledFeature,
            BuildError::ScriptFailed { exit_code, log_path } => BuildErrorView::ScriptFailed {
                exit_code: *exit_code,
                log_path: log_path@,
            },
            BuildError::MissingOutput { expected } => BuildErrorView::MissingOutput {
                expected: expected@,
            },
            BuildError::DirtyWorktree { repo } => BuildErrorView::DirtyWorktree { repo: repo@ },
            BuildError::OutOfSequence => BuildErrorView::OutOfSequence,
        }
    }
}

/// Any failure of a resolution.
#[non_exhaustive]
#[derive(Debug)]
pub enum ArtifactError {
    Input(InputError),
    Locate(LocateError),
    Fetch(FetchError),
    Verify(VerifyError),
    Unpack(UnpackError),
    Oci(OciError),
    Fs(FsError),
    Platform(PlatformError),
    Build(BuildError),
}

/// The mathematical value of an [`ArtifactError`].
pub enum ArtifactErrorView {
    Input(InputErrorView),
    Locate(LocateErrorView),
    Fetch(FetchErrorView),
    Verify(VerifyErrorView),
    Unpack(UnpackErrorView),
    Oci(OciErrorView),
    Fs(FsErrorView),
    Platform(PlatformErrorView),
    Build(BuildErrorView),
}

impl View for ArtifactError {
    type V = ArtifactErrorView;

    open spec fn view(&self) -> ArtifactErrorView {
        match self {
            ArtifactError::Input(e) => ArtifactErrorView::Input(e@),
            ArtifactError::Locate(e) => ArtifactErrorView::Locate(e@),
            ArtifactError::Fetch(e) => ArtifactErrorView::Fetch(e@),
            ArtifactError::Verify(e) => ArtifactErrorView::Verify(e@),
            ArtifactError::Unpack(e) => ArtifactErrorView::Unpack(e@),
            ArtifactError::Oci(e) => ArtifactErrorView::Oci(e@),
            ArtifactError::Fs(e) => ArtifactErrorView::Fs(e@),
            ArtifactError::Platform(e) => ArtifactErrorView::Platform(e@),
            ArtifactError::Build(e) => ArtifactErrorView::Build(e@),
        }
    }
}

impl From<InputError> for ArtifactError {
    fn from(e: InputError) -> (res: Self) {
        ArtifactError::Input(e)
    }
}

impl FromSpecImpl<InputError> for ArtifactError {
    open spec fn obeys_from_spec() -> bool {
        true
    }

    open spec fn from_spec(e: InputError) -> Self {
        ArtifactError::Input(e)
    }
}

impl From<LocateError> for ArtifactError {
    fn from(e: LocateError) -> (res: Self) {
        ArtifactError::Locate(e)
    }
}

impl FromSpecImpl<LocateError> for ArtifactError {
    open spec fn obeys_from_spec() -> bool {
        true
    }

    open spec fn from_spec(e: LocateError) -> Self {
        ArtifactError::Locate(e)
    }
}

impl From<FetchError> for ArtifactError {
    fn from(e: FetchError) -> (res: Self) {
        ArtifactError::Fetch(e)
    }
}

impl FromSpecImpl<FetchError> for ArtifactError {
    open spec fn obeys_from_spec() -> bool {
        true
    }

    open spec fn from_spec(e: FetchError) -> Self {
        ArtifactError::Fetch(e)
    }
}

impl From<VerifyError> for ArtifactError {
    fn from(e: VerifyError) -> (res: Self) {
        ArtifactError::Verify(e)
    }
}

impl FromSpecImpl<VerifyError> for ArtifactError {
    open spec fn obeys_from_spec() -> bool {
        true
    }

    open spec fn from_spec(e: VerifyError) -> Self {
        ArtifactError::Verify(e)
    }
}

impl From<UnpackError> for ArtifactError {
    fn from(e: UnpackError) -> (res: Self) {
        ArtifactError::Unpack(e)
    }
}

impl FromSpecImpl<UnpackError> for ArtifactError {
    open spec fn obeys_from_spec() -> bool {
        true
    }

    open spec fn from_spec(e: UnpackError) -> Self {
        ArtifactError::Unpack(e)
    }
}

impl From<OciError> for ArtifactError {
    fn from(e: OciError) -> (res: Self) {
        ArtifactError::Oci(e)
    }
}

impl FromSpecImpl<OciError> for ArtifactError {
    open spec fn obeys_from_spec() -> bool {
        true
    }

    open spec fn from_spec(e: OciError) -> Self {
        ArtifactError::Oci(e)
    }
}

impl From<FsError> for ArtifactError {
    fn from(e: FsError) -> (res: Self) {
        ArtifactError::Fs(e)
    }
}

impl FromSpecImpl<FsError> for ArtifactError {
    open spec fn obeys_from_spec() -> bool {
        true
    }

    open spec fn from_spec(e: FsError) -> Self {
        ArtifactError::Fs(e)
    }
}

impl From<PlatformError> for ArtifactError {
    fn from(e: PlatformError) -> (res: Self) {
        ArtifactError::Platform(e)
    }
}

impl FromSpecImpl<PlatformError> for ArtifactError {
    open spec fn obeys_from_spec() -> bool {
        true
    }

    open spec fn from_spec(e: PlatformError) -> Self {
        ArtifactError::Platform(e)
    }
}

impl From<BuildError> for ArtifactError {
    fn from(e: BuildError) -> (res: Self) {
        ArtifactError::Build(e)
    }
}

impl FromSpecImpl<BuildError> for ArtifactError {
    open spec fn obeys_from_spec() -> bool {
        true
    }

    open spec fn from_spec(e: BuildError) -> Self {
        ArtifactError::Build(e)
    }
}

impl InputErrorView {
    /// What the failure says of itself.
    pub open spec fn message(self) -> Seq<char> {
        match self {
            InputErrorView::NotFound { path } => "path does not exist or is not a file: "@ + path,
            InputErrorView::NotExecutable { path } => "path is not executable: "@ + path,
            InputErrorView::InvalidSource { service, reason } => "invalid source for "@
                + service + ": "@ + reason,
        }
    }
}

impl InputError {
    /// What the failure says of itself.
    pub fn message(&self) -> (text: String)
        ensures
            text@ == self@.message(),
    {
        match self {
            InputError::NotFound { path } => {
                let mut text = String::from_str("path does not exist or is not a file: ");
                text.append(path.as_str());
                text
            },
            InputError::NotExecutable { path } => {
                let mut text = String::from_str("path is not executable: ");
                text.append(path.as_str());
                text
            },
            InputError::InvalidSource { service, reason } => {
                let mut text = String::from_str("invalid source for ");
                text.append(service.as_str());
                text.append(": ");
                text.append(reason.as_str());
                text
            },
        }
    }
}

impl LocateErrorView {
    /// What the failure says of itself.
    pub open spec fn message(self) -> Seq<char> {
        match self {
            LocateErrorView::NoAsset { service, version, platform } => "no asset for "@
                + service + " "@ + version + " on "@ + platform,
            LocateErrorView::ReleaseIndex {
                service,
                version,
                why,
            } => "failed to resolve release index for "@
                + service + " "@ + version + ": "@ + why,
        }
    }
}

impl LocateError {
    /// What the failure says of itself.
    pub fn message(&self) -> (text: String)
        ensures
            text@ == self@.message(),
    {
        match self {
            LocateError::NoAsset { service, version, platform } => {
                let mut text = String::from_str("no asset for ");
                text.append(service.as_str());
                text.append(" ");
                text.append(version.as_str());
                text.append(" on ");
                text.append(platform.as_str());
                text
            },
            LocateError::ReleaseIndex { service, version, why } => {
                let mut text = String::from_str("failed to resolve release index for ");
                text.append(service.as_str());
                text.append(" ");
                text.append(version.as_str());
                text.append(": ");
                text.append(why.as_str());
                text
            },
        }
    }
}

impl FetchErrorView {
    /// What the failure says of itself.
    pub open spec fn message(self) -> Seq<char> {
        match self {
            FetchErrorView::Http { url, .. } => "http error fetching "@ + url,
            FetchErrorView::Timeout { url } => "timeout fetching "@ + url,
            FetchErrorView::Network { url, .. } => "network error fetching "@ + url,
            FetchErrorView::Disabled { url } => "http support disabled; cannot fetch "@ + url,
        }
    }
}

impl FetchError {
    /// What the failure says of itself.
    pub fn message(&self) -> (text: String)
        ensures
            text@ == self@.message(),
    {
        match self {
            FetchError::Http { url, .. } => {
                let mut text = String::from_str("http error fetching ");
                text.append(url.as_str());
                text
            },
            FetchError::Timeout { url } => {
                let mut text = String::from_str("timeout fetching ");
                text.append(url.as_str());
                text
            },
            FetchError::Network { url, .. } => {
                let mut text = String::from_str("network error fetching ");
                text.append(url.as_str());
                text
            },
            FetchError::Disabled { url } => {
                let mut text = String::from_str("http support disabled; cannot fetch ");
                text.append(url.as_str());
                text
            },
        }
    }
}

impl VerifyErrorView {
    /// What the failure says of itself.
    pub open spec fn message(self) -> Seq<char> {
        match self {
            VerifyErrorView::ChecksumMismatch { url, expected, actual } => "checksum mismatch for "@
                + url + ": expected "@ + expected + ", got "@ + actual,
            VerifyErrorView::MissingChecksum { url } => "missing checksum for "@ + url,
            VerifyErrorView::SignatureInvalid { what, .. } => "signature verification failed for "@
                + what,
        }
    }
}

impl VerifyError {
    /// What the failure says of itself.
    pub fn message(&self) -> (text: String)
        ensures
            text@ == self@.message(),
    {
        match self {
            VerifyError::ChecksumMismatch { url, expected, actual } => {
                let mut text = String::from_str("checksum mismatch for ");
                text.append(url.as_str());
                text.append(": expected ");
                text.append(expected.as_str());
                text.append(", got ");
                text.append(actual.as_str());
                text
            },
            VerifyError::MissingChecksum { url } => {
                let mut text = String::from_str("missing checksum for ");
                text.append(url.as_str());
                text
            },
            VerifyError::SignatureInvalid { what, .. } => {
                let mut text = String::from_str("signature verification failed for ");
                text.append(what.as_str());
                text
            },
        }
    }
}

impl UnpackErrorView {
    /// What the failure says of itself.
    pub open spec fn message(self) -> Seq<char> {
        match self {
            UnpackErrorView::UnsupportedFormat { archive } => "unsupported archive format: "@
                + archive,
            UnpackErrorView::Entry { archive, entry, .. } => "failed to extract "@ + entry
                + " from "@ + archive,
            UnpackErrorView::Tool { archive, .. } => "archive tool error for "@ + archive,
        }
    }
}

impl UnpackError {
    /// What the failure says of itself.
    pub fn message(&self) -> (text: String)
        ensures
            text@ == self@.message(),
    {
        match self {
            UnpackError::UnsupportedFormat { archive } => {
                let mut text = String::from_str("unsupported archive format: ");
                text.append(archive.as_str());
                text
            },
            UnpackError::Entry { archive, entry, .. } => {
                let mut text = String::from_str("failed to extract ");
                text.append(entry.as_str());
                text.append(" from ");
                text.append(archive.as_str());
                text
            },
            UnpackError::Tool { archive, .. } => {
                let mut text = String::from_str("archive tool error for ");
                text.append(archive.as_str());
                text
            },
        }
    }
}

impl OciErrorView {
    /// What the failure says of itself.
    pub open spec fn message(self) -> Seq<char> {
        match self {
            OciErrorView::InvalidReference { reference } => "invalid OCI reference: "@ + reference,
            OciErrorView::Pull { reference, .. } => "failed to pull image "@ + reference,
            OciErrorView::Unauthorized { reference } => "unauthorized for image "@ + reference,
            OciErrorView::Disabled { reference } => "oci support disabled; cannot use "@
                + reference,
        }
    }
}

impl OciError {
    /// What the failure says of itself.
    pub fn message(&self) -> (text: String)
        ensures
            text@ == self@.message(),
    {
        match self {
            OciError::InvalidReference { reference } => {
                let mut text = String::from_str("invalid OCI reference: ");
                text.append(reference.as_str());
                text
            },
            OciError::Pull { reference, .. } => {
                let mut text = String::from_str("failed to pull image ");
                text.append(reference.as_str());
                text
            },
            OciError::Unauthorized { reference } => {
                let mut text = String::from_str("unauthorized for image ");
                text.append(reference.as_str());
                text
            },
            OciError::Disabled { reference } => {
                let mut text = String::from_str("oci support disabled; cannot use ");
                text.append(reference.as_str());
                text
            },
        }
    }
}

impl FsErrorView {
    /// What the failure says of itself.
    pub open spec fn message(self) -> Seq<char> {
        match self {
            FsErrorView::Io { context, .. } => "io at "@ + context,
            FsErrorView::Chmod { path, .. } => "failed to set executable bit: "@ + path,
        }
    }
}

impl FsError {
    /// What the failure says of itself.
    pub fn message(&self) -> (text: String)
        ensures
            text@ == self@.message(),
    {
        match self {
            FsError::Io { context, .. } => {
                let mut text = String::from_str("io at ");
                text.append(context.as_str());
                text
            },
            FsError::Chmod { path, .. } => {
                let mut text = String::from_str("failed to set executable bit: ");
                text.append(path.as_str());
                text
            },
        }
    }
}

impl PlatformErrorView {
    /// What the failure says of itself.
    pub open spec fn message(self) -> Seq<char> {
        match self {
            PlatformErrorView::Unsupported { service, platform } => "unsupported platform for "@
                + service + ": "@ + platform,
        }
    }
}

impl PlatformError {
    /// What the failure says of itself.
    pub fn message(&self) -> (text: String)
        ensures
            text@ == self@.message(),
    {
        match self {
            PlatformError::Unsupported { service, platform } => {
                let mut text = String::from_str("unsupported platform for ");
                text.append(service.as_str());
                text.append(": ");
                text.append(platform.as_str());
                text
            },
        }
    }
}

impl BuildErrorView {
    /// What the failure says of itself.
    pub open spec fn message(self) -> Seq<char> {
        match self {
            BuildErrorView::PreflightMissingTools { missing } => "missing build tool(s): "@
                + missing,
            BuildErrorView::DisabledRuntime => "build disabled by the configuration"@,
            BuildErrorView::DisabledFeature => "no build recipe is available for the service"@,
            BuildErrorView::ScriptFailed {
                exit_code,
                log_path,
            } => "build script failed with exit code "@
                + signed_decimal(exit_code as int) + "; see log at "@ + log_path,
            BuildErrorView::MissingOutput {
                expected,
            } => "unknown build output; expected binary at "@
                + expected,
            BuildErrorView::DirtyWorktree { repo } => "worktree of "@ + repo
                + " is dirty; cannot build"@,
            BuildErrorView::OutOfSequence => (
            "the resolution was handed an event that it did not wait for"@),
        }
    }
}

impl BuildError {
    /// What the failure says of itself.
    pub fn message(&self) -> (text: String)
        ensures
            text@ == self@.message(),
    {
        match self {
            BuildError::PreflightMissingTools { missing } => {
                let mut text = String::from_str("missing build tool(s): ");
                text.append(missing.as_str());
                text
            },
            BuildError::DisabledRuntime => String::from_str("build disabled by the configuration"),
            BuildError::DisabledFeature => String::from_str(
                "no build recipe is available for the service",
            ),
            BuildError::ScriptFailed { exit_code, log_path } => {
                let mut text = String::from_str("build script failed with exit code ");
                let number = signed_decimal_string(*exit_code);
                text.append(number.as_str());
                text.append("; see log at ");
                text.append(log_path.as_str());
                text
            },
            BuildError::MissingOutput { expected } => {
                let mut text = String::from_str("unknown build output; expected binary at ");
                text.append(expected.as_str());
                text
            },
            BuildError::DirtyWorktree { repo } => {
                let mut text = String::from_str("worktree of ");
                text.append(repo.as_str());
                text.append(" is dirty; cannot build");
                text
            },
            BuildError::OutOfSequence => String::from_str(
                "the resolution was handed an event that it did not wait for",
            ),
        }
    }
}

impl ArtifactErrorView {
    /// What the failure says of itself: what the failure inside says.
    pub open spec fn message(self) -> Seq<char> {
        match self {
            ArtifactErrorView::Input(e) => e.message(),
            ArtifactErrorView::Locate(e) => e.message(),
            ArtifactErrorView::Fetch(e) => e.message(),
            ArtifactErrorView::Verify(e) => e.message(),
            ArtifactErrorView::Unpack(e) => e.message(),
            ArtifactErrorView::Oci(e) => e.message(),
            ArtifactErrorView::Fs(e) => e.message(),
            ArtifactErrorView::Platform(e) => e.message(),
            ArtifactErrorView::Build(e) => e.message(),
        }
    }
}

impl ArtifactError {
    /// What the failure says of itself.
    pub fn message(&self) -> (text: String)
        ensures
            text@ == self@.message(),
    {
        match self {
            ArtifactError::Input(e) => e.message(),
            ArtifactError::Locate(e) => e.message(),
            ArtifactError::Fetch(e) => e.message(),
            ArtifactError::Verify(e) => e.message(),
            ArtifactError::Unpack(e) => e.message(),
            ArtifactError::Oci(e) => e.message(),
            ArtifactError::Fs(e) => e.message(),
            ArtifactError::Platform(e) => e.message(),
            ArtifactError::Build(e) => e.message(),
        }
    }
}

} // verus!
