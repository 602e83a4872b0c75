//! What can be asked for, what comes back, and the configuration of a
//! resolver.

use crate::error::ArtifactError;
use crate::git::GitPolicy;
use crate::registry::ServiceId;
use vstd::prelude::*;

verus! {

/// The node daemons that are known by name.
#[derive(Debug, Clone, Copy, PartialEq, Eq, Structural)]
pub enum NodeKind {
    Zcashd,
    Zebrad,
}

/// The indexers that are known by name.
#[derive(Debug, Clone, Copy, PartialEq, Eq, Structural)]
pub enum IndexerKind {
    Lightwalletd,
    Zainod,
}

impl NodeKind {
    /// The name of the service.
    pub open spec fn name(self) -> Seq<char> {
        match self {
            NodeKind::Zcashd => "zcashd"@,
            NodeKind::Zebrad => "zebrad"@,
        }
    }

    /// The identifier under which the node is requested.
    pub fn service_id(&self) -> (id: ServiceId)
        ensures
            id@ == self.name(),
    {
        match self {
            NodeKind::Zcashd => ServiceId::new_static("zcashd"),
            NodeKind::Zebrad => ServiceId::new_static("zebrad"),
        }
    }
}

impl IndexerKind {
    /// The name of the service.
    pub open spec fn name(self) -> Seq<char> {
        match self {
            IndexerKind::Lightwalletd => "lightwalletd"@,
            IndexerKind::Zainod => "zainod"@,
        }
    }

    /// The identifier under which the indexer is requested.
    pub fn service_id(&self) -> (id: ServiceId)
        ensures
            id@ == self.name(),
    {
        match self {
            IndexerKind::Lightwalletd => ServiceId::new_static("lightwalletd"),
            IndexerKind::Zainod => ServiceId::new_static("zainod"),
        }
    }
}

/// What a resolution hands back: an executable that passed validation when
/// it was returned.
#[derive(Debug)]
pub enum ResolvedArtifact {
    Executable { path: String },
}

/// The mathematical value of a [`ResolvedArtifact`].
pub enum ResolvedArtifactView {
    Executable { path: Seq<char> },
}

impl View for ResolvedArtifact {
    type V = ResolvedArtifactView;

    open spec fn view(&self) -> ResolvedArtifactView {
        match self {
            ResolvedArtifact::Executable { path } => ResolvedArtifactView::Executable {
                path: path@,
            },
        }
    }
}

impl Clone for ResolvedArtifact {
    fn clone(&self) -> (res: Self)
        ensures
            res == *self,
    {
        match self {
            ResolvedArtifact::Executable { path } => ResolvedArtifact::Executable {
                path: path.clone(),
            },
        }
    }
}

/// Anything that turns a request into an executable, by whatever means.
pub trait ArtifactProvider {
    fn resolve(&self, src: &ArtifactSource) -> Result<ResolvedArtifact, ArtifactError>;
}

/// Where an artifact is to come from.
#[derive(Debug)]
pub enum ArtifactSource {
    /// An executable that is already on disk.
    LocalPath(String),
    /// A published release of a service.
    Release { service: ServiceId, version: String },
    /// A build from a local repository.
    Build {
        service: ServiceId,
        repo: String,
        /// Any of a tag, a branch or a commit; `HEAD` where there is none.
        refspec: Option<String>,
        /// Whether the repository may hold uncommitted changes.
        policy: GitPolicy,
        /// Where the build leaves the executable, if not at the service's
        /// usual place.
        expected_output: Option<String>,
    },
    /// A download from an address, with the digest it must have.
    Url { url: String, checksum: String },
    /// A container image.
    OciImage { reference: String, digest: Option<String> },
}

/// The mathematical value of an [`ArtifactSource`].
pub enum ArtifactSourceView {
    LocalPath(Seq<char>),
    Release { service: Seq<char>, version: Seq<char> },
    Build {
        service: Seq<char>,
        repo: Seq<char>,
        refspec: Option<Seq<char>>,
        policy: GitPolicy,
        expected_output: Option<Seq<char>>,
    },
    Url { url: Seq<char>, checksum: Seq<char> },
    OciImage { reference: Seq<char>, digest: Option<Seq<char>> },
}

impl View for ArtifactSource {
    type V = ArtifactSourceView;

    open spec fn view(&self) -> ArtifactSourceView {
        match self {
            ArtifactSource::LocalPath(path) => ArtifactSourceView::LocalPath(path@),
            ArtifactSource::Release { service, version } => ArtifactSourceView::Release {
                service: service@,
                version: version@,
            },
            ArtifactSource::Build {
                service,
                repo,
                refspec,
                policy,
                expected_output,
            } => ArtifactSourceView::Build {
                service: service@,
                repo: repo@,
                refspec: refspec.deep_view(),
                policy: *policy,
                expected_output: expected_output.deep_view(),
            },
            ArtifactSource::Url { url, checksum } => ArtifactSourceView::Url {
                url: url@,
                checksum: checksum@,
            },
            ArtifactSource::OciImage { reference, digest } => ArtifactSourceView::OciImage {
                reference: reference@,
                digest: digest.deep_view(),
            },
        }
    }
}

/// How builds are run.
#[derive(Debug)]
pub struct BuildConfig {
    /// Whether anything may be built at all.
    pub allow_build: bool,
    /// The number of parallel jobs; the number of processors where there is
    /// none.
    pub default_jobs: Option<u32>,
    /// The policy of a request that is made with [`BuildConfig::source_for`].
    pub default_policy: GitPolicy,
    /// Where a build leaves the executable, for a service whose descriptor
    /// does not say.
    pub default_expected_output: String,
}

/// The configuration of a resolver. It is handed over once and never changed.
#[derive(Debug)]
pub struct ResolverConfig {
    /// The directory below which the cache entries lie.
    pub cache_root: String,
    /// The platform that artifacts are resolved for, such as `linux-x86_64`.
    pub platform: String,
    /// Whether the validator also looks at how a file's content begins.
    pub check_header: bool,
    pub build_config: BuildConfig,
}

/// The mathematical value of a [`ResolverConfig`].
pub struct ResolverConfigView {
    pub cache_root: Seq<char>,
    pub platform: Seq<char>,
    pub check_header: bool,
    pub allow_build: bool,
    pub default_jobs: Option<u32>,
    pub default_policy: GitPolicy,
    pub default_expected_output: Seq<char>,
}

impl View for ResolverConfig {
    type V = ResolverConfigView;

    open spec fn view(&self) -> ResolverConfigView {
        ResolverConfigView {
            cache_root: self.cache_root@,
            platform: self.platform@,
            check_header: self.check_header,
            allow_build: self.build_config.allow_build,
            default_jobs: self.build_config.default_jobs,
            default_policy: self.build_config.default_policy,
            default_expected_output: self.build_config.default_expected_output@,
        }
    }
}

impl BuildConfig {
    /// The request to build `service` from the repository at `repo`, at
    /// `HEAD`, under the default policy, with the executable at the
    /// service's usual place.
    pub fn source_for(&self, service: ServiceId, repo: String) -> (src: ArtifactSource)
        ensures
            src@ == (ArtifactSourceView::Build {
                service: service@,
                repo: repo@,
                refspec: None,
                policy: self.default_policy,
                expected_output: None,
            }),
    {
        ArtifactSource::Build {
            service,
            repo,
            refspec: None,
            policy: self.default_policy,
            expected_output: None,
        }
    }
}

} // verus!
