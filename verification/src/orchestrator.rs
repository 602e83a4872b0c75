//! The build orchestrator: the decisions of a resolution, one step at a time.
//!
//! A resolution is a state machine. It asks for one [`Action`] at a time and
//! is told the outcome as an [`Event`]. The phases of a build follow one
//! another in this order:
//!
//! ```text
//! Preflighting -> ResolvingCommit -> CheckingDirty [-> HashingWorktree]
//!   -> CacheCheckPreLock -> Locking -> CacheCheckPostLock -> Preparing
//!   -> Building -> Validating -> Publishing -> [ProbingVersion]
//!   -> WritingProvenance -> Done
//! ```
//!
//! `Error` can follow any of them. A cache check that finds a valid
//! executable goes straight to `Done`.

use crate::cache::{layout_of, CacheLayoutView};
use crate::error::{
    ArtifactError, ArtifactErrorView, BuildErrorView, FetchErrorView, FsErrorView, InputErrorView,
    LocateErrorView, OciErrorView,
};
use crate::git::GitPolicy;
use crate::identity::{first_defect, Identity, IdentityView, SCHEMA_VERSION};
use crate::path::join;
use crate::provenance::{document, ProvenanceView};
use crate::registry::{ServiceId, ToolSpecView};
use crate::source::{
    ArtifactSourceView, ResolvedArtifact, ResolvedArtifactView, ResolverConfigView,
};
use crate::text::joined;
use crate::validator::{verdict_of, FileFacts, FileFactsView, Verdict};
use vstd::prelude::*;

verus! {

/// What a build was run with.
#[derive(Debug, Clone, Copy, PartialEq, Eq, Structural)]
pub struct RunInfo {
    /// The number of parallel jobs.
    pub jobs: u32,
    /// When the build started, in seconds since the epoch.
    pub started: u64,
}

/// How far the publication of an executable has come.
#[derive(Debug, Clone, Copy, PartialEq, Eq, Structural)]
pub enum PublishStep {
    /// The executable is being copied to its temporary name.
    Copying,
    /// The copy is being renamed to its final name.
    Renaming,
    /// The executable bit of the published copy is being set.
    SettingBit,
}

/// How far the writing of the provenance document has come.
#[derive(Debug, Clone, Copy, PartialEq, Eq, Structural)]
pub enum WriteStep {
    /// The document is being written under its temporary name.
    Writing,
    /// The document is being renamed to its final name.
    Renaming,
}

/// What is fixed about a build when it starts.
#[derive(Debug)]
pub struct BuildJob {
    pub service: ServiceId,
    pub repo: String,
    pub refspec: String,
    pub policy: GitPolicy,
    /// Where the build leaves the executable, relative to the repository or
    /// absolute.
    pub expected_output: String,
    /// The name under which the executable is published.
    pub binary: String,
    pub cache_root: String,
    pub platform: String,
    pub check_header: bool,
    pub default_jobs: Option<u32>,
    /// Whether the executable can be asked for its version.
    pub probe_version: bool,
}

/// The mathematical value of a [`BuildJob`].
pub struct BuildJobView {
    pub service: Seq<char>,
    pub repo: Seq<char>,
    pub refspec: Seq<char>,
    pub policy: GitPolicy,
    pub expected_output: Seq<char>,
    pub binary: Seq<char>,
    pub cache_root: Seq<char>,
    pub platform: Seq<char>,
    pub check_header: bool,
    pub default_jobs: Option<u32>,
    pub probe_version: bool,
}

impl View for BuildJob {
    type V = BuildJobView;

    open spec fn view(&self) -> BuildJobView {
        BuildJobView {
            service: self.service@,
            repo: self.repo@,
            refspec: self.refspec@,
            policy: self.policy,
            expected_output: self.expected_output@,
            binary: self.binary@,
            cache_root: self.cache_root@,
            platform: self.platform@,
            check_header: self.check_header,
            default_jobs: self.default_jobs,
            probe_version: self.probe_version,
        }
    }
}

impl BuildJobView {
    /// The identity of the build at `commit`, with the worktree hash
    /// `worktree_hash` where the worktree is dirty.
    pub open spec fn identity(
        self,
        commit: Seq<char>,
        worktree_hash: Option<Seq<char>>,
    ) -> IdentityView {
        IdentityView {
            service: self.service,
            commit,
            worktree_hash,
            platform: self.platform,
            schema: SCHEMA_VERSION,
        }
    }

    /// The layout of the cache entry of `id`.
    pub open spec fn layout(self, id: IdentityView) -> CacheLayoutView {
        layout_of(self.cache_root, self.service, id.key())
    }

    /// Where the published executable of `id` lies.
    pub open spec fn artifact(self, id: IdentityView) -> Seq<char> {
        self.layout(id).artifact_path(self.binary)
    }

    /// Where the executable of `id` is written before it is published.
    pub open spec fn artifact_temp(self, id: IdentityView) -> Seq<char> {
        self.layout(id).artifact_temp_path(self.binary)
    }

    /// Where the build is expected to leave the executable.
    pub open spec fn expected_path(self) -> Seq<char> {
        join(self.repo, self.expected_output)
    }

    /// The number of jobs of a build on a machine with `cpus` processors:
    /// the configured number, or the number of processors where none is
    /// configured, and one where that number is zero.
    pub open spec fn jobs_for(self, cpus: u32) -> u32 {
        let wanted = match self.default_jobs {
            Some(n) => n,
            None => cpus,
        };
        if wanted == 0 {
            1
        } else {
            wanted
        }
    }

    /// The provenance record of the build of `id` that ran with `run`, whose
    /// executable reported `version`.
    pub open spec fn provenance(
        self,
        id: IdentityView,
        run: RunInfo,
        version: Option<Seq<char>>,
    ) -> ProvenanceView {
        ProvenanceView {
            service: self.service,
            source: "local-repo"@,
            repo: self.repo,
            refspec: self.refspec,
            commit: id.commit,
            dirty: id.dirty(),
            worktree_hash: id.worktree_hash,
            jobs: run.jobs,
            host: id.platform,
            built_at: run.started,
            builder_schema: id.schema,
            version_string: version,
        }
    }
}

/// Where a resolution stands.
#[derive(Debug)]
pub enum Phase {
    /// A local path is being inspected.
    LocalPath { path: String },
    /// The release index is being asked for the asset of a release.
    Locating { service: ServiceId, version: String, platform: String },
    /// The tools that the build needs are being looked for.
    Preflighting { job: BuildJob },
    /// The refspec is being resolved to a commit.
    ResolvingCommit { job: BuildJob },
    /// The worktree is being compared with its commit.
    CheckingDirty { job: BuildJob, commit: String },
    /// The contents of the dirty worktree are being hashed.
    HashingWorktree { job: BuildJob, commit: String },
    /// The cache entry is being looked at, without the lock. With `fixing`,
    /// the executable bit of the cached executable is being set.
    CacheCheckPreLock { job: BuildJob, id: Identity, fixing: bool },
    /// The lock of the cache entry is being waited for.
    Locking { job: BuildJob, id: Identity },
    /// The cache entry is being looked at again, under the lock.
    CacheCheckPostLock { job: BuildJob, id: Identity, fixing: bool },
    /// The log directory is being made, the clock and the processors read.
    Preparing { job: BuildJob, id: Identity },
    /// The build is running.
    Building { job: BuildJob, id: Identity, run: RunInfo },
    /// The output of the build is being inspected.
    Validating { job: BuildJob, id: Identity, run: RunInfo, fixing: bool },
    /// The executable is being published into the cache entry.
    Publishing { job: BuildJob, id: Identity, run: RunInfo, stage: PublishStep },
    /// The published executable is being asked for its version.
    ProbingVersion { job: BuildJob, id: Identity, run: RunInfo },
    /// The provenance document is being written.
    WritingProvenance { job: BuildJob, id: Identity, run: RunInfo, record_stage: WriteStep },
    /// The resolution ended with an artifact.
    Done,
    /// The resolution ended with a failure.
    Error,
}

/// The mathematical value of a [`Phase`].
pub enum PhaseView {
    LocalPath { path: Seq<char> },
    Locating { service: Seq<char>, version: Seq<char>, platform: Seq<char> },
    Preflighting { job: BuildJobView },
    ResolvingCommit { job: BuildJobView },
    CheckingDirty { job: BuildJobView, commit: Seq<char> },
    HashingWorktree { job: BuildJobView, commit: Seq<char> },
    CacheCheckPreLock { job: BuildJobView, id: IdentityView, fixing: bool },
    Locking { job: BuildJobView, id: IdentityView },
    CacheCheckPostLock { job: BuildJobView, id: IdentityView, fixing: bool },
    Preparing { job: BuildJobView, id: IdentityView },
    Building { job: BuildJobView, id: IdentityView, run: RunInfo },
    Validating { job: BuildJobView, id: IdentityView, run: RunInfo, fixing: bool },
    Publishing { job: BuildJobView, id: IdentityView, run: RunInfo, stage: PublishStep },
    ProbingVersion { job: BuildJobView, id: IdentityView, run: RunInfo },
    WritingProvenance {
        job: BuildJobView,
        id: IdentityView,
        run: RunInfo,
        record_stage: WriteStep,
    },
    Done,
    Error,
}

impl View for Phase {
    type V = PhaseView;

    open spec fn view(&self) -> PhaseView {
        match self {
            Phase::LocalPath { path } => PhaseView::LocalPath { path: path@ },
            Phase::Locating { service, version, platform } => PhaseView::Locating {
                service: service@,
                version: version@,
                platform: platform@,
            },
            Phase::Preflighting { job } => PhaseView::Preflighting { job: job@ },
            Phase::ResolvingCommit { job } => PhaseView::ResolvingCommit { job: job@ },
            Phase::CheckingDirty { job, commit } => PhaseView::CheckingDirty {
                job: job@,
                commit: commit@,
            },
            Phase::HashingWorktree { job, commit } => PhaseView::HashingWorktree {
                job: job@,
                commit: commit@,
            },
            Phase::CacheCheckPreLock { job, id, fixing } => PhaseView::CacheCheckPreLock {
                job: job@,
                id: id@,
                fixing: *fixing,
            },
            Phase::Locking { job, id } => PhaseView::Locking { job: job@, id: id@ },
            Phase::CacheCheckPostLock { job, id, fixing } => PhaseView::CacheCheckPostLock {
                job: job@,
                id: id@,
                fixing: *fixing,
            },
            Phase::Preparing { job, id } => PhaseView::Preparing { job: job@, id: id@ },
            Phase::Building { job, id, run } => PhaseView::Building {
                job: job@,
                id: id@,
                run: *run,
            },
            Phase::Validating { job, id, run, fixing } => PhaseView::Validating {
                job: job@,
                id: id@,
                run: *run,
                fixing: *fixing,
            },
            Phase::Publishing { job, id, run, stage } => PhaseView::Publishing {
                job: job@,
                id: id@,
                run: *run,
                stage: *stage,
            },
            Phase::ProbingVersion { job, id, run } => PhaseView::ProbingVersion {
                job: job@,
                id: id@,
                run: *run,
            },
            Phase::WritingProvenance {
                job,
                id,
                run,
                record_stage,
            } => PhaseView::WritingProvenance {
                job: job@,
                id: id@,
                run: *run,
                record_stage: *record_stage,
            },
            Phase::Done => PhaseView::Done,
            Phase::Error => PhaseView::Error,
        }
    }
}

/// What a resolution asks to be done next.
#[derive(Debug)]
pub enum Action {
    /// Report what lies at `path`, symbolic links followed, and with
    /// `read_header` the first bytes of its content.
    Inspect { path: String, read_header: bool },
    /// Set the executable bits of the file at `path`.
    SetExecutable { path: String },
    /// Ask the release index of `service` for the asset of `version` for
    /// `platform`.
    LocateRelease { service: ServiceId, version: String, platform: String },
    /// Report which of `tools` are not installed.
    CheckTools { tools: Vec<String> },
    /// Resolve `refspec` in the repository at `repo` to a full commit.
    ResolveCommit { repo: String, refspec: String },
    /// Report whether the worktree at `repo` has uncommitted changes.
    CheckDirty { repo: String },
    /// Hash the contents of the tracked files of the worktree at `repo`, and
    /// with `hash_untracked` those of the untracked files too.
    HashWorktree { repo: String, hash_untracked: bool },
    /// Make the directories above `lock_path` and take the exclusive lock on
    /// the file, waiting for as long as it takes.
    AcquireLock { lock_path: String },
    /// Make the directory `logs`, and report the time and the number of
    /// processors.
    PrepareBuild { logs: String },
    /// Run the build recipe of `service` in `repo`, with its output in the
    /// new file `log_path`.
    RunBuild { service: ServiceId, repo: String, jobs: u32, log_path: String },
    /// Make the directories above `to` and copy the file `from` there.
    CopyFile { from: String, to: String },
    /// Rename `from` to `to`, in place of what was there.
    Rename { from: String, to: String },
    /// Ask the executable of `service` at `exe` for its version.
    ProbeVersion { service: ServiceId, exe: String },
    /// Make the directories above `path` and write `content` to the file.
    WriteFile { path: String, content: String },
    /// Release the lock if `release_lock` says so, and end with `result`.
    Finish { release_lock: bool, result: Result<ResolvedArtifact, ArtifactError> },
}

/// The mathematical value of an [`Action`].
pub enum ActionView {
    Inspect { path: Seq<char>, read_header: bool },
    SetExecutable { path: Seq<char> },
    LocateRelease { service: Seq<char>, version: Seq<char>, platform: Seq<char> },
    CheckTools { tools: Seq<Seq<char>> },
    ResolveCommit { repo: Seq<char>, refspec: Seq<char> },
    CheckDirty { repo: Seq<char> },
    HashWorktree { repo: Seq<char>, hash_untracked: bool },
    AcquireLock { lock_path: Seq<char> },
    PrepareBuild { logs: Seq<char> },
    RunBuild { service: Seq<char>, repo: Seq<char>, jobs: u32, log_path: Seq<char> },
    CopyFile { from: Seq<char>, to: Seq<char> },
    Rename { from: Seq<char>, to: Seq<char> },
    ProbeVersion { service: Seq<char>, exe: Seq<char> },
    WriteFile { path: Seq<char>, content: Seq<char> },
    Finish { release_lock: bool, result: Result<ResolvedArtifactView, ArtifactErrorView> },
}

impl View for Action {
    type V = ActionView;

    open spec fn view(&self) -> ActionView {
        match self {
            Action::Inspect { path, read_header } => ActionView::Inspect {
                path: path@,
                read_header: *read_header,
            },
            Action::SetExecutable { path } => ActionView::SetExecutable { path: path@ },
            Action::LocateRelease { service, version, platform } => ActionView::LocateRelease {
                service: service@,
                version: version@,
                platform: platform@,
            },
            Action::CheckTools { tools } => ActionView::CheckTools { tools: tools.deep_view() },
            Action::ResolveCommit { repo, refspec } => ActionView::ResolveCommit {
                repo: repo@,
                refspec: refspec@,
            },
            Action::CheckDirty { repo } => ActionView::CheckDirty { repo: repo@ },
            Action::HashWorktree { repo, hash_untracked } => ActionView::HashWorktree {
                repo: repo@,
                hash_untracked: *hash_untracked,
            },
            Action::AcquireLock { lock_path } => ActionView::AcquireLock { lock_path: lock_path@ },
            Action::PrepareBuild { logs } => ActionView::PrepareBuild { logs: logs@ },
            Action::RunBuild { service, repo, jobs, log_path } => ActionView::RunBuild {
                service: service@,
                repo: repo@,
                jobs: *jobs,
                log_path: log_path@,
            },
            Action::CopyFile { from, to } => ActionView::CopyFile { from: from@, to: to@ },
            Action::Rename { from, to } => ActionView::Rename { from: from@, to: to@ },
            Action::ProbeVersion { service, exe } => ActionView::ProbeVersion {
                service: service@,
                exe: exe@,
            },
            Action::WriteFile { path, content } => ActionView::WriteFile {
                path: path@,
                content: content@,
            },
            Action::Finish { release_lock, result } => ActionView::Finish {
                release_lock: *release_lock,
                result: match result {
                    Ok(artifact) => Ok(artifact@),
                    Err(error) => Err(error@),
                },
            },
        }
    }
}

/// What came of an action.
#[derive(Debug)]
pub enum Event {
    /// What lies at the inspected path; `None` where nothing does.
    Inspected { file: Option<FileFacts> },
    /// The action was carried out and there is nothing to report.
    Done,
    /// The address and the digest of the asset of a release; `None` where
    /// the release has none for the platform.
    Located { asset: Option<(String, String)> },
    /// The tools that are not installed.
    ToolsChecked { missing: Vec<String> },
    CommitResolved { commit: String },
    DirtyChecked { dirty: bool },
    WorktreeHashed { hash: String },
    /// The time in seconds since the epoch, and the number of processors.
    Prepared { now: u64, cpus: u32 },
    /// The build ended: with success, or with `failure`.
    Built { failure: Option<ArtifactError> },
    VersionProbed { version: Option<String> },
    /// The action could not be carried out.
    Failed { message: String },
}

/// The mathematical value of an [`Event`].
pub enum EventView {
    Inspected { file: Option<FileFactsView> },
    Done,
    Located { asset: Option<(Seq<char>, Seq<char>)> },
    ToolsChecked { missing: Seq<Seq<char>> },
    CommitResolved { commit: Seq<char> },
    DirtyChecked { dirty: bool },
    WorktreeHashed { hash: Seq<char> },
    Prepared { now: u64, cpus: u32 },
    Built { failure: Option<ArtifactErrorView> },
    VersionProbed { version: Option<Seq<char>> },
    Failed { message: Seq<char> },
}

impl View for Event {
    type V = EventView;

    open spec fn view(&self) -> EventView {
        match self {
            Event::Inspected { file } => EventView::Inspected { file: file.deep_view() },
            Event::Done => EventView::Done,
            Event::Located { asset } => EventView::Located { asset: asset.deep_view() },
            Event::ToolsChecked { missing } => EventView::ToolsChecked {
                missing: missing.deep_view(),
            },
            Event::CommitResolved { commit } => EventView::CommitResolved { commit: commit@ },
            Event::DirtyChecked { dirty } => EventView::DirtyChecked { dirty: *dirty },
            Event::WorktreeHashed { hash } => EventView::WorktreeHashed { hash: hash@ },
            Event::Prepared { now, cpus } => EventView::Prepared { now: *now, cpus: *cpus },
            Event::Built { failure } => EventView::Built {
                failure: match failure {
                    Some(error) => Some(error@),
                    None => None,
                },
            },
            Event::VersionProbed { version } => EventView::VersionProbed {
                version: version.deep_view(),
            },
            Event::Failed { message } => EventView::Failed { message: message@ },
        }
    }
}

/// A phase and the action that it waits for.
pub type Step = (PhaseView, ActionView);

/// The resolution ends with `error`.
pub open spec fn fail(release_lock: bool, error: ArtifactErrorView) -> Step {
    (PhaseView::Error, ActionView::Finish { release_lock, result: Err(error) })
}

/// The resolution ends because the operation named by `context` failed with
/// `message`.
pub open spec fn fail_io(release_lock: bool, context: Seq<char>, message: Seq<char>) -> Step {
    fail(release_lock, ArtifactErrorView::Fs(FsErrorView::Io { context, source: message }))
}

/// The resolution ends because the executable bit of `path` could not be set.
pub open spec fn fail_chmod(release_lock: bool, path: Seq<char>, message: Seq<char>) -> Step {
    fail(release_lock, ArtifactErrorView::Fs(FsErrorView::Chmod { path, source: message }))
}

/// The resolution ends because the event answers no action that was asked.
pub open spec fn out_of_sequence(release_lock: bool) -> Step {
    fail(release_lock, ArtifactErrorView::Build(BuildErrorView::OutOfSequence))
}

/// The resolution ends with the executable at `path`.
pub open spec fn succeed(release_lock: bool, path: Seq<char>) -> Step {
    (
        PhaseView::Done,
        ActionView::Finish {
            release_lock,
            result: Ok(ResolvedArtifactView::Executable { path }),
        },
    )
}

/// What follows the inspection of a local path.
pub open spec fn after_local_path(path: Seq<char>, event: EventView) -> Step {
    match event {
        EventView::Inspected { file } => match verdict_of(file, false) {
            Verdict::Usable => succeed(false, path),
            Verdict::Missing | Verdict::NotRegular => fail(
                false,
                ArtifactErrorView::Input(InputErrorView::NotFound { path }),
            ),
            _ => fail(false, ArtifactErrorView::Input(InputErrorView::NotExecutable { path })),
        },
        EventView::Failed { message } => fail_io(false, "stat "@ + path, message),
        _ => out_of_sequence(false),
    }
}

/// What follows the question to the release index: a release without an
/// asset for the platform ends the resolution; so does one with an asset,
/// since nothing is at hand to download it.
pub open spec fn after_locating(
    service: Seq<char>,
    version: Seq<char>,
    platform: Seq<char>,
    event: EventView,
) -> Step {
    match event {
        EventView::Located { asset } => match asset {
            Some(found) => fail(
                false,
                ArtifactErrorView::Fetch(FetchErrorView::Disabled { url: found.0 }),
            ),
            None => fail(
                false,
                ArtifactErrorView::Locate(LocateErrorView::NoAsset { service, version, platform }),
            ),
        },
        EventView::Failed { message } => fail(
            false,
            ArtifactErrorView::Locate(
                LocateErrorView::ReleaseIndex { service, version, why: message },
            ),
        ),
        _ => out_of_sequence(false),
    }
}

/// What follows the search for the build tools.
pub open spec fn after_preflight(job: BuildJobView, event: EventView) -> Step {
    match event {
        EventView::ToolsChecked { missing } => if missing.len() == 0 {
            (
                PhaseView::ResolvingCommit { job },
                ActionView::ResolveCommit { repo: job.repo, refspec: job.refspec },
            )
        } else {
            fail(
                false,
                ArtifactErrorView::Build(
                    BuildErrorView::PreflightMissingTools { missing: joined(missing, ", "@) },
                ),
            )
        },
        EventView::Failed { message } => fail_io(false, "check build tools"@, message),
        _ => out_of_sequence(false),
    }
}

/// What follows the resolution of the refspec.
pub open spec fn after_commit(job: BuildJobView, event: EventView) -> Step {
    match event {
        EventView::CommitResolved { commit } => (
            PhaseView::CheckingDirty { job, commit },
            ActionView::CheckDirty { repo: job.repo },
        ),
        EventView::Failed { message } => fail_io(
            false,
            "resolve "@ + job.refspec + " in "@ + job.repo,
            message,
        ),
        _ => out_of_sequence(false),
    }
}

/// The first cache check of the build at `commit`, or the failure where the
/// commit, the hash or the platform cannot stand in a key.
pub open spec fn identify(
    job: BuildJobView,
    commit: Seq<char>,
    worktree_hash: Option<Seq<char>>,
) -> Step {
    let id = job.identity(commit, worktree_hash);
    if id.wf() {
        (
            PhaseView::CacheCheckPreLock { job, id, fixing: false },
            ActionView::Inspect { path: job.artifact(id), read_header: job.check_header },
        )
    } else {
        fail(
            false,
            ArtifactErrorView::Input(
                InputErrorView::InvalidSource {
                    service: job.service,
                    reason: first_defect(id)->0,
                },
            ),
        )
    }
}

/// What follows the comparison of the worktree with its commit: a clean
/// worktree is identified by its commit alone; a dirty one ends the
/// resolution where the policy requires a clean one, and is hashed where it
/// does not.
pub open spec fn after_dirty(job: BuildJobView, commit: Seq<char>, event: EventView) -> Step {
    match event {
        EventView::DirtyChecked { dirty } => if !dirty {
            identify(job, commit, None)
        } else {
            match job.policy {
                GitPolicy::RequireClean => fail(
                    false,
                    ArtifactErrorView::Build(BuildErrorView::DirtyWorktree { repo: job.repo }),
                ),
                GitPolicy::AllowDirty { hash_untracked } => (
                    PhaseView::HashingWorktree { job, commit },
                    ActionView::HashWorktree { repo: job.repo, hash_untracked },
                ),
            }
        },
        EventView::Failed { message } => fail_io(false, "status of "@ + job.repo, message),
        _ => out_of_sequence(false),
    }
}

/// What follows the hashing of the worktree.
pub open spec fn after_hash(job: BuildJobView, commit: Seq<char>, event: EventView) -> Step {
    match event {
        EventView::WorktreeHashed { hash } => identify(job, commit, Some(hash)),
        EventView::Failed { message } => fail_io(
            false,
            "hash worktree of "@ + job.repo,
            message,
        ),
        _ => out_of_sequence(false),
    }
}

/// What follows a cache check that found no valid executable: without the
/// lock, the lock is taken; under the lock, the build is prepared.
pub open spec fn after_miss(job: BuildJobView, id: IdentityView, locked: bool) -> Step {
    if locked {
        (PhaseView::Preparing { job, id }, ActionView::PrepareBuild { logs: job.layout(id).logs })
    } else {
        (
            PhaseView::Locking { job, id },
            ActionView::AcquireLock { lock_path: job.layout(id).lock_path },
        )
    }
}

/// The phase of a cache check.
pub open spec fn cache_check(
    job: BuildJobView,
    id: IdentityView,
    locked: bool,
    fixing: bool,
) -> PhaseView {
    if locked {
        PhaseView::CacheCheckPostLock { job, id, fixing }
    } else {
        PhaseView::CacheCheckPreLock { job, id, fixing }
    }
}

/// What follows a cache check, before the lock or under it: a valid
/// executable ends the resolution with its path, once its executable bit is
/// set where it was not; anything else is a miss.
pub open spec fn after_cache_check(
    job: BuildJobView,
    id: IdentityView,
    locked: bool,
    fixing: bool,
    event: EventView,
) -> Step {
    let artifact = job.artifact(id);
    if fixing {
        match event {
            EventView::Done => succeed(locked, artifact),
            EventView::Failed { message } => fail_chmod(locked, artifact, message),
            _ => out_of_sequence(locked),
        }
    } else {
        match event {
            EventView::Inspected { file } => match verdict_of(file, job.check_header) {
                Verdict::Usable => succeed(locked, artifact),
                Verdict::NeedsExecBit => (
                    cache_check(job, id, locked, true),
                    ActionView::SetExecutable { path: artifact },
                ),
                _ => after_miss(job, id, locked),
            },
            EventView::Failed { message } => fail_io(locked, "stat "@ + artifact, message),
            _ => out_of_sequence(locked),
        }
    }
}

/// What follows the wait for the lock.
pub open spec fn after_locking(job: BuildJobView, id: IdentityView, event: EventView) -> Step {
    match event {
        EventView::Done => (
            PhaseView::CacheCheckPostLock { job, id, fixing: false },
            ActionView::Inspect { path: job.artifact(id), read_header: job.check_header },
        ),
        EventView::Failed { message } => fail_io(
            false,
            "lock "@ + job.layout(id).lock_path,
            message,
        ),
        _ => out_of_sequence(false),
    }
}

/// What follows the preparation of the build.
pub open spec fn after_preparing(job: BuildJobView, id: IdentityView, event: EventView) -> Step {
    match event {
        EventView::Prepared { now, cpus } => (
            PhaseView::Building {
                job,
                id,
                run: RunInfo { jobs: job.jobs_for(cpus), started: now },
            },
            ActionView::RunBuild {
                service: job.service,
                repo: job.repo,
                jobs: job.jobs_for(cpus),
                log_path: job.layout(id).log_path(now),
            },
        ),
        EventView::Failed { message } => fail_io(
            true,
            "prepare "@ + job.layout(id).logs,
            message,
        ),
        _ => out_of_sequence(true),
    }
}

/// What follows the build: its failure ends the resolution as it is; after
/// its success the expected output is inspected.
pub open spec fn after_building(
    job: BuildJobView,
    id: IdentityView,
    run: RunInfo,
    event: EventView,
) -> Step {
    match event {
        EventView::Built { failure } => match failure {
            Some(error) => fail(true, error),
            None => (
                PhaseView::Validating { job, id, run, fixing: false },
                ActionView::Inspect { path: job.expected_path(), read_header: job.check_header },
            ),
        },
        EventView::Failed { message } => fail_io(true, "build in "@ + job.repo, message),
        _ => out_of_sequence(true),
    }
}

/// The first step of the publication: the copy to the temporary name.
pub open spec fn start_publishing(job: BuildJobView, id: IdentityView, run: RunInfo) -> Step {
    (
        PhaseView::Publishing { job, id, run, stage: PublishStep::Copying },
        ActionView::CopyFile { from: job.expected_path(), to: job.artifact_temp(id) },
    )
}

/// What follows the inspection of the build's output: a valid executable is
/// published, once its executable bit is set where it was not; anything else
/// ends the resolution with the path that was expected.
pub open spec fn after_validating(
    job: BuildJobView,
    id: IdentityView,
    run: RunInfo,
    fixing: bool,
    event: EventView,
) -> Step {
    let expected = job.expected_path();
    if fixing {
        match event {
            EventView::Done => start_publishing(job, id, run),
            EventView::Failed { message } => fail_chmod(true, expected, message),
            _ => out_of_sequence(true),
        }
    } else {
        match event {
            EventView::Inspected { file } => match verdict_of(file, job.check_header) {
                Verdict::Usable => start_publishing(job, id, run),
                Verdict::NeedsExecBit => (
                    PhaseView::Validating { job, id, run, fixing: true },
                    ActionView::SetExecutable { path: expected },
                ),
                _ => fail(
                    true,
                    ArtifactErrorView::Build(BuildErrorView::MissingOutput { expected }),
                ),
            },
            EventView::Failed { message } => fail_io(true, "stat "@ + expected, message),
            _ => out_of_sequence(true),
        }
    }
}

/// The first step of the writing of the provenance document: the document
/// under its temporary name.
pub open spec fn start_provenance(
    job: BuildJobView,
    id: IdentityView,
    run: RunInfo,
    version: Option<Seq<char>>,
) -> Step {
    (
        PhaseView::WritingProvenance { job, id, run, record_stage: WriteStep::Writing },
        ActionView::WriteFile {
            path: job.layout(id).provenance_temp_path(),
            content: document(job.provenance(id, run, version)),
        },
    )
}

/// What follows a step of the publication.
pub open spec fn after_publishing(
    job: BuildJobView,
    id: IdentityView,
    run: RunInfo,
    step: PublishStep,
    event: EventView,
) -> Step {
    let temp = job.artifact_temp(id);
    let artifact = job.artifact(id);
    match step {
        PublishStep::Copying => match event {
            EventView::Done => (
                PhaseView::Publishing { job, id, run, stage: PublishStep::Renaming },
                ActionView::Rename { from: temp, to: artifact },
            ),
            EventView::Failed { message } => fail_io(
                true,
                "copy "@ + job.expected_path() + " to "@ + temp,
                message,
            ),
            _ => out_of_sequence(true),
        },
        PublishStep::Renaming => match event {
            EventView::Done => (
                PhaseView::Publishing { job, id, run, stage: PublishStep::SettingBit },
                ActionView::SetExecutable { path: artifact },
            ),
            EventView::Failed { message } => fail_io(
                true,
                "rename "@ + temp + " to "@ + artifact,
                message,
            ),
            _ => out_of_sequence(true),
        },
        PublishStep::SettingBit => match event {
            EventView::Done => if job.probe_version {
                (
                    PhaseView::ProbingVersion { job, id, run },
                    ActionView::ProbeVersion { service: job.service, exe: artifact },
                )
            } else {
                start_provenance(job, id, run, None)
            },
            EventView::Failed { message } => fail_chmod(true, artifact, message),
            _ => out_of_sequence(true),
        },
    }
}

/// What follows the version probe: the provenance is written with what the
/// executable reported, and without a version where the probe failed.
pub open spec fn after_probing(
    job: BuildJobView,
    id: IdentityView,
    run: RunInfo,
    event: EventView,
) -> Step {
    match event {
        EventView::VersionProbed { version } => start_provenance(job, id, run, version),
        EventView::Failed { message } => start_provenance(job, id, run, None),
        _ => out_of_sequence(true),
    }
}

/// What follows a step of the writing of the provenance document.
pub open spec fn after_writing(
    job: BuildJobView,
    id: IdentityView,
    run: RunInfo,
    step: WriteStep,
    event: EventView,
) -> Step {
    let temp = job.layout(id).provenance_temp_path();
    let path = job.layout(id).provenance_path();
    match step {
        WriteStep::Writing => match event {
            EventView::Done => (
                PhaseView::WritingProvenance { job, id, run, record_stage: WriteStep::Renaming },
                ActionView::Rename { from: temp, to: path },
            ),
            EventView::Failed { message } => fail_io(true, "write "@ + temp, message),
            _ => out_of_sequence(true),
        },
        WriteStep::Renaming => match event {
            EventView::Done => succeed(true, job.artifact(id)),
            EventView::Failed { message } => fail_io(
                true,
                "rename "@ + temp + " to "@ + path,
                message,
            ),
            _ => out_of_sequence(true),
        },
    }
}

/// The phase and the action that follow `event` in `phase`. An event that
/// does not answer the action that the phase waits for ends the resolution.
/// A resolution that has ended stays as it is.
pub open spec fn step(phase: PhaseView, event: EventView) -> Step {
    match phase {
        PhaseView::LocalPath { path } => after_local_path(path, event),
        PhaseView::Locating { service, version, platform } => after_locating(
            service,
            version,
            platform,
            event,
        ),
        PhaseView::Preflighting { job } => after_preflight(job, event),
        PhaseView::ResolvingCommit { job } => after_commit(job, event),
        PhaseView::CheckingDirty { job, commit } => after_dirty(job, commit, event),
        PhaseView::HashingWorktree { job, commit } => after_hash(job, commit, event),
        PhaseView::CacheCheckPreLock { job, id, fixing } => after_cache_check(
            job,
            id,
            false,
            fixing,
            event,
        ),
        PhaseView::Locking { job, id } => after_locking(job, id, event),
        PhaseView::CacheCheckPostLock { job, id, fixing } => after_cache_check(
            job,
            id,
            true,
            fixing,
            event,
        ),
        PhaseView::Preparing { job, id } => after_preparing(job, id, event),
        PhaseView::Building { job, id, run } => after_building(job, id, run, event),
        PhaseView::Validating { job, id, run, fixing } => after_validating(
            job,
            id,
            run,
            fixing,
            event,
        ),
        PhaseView::Publishing { job, id, run, stage } => after_publishing(
            job,
            id,
            run,
            stage,
            event,
        ),
        PhaseView::ProbingVersion { job, id, run } => after_probing(job, id, run, event),
        PhaseView::WritingProvenance { job, id, run, record_stage } => after_writing(
            job,
            id,
            run,
            record_stage,
            event,
        ),
        PhaseView::Done => (
            PhaseView::Done,
            ActionView::Finish {
                release_lock: false,
                result: Err(ArtifactErrorView::Build(BuildErrorView::OutOfSequence)),
            },
        ),
        PhaseView::Error => out_of_sequence(false),
    }
}

/// Whether the lock of the cache entry is held in `phase`.
pub open spec fn holds_lock(phase: PhaseView) -> bool {
    match phase {
        PhaseView::CacheCheckPostLock { .. }
        | PhaseView::Preparing { .. }
        | PhaseView::Building { .. }
        | PhaseView::Validating { .. }
        | PhaseView::Publishing { .. }
        | PhaseView::ProbingVersion { .. }
        | PhaseView::WritingProvenance { .. } => true,
        _ => false,
    }
}

/// The mathematical value of an [`ArtifactResolver`].
pub struct ArtifactResolverView {
    pub config: ResolverConfigView,
    pub registry: Option<Map<Seq<char>, ToolSpecView>>,
}

/// The descriptor under which `resolver` builds `service`, where it knows
/// the service and has a build recipe for it.
pub open spec fn build_descriptor(
    resolver: ArtifactResolverView,
    service: Seq<char>,
) -> Option<ToolSpecView> {
    match resolver.registry {
        Some(table) => if table.contains_key(service) && table[service].has_build {
            Some(table[service])
        } else {
            None
        },
        None => None,
    }
}

/// Where a build leaves the executable: where the request says; else where
/// the descriptor says; else where the configuration says.
pub open spec fn expected_output_of(
    config: ResolverConfigView,
    spec: ToolSpecView,
    requested: Option<Seq<char>>,
) -> Seq<char> {
    match requested {
        Some(path) => path,
        None => if spec.default_expected_output.len() > 0 {
            spec.default_expected_output
        } else {
            config.default_expected_output
        },
    }
}

/// The first step of the resolution of a release: the question to the
/// release index of the service, or the failure where there is none.
pub open spec fn begin_release(
    resolver: ArtifactResolverView,
    service: Seq<char>,
    version: Seq<char>,
) -> Step {
    if resolver.registry is Some && resolver.registry->0.contains_key(service)
        && resolver.registry->0[service].has_releases {
        (
            PhaseView::Locating { service, version, platform: resolver.config.platform },
            ActionView::LocateRelease { service, version, platform: resolver.config.platform },
        )
    } else {
        fail(
            false,
            ArtifactErrorView::Locate(
                LocateErrorView::ReleaseIndex {
                    service,
                    version,
                    why: "no release index is configured"@,
                },
            ),
        )
    }
}

/// The first step of a build: the failure where builds are forbidden, where
/// no recipe is at hand or where the descriptor names no executable; else
/// the search for the tools.
pub open spec fn begin_build(
    resolver: ArtifactResolverView,
    service: Seq<char>,
    repo: Seq<char>,
    refspec: Option<Seq<char>>,
    policy: GitPolicy,
    expected_output: Option<Seq<char>>,
) -> Step {
    if !resolver.config.allow_build {
        fail(false, ArtifactErrorView::Build(BuildErrorView::DisabledRuntime))
    } else {
        match build_descriptor(resolver, service) {
            None => fail(false, ArtifactErrorView::Build(BuildErrorView::DisabledFeature)),
            Some(spec) => match spec.published_name(resolver.config.platform) {
                None => fail(
                    false,
                    ArtifactErrorView::Input(
                        InputErrorView::InvalidSource {
                            service,
                            reason: "service has no usable binary name"@,
                        },
                    ),
                ),
                Some(binary) => (
                    PhaseView::Preflighting {
                        job: BuildJobView {
                            service,
                            repo,
                            refspec: match refspec {
                                Some(r) => r,
                                None => "HEAD"@,
                            },
                            policy,
                            expected_output: expected_output_of(
                                resolver.config,
                                spec,
                                expected_output,
                            ),
                            binary,
                            cache_root: resolver.config.cache_root,
                            platform: resolver.config.platform,
                            check_header: resolver.config.check_header,
                            default_jobs: resolver.config.default_jobs,
                            probe_version: spec.has_version_probe,
                        },
                    },
                    ActionView::CheckTools { tools: spec.required_tools },
                ),
            },
        }
    }
}

/// The first step of the resolution of `src`. A local path is inspected; a
/// release is looked up as [`begin_release`] says; a build starts as
/// [`begin_build`] says; a download and a container image need collaborators
/// that a resolver does not have, and fail at once.
pub open spec fn begin(resolver: ArtifactResolverView, src: ArtifactSourceView) -> Step {
    match src {
        ArtifactSourceView::LocalPath(path) => (
            PhaseView::LocalPath { path },
            ActionView::Inspect { path, read_header: false },
        ),
        ArtifactSourceView::Release { service, version } => begin_release(
            resolver,
            service,
            version,
        ),
        ArtifactSourceView::Build {
            service,
            repo,
            refspec,
            policy,
            expected_output,
        } => begin_build(resolver, service, repo, refspec, policy, expected_output),
        ArtifactSourceView::Url { url, checksum } => fail(
            false,
            ArtifactErrorView::Fetch(FetchErrorView::Disabled { url }),
        ),
        ArtifactSourceView::OciImage { reference, digest } => fail(
            false,
            ArtifactErrorView::Oci(OciErrorView::Disabled { reference }),
        ),
    }
}

} // verus!
