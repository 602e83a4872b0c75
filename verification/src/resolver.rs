//! The resolver: the entry point of a resolution and its steps in
//! executable form.

use crate::cache::{cache_paths, CacheLayout};
use crate::error::{
    ArtifactError, ArtifactErrorView, BuildError, BuildErrorView, FetchError, FsError, InputError,
    LocateError, OciError,
};
use crate::git::GitPolicy;
use crate::identity::{build_key, Identity, SCHEMA_VERSION};
use crate::orchestrator::{
    after_building, after_cache_check, after_commit, after_dirty, after_hash, after_local_path,
    after_locating, after_locking, after_miss, after_preflight, after_preparing, after_probing,
    after_publishing, after_validating, after_writing, begin, begin_build, begin_release, fail,
    fail_chmod, fail_io, identify, out_of_sequence, start_provenance, start_publishing, step,
    succeed, Action, ArtifactResolverView, BuildJob, Event, EventView, Phase, PhaseView,
    PublishStep, RunInfo, WriteStep,
};
use crate::path::join_path;
use crate::provenance::Provenance;
use crate::registry::{Registry, ServiceId, ToolSpec};
use crate::source::{ArtifactSource, ResolvedArtifact, ResolverConfig};
use crate::text::{clone_names, clone_optional, join_names, phrase, phrase_pair};
use crate::validator::{looks_executable, Verdict};
use vstd::prelude::*;
use vstd::string::*;

verus! {

impl BuildJob {
    /// The layout of the cache entry of `id`.
    pub fn layout(&self, id: &Identity) -> (layout: CacheLayout)
        ensures
            layout@ == self@.layout(id@),
    {
        let key = build_key(id);
        cache_paths(self.cache_root.as_str(), self.service.as_str(), key.as_str())
    }

    /// Where the published executable of `id` lies.
    pub fn artifact(&self, id: &Identity) -> (path: String)
        ensures
            path@ == self@.artifact(id@),
    {
        self.layout(id).artifact_path(self.binary.as_str())
    }

    /// Where the executable of `id` is written before it is published.
    pub fn artifact_temp(&self, id: &Identity) -> (path: String)
        ensures
            path@ == self@.artifact_temp(id@),
    {
        self.layout(id).artifact_temp_path(self.binary.as_str())
    }

    /// Where the build is expected to leave the executable.
    pub fn expected_path(&self) -> (path: String)
        ensures
            path@ == self@.expected_path(),
    {
        join_path(self.repo.as_str(), self.expected_output.as_str())
    }

    /// The number of jobs of a build on a machine with `cpus` processors.
    pub fn jobs_for(&self, cpus: u32) -> (jobs: u32)
        ensures
            jobs == self@.jobs_for(cpus),
    {
        let wanted = match self.default_jobs {
            Some(n) => n,
            None => cpus,
        };
        if wanted == 0 {
            1
        } else {
            wanted
        }
    }

    /// The provenance record of the build of `id` that ran with `run`, whose
    /// executable reported `version`.
    pub fn provenance(&self, id: &Identity, run: RunInfo, version: Option<String>) -> (record:
        Provenance)
        ensures
            record@ == self@.provenance(id@, run, version.deep_view()),
    {
        Provenance {
            service: self.service.name(),
            source: String::from_str("local-repo"),
            repo: self.repo.clone(),
            refspec: self.refspec.clone(),
            commit: id.commit.clone(),
            dirty: id.is_dirty(),
            worktree_hash: clone_optional(&id.worktree_hash),
            jobs: run.jobs,
            host: id.platform.clone(),
            built_at: run.started,
            builder_schema: id.schema,
            version_string: version,
        }
    }
}

/// Ends the resolution with `error`.
fn failed(release_lock: bool, error: ArtifactError) -> (r: (Phase, Action))
    ensures
        (r.0@, r.1@) == fail(release_lock, error@),
{
    (Phase::Error, Action::Finish { release_lock, result: Err(error) })
}

/// Ends the resolution because the operation named by `context` failed.
fn failed_io(release_lock: bool, context: String, message: String) -> (r: (Phase, Action))
    ensures
        (r.0@, r.1@) == fail_io(release_lock, context@, message@),
{
    failed(release_lock, ArtifactError::Fs(FsError::Io { context, source: message }))
}

/// Ends the resolution because the executable bit of `path` could not be set.
fn failed_chmod(release_lock: bool, path: String, message: String) -> (r: (Phase, Action))
    ensures
        (r.0@, r.1@) == fail_chmod(release_lock, path@, message@),
{
    failed(release_lock, ArtifactError::Fs(FsError::Chmod { path, source: message }))
}

/// Ends the resolution because the event answers no action that was asked.
fn unexpected(release_lock: bool) -> (r: (Phase, Action))
    ensures
        (r.0@, r.1@) == out_of_sequence(release_lock),
{
    failed(release_lock, ArtifactError::Build(BuildError::OutOfSequence))
}

/// Ends the resolution with the executable at `path`.
fn resolved(release_lock: bool, path: String) -> (r: (Phase, Action))
    ensures
        (r.0@, r.1@) == succeed(release_lock, path@),
{
    (
        Phase::Done,
        Action::Finish { release_lock, result: Ok(ResolvedArtifact::Executable { path }) },
    )
}

fn on_local_path(path: String, event: Event) -> (r: (Phase, Action))
    ensures
        (r.0@, r.1@) == after_local_path(path@, event@),
{
    match event {
        Event::Inspected { file } => match looks_executable(&file, false) {
            Verdict::Usable => resolved(false, path),
            Verdict::Missing | Verdict::NotRegular => failed(
                false,
                ArtifactError::Input(InputError::NotFound { path }),
            ),
            _ => failed(false, ArtifactError::Input(InputError::NotExecutable { path })),
        },
        Event::Failed { message } => failed_io(false, phrase("stat ", path.as_str()), message),
        _ => unexpected(false),
    }
}

fn on_locating(service: ServiceId, version: String, platform: String, event: Event) -> (r: (
    Phase,
    Action,
))
    ensures
        (r.0@, r.1@) == after_locating(service@, version@, platform@, event@),
{
    match event {
        Event::Located { asset } => match asset {
            Some(found) => failed(
                false,
                ArtifactError::Fetch(FetchError::Disabled { url: found.0 }),
            ),
            None => failed(
                false,
                ArtifactError::Locate(LocateError::NoAsset { service, version, platform }),
            ),
        },
        Event::Failed { message } => failed(
            false,
            ArtifactError::Locate(LocateError::ReleaseIndex { service, version, why: message }),
        ),
        _ => unexpected(false),
    }
}

fn on_preflight(job: BuildJob, event: Event) -> (r: (Phase, Action))
    ensures
        (r.0@, r.1@) == after_preflight(job@, event@),
{
    match event {
        Event::ToolsChecked { missing } => {
            if missing.len() == 0 {
                let repo = job.repo.clone();
                let refspec = job.refspec.clone();
                (Phase::ResolvingCommit { job }, Action::ResolveCommit { repo, refspec })
            } else {
                failed(
                    false,
                    ArtifactError::Build(
                        BuildError::PreflightMissingTools { missing: join_names(&missing, ", ") },
                    ),
                )
            }
        },
        Event::Failed { message } => failed_io(
            false,
            String::from_str("check build tools"),
            message,
        ),
        _ => unexpected(false),
    }
}

fn on_commit(job: BuildJob, event: Event) -> (r: (Phase, Action))
    ensures
        (r.0@, r.1@) == after_commit(job@, event@),
{
    match event {
        Event::CommitResolved { commit } => {
            let repo = job.repo.clone();
            (Phase::CheckingDirty { job, commit }, Action::CheckDirty { repo })
        },
        Event::Failed { message } => failed_io(
            false,
            phrase_pair("resolve ", job.refspec.as_str(), " in ", job.repo.as_str()),
            message,
        ),
        _ => unexpected(false),
    }
}

fn identified(job: BuildJob, commit: String, worktree_hash: Option<String>) -> (r: (
    Phase,
    Action,
))
    ensures
        (r.0@, r.1@) == identify(job@, commit@, worktree_hash.deep_view()),
{
    let made = Identity::new(
        job.service.clone(),
        commit,
        worktree_hash,
        job.platform.clone(),
        SCHEMA_VERSION,
    );
    match made {
        Ok(id) => {
            let path = job.artifact(&id);
            let read_header = job.check_header;
            (Phase::CacheCheckPreLock { job, id, fixing: false }, Action::Inspect {
                path,
                read_header,
            })
        },
        Err(error) => failed(false, ArtifactError::Input(error)),
    }
}

fn on_dirty(job: BuildJob, commit: String, event: Event) -> (r: (Phase, Action))
    ensures
        (r.0@, r.1@) == after_dirty(job@, commit@, event@),
{
    match event {
        Event::DirtyChecked { dirty } => {
            if !dirty {
                identified(job, commit, None)
            } else {
                match job.policy {
                    GitPolicy::RequireClean => failed(
                        false,
                        ArtifactError::Build(BuildError::DirtyWorktree { repo: job.repo }),
                    ),
                    GitPolicy::AllowDirty { hash_untracked } => {
                        let repo = job.repo.clone();
                        (Phase::HashingWorktree { job, commit }, Action::HashWorktree {
                            repo,
                            hash_untracked,
                        })
                    },
                }
            }
        },
        Event::Failed { message } => failed_io(
            false,
            phrase("status of ", job.repo.as_str()),
            message,
        ),
        _ => unexpected(false),
    }
}

fn on_hash(job: BuildJob, commit: String, event: Event) -> (r: (Phase, Action))
    ensures
        (r.0@, r.1@) == after_hash(job@, commit@, event@),
{
    match event {
        Event::WorktreeHashed { hash } => identified(job, commit, Some(hash)),
        Event::Failed { message } => failed_io(
            false,
            phrase("hash worktree of ", job.repo.as_str()),
            message,
        ),
        _ => unexpected(false),
    }
}

fn on_miss(job: BuildJob, id: Identity, locked: bool) -> (r: (Phase, Action))
    ensures
        (r.0@, r.1@) == after_miss(job@, id@, locked),
{
    let layout = job.layout(&id);
    if locked {
        (Phase::Preparing { job, id }, Action::PrepareBuild { logs: layout.logs })
    } else {
        (Phase::Locking { job, id }, Action::AcquireLock { lock_path: layout.lock_path })
    }
}

fn on_cache_check(job: BuildJob, id: Identity, locked: bool, fixing: bool, event: Event) -> (r: (
    Phase,
    Action,
))
    ensures
        (r.0@, r.1@) == after_cache_check(job@, id@, locked, fixing, event@),
{
    let artifact = job.artifact(&id);
    if fixing {
        match event {
            Event::Done => resolved(locked, artifact),
            Event::Failed { message } => failed_chmod(locked, artifact, message),
            _ => unexpected(locked),
        }
    } else {
        match event {
            Event::Inspected { file } => match looks_executable(&file, job.check_header) {
                Verdict::Usable => resolved(locked, artifact),
                Verdict::NeedsExecBit => {
                    let phase = if locked {
                        Phase::CacheCheckPostLock { job, id, fixing: true }
                    } else {
                        Phase::CacheCheckPreLock { job, id, fixing: true }
                    };
                    (phase, Action::SetExecutable { path: artifact })
                },
                _ => on_miss(job, id, locked),
            },
            Event::Failed { message } => failed_io(
                locked,
                phrase("stat ", artifact.as_str()),
                message,
            ),
            _ => unexpected(locked),
        }
    }
}

fn on_locking(job: BuildJob, id: Identity, event: Event) -> (r: (Phase, Action))
    ensures
        (r.0@, r.1@) == after_locking(job@, id@, event@),
{
    match event {
        Event::Done => {
            let path = job.artifact(&id);
            let read_header = job.check_header;
            (Phase::CacheCheckPostLock { job, id, fixing: false }, Action::Inspect {
                path,
                read_header,
            })
        },
        Event::Failed { message } => {
            let layout = job.layout(&id);
            failed_io(false, phrase("lock ", layout.lock_path.as_str()), message)
        },
        _ => unexpected(false),
    }
}

fn on_preparing(job: BuildJob, id: Identity, event: Event) -> (r: (Phase, Action))
    ensures
        (r.0@, r.1@) == after_preparing(job@, id@, event@),
{
    let layout = job.layout(&id);
    match event {
        Event::Prepared { now, cpus } => {
            let jobs = job.jobs_for(cpus);
            let action = Action::RunBuild {
                service: job.service.clone(),
                repo: job.repo.clone(),
                jobs,
                log_path: layout.log_path(now),
            };
            (Phase::Building { job, id, run: RunInfo { jobs, started: now } }, action)
        },
        Event::Failed { message } => failed_io(
            true,
            phrase("prepare ", layout.logs.as_str()),
            message,
        ),
        _ => unexpected(true),
    }
}

fn on_building(job: BuildJob, id: Identity, run: RunInfo, event: Event) -> (r: (Phase, Action))
    ensures
        (r.0@, r.1@) == after_building(job@, id@, run, event@),
{
    match event {
        Event::Built { failure } => match failure {
            Some(error) => failed(true, error),
            None => {
                let path = job.expected_path();
                let read_header = job.check_header;
                (Phase::Validating { job, id, run, fixing: false }, Action::Inspect {
                    path,
                    read_header,
                })
            },
        },
        Event::Failed { message } => failed_io(
            true,
            phrase("build in ", job.repo.as_str()),
            message,
        ),
        _ => unexpected(true),
    }
}

fn publishing(job: BuildJob, id: Identity, run: RunInfo) -> (r: (Phase, Action))
    ensures
        (r.0@, r.1@) == start_publishing(job@, id@, run),
{
    let from = job.expected_path();
    let to = job.artifact_temp(&id);
    (Phase::Publishing { job, id, run, stage: PublishStep::Copying }, Action::CopyFile { from, to })
}

fn on_validating(job: BuildJob, id: Identity, run: RunInfo, fixing: bool, event: Event) -> (r: (
    Phase,
    Action,
))
    ensures
        (r.0@, r.1@) == after_validating(job@, id@, run, fixing, event@),
{
    let expected = job.expected_path();
    if fixing {
        match event {
            Event::Done => publishing(job, id, run),
            Event::Failed { message } => failed_chmod(true, expected, message),
            _ => unexpected(true),
        }
    } else {
        match event {
            Event::Inspected { file } => match looks_executable(&file, job.check_header) {
                Verdict::Usable => publishing(job, id, run),
                Verdict::NeedsExecBit => (
                    Phase::Validating { job, id, run, fixing: true },
                    Action::SetExecutable { path: expected },
                ),
                _ => failed(true, ArtifactError::Build(BuildError::MissingOutput { expected })),
            },
            Event::Failed { message } => failed_io(
                true,
                phrase("stat ", expected.as_str()),
                message,
            ),
            _ => unexpected(true),
        }
    }
}

fn writing(job: BuildJob, id: Identity, run: RunInfo, version: Option<String>) -> (r: (
    Phase,
    Action,
))
    ensures
        (r.0@, r.1@) == start_provenance(job@, id@, run, version.deep_view()),
{
    let path = job.layout(&id).provenance_temp_path();
    let content = job.provenance(&id, run, version).render();
    (
        Phase::WritingProvenance { job, id, run, record_stage: WriteStep::Writing },
        Action::WriteFile { path, content },
    )
}

fn on_publishing(job: BuildJob, id: Identity, run: RunInfo, step: PublishStep, event: Event) -> (r:
    (Phase, Action))
    ensures
        (r.0@, r.1@) == after_publishing(job@, id@, run, step, event@),
{
    let temp = job.artifact_temp(&id);
    let artifact = job.artifact(&id);
    match step {
        PublishStep::Copying => match event {
            Event::Done => (
                Phase::Publishing { job, id, run, stage: PublishStep::Renaming },
                Action::Rename { from: temp, to: artifact },
            ),
            Event::Failed { message } => {
                let from = job.expected_path();
                failed_io(true, phrase_pair("copy ", from.as_str(), " to ", temp.as_str()), message)
            },
            _ => unexpected(true),
        },
        PublishStep::Renaming => match event {
            Event::Done => (
                Phase::Publishing { job, id, run, stage: PublishStep::SettingBit },
                Action::SetExecutable { path: artifact },
            ),
            Event::Failed { message } => failed_io(
                true,
                phrase_pair("rename ", temp.as_str(), " to ", artifact.as_str()),
                message,
            ),
            _ => unexpected(true),
        },
        PublishStep::SettingBit => match event {
            Event::Done => {
                if job.probe_version {
                    let service = job.service.clone();
                    (Phase::ProbingVersion { job, id, run }, Action::ProbeVersion {
                        service,
                        exe: artifact,
                    })
                } else {
                    writing(job, id, run, None)
                }
            },
            Event::Failed { message } => failed_chmod(true, artifact, message),
            _ => unexpected(true),
        },
    }
}

fn on_probing(job: BuildJob, id: Identity, run: RunInfo, event: Event) -> (r: (Phase, Action))
    ensures
        (r.0@, r.1@) == after_probing(job@, id@, run, event@),
{
    match event {
        Event::VersionProbed { version } => writing(job, id, run, version),
        Event::Failed { message } => writing(job, id, run, None),
        _ => unexpected(true),
    }
}

fn on_writing(job: BuildJob, id: Identity, run: RunInfo, step: WriteStep, event: Event) -> (r: (
    Phase,
    Action,
))
    ensures
        (r.0@, r.1@) == after_writing(job@, id@, run, step, event@),
{
    let layout = job.layout(&id);
    let temp = layout.provenance_temp_path();
    let path = layout.provenance_path();
    match step {
        WriteStep::Writing => match event {
            Event::Done => (
                Phase::WritingProvenance { job, id, run, record_stage: WriteStep::Renaming },
                Action::Rename { from: temp, to: path },
            ),
            Event::Failed { message } => failed_io(
                true,
                phrase("write ", temp.as_str()),
                message,
            ),
            _ => unexpected(true),
        },
        WriteStep::Renaming => match event {
            Event::Done => resolved(true, job.artifact(&id)),
            Event::Failed { message } => failed_io(
                true,
                phrase_pair("rename ", temp.as_str(), " to ", path.as_str()),
                message,
            ),
            _ => unexpected(true),
        },
    }
}

/// A resolution under way: the phase it is in.
#[derive(Debug)]
pub struct Resolution {
    phase: Phase,
}

impl View for Resolution {
    type V = PhaseView;

    closed spec fn view(&self) -> PhaseView {
        self.phase@
    }
}

impl Resolution {
    /// The phase that the resolution is in.
    pub fn phase(&self) -> (phase: &Phase)
        ensures
            phase@ == self@,
    {
        &self.phase
    }

    /// Whether the resolution has ended.
    pub fn is_finished(&self) -> (finished: bool)
        ensures
            finished == (self@ is Done || self@ is Error),
    {
        match self.phase {
            Phase::Done => true,
            Phase::Error => true,
            _ => false,
        }
    }

    /// Takes `event` as the outcome of the action that the resolution waits
    /// for, and answers with the resolution as it then stands and the next
    /// action.
    pub fn advance(self, event: Event) -> (r: (Resolution, Action))
        ensures
            (r.0@, r.1@) == step(self@, event@),
    {
        let (phase, action) = match self.phase {
            Phase::LocalPath { path } => on_local_path(path, event),
            Phase::Locating { service, version, platform } => on_locating(
                service,
                version,
                platform,
                event,
            ),
            Phase::Preflighting { job } => on_preflight(job, event),
            Phase::ResolvingCommit { job } => on_commit(job, event),
            Phase::CheckingDirty { job, commit } => on_dirty(job, commit, event),
            Phase::HashingWorktree { job, commit } => on_hash(job, commit, event),
            Phase::CacheCheckPreLock { job, id, fixing } => on_cache_check(
                job,
                id,
                false,
                fixing,
                event,
            ),
            Phase::Locking { job, id } => on_locking(job, id, event),
            Phase::CacheCheckPostLock { job, id, fixing } => on_cache_check(
                job,
                id,
                true,
                fixing,
                event,
            ),
            Phase::Preparing { job, id } => on_preparing(job, id, event),
            Phase::Building { job, id, run } => on_building(job, id, run, event),
            Phase::Validating { job, id, run, fixing } => on_validating(
                job,
                id,
                run,
                fixing,
                event,
            ),
            Phase::Publishing { job, id, run, stage } => on_publishing(job, id, run, stage, event),
            Phase::ProbingVersion { job, id, run } => on_probing(job, id, run, event),
            Phase::WritingProvenance { job, id, run, record_stage } => on_writing(
                job,
                id,
                run,
                record_stage,
                event,
            ),
            Phase::Done => (
                Phase::Done,
                Action::Finish {
                    release_lock: false,
                    result: Err(ArtifactError::Build(BuildError::OutOfSequence)),
                },
            ),
            Phase::Error => unexpected(false),
        };
        (Resolution { phase }, action)
    }
}

/// The entry point of resolutions: a configuration, and what is known about
/// the services.
pub struct ArtifactResolver {
    config: ResolverConfig,
    registry: Option<Registry>,
}

impl View for ArtifactResolver {
    type V = ArtifactResolverView;

    closed spec fn view(&self) -> ArtifactResolverView {
        ArtifactResolverView {
            config: self.config@,
            registry: match self.registry {
                Some(registry) => Some(registry@),
                None => None,
            },
        }
    }
}

impl ArtifactResolver {
    /// A resolver that knows no service.
    pub fn new(cfg: ResolverConfig) -> (resolver: Self)
        ensures
            resolver@ == (ArtifactResolverView { config: cfg@, registry: None }),
    {
        Self { config: cfg, registry: None }
    }

    /// A resolver that knows the services of `registry`.
    pub fn with_registry(cfg: ResolverConfig, registry: Registry) -> (resolver: Self)
        ensures
            resolver@ == (ArtifactResolverView { config: cfg@, registry: Some(registry@) }),
    {
        Self { config: cfg, registry: Some(registry) }
    }

    /// The configuration that the resolver was made with.
    pub fn config(&self) -> (cfg: &ResolverConfig)
        ensures
            cfg@ == self@.config,
    {
        &self.config
    }

    /// The registry that the resolver was made with.
    pub fn registry(&self) -> (registry: Option<&Registry>)
        ensures
            match registry {
                Some(r) => self@.registry == Some(r@),
                None => self@.registry is None,
            },
    {
        self.registry.as_ref()
    }

    fn start_build(
        &self,
        service: &ServiceId,
        repo: &String,
        refspec: &Option<String>,
        policy: GitPolicy,
        expected_output: &Option<String>,
    ) -> (r: (Phase, Action))
        ensures
            (r.0@, r.1@) == begin_build(
                self@,
                service@,
                repo@,
                refspec.deep_view(),
                policy,
                expected_output.deep_view(),
            ),
    {
        if !self.config.build_config.allow_build {
            return failed(false, ArtifactError::Build(BuildError::DisabledRuntime));
        }
        let found = match &self.registry {
            Some(registry) => registry.get(service),
            None => None,
        };
        let spec = match found {
            Some(spec) => spec,
            None => {
                return failed(false, ArtifactError::Build(BuildError::DisabledFeature));
            },
        };
        if spec.build.is_none() {
            return failed(false, ArtifactError::Build(BuildError::DisabledFeature));
        }
        let binary = match spec.published_name(self.config.platform.as_str()) {
            Some(name) => name,
            None => {
                return failed(
                    false,
                    ArtifactError::Input(
                        InputError::InvalidSource {
                            service: service.clone(),
                            reason: String::from_str("service has no usable binary name"),
                        },
                    ),
                );
            },
        };
        let expected = match expected_output {
            Some(path) => path.clone(),
            None => {
                if spec.default_expected_output.as_str().unicode_len() > 0 {
                    spec.default_expected_output.clone()
                } else {
                    self.config.build_config.default_expected_output.clone()
                }
            },
        };
        let job = BuildJob {
            service: service.clone(),
            repo: repo.clone(),
            refspec: match refspec {
                Some(r) => r.clone(),
                None => String::from_str("HEAD"),
            },
            policy,
            expected_output: expected,
            binary,
            cache_root: self.config.cache_root.clone(),
            platform: self.config.platform.clone(),
            check_header: self.config.check_header,
            default_jobs: self.config.build_config.default_jobs,
            probe_version: spec.version_probe.is_some(),
        };
        let tools = clone_names(&spec.required_tools);
        (Phase::Preflighting { job }, Action::CheckTools { tools })
    }

    fn start_release(&self, service: &ServiceId, version: &String) -> (r: (Phase, Action))
        ensures
            (r.0@, r.1@) == begin_release(self@, service@, version@),
    {
        let found = match &self.registry {
            Some(registry) => registry.get(service),
            None => None,
        };
        let indexed = match found {
            Some(spec) => spec.releases.is_some(),
            None => false,
        };
        if indexed {
            (
                Phase::Locating {
                    service: service.clone(),
                    version: version.clone(),
                    platform: self.config.platform.clone(),
                },
                Action::LocateRelease {
                    service: service.clone(),
                    version: version.clone(),
                    platform: self.config.platform.clone(),
                },
            )
        } else {
            failed(
                false,
                ArtifactError::Locate(
                    LocateError::ReleaseIndex {
                        service: service.clone(),
                        version: version.clone(),
                        why: String::from_str("no release index is configured"),
                    },
                ),
            )
        }
    }

    /// Starts the resolution of `src`: answers with the resolution and the
    /// first action to carry out.
    pub fn resolve(&self, src: &ArtifactSource) -> (r: (Resolution, Action))
        ensures
            (r.0@, r.1@) == begin(self@, src@),
    {
        let (phase, action) = match src {
            ArtifactSource::LocalPath(path) => (
                Phase::LocalPath { path: path.clone() },
                Action::Inspect { path: path.clone(), read_header: false },
            ),
            ArtifactSource::Release { service, version } => self.start_release(service, version),
            ArtifactSource::Build {
                service,
                repo,
                refspec,
                policy,
                expected_output,
            } => self.start_build(service, repo, refspec, *policy, expected_output),
            ArtifactSource::Url { url, checksum } => failed(
                false,
                ArtifactError::Fetch(FetchError::Disabled { url: url.clone() }),
            ),
            ArtifactSource::OciImage { reference, digest } => failed(
                false,
                ArtifactError::Oci(OciError::Disabled { reference: reference.clone() }),
            ),
        };
        (Resolution { phase }, action)
    }
}

/// The event that reports how a build ended: its failure, or its success
/// whatever path it named.
pub fn built_event(result: Result<String, ArtifactError>) -> (event: Event)
    ensures
        event@ == (EventView::Built {
            failure: match result {
                Ok(_) => None,
                Err(error) => Some(error@),
            },
        }),
{
    match result {
        Ok(_) => Event::Built { failure: None },
        Err(error) => Event::Built { failure: Some(error) },
    }
}

/// The event that reports what a release index answered: the address and
/// the digest of the asset that it named, or that it named none.
pub fn located_event(asset: Option<(String, String)>) -> (event: Event)
    ensures
        event@ == (EventView::Located { asset: asset.deep_view() }),
{
    Event::Located { asset }
}

impl ToolSpec {
    /// Runs the build recipe of the service in `repo` and reports how it
    /// ended. Without a recipe nothing runs, and the report says so.
    pub fn run_build(&self, repo: &str, jobs: u32, log: &str) -> (event: Event)
        ensures
            event is Built,
            self.build is None ==> event@ == (EventView::Built {
                failure: Some(ArtifactErrorView::Build(BuildErrorView::DisabledFeature)),
            }),
    {
        match self.build {
            Some(recipe) => built_event(recipe.build(repo, jobs as usize, log)),
            None => Event::Built {
                failure: Some(ArtifactError::Build(BuildError::DisabledFeature)),
            },
        }
    }

    /// Asks the release index of the service for the asset of `version` for
    /// `platform` and reports the answer. Without an index there is no
    /// asset.
    pub fn locate_release(&self, version: &str, platform: &str) -> (event: Event)
        ensures
            event is Located,
            self.releases is None ==> event@ == (EventView::Located { asset: None }),
    {
        match self.releases {
            Some(index) => located_event(index.asset_for(version, platform)),
            None => located_event(None),
        }
    }

    /// Asks the executable at `exe` for its version and reports the answer.
    /// Without a probe there is no version.
    pub fn probe_version(&self, exe: &str) -> (event: Event)
        ensures
            event is VersionProbed,
            self.version_probe is None ==> event@ == (EventView::VersionProbed { version: None }),
    {
        match self.version_probe {
            Some(probe) => Event::VersionProbed { version: probe.probe(exe) },
            None => Event::VersionProbed { version: None },
        }
    }
}

} // verus!
