use std::collections::HashMap;

use zcash_artifacts::error::{ArtifactError, BuildError, FsError, InputError, LocateError};
use zcash_artifacts::error::{FetchError, OciError};
use zcash_artifacts::git::GitPolicy;
use zcash_artifacts::orchestrator::{Action, Event, Phase};
use zcash_artifacts::registry::{
    BuildRecipe, Registry, ReleaseIndex, ServiceId, ToolSpec, VersionProbe,
};
use zcash_artifacts::resolver::{built_event, located_event, ArtifactResolver, Resolution};
use zcash_artifacts::source::{ArtifactSource, BuildConfig, ResolvedArtifact, ResolverConfig};
use zcash_artifacts::validator::{FileFacts, FileKind};
use zcash_artifacts::zcashd::{spec_zcashd, zcashd_id};

struct Recipe;

impl BuildRecipe for Recipe {
    fn build(&self, _repo: &str, _jobs: usize, _log: &str) -> Result<String, ArtifactError> {
        Ok("src/zcashd".to_string())
    }
}

struct FailingRecipe;

impl BuildRecipe for FailingRecipe {
    fn build(&self, _repo: &str, _jobs: usize, log: &str) -> Result<String, ArtifactError> {
        Err(ArtifactError::Build(BuildError::ScriptFailed {
            exit_code: 2,
            log_path: log.to_string(),
        }))
    }
}

struct Probe;

impl VersionProbe for Probe {
    fn probe(&self, _exe: &str) -> Option<String> {
        Some("Zcashd version v5.9.0".to_string())
    }
}

struct Releases;

impl ReleaseIndex for Releases {
    fn asset_for(&self, version: &str, platform: &str) -> Option<(String, String)> {
        if version == "5.9.0" {
            Some((format!("https://example.org/zcashd-{version}-{platform}.tar.gz"), "ab".to_string()))
        } else {
            None
        }
    }
}

/// A file system, a repository and a machine, all in memory.
struct World {
    /// The mode of each file that exists.
    files: HashMap<String, u32>,
    contents: HashMap<String, String>,
    commit: String,
    dirty: bool,
    missing_tools: Vec<String>,
    build_leaves_output: bool,
    builds: u32,
    locked: bool,
    locks_taken: u32,
    actions: Vec<String>,
}

fn world() -> World {
    World {
        files: HashMap::new(),
        contents: HashMap::new(),
        commit: "abc123".to_string(),
        dirty: false,
        missing_tools: vec![],
        build_leaves_output: true,
        builds: 0,
        locked: false,
        locks_taken: 0,
        actions: vec![],
    }
}

fn config() -> ResolverConfig {
    ResolverConfig {
        cache_root: "/cache".to_string(),
        platform: "linux-x86_64".to_string(),
        check_header: false,
        build_config: BuildConfig {
            allow_build: true,
            default_jobs: Some(2),
            default_policy: GitPolicy::RequireClean,
            default_expected_output: "src/zcashd".to_string(),
        },
    }
}

fn zcashd_spec(recipe: &'static dyn BuildRecipe) -> ToolSpec {
    spec_zcashd().with_build(recipe).with_version_probe(&Probe)
}

fn resolver() -> ArtifactResolver {
    ArtifactResolver::with_registry(config(), Registry::empty().register(zcashd_spec(&Recipe)))
}

fn build_source(policy: GitPolicy) -> ArtifactSource {
    ArtifactSource::Build {
        service: zcashd_id(),
        repo: "/repo".to_string(),
        refspec: None,
        policy,
        expected_output: None,
    }
}

fn facts(mode: u32) -> FileFacts {
    FileFacts { kind: FileKind::Regular, mode: Some(mode), owned: true, header: vec![] }
}

/// Carries out one action in the world and reports what came of it.
fn perform(world: &mut World, spec: &ToolSpec, action: &Action) -> Event {
    match action {
        Action::Inspect { path, .. } => {
            world.actions.push(format!("inspect {}", path));
            Event::Inspected { file: world.files.get(path).map(|mode| facts(*mode)) }
        }
        Action::SetExecutable { path } => {
            world.actions.push(format!("chmod {}", path));
            let mode = world.files.get(path).copied().unwrap_or(0);
            world.files.insert(path.clone(), mode | 0o111);
            Event::Done
        }
        Action::CheckTools { tools } => {
            world.actions.push(format!("tools {}", tools.join(" ")));
            Event::ToolsChecked { missing: world.missing_tools.clone() }
        }
        Action::ResolveCommit { repo, refspec } => {
            world.actions.push(format!("resolve {} {}", repo, refspec));
            Event::CommitResolved { commit: world.commit.clone() }
        }
        Action::CheckDirty { repo } => {
            world.actions.push(format!("status {}", repo));
            Event::DirtyChecked { dirty: world.dirty }
        }
        Action::HashWorktree { repo, hash_untracked } => {
            world.actions.push(format!("hash {} {}", repo, hash_untracked));
            Event::WorktreeHashed { hash: "9f2c".to_string() }
        }
        Action::AcquireLock { lock_path } => {
            world.actions.push(format!("lock {}", lock_path));
            assert!(!world.locked);
            world.locked = true;
            world.locks_taken += 1;
            Event::Done
        }
        Action::PrepareBuild { logs } => {
            world.actions.push(format!("prepare {}", logs));
            Event::Prepared { now: 1759155663, cpus: 16 }
        }
        Action::RunBuild { service, repo, jobs, log_path } => {
            world.actions.push(format!("build {} {} -j{} {}", service.as_str(), repo, jobs, log_path));
            assert!(world.locked);
            world.builds += 1;
            if world.build_leaves_output {
                world.files.insert(format!("{}/src/zcashd", repo), 0o755);
            }
            spec.run_build(repo, *jobs, log_path)
        }
        Action::CopyFile { from, to } => {
            world.actions.push(format!("copy {} {}", from, to));
            assert!(world.locked);
            let mode = world.files[from];
            world.files.insert(to.clone(), mode);
            Event::Done
        }
        Action::Rename { from, to } => {
            world.actions.push(format!("rename {} {}", from, to));
            assert!(world.locked);
            let mode = world.files.remove(from).unwrap();
            world.files.insert(to.clone(), mode);
            if let Some(content) = world.contents.remove(from) {
                world.contents.insert(to.clone(), content);
            }
            Event::Done
        }
        Action::ProbeVersion { exe, .. } => {
            world.actions.push(format!("probe {}", exe));
            spec.probe_version(exe)
        }
        Action::WriteFile { path, content } => {
            world.actions.push(format!("write {}", path));
            assert!(world.locked);
            world.files.insert(path.clone(), 0o644);
            world.contents.insert(path.clone(), content.clone());
            Event::Done
        }
        Action::LocateRelease { version, platform, .. } => {
            world.actions.push(format!("locate {} {}", version, platform));
            spec.locate_release(version, platform)
        }
        Action::Finish { .. } => unreachable!(),
    }
}

/// Runs a resolution to its end in the world.
fn drive(
    world: &mut World,
    resolver: &ArtifactResolver,
    spec: &ToolSpec,
    src: &ArtifactSource,
) -> Result<ResolvedArtifact, ArtifactError> {
    let (mut resolution, mut action) = resolver.resolve(src);
    loop {
        if let Action::Finish { release_lock, result } = action {
            assert!(resolution.is_finished());
            assert_eq!(release_lock, world.locked);
            world.locked = false;
            return result;
        }
        assert!(!resolution.is_finished());
        let event = perform(world, spec, &action);
        let next = resolution.advance(event);
        resolution = next.0;
        action = next.1;
    }
}

fn path_of(result: Result<ResolvedArtifact, ArtifactError>) -> String {
    match result {
        Ok(ResolvedArtifact::Executable { path }) => path,
        Err(e) => panic!("the resolution failed: {:?}", e),
    }
}

const CLEAN_ENTRY: &str = "/cache/zcashd/zcashd|abc123|linux-x86_64|v1";
const DIRTY_ENTRY: &str = "/cache/zcashd/zcashd|abc123+9f2c|linux-x86_64|v1";

#[test]
fn first_call_builds_and_second_call_hits_the_cache() {
    let mut w = world();
    let r = resolver();
    let spec = zcashd_spec(&Recipe);
    let src = build_source(GitPolicy::RequireClean);

    let first = path_of(drive(&mut w, &r, &spec, &src));
    assert_eq!(first, format!("{}/out/zcashd", CLEAN_ENTRY));
    assert_eq!(w.builds, 1);
    assert_eq!(w.locks_taken, 1);
    assert!(w.files.contains_key(&first));
    assert!(!w.files.contains_key(&format!("{}/out/zcashd.tmp", CLEAN_ENTRY)));
    let meta = &w.contents[&format!("{}/meta/META.json", CLEAN_ENTRY)];
    assert!(meta.contains("\n  \"dirty\": false,\n"));
    assert!(meta.contains("\n  \"worktree_hash\": null,\n"));
    assert!(meta.contains("\n  \"commit\": \"abc123\",\n"));
    assert!(meta.contains("\n  \"jobs\": 2,\n"));
    assert!(meta.contains("\n  \"refspec\": \"HEAD\",\n"));
    assert!(meta.contains("\n  \"host\": \"linux-x86_64\",\n"));
    assert!(meta.contains("\n  \"built_at\": 1759155663,\n"));
    assert!(meta.contains("\n  \"version_string\": \"Zcashd version v5.9.0\"\n"));

    let before = w.actions.len();
    let second = path_of(drive(&mut w, &r, &spec, &src));
    assert_eq!(second, first);
    assert_eq!(w.builds, 1);
    assert_eq!(w.locks_taken, 1);
    assert_eq!(
        w.actions[before..].to_vec(),
        vec![
            "tools git bash make gcc g++ ar ranlib perl autoconf libtool pkg-config".to_string(),
            "resolve /repo HEAD".to_string(),
            "status /repo".to_string(),
            format!("inspect {}/out/zcashd", CLEAN_ENTRY),
        ]
    );
}

#[test]
fn actions_of_a_build_come_in_order() {
    let mut w = world();
    let r = resolver();
    let spec = zcashd_spec(&Recipe);
    path_of(drive(&mut w, &r, &spec, &build_source(GitPolicy::RequireClean)));
    assert_eq!(
        w.actions,
        vec![
            "tools git bash make gcc g++ ar ranlib perl autoconf libtool pkg-config".to_string(),
            "resolve /repo HEAD".to_string(),
            "status /repo".to_string(),
            format!("inspect {}/out/zcashd", CLEAN_ENTRY),
            format!("lock {}/.lock", CLEAN_ENTRY),
            format!("inspect {}/out/zcashd", CLEAN_ENTRY),
            format!("prepare {}/logs", CLEAN_ENTRY),
            format!("build zcashd /repo -j2 {}/logs/build-1759155663.log", CLEAN_ENTRY),
            "inspect /repo/src/zcashd".to_string(),
            format!("copy /repo/src/zcashd {}/out/zcashd.tmp", CLEAN_ENTRY),
            format!("rename {0}/out/zcashd.tmp {0}/out/zcashd", CLEAN_ENTRY),
            format!("chmod {}/out/zcashd", CLEAN_ENTRY),
            format!("probe {}/out/zcashd", CLEAN_ENTRY),
            format!("write {}/meta/META.json.tmp", CLEAN_ENTRY),
            format!("rename {0}/meta/META.json.tmp {0}/meta/META.json", CLEAN_ENTRY),
        ]
    );
}

#[test]
fn dirty_worktree_is_refused_under_require_clean() {
    let mut w = world();
    let r = resolver();
    let spec = zcashd_spec(&Recipe);
    path_of(drive(&mut w, &r, &spec, &build_source(GitPolicy::RequireClean)));
    let files_before = w.files.len();

    w.dirty = true;
    let before = w.actions.len();
    let result = drive(&mut w, &r, &spec, &build_source(GitPolicy::RequireClean));
    match result {
        Err(ArtifactError::Build(BuildError::DirtyWorktree { repo })) => assert_eq!(repo, "/repo"),
        other => panic!("a dirty worktree error was expected, not {:?}", other),
    }
    assert_eq!(w.builds, 1);
    assert_eq!(w.locks_taken, 1);
    assert_eq!(w.files.len(), files_before);
    assert!(w.files.keys().all(|p| !p.starts_with(DIRTY_ENTRY)));
    assert_eq!(w.actions.len(), before + 3);
    assert!(w.actions[before..].iter().all(|a| !a.contains("/cache")));
}

#[test]
fn dirty_worktree_is_built_under_allow_dirty() {
    let mut w = world();
    let r = resolver();
    let spec = zcashd_spec(&Recipe);
    let clean = path_of(drive(&mut w, &r, &spec, &build_source(GitPolicy::RequireClean)));

    w.dirty = true;
    let src = build_source(GitPolicy::AllowDirty { hash_untracked: false });
    let dirty = path_of(drive(&mut w, &r, &spec, &src));
    assert_eq!(dirty, format!("{}/out/zcashd", DIRTY_ENTRY));
    assert_ne!(dirty, clean);
    assert_eq!(w.builds, 2);
    assert!(w.actions.contains(&"hash /repo false".to_string()));
    let meta = &w.contents[&format!("{}/meta/META.json", DIRTY_ENTRY)];
    assert!(meta.contains("\n  \"dirty\": true,\n"));
    assert!(meta.contains("\n  \"worktree_hash\": \"9f2c\",\n"));

    let again = path_of(drive(&mut w, &r, &spec, &src));
    assert_eq!(again, dirty);
    assert_eq!(w.builds, 2);
}

#[test]
fn untracked_files_are_hashed_when_the_policy_asks() {
    let mut w = world();
    w.dirty = true;
    let r = resolver();
    let spec = zcashd_spec(&Recipe);
    path_of(drive(&mut w, &r, &spec, &build_source(GitPolicy::AllowDirty { hash_untracked: true })));
    assert!(w.actions.contains(&"hash /repo true".to_string()));
}

#[test]
fn clean_worktree_under_allow_dirty_uses_the_clean_key() {
    let mut w = world();
    let r = resolver();
    let spec = zcashd_spec(&Recipe);
    let src = build_source(GitPolicy::AllowDirty { hash_untracked: true });
    let path = path_of(drive(&mut w, &r, &spec, &src));
    assert_eq!(path, format!("{}/out/zcashd", CLEAN_ENTRY));
    assert!(w.actions.iter().all(|a| !a.starts_with("hash ")));
}

#[test]
fn another_commit_or_platform_misses_the_cache() {
    let mut w = world();
    let r = resolver();
    let spec = zcashd_spec(&Recipe);
    let src = build_source(GitPolicy::RequireClean);
    let first = path_of(drive(&mut w, &r, &spec, &src));

    w.commit = "abc124".to_string();
    let second = path_of(drive(&mut w, &r, &spec, &src));
    assert_ne!(second, first);
    assert_eq!(w.builds, 2);

    let mut cfg = config();
    cfg.platform = "linux-aarch64".to_string();
    let other = ArtifactResolver::with_registry(cfg, Registry::empty().register(zcashd_spec(&Recipe)));
    let third = path_of(drive(&mut w, &other, &spec, &src));
    assert_eq!(third, "/cache/zcashd/zcashd|abc124|linux-aarch64|v1/out/zcashd");
    assert_eq!(w.builds, 3);
}

#[test]
fn job_count_does_not_change_the_key() {
    let mut w = world();
    let spec = zcashd_spec(&Recipe);
    let src = build_source(GitPolicy::RequireClean);
    let first = path_of(drive(&mut w, &resolver(), &spec, &src));

    let mut cfg = config();
    cfg.build_config.default_jobs = Some(32);
    let other = ArtifactResolver::with_registry(cfg, Registry::empty().register(zcashd_spec(&Recipe)));
    let second = path_of(drive(&mut w, &other, &spec, &src));
    assert_eq!(second, first);
    assert_eq!(w.builds, 1);
}

#[test]
fn invalid_cached_output_is_rebuilt_once() {
    let mut w = world();
    w.files.insert(format!("{}/out/zcashd", CLEAN_ENTRY), 0o644);
    let r = resolver();
    let spec = zcashd_spec(&Recipe);
    let (mut resolution, mut action) = r.resolve(&build_source(GitPolicy::RequireClean));
    let mut builds = 0;
    loop {
        let event = match &action {
            Action::Finish { .. } => break,
            Action::Inspect { path, .. } if path.starts_with("/cache") => Event::Inspected {
                file: Some(FileFacts {
                    kind: FileKind::Regular,
                    mode: Some(0o644),
                    owned: false,
                    header: vec![],
                }),
            },
            Action::RunBuild { .. } => {
                builds += 1;
                w.locked = true;
                perform(&mut w, &spec, &action)
            }
            Action::CopyFile { .. } | Action::Rename { .. } | Action::WriteFile { .. } => {
                w.locked = true;
                perform(&mut w, &spec, &action)
            }
            _ => {
                w.locked = false;
                perform(&mut w, &spec, &action)
            }
        };
        let next = resolution.advance(event);
        resolution = next.0;
        action = next.1;
    }
    assert_eq!(builds, 1);
    assert!(matches!(action, Action::Finish { release_lock: true, result: Ok(_) }));
}

#[test]
fn cached_output_without_the_bit_is_repaired_without_a_build() {
    let mut w = world();
    w.files.insert(format!("{}/out/zcashd", CLEAN_ENTRY), 0o644);
    let r = resolver();
    let spec = zcashd_spec(&Recipe);
    let path = path_of(drive(&mut w, &r, &spec, &build_source(GitPolicy::RequireClean)));
    assert_eq!(path, format!("{}/out/zcashd", CLEAN_ENTRY));
    assert_eq!(w.builds, 0);
    assert_eq!(w.locks_taken, 0);
    assert_eq!(w.files[&path], 0o755);
}

#[test]
fn post_lock_check_finds_what_another_build_published() {
    let r = resolver();
    let (resolution, action) = r.resolve(&build_source(GitPolicy::RequireClean));
    assert!(matches!(action, Action::CheckTools { .. }));
    let (resolution, _) = resolution.advance(Event::ToolsChecked { missing: vec![] });
    let (resolution, _) = resolution.advance(Event::CommitResolved { commit: "abc123".to_string() });
    let (resolution, action) = resolution.advance(Event::DirtyChecked { dirty: false });
    assert!(matches!(action, Action::Inspect { .. }));
    assert!(matches!(resolution.phase(), Phase::CacheCheckPreLock { fixing: false, .. }));
    let (resolution, action) = resolution.advance(Event::Inspected { file: None });
    match &action {
        Action::AcquireLock { lock_path } => assert_eq!(lock_path, &format!("{}/.lock", CLEAN_ENTRY)),
        other => panic!("the lock was expected, not {:?}", other),
    }
    let (resolution, action) = resolution.advance(Event::Done);
    assert!(matches!(action, Action::Inspect { .. }));
    assert!(matches!(resolution.phase(), Phase::CacheCheckPostLock { fixing: false, .. }));
    let (resolution, action) = resolution.advance(Event::Inspected { file: Some(facts(0o755)) });
    match action {
        Action::Finish { release_lock, result } => {
            assert!(release_lock);
            assert_eq!(path_of(result), format!("{}/out/zcashd", CLEAN_ENTRY));
        }
        other => panic!("the end was expected, not {:?}", other),
    }
    assert!(resolution.is_finished());
    assert!(matches!(resolution.phase(), Phase::Done));
}

/// Advances a new resolution of a clean build up to the action after the
/// listed events.
fn advance_through(r: &ArtifactResolver, events: Vec<Event>) -> (Resolution, Action) {
    let (mut resolution, mut action) = r.resolve(&build_source(GitPolicy::RequireClean));
    for event in events {
        let next = resolution.advance(event);
        resolution = next.0;
        action = next.1;
    }
    (resolution, action)
}

fn up_to_building() -> Vec<Event> {
    vec![
        Event::ToolsChecked { missing: vec![] },
        Event::CommitResolved { commit: "abc123".to_string() },
        Event::DirtyChecked { dirty: false },
        Event::Inspected { file: None },
        Event::Done,
        Event::Inspected { file: None },
        Event::Prepared { now: 7, cpus: 3 },
    ]
}

fn error_of(action: Action, lock: bool) -> ArtifactError {
    match action {
        Action::Finish { release_lock, result: Err(e) } => {
            assert_eq!(release_lock, lock);
            e
        }
        other => panic!("a failure was expected, not {:?}", other),
    }
}

#[test]
fn missing_tools_end_the_resolution_before_anything_else() {
    let (resolution, action) = advance_through(
        &resolver(),
        vec![Event::ToolsChecked { missing: vec!["gcc".to_string(), "perl".to_string()] }],
    );
    assert!(matches!(resolution.phase(), Phase::Error));
    match error_of(action, false) {
        ArtifactError::Build(BuildError::PreflightMissingTools { missing }) => {
            assert_eq!(missing, "gcc, perl")
        }
        other => panic!("missing tools were expected, not {:?}", other),
    }
}

#[test]
fn failed_build_is_surfaced_with_its_log() {
    let r = ArtifactResolver::with_registry(
        config(),
        Registry::empty().register(zcashd_spec(&FailingRecipe)),
    );
    let spec = zcashd_spec(&FailingRecipe);
    let mut w = world();
    let result = drive(&mut w, &r, &spec, &build_source(GitPolicy::RequireClean));
    match result {
        Err(ArtifactError::Build(BuildError::ScriptFailed { exit_code, log_path })) => {
            assert_eq!(exit_code, 2);
            assert_eq!(log_path, format!("{}/logs/build-1759155663.log", CLEAN_ENTRY));
        }
        other => panic!("a failed script was expected, not {:?}", other),
    }
    assert_eq!(w.builds, 1);
    assert!(!w.locked);
    assert!(!w.files.contains_key(&format!("{}/out/zcashd", CLEAN_ENTRY)));
}

#[test]
fn missing_output_names_the_expected_path() {
    let mut w = world();
    w.build_leaves_output = false;
    let r = resolver();
    let spec = zcashd_spec(&Recipe);
    let result = drive(&mut w, &r, &spec, &build_source(GitPolicy::RequireClean));
    match result {
        Err(ArtifactError::Build(BuildError::MissingOutput { expected })) => {
            assert_eq!(expected, "/repo/src/zcashd")
        }
        other => panic!("a missing output was expected, not {:?}", other),
    }
    assert!(!w.files.contains_key(&format!("{}/out/zcashd", CLEAN_ENTRY)));
}

#[test]
fn expected_output_of_the_request_wins() {
    let mut w = world();
    w.build_leaves_output = false;
    let r = resolver();
    let spec = zcashd_spec(&Recipe);
    let src = ArtifactSource::Build {
        service: zcashd_id(),
        repo: "/repo".to_string(),
        refspec: Some("v5.9.0".to_string()),
        policy: GitPolicy::RequireClean,
        expected_output: Some("/opt/out/zcashd".to_string()),
    };
    let result = drive(&mut w, &r, &spec, &src);
    match result {
        Err(ArtifactError::Build(BuildError::MissingOutput { expected })) => {
            assert_eq!(expected, "/opt/out/zcashd")
        }
        other => panic!("a missing output was expected, not {:?}", other),
    }
    assert!(w.actions.contains(&"resolve /repo v5.9.0".to_string()));
}

#[test]
fn jobs_default_to_the_processors_and_are_never_zero() {
    let mut cfg = config();
    cfg.build_config.default_jobs = None;
    let r = ArtifactResolver::with_registry(cfg, Registry::empty().register(zcashd_spec(&Recipe)));
    let (_, action) = advance_through(&r, up_to_building());
    assert!(matches!(action, Action::RunBuild { jobs: 3, .. }));

    let mut cfg = config();
    cfg.build_config.default_jobs = Some(0);
    let r = ArtifactResolver::with_registry(cfg, Registry::empty().register(zcashd_spec(&Recipe)));
    let (_, action) = advance_through(&r, up_to_building());
    assert!(matches!(action, Action::RunBuild { jobs: 1, .. }));
}

#[test]
fn io_failures_carry_the_operation_and_the_path() {
    let r = resolver();
    let failed = || Event::Failed { message: "permission denied".to_string() };
    let expect = |events: Vec<Event>, lock: bool, context: &str| {
        let (_, action) = advance_through(&r, events);
        match error_of(action, lock) {
            ArtifactError::Fs(FsError::Io { context: c, source }) => {
                assert_eq!(c, context);
                assert_eq!(source, "permission denied");
            }
            other => panic!("an i/o failure was expected, not {:?}", other),
        }
    };
    expect(vec![failed()], false, "check build tools");
    let mut events = vec![Event::ToolsChecked { missing: vec![] }];
    expect(events.iter().map(copy_event).chain([failed()]).collect(), false, "resolve HEAD in /repo");
    events.push(Event::CommitResolved { commit: "abc123".to_string() });
    expect(events.iter().map(copy_event).chain([failed()]).collect(), false, "status of /repo");
    events.push(Event::DirtyChecked { dirty: false });
    expect(
        events.iter().map(copy_event).chain([failed()]).collect(),
        false,
        &format!("stat {}/out/zcashd", CLEAN_ENTRY),
    );
    events.push(Event::Inspected { file: None });
    expect(
        events.iter().map(copy_event).chain([failed()]).collect(),
        false,
        &format!("lock {}/.lock", CLEAN_ENTRY),
    );
    events.push(Event::Done);
    expect(
        events.iter().map(copy_event).chain([failed()]).collect(),
        true,
        &format!("stat {}/out/zcashd", CLEAN_ENTRY),
    );
    events.push(Event::Inspected { file: None });
    expect(
        events.iter().map(copy_event).chain([failed()]).collect(),
        true,
        &format!("prepare {}/logs", CLEAN_ENTRY),
    );
    events.push(Event::Prepared { now: 7, cpus: 3 });
    expect(events.iter().map(copy_event).chain([failed()]).collect(), true, "build in /repo");
    events.push(Event::Built { failure: None });
    expect(events.iter().map(copy_event).chain([failed()]).collect(), true, "stat /repo/src/zcashd");
    events.push(Event::Inspected { file: Some(facts(0o755)) });
    expect(
        events.iter().map(copy_event).chain([failed()]).collect(),
        true,
        &format!("copy /repo/src/zcashd to {}/out/zcashd.tmp", CLEAN_ENTRY),
    );
    events.push(Event::Done);
    expect(
        events.iter().map(copy_event).chain([failed()]).collect(),
        true,
        &format!("rename {0}/out/zcashd.tmp to {0}/out/zcashd", CLEAN_ENTRY),
    );
    events.push(Event::Done);
    events.push(Event::Done);
    events.push(Event::VersionProbed { version: None });
    expect(
        events.iter().map(copy_event).chain([failed()]).collect(),
        true,
        &format!("write {}/meta/META.json.tmp", CLEAN_ENTRY),
    );
    events.push(Event::Done);
    expect(
        events.iter().map(copy_event).chain([failed()]).collect(),
        true,
        &format!("rename {0}/meta/META.json.tmp to {0}/meta/META.json", CLEAN_ENTRY),
    );
}

/// A copy of an event that carries no failure of a build.
fn copy_event(event: &Event) -> Event {
    match event {
        Event::Inspected { file } => Event::Inspected {
            file: file.as_ref().map(|f| FileFacts {
                kind: f.kind,
                mode: f.mode,
                owned: f.owned,
                header: f.header.clone(),
            }),
        },
        Event::Done => Event::Done,
        Event::Located { asset } => Event::Located { asset: asset.clone() },
        Event::ToolsChecked { missing } => Event::ToolsChecked { missing: missing.clone() },
        Event::CommitResolved { commit } => Event::CommitResolved { commit: commit.clone() },
        Event::DirtyChecked { dirty } => Event::DirtyChecked { dirty: *dirty },
        Event::WorktreeHashed { hash } => Event::WorktreeHashed { hash: hash.clone() },
        Event::Prepared { now, cpus } => Event::Prepared { now: *now, cpus: *cpus },
        Event::Built { .. } => Event::Built { failure: None },
        Event::VersionProbed { version } => Event::VersionProbed { version: version.clone() },
        Event::Failed { message } => Event::Failed { message: message.clone() },
    }
}

#[test]
fn chmod_failures_name_the_file() {
    let r = resolver();
    let mut events = up_to_building();
    events.push(Event::Built { failure: None });
    events.push(Event::Inspected { file: Some(facts(0o755)) });
    events.push(Event::Done);
    events.push(Event::Done);
    events.push(Event::Failed { message: "read-only file system".to_string() });
    let (_, action) = advance_through(&r, events);
    match error_of(action, true) {
        ArtifactError::Fs(FsError::Chmod { path, source }) => {
            assert_eq!(path, format!("{}/out/zcashd", CLEAN_ENTRY));
            assert_eq!(source, "read-only file system");
        }
        other => panic!("a chmod failure was expected, not {:?}", other),
    }
}

#[test]
fn output_without_the_bit_is_repaired_before_it_is_published() {
    let r = resolver();
    let mut events = up_to_building();
    events.push(Event::Built { failure: None });
    events.push(Event::Inspected { file: Some(facts(0o644)) });
    let (resolution, action) = advance_through(&r, events);
    match &action {
        Action::SetExecutable { path } => assert_eq!(path, "/repo/src/zcashd"),
        other => panic!("a chmod was expected, not {:?}", other),
    }
    let (_, action) = resolution.advance(Event::Done);
    assert!(matches!(action, Action::CopyFile { .. }));
}

#[test]
fn failed_version_probe_is_absorbed() {
    let r = resolver();
    let mut events = up_to_building();
    events.push(Event::Built { failure: None });
    events.push(Event::Inspected { file: Some(facts(0o755)) });
    events.push(Event::Done);
    events.push(Event::Done);
    events.push(Event::Done);
    events.push(Event::Failed { message: "no such option".to_string() });
    let (_, action) = advance_through(&r, events);
    match action {
        Action::WriteFile { path, content } => {
            assert_eq!(path, format!("{}/meta/META.json.tmp", CLEAN_ENTRY));
            assert!(content.ends_with("  \"version_string\": null\n}\n"));
            assert!(content.contains("\n  \"jobs\": 2,\n"));
            assert!(content.contains("\n  \"built_at\": 7,\n"));
        }
        other => panic!("the provenance was expected, not {:?}", other),
    }
}

#[test]
fn service_without_a_probe_skips_the_probe() {
    let r = ArtifactResolver::with_registry(
        config(),
        Registry::empty().register(spec_zcashd().with_build(&Recipe)),
    );
    let mut events = up_to_building();
    events.push(Event::Built { failure: None });
    events.push(Event::Inspected { file: Some(facts(0o755)) });
    events.push(Event::Done);
    events.push(Event::Done);
    events.push(Event::Done);
    let (_, action) = advance_through(&r, events);
    assert!(matches!(action, Action::WriteFile { .. }));
}

#[test]
fn unexpected_event_ends_the_resolution() {
    let r = resolver();
    let (resolution, action) = advance_through(&r, vec![Event::Done]);
    assert!(matches!(resolution.phase(), Phase::Error));
    assert!(matches!(
        error_of(action, false),
        ArtifactError::Build(BuildError::OutOfSequence)
    ));
    let mut events = up_to_building();
    events.push(Event::Done);
    let (resolution, action) = advance_through(&r, events);
    assert!(matches!(
        error_of(action, true),
        ArtifactError::Build(BuildError::OutOfSequence)
    ));
    let (resolution, action) = resolution.advance(Event::Done);
    assert!(resolution.is_finished());
    assert!(matches!(
        error_of(action, false),
        ArtifactError::Build(BuildError::OutOfSequence)
    ));
}

#[test]
fn builds_can_be_forbidden() {
    let mut cfg = config();
    cfg.build_config.allow_build = false;
    let r = ArtifactResolver::with_registry(cfg, Registry::empty().register(zcashd_spec(&Recipe)));
    let (resolution, action) = r.resolve(&build_source(GitPolicy::RequireClean));
    assert!(resolution.is_finished());
    assert!(matches!(
        error_of(action, false),
        ArtifactError::Build(BuildError::DisabledRuntime)
    ));
}

#[test]
fn build_without_a_recipe_fails_at_once() {
    let src = build_source(GitPolicy::RequireClean);
    let (_, action) = ArtifactResolver::new(config()).resolve(&src);
    assert!(matches!(
        error_of(action, false),
        ArtifactError::Build(BuildError::DisabledFeature)
    ));
    let (_, action) = ArtifactResolver::with_registry(config(), Registry::with_builtins()).resolve(&src);
    assert!(matches!(
        error_of(action, false),
        ArtifactError::Build(BuildError::DisabledFeature)
    ));
    let (_, action) = ArtifactResolver::with_registry(config(), Registry::empty()).resolve(&src);
    assert!(matches!(
        error_of(action, false),
        ArtifactError::Build(BuildError::DisabledFeature)
    ));
}

#[test]
fn service_without_a_binary_name_is_an_invalid_source() {
    let mut spec = zcashd_spec(&Recipe);
    spec.binary_names = vec![];
    let r = ArtifactResolver::with_registry(config(), Registry::empty().register(spec));
    let (_, action) = r.resolve(&build_source(GitPolicy::RequireClean));
    match error_of(action, false) {
        ArtifactError::Input(InputError::InvalidSource { service, reason }) => {
            assert_eq!(service.as_str(), "zcashd");
            assert_eq!(reason, "service has no usable binary name");
        }
        other => panic!("an invalid source was expected, not {:?}", other),
    }
}

#[test]
fn commit_with_a_delimiter_is_an_invalid_source() {
    let (_, action) = advance_through(
        &resolver(),
        vec![
            Event::ToolsChecked { missing: vec![] },
            Event::CommitResolved { commit: "abc|123".to_string() },
            Event::DirtyChecked { dirty: false },
        ],
    );
    match error_of(action, false) {
        ArtifactError::Input(InputError::InvalidSource { reason, .. }) => {
            assert_eq!(reason, "commit is empty or holds one of | + /")
        }
        other => panic!("an invalid source was expected, not {:?}", other),
    }
}

#[test]
fn local_path_that_is_executable_is_resolved() {
    let r = ArtifactResolver::new(config());
    let (resolution, action) = r.resolve(&ArtifactSource::LocalPath("/usr/bin/zcashd".to_string()));
    match &action {
        Action::Inspect { path, read_header } => {
            assert_eq!(path, "/usr/bin/zcashd");
            assert!(!read_header);
        }
        other => panic!("an inspection was expected, not {:?}", other),
    }
    let (resolution, action) = resolution.advance(Event::Inspected {
        file: Some(FileFacts {
            kind: FileKind::Regular,
            mode: Some(0o755),
            owned: false,
            header: vec![],
        }),
    });
    assert!(matches!(resolution.phase(), Phase::Done));
    match action {
        Action::Finish { release_lock, result } => {
            assert!(!release_lock);
            assert_eq!(path_of(result), "/usr/bin/zcashd");
        }
        other => panic!("the end was expected, not {:?}", other),
    }
}

fn local(file: Option<FileFacts>) -> ArtifactError {
    let r = ArtifactResolver::new(config());
    let (resolution, _) = r.resolve(&ArtifactSource::LocalPath("/x/zcashd".to_string()));
    let (_, action) = resolution.advance(Event::Inspected { file });
    error_of(action, false)
}

#[test]
fn local_path_that_is_missing_or_no_file_is_not_found() {
    match local(None) {
        ArtifactError::Input(InputError::NotFound { path }) => assert_eq!(path, "/x/zcashd"),
        other => panic!("not found was expected, not {:?}", other),
    }
    let dir = FileFacts { kind: FileKind::Directory, mode: Some(0o755), owned: true, header: vec![] };
    assert!(matches!(local(Some(dir)), ArtifactError::Input(InputError::NotFound { .. })));
}

#[test]
fn local_path_without_the_bit_is_not_executable() {
    match local(Some(facts(0o644))) {
        ArtifactError::Input(InputError::NotExecutable { path }) => assert_eq!(path, "/x/zcashd"),
        other => panic!("not executable was expected, not {:?}", other),
    }
    let foreign = FileFacts { kind: FileKind::Regular, mode: Some(0o600), owned: false, header: vec![] };
    assert!(matches!(local(Some(foreign)), ArtifactError::Input(InputError::NotExecutable { .. })));
}

#[test]
fn local_path_that_cannot_be_inspected_is_an_io_failure() {
    let r = ArtifactResolver::new(config());
    let (resolution, _) = r.resolve(&ArtifactSource::LocalPath("/x/zcashd".to_string()));
    let (_, action) = resolution.advance(Event::Failed { message: "permission denied".to_string() });
    match error_of(action, false) {
        ArtifactError::Fs(FsError::Io { context, source }) => {
            assert_eq!(context, "stat /x/zcashd");
            assert_eq!(source, "permission denied");
        }
        other => panic!("an i/o failure was expected, not {:?}", other),
    }
}

#[test]
fn sources_without_collaborators_fail_at_once() {
    let r = resolver();
    let (_, action) = r.resolve(&ArtifactSource::Release {
        service: ServiceId::new_static("zebrad"),
        version: "2.0.0".to_string(),
    });
    match error_of(action, false) {
        ArtifactError::Locate(LocateError::ReleaseIndex { service, version, why }) => {
            assert_eq!(service.as_str(), "zebrad");
            assert_eq!(version, "2.0.0");
            assert_eq!(why, "no release index is configured");
        }
        other => panic!("a release index failure was expected, not {:?}", other),
    }
    let (_, action) = r.resolve(&ArtifactSource::Url {
        url: "https://example.org/zcashd.tar.gz".to_string(),
        checksum: "00".to_string(),
    });
    match error_of(action, false) {
        ArtifactError::Fetch(FetchError::Disabled { url }) => {
            assert_eq!(url, "https://example.org/zcashd.tar.gz")
        }
        other => panic!("a disabled fetch was expected, not {:?}", other),
    }
    let (_, action) = r.resolve(&ArtifactSource::OciImage {
        reference: "ghcr.io/zcash/zcashd:latest".to_string(),
        digest: None,
    });
    match error_of(action, false) {
        ArtifactError::Oci(OciError::Disabled { reference }) => {
            assert_eq!(reference, "ghcr.io/zcash/zcashd:latest")
        }
        other => panic!("a disabled image was expected, not {:?}", other),
    }
}

#[test]
fn built_event_keeps_the_failure_and_drops_the_path() {
    assert!(matches!(built_event(Ok("src/zcashd".to_string())), Event::Built { failure: None }));
    let failed = built_event(Err(ArtifactError::Build(BuildError::ScriptFailed {
        exit_code: 1,
        log_path: "l".to_string(),
    })));
    assert!(matches!(
        failed,
        Event::Built {
            failure: Some(ArtifactError::Build(BuildError::ScriptFailed { exit_code: 1, .. }))
        }
    ));
}

#[test]
fn capabilities_answer_through_the_descriptor() {
    let spec = zcashd_spec(&Recipe);
    assert!(matches!(spec.run_build("/repo", 2, "/log"), Event::Built { failure: None }));
    match spec.probe_version("/x") {
        Event::VersionProbed { version } => {
            assert_eq!(version, Some("Zcashd version v5.9.0".to_string()))
        }
        other => panic!("a version was expected, not {:?}", other),
    }
    let bare = spec_zcashd();
    assert!(matches!(
        bare.run_build("/repo", 2, "/log"),
        Event::Built { failure: Some(ArtifactError::Build(BuildError::DisabledFeature)) }
    ));
    assert!(matches!(bare.probe_version("/x"), Event::VersionProbed { version: None }));
}

#[test]
fn default_source_uses_the_default_policy() {
    let cfg = config();
    let src = cfg.build_config.source_for(zcashd_id(), "/repo".to_string());
    match src {
        ArtifactSource::Build { service, repo, refspec, policy, expected_output } => {
            assert_eq!(service.as_str(), "zcashd");
            assert_eq!(repo, "/repo");
            assert_eq!(refspec, None);
            assert_eq!(policy, GitPolicy::RequireClean);
            assert_eq!(expected_output, None);
        }
        other => panic!("a build was expected, not {:?}", other),
    }
}

#[test]
fn resolver_keeps_what_it_was_made_with() {
    let r = resolver();
    assert_eq!(r.config().cache_root, "/cache");
    assert!(r.registry().is_some());
    assert!(ArtifactResolver::new(config()).registry().is_none());
}

#[test]
fn two_resolutions_of_one_identity_build_once() {
    let mut w = world();
    let r = resolver();
    let spec = zcashd_spec(&Recipe);
    let src = build_source(GitPolicy::RequireClean);

    // Both look at the cache before either has the lock, and both miss.
    let (mut first, mut first_action) = r.resolve(&src);
    let (mut second, mut second_action) = r.resolve(&src);
    while !matches!(first_action, Action::AcquireLock { .. }) {
        let event = perform(&mut w, &spec, &first_action);
        let next = first.advance(event);
        first = next.0;
        first_action = next.1;
    }
    while !matches!(second_action, Action::AcquireLock { .. }) {
        let event = perform(&mut w, &spec, &second_action);
        let next = second.advance(event);
        second = next.0;
        second_action = next.1;
    }

    // The first is given the lock and runs to its end; the second waits.
    let first_result = loop {
        if let Action::Finish { release_lock, result } = first_action {
            assert!(release_lock);
            w.locked = false;
            break result;
        }
        let event = perform(&mut w, &spec, &first_action);
        let next = first.advance(event);
        first = next.0;
        first_action = next.1;
    };
    assert_eq!(w.builds, 1);

    // The second is given the lock, looks again and finds the executable.
    let second_result = loop {
        if let Action::Finish { release_lock, result } = second_action {
            assert!(release_lock);
            w.locked = false;
            break result;
        }
        let event = perform(&mut w, &spec, &second_action);
        let next = second.advance(event);
        second = next.0;
        second_action = next.1;
    };
    assert_eq!(w.builds, 1);
    assert_eq!(w.locks_taken, 2);
    let first_path = path_of(first_result);
    assert_eq!(path_of(second_result), first_path);
    assert_eq!(w.files[&first_path] & 0o111, 0o111);
}

#[test]
fn interrupted_publication_leaves_the_old_executable() {
    let mut w = world();
    let artifact = format!("{}/out/zcashd", CLEAN_ENTRY);
    w.files.insert(artifact.clone(), 0o600);
    w.contents.insert(artifact.clone(), "old".to_string());
    let r = resolver();
    let spec = zcashd_spec(&Recipe);
    let (mut resolution, mut action) = r.resolve(&build_source(GitPolicy::RequireClean));
    // The cached file is not ours and may not be executed: a miss.
    loop {
        let event = match &action {
            Action::Rename { .. } => break,
            Action::Inspect { path, .. } if *path == artifact => Event::Inspected {
                file: Some(FileFacts {
                    kind: FileKind::Regular,
                    mode: Some(0o600),
                    owned: false,
                    header: vec![],
                }),
            },
            _ => perform(&mut w, &spec, &action),
        };
        let next = resolution.advance(event);
        resolution = next.0;
        action = next.1;
    }
    // The copy is written and the rename has not happened.
    assert_eq!(w.contents[&artifact], "old");
    assert_eq!(w.files[&artifact], 0o600);
    assert!(w.files.contains_key(&format!("{}.tmp", artifact)));
    match action {
        Action::Rename { from, to } => {
            assert_eq!(from, format!("{}.tmp", artifact));
            assert_eq!(to, artifact);
        }
        other => panic!("a rename was expected, not {:?}", other),
    }
}

fn release(version: &str) -> ArtifactSource {
    ArtifactSource::Release { service: zcashd_id(), version: version.to_string() }
}

#[test]
fn release_without_an_asset_is_not_located() {
    let spec = spec_zcashd().with_releases(&Releases);
    let r = ArtifactResolver::with_registry(config(), Registry::empty().register(spec));
    let spec = spec_zcashd().with_releases(&Releases);
    let mut w = world();
    match drive(&mut w, &r, &spec, &release("1.0.0")) {
        Err(ArtifactError::Locate(LocateError::NoAsset { service, version, platform })) => {
            assert_eq!(service.as_str(), "zcashd");
            assert_eq!(version, "1.0.0");
            assert_eq!(platform, "linux-x86_64");
        }
        other => panic!("no asset was expected, not {:?}", other),
    }
    assert_eq!(w.actions, vec!["locate 1.0.0 linux-x86_64".to_string()]);
}

#[test]
fn release_with_an_asset_cannot_be_fetched() {
    let spec = spec_zcashd().with_releases(&Releases);
    let r = ArtifactResolver::with_registry(config(), Registry::empty().register(spec));
    let spec = spec_zcashd().with_releases(&Releases);
    let mut w = world();
    match drive(&mut w, &r, &spec, &release("5.9.0")) {
        Err(ArtifactError::Fetch(FetchError::Disabled { url })) => {
            assert_eq!(url, "https://example.org/zcashd-5.9.0-linux-x86_64.tar.gz")
        }
        other => panic!("a disabled fetch was expected, not {:?}", other),
    }
}

#[test]
fn release_index_that_fails_is_reported() {
    let spec = spec_zcashd().with_releases(&Releases);
    let r = ArtifactResolver::with_registry(config(), Registry::empty().register(spec));
    let (resolution, action) = r.resolve(&release("5.9.0"));
    assert!(matches!(resolution.phase(), Phase::Locating { .. }));
    assert!(matches!(action, Action::LocateRelease { .. }));
    let (_, action) = resolution.advance(Event::Failed { message: "offline".to_string() });
    match error_of(action, false) {
        ArtifactError::Locate(LocateError::ReleaseIndex { service, version, why }) => {
            assert_eq!(service.as_str(), "zcashd");
            assert_eq!(version, "5.9.0");
            assert_eq!(why, "offline");
        }
        other => panic!("a release index failure was expected, not {:?}", other),
    }
}

#[test]
fn descriptor_without_an_index_locates_nothing() {
    assert!(matches!(
        spec_zcashd().locate_release("5.9.0", "linux-x86_64"),
        Event::Located { asset: None }
    ));
    assert!(matches!(
        spec_zcashd().with_releases(&Releases).locate_release("5.9.0", "linux-x86_64"),
        Event::Located { asset: Some(_) }
    ));
}

#[test]
fn located_event_reports_the_answer_of_the_index() {
    match located_event(Some(("https://example.org/a.tar.gz".to_string(), "ab".to_string()))) {
        Event::Located { asset } => assert_eq!(
            asset,
            Some(("https://example.org/a.tar.gz".to_string(), "ab".to_string()))
        ),
        other => panic!("a located asset was expected, not {:?}", other),
    }
    assert!(matches!(located_event(None), Event::Located { asset: None }));
}
