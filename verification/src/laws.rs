//! What holds of every resolution, whatever its driver reports.
//!
//! A run of a resolution is the sequence of the actions that it asks for,
//! given the sequence of the events that answer them.

use crate::cache::{law_entries_disjoint, law_temp_beside_final, layout_of};
use crate::error::{ArtifactErrorView, BuildErrorView};
use crate::git::GitPolicy;
use crate::identity::{law_key_discriminates, lemma_key_is_name, IdentityView};
use crate::orchestrator::{
    begin, fail, holds_lock, step, succeed, ActionView, ArtifactResolverView, BuildJobView,
    EventView, PhaseView, PublishStep, RunInfo, WriteStep,
};
use crate::path::is_name;
use crate::provenance::{document, ProvenanceView};
use crate::source::ArtifactSourceView;
use crate::validator::{verdict_of, FileFactsView, Verdict};
use vstd::prelude::*;

verus! {

/// The actions that a resolution in `phase` asks for, one for each of
/// `events` in turn.
pub open spec fn run_from(phase: PhaseView, events: Seq<EventView>) -> Seq<ActionView>
    decreases events.len(),
{
    if events.len() == 0 {
        Seq::empty()
    } else {
        seq![step(phase, events[0]).1] + run_from(step(phase, events[0]).0, events.drop_first())
    }
}

/// The actions of the whole resolution of `src`: the first action, and one
/// for each of `events` in turn.
pub open spec fn run(
    resolver: ArtifactResolverView,
    src: ArtifactSourceView,
    events: Seq<EventView>,
) -> Seq<ActionView> {
    seq![begin(resolver, src).1] + run_from(begin(resolver, src).0, events)
}

/// How many of `actions` run a build.
pub open spec fn builds_in(actions: Seq<ActionView>) -> nat
    decreases actions.len(),
{
    if actions.len() == 0 {
        0
    } else {
        builds_in(actions.drop_last()) + if actions.last() is RunBuild {
            1nat
        } else {
            0nat
        }
    }
}

/// How many builds a resolution in `phase` can still ask for: one until the
/// build has been asked for, none from then on.
pub open spec fn builds_ahead(phase: PhaseView) -> nat {
    match phase {
        PhaseView::Preflighting { .. }
        | PhaseView::ResolvingCommit { .. }
        | PhaseView::CheckingDirty { .. }
        | PhaseView::HashingWorktree { .. }
        | PhaseView::Locking { .. }
        | PhaseView::Preparing { .. } => 1,
        PhaseView::CacheCheckPreLock { fixing, .. } | PhaseView::CacheCheckPostLock {
            fixing,
            ..
        } => if fixing {
            0
        } else {
            1
        },
        _ => 0,
    }
}

/// The builds in a sequence of actions are those of its first action and
/// those of the rest.
pub proof fn lemma_builds_in_first(first: ActionView, rest: Seq<ActionView>)
    ensures
        builds_in(seq![first] + rest) == builds_in(rest) + if first is RunBuild {
            1nat
        } else {
            0nat
        },
    decreases rest.len(),
{
    let all = seq![first] + rest;
    if rest.len() == 0 {
        assert(all.drop_last() =~= Seq::<ActionView>::empty());
        assert(builds_in(all.drop_last()) == 0);
    } else {
        assert(all.drop_last() =~= seq![first] + rest.drop_last());
        assert(all.last() == rest.last());
        lemma_builds_in_first(first, rest.drop_last());
    }
}

/// One step asks for a build at most as often as the phase before it allowed
/// and the phase after it no longer allows.
pub proof fn lemma_step_spends_build(phase: PhaseView, event: EventView)
    ensures
        builds_ahead(step(phase, event).0) + (if step(phase, event).1 is RunBuild {
            1nat
        } else {
            0nat
        }) <= builds_ahead(phase),
{
    lemma_step_sound(phase, event);
}

/// A resolution never asks for more builds than its phase allows.
pub proof fn lemma_builds_bounded(phase: PhaseView, events: Seq<EventView>)
    ensures
        builds_in(run_from(phase, events)) <= builds_ahead(phase),
    decreases events.len(),
{
    if events.len() > 0 {
        let next = step(phase, events[0]);
        lemma_step_spends_build(phase, events[0]);
        lemma_builds_bounded(next.0, events.drop_first());
        lemma_builds_in_first(next.1, run_from(next.0, events.drop_first()));
    }
}

/// No resolution runs the build more than once, whatever is asked for and
/// whatever the driver reports.
pub proof fn law_at_most_one_build(
    resolver: ArtifactResolverView,
    src: ArtifactSourceView,
    events: Seq<EventView>,
)
    ensures
        builds_in(run(resolver, src, events)) <= 1,
{
    let first = begin(resolver, src);
    lemma_builds_bounded(first.0, events);
    lemma_builds_in_first(first.1, run_from(first.0, events));
}

/// Whether `phase` is a cache check of the entry of `id` for `job` that
/// waits for the inspection of the cached executable.
pub open spec fn is_cache_check(phase: PhaseView, job: BuildJobView, id: IdentityView) -> bool {
    phase == (PhaseView::CacheCheckPreLock { job, id, fixing: false }) || phase == (
    PhaseView::CacheCheckPostLock { job, id, fixing: false })
}

/// A cache check that finds a valid executable never leads to a build: where
/// the executable can be run as it is, the resolution ends at once with its
/// path; and whatever follows, no build is asked for.
pub proof fn law_cache_hit_skips_build(
    phase: PhaseView,
    job: BuildJobView,
    id: IdentityView,
    file: Option<FileFactsView>,
    rest: Seq<EventView>,
)
    requires
        is_cache_check(phase, job, id),
        verdict_of(file, job.check_header).accepts(),
    ensures
        verdict_of(file, job.check_header) == Verdict::Usable ==> step(
            phase,
            EventView::Inspected { file },
        ) == succeed(holds_lock(phase), job.artifact(id)),
        builds_in(run_from(phase, seq![EventView::Inspected { file }] + rest)) == 0,
{
    let events = seq![EventView::Inspected { file }] + rest;
    let next = step(phase, events[0]);
    assert(events.drop_first() =~= rest);
    assert(builds_ahead(next.0) == 0);
    lemma_builds_bounded(next.0, rest);
    lemma_builds_in_first(next.1, run_from(next.0, rest));
}

/// The events of a resolution that finds no valid executable in the cache,
/// before the lock and under it, and is then told the time and the number
/// of processors.
pub open spec fn miss_events(
    before: Option<FileFactsView>,
    under: Option<FileFactsView>,
    now: u64,
    cpus: u32,
) -> Seq<EventView> {
    seq![
        EventView::Inspected { file: before },
        EventView::Done,
        EventView::Inspected { file: under },
        EventView::Prepared { now, cpus },
    ]
}

/// A resolution whose cache checks find no valid executable runs the build
/// exactly once: it takes the lock, looks again, and asks for the build
/// with the log of that attempt; and whatever follows, it asks for no
/// second build.
pub proof fn law_cache_miss_builds_once(
    job: BuildJobView,
    id: IdentityView,
    before: Option<FileFactsView>,
    under: Option<FileFactsView>,
    now: u64,
    cpus: u32,
    rest: Seq<EventView>,
)
    requires
        !verdict_of(before, job.check_header).accepts(),
        !verdict_of(under, job.check_header).accepts(),
    ensures
        ({
            let phase = PhaseView::CacheCheckPreLock { job, id, fixing: false };
            let actions = run_from(phase, miss_events(before, under, now, cpus) + rest);
            &&& actions.len() == 4 + rest.len()
            &&& actions[0] == (ActionView::AcquireLock { lock_path: job.layout(id).lock_path })
            &&& actions[1] == (ActionView::Inspect {
                path: job.artifact(id),
                read_header: job.check_header,
            })
            &&& actions[2] == (ActionView::PrepareBuild { logs: job.layout(id).logs })
            &&& actions[3] == (ActionView::RunBuild {
                service: job.service,
                repo: job.repo,
                jobs: job.jobs_for(cpus),
                log_path: job.layout(id).log_path(now),
            })
            &&& builds_in(actions) == 1
        }),
{
    let check = PhaseView::CacheCheckPreLock { job, id, fixing: false };
    let head = miss_events(before, under, now, cpus);
    let events = head + rest;
    let s1 = step(check, events[0]);
    let e1 = events.drop_first();
    let s2 = step(s1.0, e1[0]);
    let e2 = e1.drop_first();
    let s3 = step(s2.0, e2[0]);
    let e3 = e2.drop_first();
    let s4 = step(s3.0, e3[0]);
    let e4 = e3.drop_first();
    assert(e4 =~= rest);
    let tail = run_from(s4.0, e4);
    lemma_run_length(s4.0, e4);
    assert(run_from(s3.0, e3) == seq![s4.1] + tail);
    assert(run_from(s2.0, e2) == seq![s3.1] + run_from(s3.0, e3));
    assert(run_from(s1.0, e1) == seq![s2.1] + run_from(s2.0, e2));
    assert(run_from(check, events) == seq![s1.1] + run_from(s1.0, e1));
    lemma_builds_bounded(s4.0, e4);
    lemma_builds_in_first(s4.1, tail);
    lemma_builds_in_first(s3.1, run_from(s3.0, e3));
    lemma_builds_in_first(s2.1, run_from(s2.0, e2));
    lemma_builds_in_first(s1.1, run_from(s1.0, e1));
}

/// A run has one action for each event.
pub proof fn lemma_run_length(phase: PhaseView, events: Seq<EventView>)
    ensures
        run_from(phase, events).len() == events.len(),
    decreases events.len(),
{
    if events.len() > 0 {
        lemma_run_length(step(phase, events[0]).0, events.drop_first());
    }
}

/// The build that `phase` belongs to, from the search for the tools on.
pub open spec fn job_of(phase: PhaseView) -> Option<BuildJobView> {
    match phase {
        PhaseView::Preflighting { job }
        | PhaseView::ResolvingCommit { job }
        | PhaseView::CheckingDirty { job, .. }
        | PhaseView::HashingWorktree { job, .. }
        | PhaseView::CacheCheckPreLock { job, .. }
        | PhaseView::Locking { job, .. }
        | PhaseView::CacheCheckPostLock { job, .. }
        | PhaseView::Preparing { job, .. }
        | PhaseView::Building { job, .. }
        | PhaseView::Validating { job, .. }
        | PhaseView::Publishing { job, .. }
        | PhaseView::ProbingVersion { job, .. }
        | PhaseView::WritingProvenance { job, .. } => Some(job),
        _ => None,
    }
}

/// The identity that `phase` works on, from the first cache check on.
pub open spec fn identity_of(phase: PhaseView) -> Option<IdentityView> {
    match phase {
        PhaseView::CacheCheckPreLock { id, .. }
        | PhaseView::Locking { id, .. }
        | PhaseView::CacheCheckPostLock { id, .. }
        | PhaseView::Preparing { id, .. }
        | PhaseView::Building { id, .. }
        | PhaseView::Validating { id, .. }
        | PhaseView::Publishing { id, .. }
        | PhaseView::ProbingVersion { id, .. }
        | PhaseView::WritingProvenance { id, .. } => Some(id),
        _ => None,
    }
}

/// Whether `phase` can be reached: the executable is published under a name,
/// and the identity is that of the build and can stand in a key.
pub open spec fn reachable(phase: PhaseView) -> bool {
    &&& job_of(phase) is Some ==> is_name(job_of(phase)->0.binary)
    &&& identity_of(phase) is Some ==> {
        let job = job_of(phase)->0;
        let id = identity_of(phase)->0;
        &&& id.wf()
        &&& id == job.identity(id.commit, id.worktree_hash)
    }
}

/// A resolution starts in a phase that can be reached.
pub proof fn law_begin_reachable(resolver: ArtifactResolverView, src: ArtifactSourceView)
    ensures
        reachable(begin(resolver, src).0),
        !holds_lock(begin(resolver, src).0),
        !(begin(resolver, src).1 is RunBuild),
{
}

/// A step leads from a phase that can be reached to one that can, and keeps
/// the build and the identity that the resolution works on.
pub proof fn law_step_keeps_entry(phase: PhaseView, event: EventView)
    requires
        reachable(phase),
    ensures
        reachable(step(phase, event).0),
        job_of(step(phase, event).0) is Some ==> job_of(step(phase, event).0) == job_of(phase),
        identity_of(phase) is Some && identity_of(step(phase, event).0) is Some ==> identity_of(
            step(phase, event).0,
        ) == identity_of(phase),
{
    lemma_step_sound(phase, event);
}

/// The lock is released on every way out, and on no other occasion: the
/// action that ends a resolution releases the lock exactly if the resolution
/// holds it; a resolution that goes on holds the lock exactly if it held it
/// before or has just been given it; and a resolution that has ended holds
/// no lock.
pub proof fn law_lock_released_on_exit(phase: PhaseView, event: EventView)
    ensures
        ({
            let next = step(phase, event);
            &&& next.1 is Finish ==> next.1->release_lock == holds_lock(phase)
            &&& next.1 is Finish <==> (next.0 is Done || next.0 is Error)
            &&& next.1 is Finish ==> !holds_lock(next.0)
            &&& !(next.1 is Finish) ==> (holds_lock(next.0) <==> (holds_lock(phase) || (
            phase is Locking && event is Done)))
        }),
{
    lemma_step_sound(phase, event);
}

/// Whether `action` makes or changes something inside a cache entry.
pub open spec fn writes_entry(action: ActionView) -> bool {
    action is PrepareBuild || action is RunBuild || action is CopyFile || action is Rename
        || action is WriteFile
}

/// Nothing is built, copied, renamed or written in a cache entry unless the
/// resolution holds the lock of the entry, before the action and after it.
pub proof fn law_writes_under_lock(phase: PhaseView, event: EventView)
    ensures
        writes_entry(step(phase, event).1) ==> holds_lock(phase) && holds_lock(
            step(phase, event).0,
        ),
{
    lemma_step_sound(phase, event);
}

/// A dirty worktree under a policy that requires a clean one ends the
/// resolution with the repository named, before the cache is looked at and
/// before anything is built.
pub proof fn law_dirty_worktree_refused(
    job: BuildJobView,
    commit: Seq<char>,
    rest: Seq<EventView>,
)
    requires
        job.policy == GitPolicy::RequireClean,
    ensures
        ({
            let phase = PhaseView::CheckingDirty { job, commit };
            let refused = step(phase, EventView::DirtyChecked { dirty: true });
            &&& refused == fail(
                false,
                ArtifactErrorView::Build(BuildErrorView::DirtyWorktree { repo: job.repo }),
            )
            &&& builds_in(run_from(phase, seq![EventView::DirtyChecked { dirty: true }] + rest))
                == 0
        }),
{
    let phase = PhaseView::CheckingDirty { job, commit };
    let events = seq![EventView::DirtyChecked { dirty: true }] + rest;
    let refused = step(phase, events[0]);
    assert(events.drop_first() =~= rest);
    lemma_builds_bounded(refused.0, rest);
    lemma_builds_in_first(refused.1, run_from(refused.0, rest));
}

/// The events of a build that gets as far as the comparison of the worktree
/// with its commit.
pub open spec fn inspection_events(commit: Seq<char>, dirty: bool) -> Seq<EventView> {
    seq![
        EventView::ToolsChecked { missing: Seq::empty() },
        EventView::CommitResolved { commit },
        EventView::DirtyChecked { dirty },
    ]
}

/// A request to build from a dirty worktree under a policy that requires a
/// clean one asks for the tools, the commit and the state of the worktree,
/// and then ends with the failure: it asks for no look at the cache, for no
/// path inside it and for no build, whatever the cache holds.
pub proof fn law_require_clean_enforced(
    resolver: ArtifactResolverView,
    src: ArtifactSourceView,
    commit: Seq<char>,
    rest: Seq<EventView>,
)
    requires
        src is Build,
        src->policy == GitPolicy::RequireClean,
        begin(resolver, src).0 is Preflighting,
    ensures
        ({
            let actions = run(resolver, src, inspection_events(commit, true) + rest);
            &&& actions.len() == 4 + rest.len()
            &&& actions[0] is CheckTools
            &&& actions[1] == (ActionView::ResolveCommit {
                repo: src->repo,
                refspec: match src->refspec {
                    Some(r) => r,
                    None => "HEAD"@,
                },
            })
            &&& actions[2] == (ActionView::CheckDirty { repo: src->repo })
            &&& actions[3] == fail(
                false,
                ArtifactErrorView::Build(BuildErrorView::DirtyWorktree { repo: src->repo }),
            ).1
            &&& forall|i: int| 3 <= i < actions.len() ==> actions[i] is Finish
            &&& builds_in(actions) == 0
        }),
{
    let first = begin(resolver, src);
    let events = inspection_events(commit, true) + rest;
    let s1 = step(first.0, events[0]);
    let e1 = events.drop_first();
    let s2 = step(s1.0, e1[0]);
    let e2 = e1.drop_first();
    let s3 = step(s2.0, e2[0]);
    let e3 = e2.drop_first();
    assert(e3 =~= rest);
    let tail = run_from(s3.0, e3);
    lemma_run_length(s3.0, e3);
    lemma_ended_stays_ended(s3.0, e3);
    assert(run_from(s2.0, e2) == seq![s3.1] + tail);
    assert(run_from(s1.0, e1) == seq![s2.1] + run_from(s2.0, e2));
    assert(run_from(first.0, events) == seq![s1.1] + run_from(s1.0, e1));
    lemma_builds_bounded(s3.0, e3);
    lemma_builds_in_first(s3.1, tail);
    lemma_builds_in_first(s2.1, run_from(s2.0, e2));
    lemma_builds_in_first(s1.1, run_from(s1.0, e1));
    lemma_builds_in_first(first.1, run_from(first.0, events));
    let actions = run(resolver, src, events);
    assert forall|i: int| 3 <= i < actions.len() implies actions[i] is Finish by {
        if i > 3 {
            assert(actions[i] == tail[i - 4]);
        }
    }
}

/// A resolution that has ended answers every further event with the action
/// that ends it.
pub proof fn lemma_ended_stays_ended(phase: PhaseView, events: Seq<EventView>)
    requires
        phase is Done || phase is Error,
    ensures
        forall|i: int| 0 <= i < events.len() ==> (#[trigger] run_from(phase, events)[i]) is Finish,
    decreases events.len(),
{
    if events.len() > 0 {
        let next = step(phase, events[0]);
        lemma_run_length(next.0, events.drop_first());
        lemma_ended_stays_ended(next.0, events.drop_first());
        let actions = run_from(phase, events);
        assert forall|i: int| 0 <= i < events.len() implies (#[trigger] actions[i]) is Finish by {
            if i > 0 {
                assert(actions[i] == run_from(next.0, events.drop_first())[i - 1]);
            }
        }
    }
}

/// A build is identified by what was found of its worktree: a clean worktree
/// by its commit alone, a dirty one under a policy that allows it by its
/// commit and the hash of its contents.
pub proof fn law_identity_records_worktree(
    job: BuildJobView,
    commit: Seq<char>,
    hash: Seq<char>,
)
    ensures
        ({
            let clean = step(
                PhaseView::CheckingDirty { job, commit },
                EventView::DirtyChecked { dirty: false },
            );
            identity_of(clean.0) is Some ==> !identity_of(clean.0)->0.dirty()
        }),
        job.policy is AllowDirty ==> step(
            PhaseView::CheckingDirty { job, commit },
            EventView::DirtyChecked { dirty: true },
        ) == (
            PhaseView::HashingWorktree { job, commit },
            ActionView::HashWorktree {
                repo: job.repo,
                hash_untracked: job.policy->hash_untracked,
            },
        ),
        ({
            let dirty = step(
                PhaseView::HashingWorktree { job, commit },
                EventView::WorktreeHashed { hash },
            );
            identity_of(dirty.0) is Some ==> identity_of(dirty.0)->0.worktree_hash == Some(hash)
        }),
{
}

/// Whatever is written as provenance is the document of the build that the
/// resolution works on: it says that the worktree was dirty exactly if the
/// identity holds a worktree hash, and then gives that hash.
pub proof fn law_provenance_records_identity(phase: PhaseView, event: EventView)
    ensures
        step(phase, event).1 is WriteFile ==> {
            let job = job_of(phase)->0;
            let id = identity_of(phase)->0;
            &&& identity_of(phase) is Some
            &&& holds_lock(phase)
            &&& step(phase, event).1->WriteFile_path == job.layout(id).provenance_temp_path()
            &&& exists|run: RunInfo, version: Option<Seq<char>>|
                {
                    &&& step(phase, event).1->content == document(
                        #[trigger] job.provenance(id, run, version),
                    )
                    &&& job.provenance(id, run, version).dirty == id.dirty()
                    &&& job.provenance(id, run, version).worktree_hash == id.worktree_hash
                    &&& job.provenance(id, run, version).commit == id.commit
                }
        },
{
    let next = step(phase, event);
    if next.1 is WriteFile {
        let job = job_of(phase)->0;
        let id = identity_of(phase)->0;
        match phase {
            PhaseView::Publishing { run, .. } => {
                assert(next.1->content == document(job.provenance(id, run, None)));
            },
            PhaseView::ProbingVersion { run, .. } => {
                match event {
                    EventView::VersionProbed { version } => {
                        assert(next.1->content == document(job.provenance(id, run, version)));
                    },
                    _ => {
                        assert(next.1->content == document(job.provenance(id, run, None)));
                    },
                }
            },
            _ => {},
        }
    }
}

/// Whether `action`, if it writes provenance, writes the document of a build
/// of `id`: one with the commit of `id`, that says that the worktree was
/// dirty exactly if `id` holds a worktree hash, and gives that hash.
pub open spec fn records(action: ActionView, id: IdentityView) -> bool {
    action is WriteFile ==> exists|p: ProvenanceView|
        {
            &&& action->content == #[trigger] document(p)
            &&& p.commit == id.commit
            &&& p.dirty == id.dirty()
            &&& p.worktree_hash == id.worktree_hash
        }
}

/// From the first cache check on, whatever a resolution writes as provenance
/// is the document of the identity that it works on.
pub proof fn lemma_run_records(phase: PhaseView, events: Seq<EventView>, id: IdentityView)
    requires
        identity_of(phase) == Some(id) || phase is Done || phase is Error,
    ensures
        forall|i: int|
            0 <= i < events.len() ==> records(#[trigger] run_from(phase, events)[i], id),
    decreases events.len(),
{
    if events.len() > 0 {
        let next = step(phase, events[0]);
        let rest = events.drop_first();
        lemma_step_sound(phase, events[0]);
        law_provenance_records_identity(phase, events[0]);
        lemma_run_length(next.0, rest);
        lemma_run_records(next.0, rest, id);
        let actions = run_from(phase, events);
        assert forall|i: int| 0 <= i < events.len() implies records(#[trigger] actions[i], id) by {
            if i > 0 {
                assert(actions[i] == run_from(next.0, rest)[i - 1]);
            }
        }
    }
}

/// A build from a dirty worktree under a policy that allows it goes on, and
/// whatever it writes as provenance says that the worktree was dirty and
/// gives the hash of its contents.
pub proof fn law_allow_dirty_recorded(
    job: BuildJobView,
    commit: Seq<char>,
    hash: Seq<char>,
    rest: Seq<EventView>,
)
    requires
        job.policy is AllowDirty,
    ensures
        ({
            let events = seq![
                EventView::DirtyChecked { dirty: true },
                EventView::WorktreeHashed { hash },
            ] + rest;
            let actions = run_from(PhaseView::CheckingDirty { job, commit }, events);
            let id = job.identity(commit, Some(hash));
            &&& id.dirty()
            &&& actions[0] is HashWorktree
            &&& id.wf() ==> actions[1] == (ActionView::Inspect {
                path: job.artifact(id),
                read_header: job.check_header,
            })
            &&& forall|i: int| 0 <= i < actions.len() ==> records(#[trigger] actions[i], id)
        }),
{
    let phase = PhaseView::CheckingDirty { job, commit };
    let events = seq![EventView::DirtyChecked { dirty: true }, EventView::WorktreeHashed { hash }]
        + rest;
    let id = job.identity(commit, Some(hash));
    let s1 = step(phase, events[0]);
    let e1 = events.drop_first();
    let s2 = step(s1.0, e1[0]);
    let e2 = e1.drop_first();
    assert(e2 =~= rest);
    lemma_run_length(s2.0, e2);
    lemma_run_records(s2.0, e2, id);
    let tail = run_from(s2.0, e2);
    assert(run_from(s1.0, e1) == seq![s2.1] + tail);
    let actions = run_from(phase, events);
    assert(actions == seq![s1.1] + run_from(s1.0, e1));
    assert forall|i: int| 0 <= i < actions.len() implies records(#[trigger] actions[i], id) by {
        if i >= 2 {
            assert(actions[i] == tail[i - 2]);
        }
    }
}

/// Nothing is ever written under a final name: a copy goes to the temporary
/// path of the artifact and a document to the temporary path of the
/// provenance, each of which differs from the final path; and only a rename
/// from the temporary path puts anything at a final path.
pub proof fn law_publish_is_atomic(phase: PhaseView, event: EventView)
    requires
        reachable(phase),
    ensures
        ({
            let action = step(phase, event).1;
            let job = job_of(phase)->0;
            let id = identity_of(phase)->0;
            &&& action is CopyFile ==> {
                &&& action->CopyFile_to == job.artifact_temp(id)
                &&& action->CopyFile_to != job.artifact(id)
                &&& action->CopyFile_from == job.expected_path()
            }
            &&& action is WriteFile ==> {
                &&& action->WriteFile_path == job.layout(id).provenance_temp_path()
                &&& action->WriteFile_path != job.layout(id).provenance_path()
            }
            &&& action is Rename ==> {
                ||| (action->Rename_from == job.artifact_temp(id) && action->Rename_to
                    == job.artifact(id))
                ||| (action->Rename_from == job.layout(id).provenance_temp_path()
                    && action->Rename_to == job.layout(id).provenance_path())
            }
        }),
{
    lemma_step_sound(phase, event);
}

/// A file system as far as publication is concerned: what lies at each path.
pub type Files = Map<Seq<char>, Seq<u8>>;

/// A copy that is cut short leaves the published executable as it was:
/// whatever part of the new content has reached the temporary path, the
/// final path holds what it held, or nothing if it held nothing.
pub proof fn law_interrupted_publish_keeps_artifact(
    files: Files,
    job: BuildJobView,
    id: IdentityView,
    partial: Seq<u8>,
)
    requires
        is_name(job.binary),
    ensures
        ({
            let after = files.insert(job.artifact_temp(id), partial);
            &&& after.contains_key(job.artifact(id)) == files.contains_key(job.artifact(id))
            &&& files.contains_key(job.artifact(id)) ==> after[job.artifact(id)]
                == files[job.artifact(id)]
        }),
{
    law_temp_beside_final(job.layout(id), job.binary);
}

/// The key of a build depends on the service, the commit, the worktree hash,
/// the platform and the schema version, and on nothing else of the request:
/// not on the number of jobs, the refspec as it was written, the repository's
/// path, the expected output or the time.
pub proof fn law_key_ignores_the_rest(
    a: BuildJobView,
    b: BuildJobView,
    commit: Seq<char>,
    worktree_hash: Option<Seq<char>>,
)
    requires
        a.service == b.service,
        a.platform == b.platform,
    ensures
        a.identity(commit, worktree_hash).key() == b.identity(commit, worktree_hash).key(),
        a.cache_root == b.cache_root ==> a.layout(a.identity(commit, worktree_hash)) == b.layout(
            b.identity(commit, worktree_hash),
        ),
{
}

/// Whether `action` is what a resolution in `phase` waits for, as far as the
/// phase decides it.
pub open spec fn awaits(phase: PhaseView, action: ActionView) -> bool {
    match phase {
        PhaseView::LocalPath { path } => action == (ActionView::Inspect {
            path,
            read_header: false,
        }),
        PhaseView::Locating { service, version, platform } => action == (
        ActionView::LocateRelease { service, version, platform }),
        PhaseView::Preflighting { .. } => action is CheckTools,
        PhaseView::ResolvingCommit { job } => action == (ActionView::ResolveCommit {
            repo: job.repo,
            refspec: job.refspec,
        }),
        PhaseView::CheckingDirty { job, .. } => action == (ActionView::CheckDirty {
            repo: job.repo,
        }),
        PhaseView::HashingWorktree { job, .. } => action is HashWorktree,
        PhaseView::CacheCheckPreLock { job, id, fixing } | PhaseView::CacheCheckPostLock {
            job,
            id,
            fixing,
        } => if fixing {
            action == (ActionView::SetExecutable { path: job.artifact(id) })
        } else {
            action == (ActionView::Inspect {
                path: job.artifact(id),
                read_header: job.check_header,
            })
        },
        PhaseView::Locking { job, id } => action == (ActionView::AcquireLock {
            lock_path: job.layout(id).lock_path,
        }),
        PhaseView::Preparing { job, id } => action == (ActionView::PrepareBuild {
            logs: job.layout(id).logs,
        }),
        PhaseView::Building { job, id, run } => action == (ActionView::RunBuild {
            service: job.service,
            repo: job.repo,
            jobs: run.jobs,
            log_path: job.layout(id).log_path(run.started),
        }),
        PhaseView::Validating { job, fixing, .. } => if fixing {
            action == (ActionView::SetExecutable { path: job.expected_path() })
        } else {
            action == (ActionView::Inspect {
                path: job.expected_path(),
                read_header: job.check_header,
            })
        },
        PhaseView::Publishing { job, id, stage, .. } => match stage {
            PublishStep::Copying => action == (ActionView::CopyFile {
                from: job.expected_path(),
                to: job.artifact_temp(id),
            }),
            PublishStep::Renaming => action == (ActionView::Rename {
                from: job.artifact_temp(id),
                to: job.artifact(id),
            }),
            PublishStep::SettingBit => action == (ActionView::SetExecutable {
                path: job.artifact(id),
            }),
        },
        PhaseView::ProbingVersion { job, id, .. } => action == (ActionView::ProbeVersion {
            service: job.service,
            exe: job.artifact(id),
        }),
        PhaseView::WritingProvenance { job, id, record_stage, .. } => match record_stage {
            WriteStep::Writing => action is WriteFile && action->WriteFile_path == job.layout(
                id,
            ).provenance_temp_path(),
            WriteStep::Renaming => action == (ActionView::Rename {
                from: job.layout(id).provenance_temp_path(),
                to: job.layout(id).provenance_path(),
            }),
        },
        PhaseView::Done | PhaseView::Error => action is Finish,
    }
}

/// What holds of every step: of the builds that are still ahead, of the
/// lock, of what is written in the entry, of the action that the next phase
/// waits for, and, from a phase that can be reached, of the build and the
/// identity that are kept and of the paths that are written and renamed.
pub open spec fn step_sound(phase: PhaseView, event: EventView) -> bool {
    let next = step(phase, event);
    let job = job_of(phase)->0;
    let id = identity_of(phase)->0;
    &&& builds_ahead(next.0) + (if next.1 is RunBuild {
        1nat
    } else {
        0nat
    }) <= builds_ahead(phase)
    &&& next.1 is Finish ==> next.1->release_lock == holds_lock(phase)
    &&& next.1 is Finish <==> (next.0 is Done || next.0 is Error)
    &&& next.1 is Finish ==> !holds_lock(next.0)
    &&& !(next.1 is Finish) ==> (holds_lock(next.0) <==> (holds_lock(phase) || (phase is Locking
        && event is Done)))
    &&& writes_entry(next.1) ==> holds_lock(phase) && holds_lock(next.0)
    &&& awaits(next.0, next.1)
    &&& job_of(next.0) is Some ==> job_of(next.0) == job_of(phase)
    &&& identity_of(phase) is Some && identity_of(next.0) is Some ==> identity_of(next.0)
        == identity_of(phase)
    &&& identity_of(phase) is Some ==> identity_of(next.0) is Some || next.0 is Done
        || next.0 is Error
    &&& reachable(phase) ==> {
        &&& reachable(next.0)
        &&& next.1 is CopyFile ==> {
            &&& next.1->CopyFile_to == job.artifact_temp(id)
            &&& next.1->CopyFile_to != job.artifact(id)
            &&& next.1->CopyFile_from == job.expected_path()
        }
        &&& next.1 is WriteFile ==> {
            &&& next.1->WriteFile_path == job.layout(id).provenance_temp_path()
            &&& next.1->WriteFile_path != job.layout(id).provenance_path()
        }
        &&& next.1 is Rename ==> {
            ||| (next.1->Rename_from == job.artifact_temp(id) && next.1->Rename_to
                == job.artifact(id))
            ||| (next.1->Rename_from == job.layout(id).provenance_temp_path()
                && next.1->Rename_to == job.layout(id).provenance_path())
        }
    }
}

proof fn lemma_sound_local_path(phase: PhaseView, event: EventView)
    requires
        phase is LocalPath,
    ensures
        step_sound(phase, event),
{
}

proof fn lemma_sound_locating(phase: PhaseView, event: EventView)
    requires
        phase is Locating,
    ensures
        step_sound(phase, event),
{
}

proof fn lemma_sound_preflighting(phase: PhaseView, event: EventView)
    requires
        phase is Preflighting,
    ensures
        step_sound(phase, event),
{
}

proof fn lemma_sound_resolving_commit(phase: PhaseView, event: EventView)
    requires
        phase is ResolvingCommit,
    ensures
        step_sound(phase, event),
{
}

proof fn lemma_sound_checking_dirty(phase: PhaseView, event: EventView)
    requires
        phase is CheckingDirty,
    ensures
        step_sound(phase, event),
{
}

proof fn lemma_sound_hashing_worktree(phase: PhaseView, event: EventView)
    requires
        phase is HashingWorktree,
    ensures
        step_sound(phase, event),
{
}

proof fn lemma_sound_cache_check_pre_lock(phase: PhaseView, event: EventView)
    requires
        phase is CacheCheckPreLock,
    ensures
        step_sound(phase, event),
{
    if reachable(phase) {
        let job = job_of(phase)->0;
        law_temp_beside_final(job.layout(identity_of(phase)->0), job.binary);
    }
}

proof fn lemma_sound_locking(phase: PhaseView, event: EventView)
    requires
        phase is Locking,
    ensures
        step_sound(phase, event),
{
    if reachable(phase) {
        let job = job_of(phase)->0;
        law_temp_beside_final(job.layout(identity_of(phase)->0), job.binary);
    }
}

proof fn lemma_sound_cache_check_post_lock(phase: PhaseView, event: EventView)
    requires
        phase is CacheCheckPostLock,
    ensures
        step_sound(phase, event),
{
    if reachable(phase) {
        let job = job_of(phase)->0;
        law_temp_beside_final(job.layout(identity_of(phase)->0), job.binary);
    }
}

proof fn lemma_sound_preparing(phase: PhaseView, event: EventView)
    requires
        phase is Preparing,
    ensures
        step_sound(phase, event),
{
    if reachable(phase) {
        let job = job_of(phase)->0;
        law_temp_beside_final(job.layout(identity_of(phase)->0), job.binary);
    }
}

proof fn lemma_sound_building(phase: PhaseView, event: EventView)
    requires
        phase is Building,
    ensures
        step_sound(phase, event),
{
    if reachable(phase) {
        let job = job_of(phase)->0;
        law_temp_beside_final(job.layout(identity_of(phase)->0), job.binary);
    }
}

proof fn lemma_sound_validating(phase: PhaseView, event: EventView)
    requires
        phase is Validating,
    ensures
        step_sound(phase, event),
{
    if reachable(phase) {
        let job = job_of(phase)->0;
        law_temp_beside_final(job.layout(identity_of(phase)->0), job.binary);
    }
}

proof fn lemma_sound_publishing(phase: PhaseView, event: EventView)
    requires
        phase is Publishing,
    ensures
        step_sound(phase, event),
{
    if reachable(phase) {
        let job = job_of(phase)->0;
        law_temp_beside_final(job.layout(identity_of(phase)->0), job.binary);
    }
}

proof fn lemma_sound_probing_version(phase: PhaseView, event: EventView)
    requires
        phase is ProbingVersion,
    ensures
        step_sound(phase, event),
{
    if reachable(phase) {
        let job = job_of(phase)->0;
        law_temp_beside_final(job.layout(identity_of(phase)->0), job.binary);
    }
}

proof fn lemma_sound_writing_provenance(phase: PhaseView, event: EventView)
    requires
        phase is WritingProvenance,
    ensures
        step_sound(phase, event),
{
    if reachable(phase) {
        let job = job_of(phase)->0;
        law_temp_beside_final(job.layout(identity_of(phase)->0), job.binary);
    }
}

proof fn lemma_sound_done(phase: PhaseView, event: EventView)
    requires
        phase is Done,
    ensures
        step_sound(phase, event),
{
}

proof fn lemma_sound_error(phase: PhaseView, event: EventView)
    requires
        phase is Error,
    ensures
        step_sound(phase, event),
{
}

/// Every step is sound, in whatever phase and on whatever event.
pub proof fn lemma_step_sound(phase: PhaseView, event: EventView)
    ensures
        step_sound(phase, event),
{
    match phase {
        PhaseView::LocalPath { .. } => lemma_sound_local_path(phase, event),
        PhaseView::Locating { .. } => lemma_sound_locating(phase, event),
        PhaseView::Preflighting { .. } => lemma_sound_preflighting(phase, event),
        PhaseView::ResolvingCommit { .. } => lemma_sound_resolving_commit(phase, event),
        PhaseView::CheckingDirty { .. } => lemma_sound_checking_dirty(phase, event),
        PhaseView::HashingWorktree { .. } => lemma_sound_hashing_worktree(phase, event),
        PhaseView::CacheCheckPreLock { .. } => lemma_sound_cache_check_pre_lock(phase, event),
        PhaseView::Locking { .. } => lemma_sound_locking(phase, event),
        PhaseView::CacheCheckPostLock { .. } => lemma_sound_cache_check_post_lock(phase, event),
        PhaseView::Preparing { .. } => lemma_sound_preparing(phase, event),
        PhaseView::Building { .. } => lemma_sound_building(phase, event),
        PhaseView::Validating { .. } => lemma_sound_validating(phase, event),
        PhaseView::Publishing { .. } => lemma_sound_publishing(phase, event),
        PhaseView::ProbingVersion { .. } => lemma_sound_probing_version(phase, event),
        PhaseView::WritingProvenance { .. } => lemma_sound_writing_provenance(phase, event),
        PhaseView::Done => lemma_sound_done(phase, event),
        PhaseView::Error => lemma_sound_error(phase, event),
    }
}

/// Every phase waits for the action that belongs to it: a resolution never
/// asks for anything out of turn.
pub proof fn law_step_awaits(phase: PhaseView, event: EventView)
    ensures
        awaits(step(phase, event).0, step(phase, event).1),
{
    lemma_step_sound(phase, event);
}

/// The first action of a resolution is the one that its first phase waits
/// for.
pub proof fn law_begin_awaits(resolver: ArtifactResolverView, src: ArtifactSourceView)
    ensures
        awaits(begin(resolver, src).0, begin(resolver, src).1),
{
}

/// Builds of different identities share no lock and no directory: below one
/// cache root, the entries of two identities that can stand in a key lie
/// apart, unless the identities are one.
pub proof fn law_identities_do_not_contend(
    cache_root: Seq<char>,
    a: IdentityView,
    b: IdentityView,
)
    requires
        a.wf(),
        b.wf(),
        a != b,
    ensures
        ({
            let entry_a = layout_of(cache_root, a.service, a.key());
            let entry_b = layout_of(cache_root, b.service, b.key());
            &&& entry_a.lock_path != entry_b.lock_path
            &&& entry_a.root != entry_b.root
            &&& entry_a.out != entry_b.out
            &&& entry_a.logs != entry_b.logs
            &&& entry_a.meta != entry_b.meta
        }),
{
    lemma_key_is_name(a);
    lemma_key_is_name(b);
    if a.key() == b.key() {
        law_key_discriminates(a, b);
    }
    law_entries_disjoint(cache_root, a.service, a.key(), b.service, b.key());
}

/// A request to build what the cache already holds ends with the cached
/// executable: after the tools, the commit and the state of the worktree, the
/// resolution looks at the entry of the identity once, and ends with the
/// path of the executable there. It takes no lock and asks for no build.
pub proof fn law_cached_build_is_reused(
    resolver: ArtifactResolverView,
    src: ArtifactSourceView,
    commit: Seq<char>,
    file: Option<FileFactsView>,
    rest: Seq<EventView>,
)
    requires
        src is Build,
        begin(resolver, src).0 is Preflighting,
        job_of(begin(resolver, src).0)->0.identity(commit, None).wf(),
        verdict_of(file, resolver.config.check_header) == Verdict::Usable,
    ensures
        ({
            let job = job_of(begin(resolver, src).0)->0;
            let id = job.identity(commit, None);
            let events = inspection_events(commit, false).push(EventView::Inspected { file })
                + rest;
            let actions = run(resolver, src, events);
            &&& job.service == src->Build_service
            &&& job.platform == resolver.config.platform
            &&& job.cache_root == resolver.config.cache_root
            &&& actions.len() == 5 + rest.len()
            &&& actions[3] == (ActionView::Inspect {
                path: job.artifact(id),
                read_header: resolver.config.check_header,
            })
            &&& actions[4] == succeed(false, job.artifact(id)).1
            &&& forall|i: int| 0 <= i < actions.len() ==> !(actions[i] is AcquireLock)
            &&& builds_in(actions) == 0
        }),
{
    let first = begin(resolver, src);
    let events = inspection_events(commit, false).push(EventView::Inspected { file }) + rest;
    let s1 = step(first.0, events[0]);
    let e1 = events.drop_first();
    let s2 = step(s1.0, e1[0]);
    let e2 = e1.drop_first();
    let s3 = step(s2.0, e2[0]);
    let e3 = e2.drop_first();
    let s4 = step(s3.0, e3[0]);
    let e4 = e3.drop_first();
    assert(e4 =~= rest);
    let tail = run_from(s4.0, e4);
    lemma_run_length(s4.0, e4);
    lemma_ended_stays_ended(s4.0, e4);
    assert(run_from(s3.0, e3) == seq![s4.1] + tail);
    assert(run_from(s2.0, e2) == seq![s3.1] + run_from(s3.0, e3));
    assert(run_from(s1.0, e1) == seq![s2.1] + run_from(s2.0, e2));
    assert(run_from(first.0, events) == seq![s1.1] + run_from(s1.0, e1));
    lemma_builds_bounded(s4.0, e4);
    lemma_builds_in_first(s4.1, tail);
    lemma_builds_in_first(s3.1, run_from(s3.0, e3));
    lemma_builds_in_first(s2.1, run_from(s2.0, e2));
    lemma_builds_in_first(s1.1, run_from(s1.0, e1));
    lemma_builds_in_first(first.1, run_from(first.0, events));
    let actions = run(resolver, src, events);
    assert forall|i: int| 0 <= i < actions.len() implies !(actions[i] is AcquireLock) by {
        if i > 4 {
            assert(actions[i] == tail[i - 5]);
        }
    }
}

} // verus!
