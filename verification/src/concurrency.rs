//! Two resolutions of one cache entry at the same time.
//!
//! The resolutions share a lock and a cache entry. The model states what is
//! relied on of the two: the lock is given to a resolution only while nobody
//! holds it, and held until the resolution ends; an inspection of the
//! published executable reports it valid exactly if it is; and it becomes
//! valid when a resolution renames its copy into place, and stays so.
//! Everything else may come out in any way, and the two resolutions may take
//! their steps in any order.

use crate::identity::IdentityView;
use crate::laws::{awaits, identity_of, job_of};
use crate::orchestrator::{
    holds_lock, step, ActionView, BuildJobView, EventView, PhaseView, PublishStep,
};
use crate::validator::verdict_of;
use vstd::prelude::*;

verus! {

/// What two resolutions share.
pub struct Shared {
    /// Which resolution holds the lock, if any does.
    pub holder: Option<bool>,
    /// Whether a valid executable lies at the published path.
    pub cached: bool,
}

/// One of two resolutions: where it stands, what it has asked for, and how
/// many builds it has asked for so far.
pub struct Runner {
    pub phase: PhaseView,
    pub pending: ActionView,
    pub builds: nat,
}

/// Two resolutions and what they share.
pub struct Pair {
    pub first: Runner,
    pub second: Runner,
    pub shared: Shared,
}

impl Pair {
    /// The resolution named by `who`.
    pub open spec fn runner(self, who: bool) -> Runner {
        if who {
            self.second
        } else {
            self.first
        }
    }
}

/// Whether `event` can answer `pending` for the resolution `who` of the
/// entry of `id`: the lock is given only while nobody holds it; an
/// inspection of the published executable finds it valid exactly if it is;
/// nothing answers a resolution that has ended.
pub open spec fn answers(
    shared: Shared,
    job: BuildJobView,
    id: IdentityView,
    pending: ActionView,
    event: EventView,
) -> bool {
    match pending {
        ActionView::AcquireLock { .. } => event is Done ==> shared.holder is None,
        ActionView::Inspect { path, .. } => (path == job.artifact(id) && event is Inspected)
            ==> (verdict_of(event->file, job.check_header).accepts() <==> shared.cached),
        ActionView::Finish { .. } => false,
        _ => true,
    }
}

/// What the resolutions share once `pending` was answered by `event` for the
/// resolution `who`: a lock that was given is held by it; a rename to the
/// published path that was carried out leaves a valid executable there.
pub open spec fn effect(
    shared: Shared,
    who: bool,
    job: BuildJobView,
    id: IdentityView,
    pending: ActionView,
    event: EventView,
) -> Shared {
    match pending {
        ActionView::AcquireLock { .. } => if event is Done {
            Shared { holder: Some(who), ..shared }
        } else {
            shared
        },
        ActionView::Rename { to, .. } => if event is Done && to == job.artifact(id) {
            Shared { cached: true, ..shared }
        } else {
            shared
        },
        _ => shared,
    }
}

/// The resolution `me` after its step on `event`, with the build counted
/// that the step asks for.
pub open spec fn moved(me: Runner, event: EventView) -> Runner {
    let next = step(me.phase, event);
    Runner {
        phase: next.0,
        pending: next.1,
        builds: me.builds + if next.1 is RunBuild {
            1nat
        } else {
            0nat
        },
    }
}

/// What the resolutions share after the step of `me` on `event`: what came
/// of the action that `event` answers, and the lock free again where the
/// step ends the resolution with the lock.
pub open spec fn shared_after(
    shared: Shared,
    who: bool,
    job: BuildJobView,
    id: IdentityView,
    me: Runner,
    event: EventView,
) -> Shared {
    let next = step(me.phase, event);
    let after = effect(shared, who, job, id, me.pending, event);
    if next.1 is Finish && next.1->release_lock {
        Shared { holder: None, ..after }
    } else {
        after
    }
}

/// The two resolutions after `who` was answered by `event`.
pub open spec fn advance_pair(
    pair: Pair,
    job: BuildJobView,
    id: IdentityView,
    who: bool,
    event: EventView,
) -> Pair {
    let me = pair.runner(who);
    let shared = shared_after(pair.shared, who, job, id, me, event);
    if who {
        Pair { first: pair.first, second: moved(me, event), shared }
    } else {
        Pair { first: moved(me, event), second: pair.second, shared }
    }
}

/// Whether every step of `schedule` can be taken, one after the other.
pub open spec fn feasible(
    pair: Pair,
    job: BuildJobView,
    id: IdentityView,
    schedule: Seq<(bool, EventView)>,
) -> bool
    decreases schedule.len(),
{
    if schedule.len() == 0 {
        true
    } else {
        &&& answers(pair.shared, job, id, pair.runner(schedule[0].0).pending, schedule[0].1)
        &&& feasible(
            advance_pair(pair, job, id, schedule[0].0, schedule[0].1),
            job,
            id,
            schedule.drop_first(),
        )
    }
}

/// The two resolutions after all steps of `schedule`.
pub open spec fn run_pair(
    pair: Pair,
    job: BuildJobView,
    id: IdentityView,
    schedule: Seq<(bool, EventView)>,
) -> Pair
    decreases schedule.len(),
{
    if schedule.len() == 0 {
        pair
    } else {
        run_pair(
            advance_pair(pair, job, id, schedule[0].0, schedule[0].1),
            job,
            id,
            schedule.drop_first(),
        )
    }
}

/// Two resolutions of the entry of `id` at their first cache check, nobody
/// holding the lock.
pub open spec fn start_pair(job: BuildJobView, id: IdentityView, cached: bool) -> Pair {
    let runner = Runner {
        phase: PhaseView::CacheCheckPreLock { job, id, fixing: false },
        pending: ActionView::Inspect { path: job.artifact(id), read_header: job.check_header },
        builds: 0,
    };
    Pair { first: runner, second: runner, shared: Shared { holder: None, cached } }
}

/// Whether a resolution in `phase` has the lock and has not yet put its
/// executable in place.
pub open spec fn before_publication(phase: PhaseView) -> bool {
    match phase {
        PhaseView::Preparing { .. }
        | PhaseView::Building { .. }
        | PhaseView::Validating { .. } => true,
        PhaseView::Publishing { stage, .. } => stage != PublishStep::SettingBit,
        _ => false,
    }
}

/// Whether a resolution in `phase` has seen a valid executable at the
/// published path, or put one there.
pub open spec fn after_publication(phase: PhaseView) -> bool {
    match phase {
        PhaseView::CacheCheckPreLock { fixing, .. } | PhaseView::CacheCheckPostLock {
            fixing,
            ..
        } => fixing,
        PhaseView::Publishing { stage, .. } => stage == PublishStep::SettingBit,
        PhaseView::ProbingVersion { .. }
        | PhaseView::WritingProvenance { .. }
        | PhaseView::Done => true,
        _ => false,
    }
}

/// Whether a resolution in `phase` has asked for its build and not ended.
pub open spec fn has_built(phase: PhaseView) -> bool {
    match phase {
        PhaseView::Building { .. }
        | PhaseView::Validating { .. }
        | PhaseView::Publishing { .. }
        | PhaseView::ProbingVersion { .. }
        | PhaseView::WritingProvenance { .. } => true,
        _ => false,
    }
}

/// What holds of one of two resolutions at every moment.
pub open spec fn runner_inv(
    me: Runner,
    who: bool,
    shared: Shared,
    job: BuildJobView,
    id: IdentityView,
    cached_at_start: bool,
) -> bool {
    &&& awaits(me.phase, me.pending)
    &&& me.phase is Done || me.phase is Error || (job_of(me.phase) == Some(job) && identity_of(
        me.phase,
    ) == Some(id))
    &&& holds_lock(me.phase) <==> shared.holder == Some(who)
    &&& before_publication(me.phase) ==> !shared.cached
    &&& after_publication(me.phase) ==> shared.cached
    &&& has_built(me.phase) ==> me.builds == 1
    &&& !has_built(me.phase) && !(me.phase is Done) && !(me.phase is Error) ==> me.builds == 0
    &&& me.builds <= 1
    &&& cached_at_start ==> me.builds == 0
}

/// What holds of two resolutions at every moment: of each what
/// [`runner_inv`] says; a valid executable that was there at the start is
/// still there, and one that was not is there only after a build; and if
/// both have asked for a build, one of them has failed.
pub open spec fn pair_inv(
    pair: Pair,
    job: BuildJobView,
    id: IdentityView,
    cached_at_start: bool,
) -> bool {
    &&& runner_inv(pair.first, false, pair.shared, job, id, cached_at_start)
    &&& runner_inv(pair.second, true, pair.shared, job, id, cached_at_start)
    &&& cached_at_start ==> pair.shared.cached
    &&& pair.shared.cached && !cached_at_start ==> pair.first.builds + pair.second.builds >= 1
    &&& pair.first.builds == 1 && pair.second.builds == 1 ==> pair.first.phase is Error
        || pair.second.phase is Error
}

/// What one step of a resolution does to it and to what is shared: the
/// resolution is as it must be at every moment; the lock changes hands only
/// to or from the resolution, and to it only when it was free; a valid
/// executable stays, and appears only through a resolution that has built;
/// and a build is asked for only by a resolution that holds the lock and has
/// published nothing.
pub open spec fn step_facts(
    me: Runner,
    who: bool,
    shared: Shared,
    job: BuildJobView,
    id: IdentityView,
    cached_at_start: bool,
    event: EventView,
) -> bool {
    let after = moved(me, event);
    let shared2 = shared_after(shared, who, job, id, me, event);
    &&& runner_inv(after, who, shared2, job, id, cached_at_start)
    &&& shared2.holder == if holds_lock(after.phase) {
        Some(who)
    } else if shared.holder == Some(who) {
        None
    } else {
        shared.holder
    }
    &&& holds_lock(after.phase) && !holds_lock(me.phase) ==> shared.holder is None
    &&& shared.cached ==> shared2.cached
    &&& shared2.cached && !shared.cached ==> has_built(me.phase)
    &&& after.builds >= me.builds
    &&& after.builds > me.builds ==> before_publication(me.phase)
}

proof fn lemma_facts_cache_check(
    me: Runner,
    who: bool,
    shared: Shared,
    job: BuildJobView,
    id: IdentityView,
    cached_at_start: bool,
    event: EventView,
)
    requires
        runner_inv(me, who, shared, job, id, cached_at_start),
        cached_at_start ==> shared.cached,
        answers(shared, job, id, me.pending, event),
        me.phase is CacheCheckPreLock || me.phase is CacheCheckPostLock,
    ensures
        step_facts(me, who, shared, job, id, cached_at_start, event),
{
}

proof fn lemma_facts_locking(
    me: Runner,
    who: bool,
    shared: Shared,
    job: BuildJobView,
    id: IdentityView,
    cached_at_start: bool,
    event: EventView,
)
    requires
        runner_inv(me, who, shared, job, id, cached_at_start),
        cached_at_start ==> shared.cached,
        answers(shared, job, id, me.pending, event),
        me.phase is Locking,
    ensures
        step_facts(me, who, shared, job, id, cached_at_start, event),
{
}

proof fn lemma_facts_preparing(
    me: Runner,
    who: bool,
    shared: Shared,
    job: BuildJobView,
    id: IdentityView,
    cached_at_start: bool,
    event: EventView,
)
    requires
        runner_inv(me, who, shared, job, id, cached_at_start),
        cached_at_start ==> shared.cached,
        answers(shared, job, id, me.pending, event),
        me.phase is Preparing,
    ensures
        step_facts(me, who, shared, job, id, cached_at_start, event),
{
}

proof fn lemma_facts_building(
    me: Runner,
    who: bool,
    shared: Shared,
    job: BuildJobView,
    id: IdentityView,
    cached_at_start: bool,
    event: EventView,
)
    requires
        runner_inv(me, who, shared, job, id, cached_at_start),
        cached_at_start ==> shared.cached,
        answers(shared, job, id, me.pending, event),
        me.phase is Building,
    ensures
        step_facts(me, who, shared, job, id, cached_at_start, event),
{
}

proof fn lemma_facts_validating(
    me: Runner,
    who: bool,
    shared: Shared,
    job: BuildJobView,
    id: IdentityView,
    cached_at_start: bool,
    event: EventView,
)
    requires
        runner_inv(me, who, shared, job, id, cached_at_start),
        cached_at_start ==> shared.cached,
        answers(shared, job, id, me.pending, event),
        me.phase is Validating,
    ensures
        step_facts(me, who, shared, job, id, cached_at_start, event),
{
}

proof fn lemma_facts_publishing(
    me: Runner,
    who: bool,
    shared: Shared,
    job: BuildJobView,
    id: IdentityView,
    cached_at_start: bool,
    event: EventView,
)
    requires
        runner_inv(me, who, shared, job, id, cached_at_start),
        cached_at_start ==> shared.cached,
        answers(shared, job, id, me.pending, event),
        me.phase is Publishing,
    ensures
        step_facts(me, who, shared, job, id, cached_at_start, event),
{
}

proof fn lemma_facts_probing(
    me: Runner,
    who: bool,
    shared: Shared,
    job: BuildJobView,
    id: IdentityView,
    cached_at_start: bool,
    event: EventView,
)
    requires
        runner_inv(me, who, shared, job, id, cached_at_start),
        cached_at_start ==> shared.cached,
        answers(shared, job, id, me.pending, event),
        me.phase is ProbingVersion,
    ensures
        step_facts(me, who, shared, job, id, cached_at_start, event),
{
}

proof fn lemma_facts_writing(
    me: Runner,
    who: bool,
    shared: Shared,
    job: BuildJobView,
    id: IdentityView,
    cached_at_start: bool,
    event: EventView,
)
    requires
        runner_inv(me, who, shared, job, id, cached_at_start),
        cached_at_start ==> shared.cached,
        answers(shared, job, id, me.pending, event),
        me.phase is WritingProvenance,
    ensures
        step_facts(me, who, shared, job, id, cached_at_start, event),
{
}

/// One step of a resolution that can be answered does what
/// [`step_facts`] says.
pub proof fn lemma_step_facts(
    me: Runner,
    who: bool,
    shared: Shared,
    job: BuildJobView,
    id: IdentityView,
    cached_at_start: bool,
    event: EventView,
)
    requires
        runner_inv(me, who, shared, job, id, cached_at_start),
        cached_at_start ==> shared.cached,
        answers(shared, job, id, me.pending, event),
    ensures
        step_facts(me, who, shared, job, id, cached_at_start, event),
{
    match me.phase {
        PhaseView::CacheCheckPreLock { .. } | PhaseView::CacheCheckPostLock { .. } => {
            lemma_facts_cache_check(me, who, shared, job, id, cached_at_start, event);
        },
        PhaseView::Locking { .. } => {
            lemma_facts_locking(me, who, shared, job, id, cached_at_start, event);
        },
        PhaseView::Preparing { .. } => {
            lemma_facts_preparing(me, who, shared, job, id, cached_at_start, event);
        },
        PhaseView::Building { .. } => {
            lemma_facts_building(me, who, shared, job, id, cached_at_start, event);
        },
        PhaseView::Validating { .. } => {
            lemma_facts_validating(me, who, shared, job, id, cached_at_start, event);
        },
        PhaseView::Publishing { .. } => {
            lemma_facts_publishing(me, who, shared, job, id, cached_at_start, event);
        },
        PhaseView::ProbingVersion { .. } => {
            lemma_facts_probing(me, who, shared, job, id, cached_at_start, event);
        },
        PhaseView::WritingProvenance { .. } => {
            lemma_facts_writing(me, who, shared, job, id, cached_at_start, event);
        },
        _ => {},
    }
}

/// One step of either resolution keeps what holds at every moment.
pub proof fn lemma_advance_keeps_inv(
    pair: Pair,
    job: BuildJobView,
    id: IdentityView,
    cached_at_start: bool,
    who: bool,
    event: EventView,
)
    requires
        pair_inv(pair, job, id, cached_at_start),
        answers(pair.shared, job, id, pair.runner(who).pending, event),
    ensures
        pair_inv(advance_pair(pair, job, id, who, event), job, id, cached_at_start),
{
    let me = pair.runner(who);
    let other = pair.runner(!who);
    lemma_step_facts(me, who, pair.shared, job, id, cached_at_start, event);
    let after = advance_pair(pair, job, id, who, event);
    assert(after.runner(who) == moved(me, event));
    assert(after.runner(!who) == other);
    assert(after.shared == shared_after(pair.shared, who, job, id, me, event));
    assert(runner_inv(other, !who, after.shared, job, id, cached_at_start));
}

/// Every feasible schedule keeps what holds at every moment.
pub proof fn lemma_run_keeps_inv(
    pair: Pair,
    job: BuildJobView,
    id: IdentityView,
    cached_at_start: bool,
    schedule: Seq<(bool, EventView)>,
)
    requires
        pair_inv(pair, job, id, cached_at_start),
        feasible(pair, job, id, schedule),
    ensures
        pair_inv(run_pair(pair, job, id, schedule), job, id, cached_at_start),
    decreases schedule.len(),
{
    if schedule.len() > 0 {
        lemma_advance_keeps_inv(pair, job, id, cached_at_start, schedule[0].0, schedule[0].1);
        lemma_run_keeps_inv(
            advance_pair(pair, job, id, schedule[0].0, schedule[0].1),
            job,
            id,
            cached_at_start,
            schedule.drop_first(),
        );
    }
}

/// Two resolutions of one identity, in whatever order they take their steps:
/// never do both hold the lock; a resolution that ends with an artifact
/// leaves a valid executable at the published path; and where both end with
/// an artifact, the build ran exactly once between them, or not at all if the
/// executable was there from the start.
pub proof fn law_one_build_for_two(
    job: BuildJobView,
    id: IdentityView,
    cached_at_start: bool,
    schedule: Seq<(bool, EventView)>,
)
    requires
        feasible(start_pair(job, id, cached_at_start), job, id, schedule),
    ensures
        ({
            let end = run_pair(start_pair(job, id, cached_at_start), job, id, schedule);
            &&& !(holds_lock(end.first.phase) && holds_lock(end.second.phase))
            &&& end.first.phase is Done || end.second.phase is Done ==> end.shared.cached
            &&& end.first.phase is Done && end.second.phase is Done ==> end.first.builds
                + end.second.builds == if cached_at_start {
                0nat
            } else {
                1nat
            }
        }),
{
    let start = start_pair(job, id, cached_at_start);
    assert(pair_inv(start, job, id, cached_at_start));
    lemma_run_keeps_inv(start, job, id, cached_at_start, schedule);
}

} // verus!
