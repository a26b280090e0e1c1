//! What holds of whole runs: a full refresh stamps every project with the
//! compiler version it ran under, and a run that finds nothing changed
//! upstream builds nothing and adds no build log.

use vstd::prelude::*;

use crate::db::{BuildLogView, DbView};
use crate::root::Verdict;
use crate::run::{
    failing_roots, next_candidate, run_start, skipped_beforehand, unchanged, Action, EventView,
    ModeView, RunView, Stage,
};
use crate::root::{all_built, overall, RootOutcome};
use crate::version::SemVerView;

verus! {

/// The run after it was told `events`, one after the other.
pub open spec fn after_events(run: RunView, events: Seq<EventView>) -> RunView
    decreases events.len(),
{
    if events.len() == 0 {
        run
    } else {
        after_events(run, events.drop_last()).step(events.last()).0
    }
}

/// The action that the run named when it was told the event at `i`.
pub open spec fn action_at(run: RunView, events: Seq<EventView>, i: int) -> Action {
    after_events(run, events.take(i)).step(events[i]).1
}

/// `event` is what a run in this state is told when nothing has changed
/// upstream: the checkout succeeds, and the head revision is the one of
/// the project's latest build log.
pub open spec fn answers_unchanged(run: RunView, event: EventView) -> bool {
    match (run.stage, event) {
        (Stage::Checkout, EventView::CheckedOut(ok)) => ok,
        (Stage::Head, EventView::Head(rev)) => run.cursor < run.latest.len() && (
        run.latest[run.cursor as int] matches Some(log) && log.rev == rev),
        _ => false,
    }
}

/// Every one of `events` is what the run is told when nothing has changed
/// upstream.
pub open spec fn upstream_unchanged(run: RunView, events: Seq<EventView>) -> bool {
    forall|i: int|
        0 <= i < events.len() ==> answers_unchanged(
            #[trigger] after_events(run, events.take(i)),
            events[i],
        )
}

/// The latest build log of every project is for the compiler version of
/// the run.
pub open spec fn all_stamped(latest: Seq<Option<BuildLogView>>, version: Seq<char>) -> bool {
    forall|id: int|
        0 <= id < latest.len() ==> ((#[trigger] latest[id]) matches Some(log) && log.veryl_version
            == version)
}

/// The run is between projects or at the start of one, with nothing built
/// for the project at its cursor.
pub open spec fn idle(run: RunView) -> bool {
    run.stage == Stage::Checkout || run.stage == Stage::Head || run.stage == Stage::Finished
}

/// The action makes no compiler run and no search for roots.
pub open spec fn builds_nothing(action: Action) -> bool {
    action is Checkout || action is ResolveHead || action is Finished
}

/// The next candidate lies between `from` and the number of projects.
pub proof fn lemma_next_candidate_bounds(
    mode: ModeView,
    latest: Seq<Option<BuildLogView>>,
    from: nat,
)
    ensures
        next_candidate(mode, latest, from) <= latest.len(),
        from <= latest.len() ==> from <= next_candidate(mode, latest, from),
    decreases latest.len() - from,
{
    if from < latest.len() {
        lemma_next_candidate_bounds(mode, latest, from + 1);
    }
}

/// One step of a run that finds nothing changed.
proof fn lemma_idle_step(run: RunView, event: EventView)
    requires
        run.wf(),
        idle(run),
        all_stamped(run.latest, run.version),
        answers_unchanged(run, event),
    ensures
        run.step(event).0.wf(),
        idle(run.step(event).0),
        run.step(event).0.pending == run.pending,
        run.step(event).0.latest == run.latest,
        run.step(event).0.version == run.version,
        builds_nothing(run.step(event).1),
{
    if run.stage == Stage::Head {
        assert(unchanged(run.latest[run.cursor as int], event->Head_0, run.version));
        lemma_next_candidate_bounds(run.mode, run.latest, run.cursor + 1);
    }
}

/// A run that finds nothing changed upstream builds nothing: where the
/// latest build log of every project is for the run's compiler version,
/// and every checkout succeeds and resolves the revision of that log, the
/// run names no build, no migration and no search for roots, and adds no
/// build log, however far it is taken.
pub proof fn lemma_unchanged_run_builds_nothing(run: RunView, events: Seq<EventView>)
    requires
        run.wf(),
        idle(run),
        all_stamped(run.latest, run.version),
        upstream_unchanged(run, events),
    ensures
        after_events(run, events).wf(),
        idle(after_events(run, events)),
        after_events(run, events).pending == run.pending,
        after_events(run, events).latest == run.latest,
        after_events(run, events).version == run.version,
        forall|i: int| 0 <= i < events.len() ==> builds_nothing(#[trigger] action_at(run, events, i)),
    decreases events.len(),
{
    if events.len() > 0 {
        let front = events.drop_last();
        let last = events.len() - 1;
        assert forall|i: int| 0 <= i < front.len() implies answers_unchanged(
            #[trigger] after_events(run, front.take(i)),
            front[i],
        ) by {
            assert(front.take(i) =~= events.take(i));
            assert(answers_unchanged(after_events(run, events.take(i)), events[i]));
        }
        lemma_unchanged_run_builds_nothing(run, front);
        assert(events.take(last) =~= front);
        assert(answers_unchanged(after_events(run, events.take(last)), events[last]));
        lemma_idle_step(after_events(run, front), events.last());
        assert forall|i: int| 0 <= i < events.len() implies builds_nothing(
            #[trigger] action_at(run, events, i),
        ) by {
            if i < last {
                assert(front.take(i) =~= events.take(i));
                assert(action_at(run, front, i) == action_at(run, events, i));
            }
        }
    }
}

/// The project `id` exists, and its latest build log is for the compiler
/// version `version`.
pub open spec fn stamped_at(db: DbView, id: int, version: Seq<char>) -> bool {
    0 <= id < db.projects.len() && (db.projects[id].latest() matches Some(log) && log.veryl_version
        == version)
}

/// Appending build logs adds no project and removes none.
pub proof fn lemma_with_logs_len(db: DbView, logs: Seq<(u64, BuildLogView)>)
    ensures
        db.with_logs(logs).projects.len() == db.projects.len(),
    decreases logs.len(),
{
    if logs.len() > 0 {
        lemma_with_logs_len(db, logs.drop_last());
    }
}

/// Appending build logs leaves a project alone that none of them is for.
pub proof fn lemma_with_logs_untouched(db: DbView, logs: Seq<(u64, BuildLogView)>, id: int)
    requires
        0 <= id < db.projects.len(),
        forall|k: int| 0 <= k < logs.len() ==> (#[trigger] logs[k]).0 != id,
    ensures
        db.with_logs(logs).projects[id] == db.projects[id],
    decreases logs.len(),
{
    if logs.len() > 0 {
        let front = logs.drop_last();
        assert forall|k: int| 0 <= k < front.len() implies (#[trigger] front[k]).0 != id by {
            assert(front[k] == logs[k]);
        }
        lemma_with_logs_untouched(db, front, id);
        lemma_with_logs_len(db, front);
        assert(logs[logs.len() - 1].0 != id);
    }
}

/// How far a full refresh has come: the projects below `done` are dealt
/// with. Each of them has, once the logs of the run are appended, a latest
/// build log for the run's compiler version; the run holds no log for any
/// other project.
pub open spec fn progress(db: DbView, version: Seq<char>, run: RunView, done: nat) -> bool {
    &&& run.mode is FullRefresh
    &&& run.version == version
    &&& run.latest == db.latest_logs()
    &&& run.latest.len() <= usize::MAX
    &&& done <= run.latest.len()
    &&& forall|k: int| 0 <= k < run.pending.len() ==> (#[trigger] run.pending[k]).0 < done
    &&& forall|id: int| 0 <= id < done ==> stamped_at(db.with_logs(run.pending), id, version)
}

/// The number of projects that a run has dealt with.
pub open spec fn done_count(run: RunView) -> nat {
    if run.stage == Stage::Report {
        run.cursor + 1
    } else {
        run.cursor
    }
}

/// The run is a full refresh of `db` under `version`, well on its way.
pub open spec fn refreshing(db: DbView, version: Seq<char>, run: RunView) -> bool {
    run.wf() && progress(db, version, run, done_count(run))
}

/// Concluding the project at the cursor deals with it.
proof fn lemma_conclude_progress(db: DbView, version: Seq<char>, run: RunView, status: Verdict)
    requires
        progress(db, version, run, run.cursor),
        run.cursor < run.latest.len(),
        run.outcomes.len() <= run.roots.len(),
    ensures
        refreshing(db, version, run.conclude(status).0),
{
    let after = run.conclude(status).0;
    let id = run.cursor as u64;
    let added = after.pending.last();
    assert(after.pending.drop_last() =~= run.pending);
    lemma_with_logs_len(db, run.pending);
    let before = db.with_logs(run.pending);
    assert(db.with_logs(after.pending) == before.with_log(id, added.1));
    assert forall|k: int| 0 <= k < after.pending.len() implies (#[trigger] after.pending[k]).0
        < run.cursor + 1 by {
        if k < run.pending.len() {
            assert(after.pending[k] == run.pending[k]);
        }
    }
    assert forall|i: int| 0 <= i < run.cursor + 1 implies stamped_at(
        db.with_logs(after.pending),
        i,
        version,
    ) by {
        if i < run.cursor {
            assert(stamped_at(before, i, version));
        }
    }
}

/// Moving on from a project that is dealt with keeps the run on its way.
proof fn lemma_advance_progress(db: DbView, version: Seq<char>, run: RunView)
    requires
        progress(db, version, run, run.cursor + 1),
    ensures
        refreshing(db, version, run.advance(run.cursor + 1).0),
        run.advance(run.cursor + 1).0.cursor == run.cursor + 1,
{
}

/// A step of a full refresh keeps it on its way.
proof fn lemma_refreshing_step(db: DbView, version: Seq<char>, run: RunView, event: EventView)
    requires
        refreshing(db, version, run),
    ensures
        refreshing(db, version, run.step(event).0),
{
    let next = run.step(event);
    match (run.stage, event) {
        (Stage::Checkout, EventView::CheckedOut(ok)) => {
            if !ok {
                let unresolved = RunView { rev: Seq::empty(), ..run };
                lemma_conclude_progress(db, version, unresolved, Verdict::Failed);
            }
        },
        (Stage::Head, EventView::Head(rev)) => {
            if unchanged(run.latest[run.cursor as int], rev, run.version) {
                let id = run.cursor as int;
                lemma_with_logs_untouched(db, run.pending, id);
                lemma_with_logs_len(db, run.pending);
                assert(db.latest_logs()[id] == db.projects[id].latest());
                assert(stamped_at(db.with_logs(run.pending), id, version));
                lemma_advance_progress(db, version, run);
            }
        },
        (Stage::Roots, EventView::Roots(paths)) => {
            if paths.len() == 0 {
                lemma_conclude_progress(db, version, run, Verdict::Failed);
            }
        },
        (Stage::Building, EventView::Exited(success)) => {
            if next.0.stage == Stage::Report {
                let outcomes = next.0.outcomes;
                let build = next.0.build;
                let last_root = RunView { outcomes, build, ..run };
                assert(next.0 == last_root.conclude(overall(outcomes)).0);
                lemma_conclude_progress(db, version, last_root, overall(outcomes));
            }
        },
        (Stage::Report, EventView::Reported) => {
            lemma_advance_progress(db, version, run);
        },
        _ => {},
    }
}

/// A full refresh stays on its way, whatever it is told.
proof fn lemma_refreshing_run(db: DbView, version: Seq<char>, run: RunView, events: Seq<EventView>)
    requires
        refreshing(db, version, run),
    ensures
        refreshing(db, version, after_events(run, events)),
    decreases events.len(),
{
    if events.len() > 0 {
        lemma_refreshing_run(db, version, run, events.drop_last());
        lemma_refreshing_step(db, version, after_events(run, events.drop_last()), events.last());
    }
}

/// A full refresh that is finished has stamped every project: once its
/// build logs are appended, the latest build log of every project is for
/// the compiler version of the run.
pub proof fn lemma_refresh_stamps_every_project(
    db: DbView,
    version: Seq<char>,
    compiler: SemVerView,
    events: Seq<EventView>,
)
    requires
        db.projects.len() <= usize::MAX,
        after_events(run_start(db, ModeView::FullRefresh, version, compiler).0, events).stage
            == Stage::Finished,
    ensures
        all_stamped(
            db.with_logs(
                after_events(
                    run_start(db, ModeView::FullRefresh, version, compiler).0,
                    events,
                ).pending,
            ).latest_logs(),
            version,
        ),
{
    let begun = run_start(db, ModeView::FullRefresh, version, compiler).0;
    lemma_next_candidate_bounds(ModeView::FullRefresh, db.latest_logs(), 0);
    assert(refreshing(db, version, begun));
    lemma_refreshing_run(db, version, begun, events);
    let end = after_events(begun, events);
    lemma_with_logs_len(db, end.pending);
    let stored = db.with_logs(end.pending);
    assert forall|id: int| 0 <= id < stored.latest_logs().len() implies ((
    #[trigger] stored.latest_logs()[id]) matches Some(log) && log.veryl_version == version) by {
        assert(stamped_at(stored, id, version));
    }
}

/// Two full refreshes in a row, with nothing changed upstream in between,
/// add the build logs of the first only. When the first run is finished
/// and its logs are stored, a second run under the same compiler version,
/// in which every checkout succeeds and resolves the revision of the
/// project's latest build log, names no build, no migration and no search
/// for roots, and ends without a build log: storing its logs leaves the
/// store as it is.
pub proof fn lemma_second_refresh_adds_nothing(
    db: DbView,
    version: Seq<char>,
    compiler: SemVerView,
    first: Seq<EventView>,
    second: Seq<EventView>,
)
    requires
        db.projects.len() <= usize::MAX,
        after_events(run_start(db, ModeView::FullRefresh, version, compiler).0, first).stage
            == Stage::Finished,
        upstream_unchanged(
            run_start(
                db.with_logs(
                    after_events(
                        run_start(db, ModeView::FullRefresh, version, compiler).0,
                        first,
                    ).pending,
                ),
                ModeView::FullRefresh,
                version,
                compiler,
            ).0,
            second,
        ),
    ensures
        ({
            let stored = db.with_logs(
                after_events(
                    run_start(db, ModeView::FullRefresh, version, compiler).0,
                    first,
                ).pending,
            );
            let again = run_start(stored, ModeView::FullRefresh, version, compiler).0;
            &&& after_events(again, second).pending.len() == 0
            &&& stored.with_logs(after_events(again, second).pending) == stored
            &&& forall|i: int|
                0 <= i < second.len() ==> builds_nothing(#[trigger] action_at(again, second, i))
        }),
{
    let stored = db.with_logs(
        after_events(run_start(db, ModeView::FullRefresh, version, compiler).0, first).pending,
    );
    let again = run_start(stored, ModeView::FullRefresh, version, compiler).0;
    lemma_refresh_stamps_every_project(db, version, compiler, first);
    lemma_with_logs_len(
        db,
        after_events(run_start(db, ModeView::FullRefresh, version, compiler).0, first).pending,
    );
    lemma_next_candidate_bounds(ModeView::FullRefresh, stored.latest_logs(), 0);
    lemma_unchanged_run_builds_nothing(again, second);
}

/// The result of a project is the conjunction of its roots' results: if
/// one root failed, the project has failed, and the path of that root is
/// among the failing ones.
pub proof fn lemma_failed_root_fails_project(
    roots: Seq<Seq<char>>,
    outcomes: Seq<RootOutcome>,
    failed: int,
)
    requires
        outcomes.len() <= roots.len(),
        0 <= failed < outcomes.len(),
        outcomes[failed].verdict == Verdict::Failed,
    ensures
        overall(outcomes) == Verdict::Failed,
        !all_built(outcomes),
        failing_roots(roots, outcomes).contains(roots[failed]),
    decreases outcomes.len(),
{
    let earlier = failing_roots(roots, outcomes.drop_last());
    if failed == outcomes.len() - 1 {
        assert(earlier.push(roots[failed])[earlier.len() as int] == roots[failed]);
    } else {
        assert(outcomes.drop_last()[failed] == outcomes[failed]);
        lemma_failed_root_fails_project(roots, outcomes.drop_last(), failed);
        let at = choose|i: int| 0 <= i < earlier.len() && earlier[i] == roots[failed];
        assert(failing_roots(roots, outcomes)[at] == roots[failed]);
    }
}

/// A project whose roots all built has not failed, and none of its roots
/// is among the failing ones.
pub proof fn lemma_built_roots_pass_project(roots: Seq<Seq<char>>, outcomes: Seq<RootOutcome>)
    requires
        all_built(outcomes),
    ensures
        overall(outcomes) != Verdict::Failed,
        failing_roots(roots, outcomes).len() == 0,
    decreases outcomes.len(),
{
    if outcomes.len() > 0 {
        assert forall|i: int| 0 <= i < outcomes.drop_last().len() implies (
        #[trigger] outcomes.drop_last()[i]).verdict != Verdict::Failed by {
            assert(outcomes[i].verdict != Verdict::Failed);
        }
        lemma_built_roots_pass_project(roots, outcomes.drop_last());
        assert(outcomes[outcomes.len() - 1].verdict != Verdict::Failed);
    }
}

/// The ids of the build logs increase strictly, and all lie below `bound`.
pub open spec fn ids_ascend_below(logs: Seq<(u64, BuildLogView)>, bound: nat) -> bool {
    &&& forall|i: int, j: int| 0 <= i < j < logs.len() ==> logs[i].0 < logs[j].0
    &&& forall|k: int| 0 <= k < logs.len() ==> (#[trigger] logs[k]).0 < bound
}

/// A full refresh leaves no project out beforehand.
pub proof fn lemma_full_refresh_skips_nothing(latest: Seq<Option<BuildLogView>>, from: nat)
    ensures
        next_candidate(ModeView::FullRefresh, latest, from) == if from < latest.len() {
            from
        } else {
            latest.len()
        },
{
}

/// A step keeps the ids of the build logs in order.
proof fn lemma_ordered_step(run: RunView, event: EventView)
    requires
        run.wf(),
        ids_ascend_below(run.pending, done_count(run)),
    ensures
        run.step(event).0.wf(),
        ids_ascend_below(run.step(event).0.pending, done_count(run.step(event).0)),
{
    let next = run.step(event).0;
    lemma_next_candidate_bounds(run.mode, run.latest, run.cursor + 1);
    if next.pending != run.pending {
        assert(next.pending.drop_last() =~= run.pending);
        assert(next.pending.last().0 == run.cursor);
        assert(run.stage != Stage::Report);
        assert forall|i: int, j: int| 0 <= i < j < next.pending.len() implies next.pending[i].0
            < next.pending[j].0 by {
            assert(next.pending[i] == run.pending[i]);
            if j < run.pending.len() {
                assert(next.pending[j] == run.pending[j]);
            }
        }
        assert forall|k: int| 0 <= k < next.pending.len() implies (#[trigger] next.pending[k]).0
            < done_count(next) by {
            if k < run.pending.len() {
                assert(next.pending[k] == run.pending[k]);
            }
        }
    }
}

/// A run adds one build log per project at most: whatever it is told, the
/// project ids of its build logs increase strictly.
pub proof fn lemma_one_log_per_project(
    db: DbView,
    mode: ModeView,
    version: Seq<char>,
    compiler: SemVerView,
    events: Seq<EventView>,
)
    requires
        db.projects.len() <= usize::MAX,
    ensures
        after_events(run_start(db, mode, version, compiler).0, events).wf(),
        ids_ascend_below(
            after_events(run_start(db, mode, version, compiler).0, events).pending,
            db.projects.len(),
        ),
{
    let begun = run_start(db, mode, version, compiler).0;
    lemma_next_candidate_bounds(mode, db.latest_logs(), 0);
    lemma_ordered_run(begun, events);
}

/// A run keeps the ids of its build logs in order, whatever it is told.
proof fn lemma_ordered_run(run: RunView, events: Seq<EventView>)
    requires
        run.wf(),
        ids_ascend_below(run.pending, done_count(run)),
    ensures
        after_events(run, events).wf(),
        after_events(run, events).latest == run.latest,
        ids_ascend_below(after_events(run, events).pending, done_count(after_events(run, events))),
        ids_ascend_below(after_events(run, events).pending, run.latest.len()),
    decreases events.len(),
{
    if events.len() > 0 {
        lemma_ordered_run(run, events.drop_last());
        lemma_ordered_step(after_events(run, events.drop_last()), events.last());
    }
}

/// The next candidate, if there is one, is not left out beforehand.
pub proof fn lemma_next_candidate_is_kept(
    mode: ModeView,
    latest: Seq<Option<BuildLogView>>,
    from: nat,
)
    ensures
        next_candidate(mode, latest, from) < latest.len() ==> !skipped_beforehand(
            mode,
            latest[next_candidate(mode, latest, from) as int],
        ),
    decreases latest.len() - from,
{
    if from < latest.len() {
        lemma_next_candidate_bounds(mode, latest, from);
        lemma_next_candidate_is_kept(mode, latest, from + 1);
    }
}

/// The action is no checkout of a project that is left out beforehand.
pub open spec fn respects_skips(run: RunView, action: Action) -> bool {
    action matches Action::Checkout { id } ==> id < run.latest.len() && !skipped_beforehand(
        run.mode,
        run.latest[id as int],
    )
}

/// A selective check that does not include known failures never checks
/// out a project whose latest build failed; in any mode, no project that
/// is left out beforehand is checked out, whatever the run is told.
pub proof fn lemma_known_failures_are_left_out(
    db: DbView,
    mode: ModeView,
    version: Seq<char>,
    compiler: SemVerView,
    events: Seq<EventView>,
)
    requires
        db.projects.len() <= usize::MAX,
    ensures
        respects_skips(
            run_start(db, mode, version, compiler).0,
            run_start(db, mode, version, compiler).1,
        ),
        forall|i: int|
            0 <= i < events.len() ==> respects_skips(
                run_start(db, mode, version, compiler).0,
                #[trigger] action_at(run_start(db, mode, version, compiler).0, events, i),
            ),
{
    let begun = run_start(db, mode, version, compiler).0;
    lemma_next_candidate_bounds(mode, db.latest_logs(), 0);
    lemma_next_candidate_is_kept(mode, db.latest_logs(), 0);
    assert forall|i: int| 0 <= i < events.len() implies respects_skips(
        begun,
        #[trigger] action_at(begun, events, i),
    ) by {
        let before = after_events(begun, events.take(i));
        lemma_ordered_run(begun, events.take(i));
        lemma_mode_is_kept(begun, events.take(i));
        lemma_next_candidate_bounds(mode, db.latest_logs(), before.cursor + 1);
        lemma_next_candidate_is_kept(mode, db.latest_logs(), before.cursor + 1);
    }
}

/// A run keeps its mode, whatever it is told.
proof fn lemma_mode_is_kept(run: RunView, events: Seq<EventView>)
    ensures
        after_events(run, events).mode == run.mode,
    decreases events.len(),
{
    if events.len() > 0 {
        lemma_mode_is_kept(run, events.drop_last());
    }
}

/// A checkout that fails is logged without a revision: the run adds, for
/// the project at its cursor, a failing build log whose revision is empty,
/// under the run's compiler version, and goes on to report the project.
pub proof fn lemma_failed_checkout_is_logged(run: RunView)
    requires
        run.stage == Stage::Checkout,
    ensures
        run.step(EventView::CheckedOut(false)).0.pending == run.pending.push(
            (
                run.cursor as u64,
                BuildLogView { rev: Seq::empty(), veryl_version: run.version, result: false },
            ),
        ),
        run.step(EventView::CheckedOut(false)).0.stage == Stage::Report,
        run.step(EventView::CheckedOut(false)).1 == (Action::Report {
            id: run.cursor as u64,
            status: Verdict::Failed,
        }),
{
}

} // verus!
