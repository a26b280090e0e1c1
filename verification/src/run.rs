//! The build orchestrator: one run over the tracked projects, in the order
//! of their ids.
//!
//! A run checks out each project, resolves its head revision, finds its
//! build roots, builds each of them and, in the end, holds one build log
//! for each project that it built. It touches neither the network nor the
//! disk: it is a state machine that names what is to be done next
//! ([`Action`]) and is told what came of it ([`Event`]). The logs reach the
//! store in one batch, when the run is finished.

use vstd::prelude::*;

use crate::db::{id_logs_view, BuildLog, BuildLogView, Db, DbView};
use crate::root::{
    build_start, build_step, overall, overall_verdict, step_build, BuildAction, BuildState,
    Compiler, RootOutcome, Verdict,
};
use crate::text::texts_view;
use crate::version::{semver_parse, SemVer, SemVerView, VersionError};

verus! {

/// What a run is for.
#[derive(Debug)]
pub enum Mode {
    /// Every project is evaluated again, and the outcomes are kept.
    FullRefresh,
    /// An ad hoc pass.
    SelectiveCheck {
        /// The version to which the target compiler is pinned, if any.
        target: Option<String>,
        /// The version of the reference compiler, if the target is to be
        /// compared with one.
        reference: Option<String>,
        /// Whether projects whose latest build failed are built too.
        include_known_failures: bool,
    },
}

/// What a [`Mode`] stands for.
pub enum ModeView {
    FullRefresh,
    SelectiveCheck {
        target: Option<Seq<char>>,
        reference: Option<Seq<char>>,
        include_known_failures: bool,
    },
}

/// The view of an optional text.
pub open spec fn text_view(text: Option<String>) -> Option<Seq<char>> {
    match text {
        Some(t) => Some(t@),
        None => None,
    }
}

impl View for Mode {
    type V = ModeView;

    open spec fn view(&self) -> ModeView {
        match *self {
            Mode::FullRefresh => ModeView::FullRefresh,
            Mode::SelectiveCheck { target, reference, include_known_failures } => {
                ModeView::SelectiveCheck {
                    target: text_view(target),
                    reference: text_view(reference),
                    include_known_failures,
                }
            },
        }
    }
}

impl ModeView {
    /// Whether a project whose latest build failed is left out.
    pub open spec fn skips_known_failures(self) -> bool {
        self matches ModeView::SelectiveCheck { include_known_failures, .. }
            && !include_known_failures
    }

    /// Whether each root is also built under a reference compiler.
    pub open spec fn compares(self) -> bool {
        self matches ModeView::SelectiveCheck { reference, .. } && reference is Some
    }

    /// Whether the outcomes of the run are to be persisted.
    pub open spec fn persists(self) -> bool {
        self is FullRefresh
    }

    /// The version of the compiler that does the builds: the one the
    /// target is pinned to, else the one that the compiler reports.
    pub open spec fn version_used(self, reported: Seq<char>) -> Seq<char> {
        match self {
            ModeView::SelectiveCheck { target: Some(pinned), .. } => pinned,
            _ => reported,
        }
    }
}

impl Mode {
    /// Whether the outcomes of a run in this mode are to be persisted.
    pub fn persists(&self) -> (kept: bool)
        ensures
            kept == self@.persists(),
    {
        match self {
            Mode::FullRefresh => true,
            Mode::SelectiveCheck { .. } => false,
        }
    }

    /// Whether a project whose latest build failed is left out.
    pub fn skips_known_failures(&self) -> (skipped: bool)
        ensures
            skipped == self@.skips_known_failures(),
    {
        match self {
            Mode::FullRefresh => false,
            Mode::SelectiveCheck { include_known_failures, .. } => !*include_known_failures,
        }
    }

    /// Whether each root is also built under a reference compiler.
    pub fn compares(&self) -> (compared: bool)
        ensures
            compared == self@.compares(),
    {
        match self {
            Mode::FullRefresh => false,
            Mode::SelectiveCheck { reference, .. } => reference.is_some(),
        }
    }

    /// The version of the compiler that does the builds.
    pub fn version_used(&self, reported: &str) -> (version: String)
        ensures
            version@ == self@.version_used(reported@),
    {
        match self {
            Mode::SelectiveCheck { target: Some(pinned), .. } => pinned.clone(),
            _ => reported.to_owned(),
        }
    }
}

/// Where a run stands with the project at its cursor. Each stage but the
/// last waits for the event that answers the action named last.
#[derive(Clone, Copy, Debug, PartialEq, Eq, Structural)]
pub enum Stage {
    /// The checkout is under way.
    Checkout,
    /// The head revision is being resolved.
    Head,
    /// The checkout is searched for build roots.
    Roots,
    /// A command of the build of a root is running.
    Building,
    /// The project's status is being reported.
    Report,
    /// Every project was dealt with.
    Finished,
}

/// What a run wants done next.
#[derive(Clone, Copy, Debug, PartialEq, Eq, Structural)]
pub enum Action {
    /// Check out the project `id` into its workspace directory. Answered
    /// by [`Event::CheckedOut`].
    Checkout { id: u64 },
    /// Resolve the head revision of the checkout. Answered by
    /// [`Event::Head`].
    ResolveHead { id: u64 },
    /// Find the build roots of the checkout. Answered by [`Event::Roots`].
    FindRoots { id: u64 },
    /// Build the root at `root` under `compiler`, pinned as the mode pins
    /// that compiler. Answered by [`Event::Exited`].
    Build { id: u64, root: usize, compiler: Compiler },
    /// Run the migration pinned to `0.minor` in the root at `root`.
    /// Answered by [`Event::Exited`].
    Migrate { id: u64, root: usize, minor: u64 },
    /// Build the root at `root` once more, under the target compiler as it
    /// stands, without a pin. Answered by [`Event::Exited`].
    Rebuild { id: u64, root: usize },
    /// Report the status of the project. Answered by [`Event::Reported`].
    Report { id: u64, status: Verdict },
    /// Nothing more: the run is finished.
    Finished,
    /// The event did not answer the action named last; the run has not
    /// moved.
    Rejected,
}

/// What came of an action.
#[derive(Debug)]
pub enum Event {
    /// The checkout succeeded, or failed.
    CheckedOut(bool),
    /// The head revision of the checkout.
    Head(String),
    /// The build roots found in the checkout, as paths relative to it.
    Roots(Vec<String>),
    /// The command ended, with success or without.
    Exited(bool),
    /// The status was reported.
    Reported,
}

/// What an [`Event`] stands for.
pub enum EventView {
    CheckedOut(bool),
    Head(Seq<char>),
    Roots(Seq<Seq<char>>),
    Exited(bool),
    Reported,
}

impl View for Event {
    type V = EventView;

    open spec fn view(&self) -> EventView {
        match *self {
            Event::CheckedOut(ok) => EventView::CheckedOut(ok),
            Event::Head(rev) => EventView::Head(rev@),
            Event::Roots(paths) => EventView::Roots(texts_view(paths@)),
            Event::Exited(ok) => EventView::Exited(ok),
            Event::Reported => EventView::Reported,
        }
    }
}

/// A run in progress.
#[derive(Debug)]
pub struct Run {
    pub mode: Mode,
    /// The version of the compiler that does the builds, as text.
    pub version: String,
    /// The same version, parsed.
    pub compiler: SemVer,
    /// The latest build log of each project when the run began, by id.
    pub latest: Vec<Option<BuildLog>>,
    /// The id of the project that the run is at.
    pub cursor: usize,
    pub stage: Stage,
    /// The head revision of the project at the cursor, once known.
    pub rev: String,
    /// The build roots of the project at the cursor, once known.
    pub roots: Vec<String>,
    /// The outcomes of the roots that were built, in the order of `roots`.
    pub outcomes: Vec<RootOutcome>,
    /// Where the build of the next root stands.
    pub build: BuildState,
    /// The build logs of this run, by project id, in the order in which
    /// the projects were dealt with.
    pub pending: Vec<(u64, BuildLog)>,
}

/// What a [`Run`] stands for.
pub struct RunView {
    pub mode: ModeView,
    pub version: Seq<char>,
    pub compiler: SemVerView,
    pub latest: Seq<Option<BuildLogView>>,
    pub cursor: nat,
    pub stage: Stage,
    pub rev: Seq<char>,
    pub roots: Seq<Seq<char>>,
    pub outcomes: Seq<RootOutcome>,
    pub build: BuildState,
    pub pending: Seq<(u64, BuildLogView)>,
}

/// The view of an optional build log.
pub open spec fn log_view(log: Option<BuildLog>) -> Option<BuildLogView> {
    match log {
        Some(l) => Some(l@),
        None => None,
    }
}

/// The views of a sequence of optional build logs, in order.
pub open spec fn latest_view(latest: Seq<Option<BuildLog>>) -> Seq<Option<BuildLogView>> {
    Seq::new(latest.len(), |i: int| log_view(latest[i]))
}

impl View for Run {
    type V = RunView;

    open spec fn view(&self) -> RunView {
        RunView {
            mode: self.mode@,
            version: self.version@,
            compiler: self.compiler@,
            latest: latest_view(self.latest@),
            cursor: self.cursor as nat,
            stage: self.stage,
            rev: self.rev@,
            roots: texts_view(self.roots@),
            outcomes: self.outcomes@,
            build: self.build,
            pending: id_logs_view(self.pending@),
        }
    }
}

/// Whether a project is left out before anything is done for it: in a
/// selective check that does not include known failures, a project whose
/// latest build failed.
pub open spec fn skipped_beforehand(mode: ModeView, latest: Option<BuildLogView>) -> bool {
    mode.skips_known_failures() && (latest matches Some(log) && !log.result)
}

/// Whether a project needs no build: its latest build log is for the
/// revision `rev` and the compiler version `version`.
pub open spec fn unchanged(latest: Option<BuildLogView>, rev: Seq<char>, version: Seq<char>) -> bool {
    latest matches Some(log) && log.rev == rev && log.veryl_version == version
}

/// The first id from `from` on whose project is not left out beforehand;
/// the number of projects if there is none.
pub open spec fn next_candidate(mode: ModeView, latest: Seq<Option<BuildLogView>>, from: nat) -> nat
    decreases latest.len() - from,
{
    if from >= latest.len() {
        latest.len()
    } else if skipped_beforehand(mode, latest[from as int]) {
        next_candidate(mode, latest, from + 1)
    } else {
        from
    }
}

/// The paths of the roots that failed, in the order of the roots.
pub open spec fn failing_roots(roots: Seq<Seq<char>>, outcomes: Seq<RootOutcome>) -> Seq<Seq<char>>
    decreases outcomes.len(),
{
    if outcomes.len() == 0 {
        Seq::empty()
    } else {
        let earlier = failing_roots(roots, outcomes.drop_last());
        if outcomes.last().verdict == Verdict::Failed && outcomes.len() <= roots.len() {
            earlier.push(roots[outcomes.len() - 1])
        } else {
            earlier
        }
    }
}

impl RunView {
    /// The invariant of a run: the cursor is at a project unless the run
    /// is finished, and while a root is built there is a root left.
    pub open spec fn wf(self) -> bool {
        &&& self.cursor <= self.latest.len()
        &&& self.latest.len() <= usize::MAX
        &&& self.stage != Stage::Finished ==> self.cursor < self.latest.len()
        &&& self.stage == Stage::Finished ==> self.cursor == self.latest.len()
        &&& self.outcomes.len() <= self.roots.len()
        &&& self.stage == Stage::Building ==> self.outcomes.len() < self.roots.len()
    }

    /// The run moved on to the first project from `from` on that is not
    /// left out beforehand, and has its checkout under way; or finished,
    /// if there is no such project.
    pub open spec fn advance(self, from: nat) -> (RunView, Action) {
        let id = next_candidate(self.mode, self.latest, from);
        let fresh = RunView {
            cursor: id,
            rev: Seq::empty(),
            roots: Seq::empty(),
            outcomes: Seq::empty(),
            build: BuildState::First,
            ..self
        };
        if id < self.latest.len() {
            (RunView { stage: Stage::Checkout, ..fresh }, Action::Checkout { id: id as u64 })
        } else {
            (RunView { stage: Stage::Finished, ..fresh }, Action::Finished)
        }
    }

    /// The run with the build log of the project at the cursor added, and
    /// the project's status on its way to being reported.
    pub open spec fn conclude(self, status: Verdict) -> (RunView, Action) {
        let log = BuildLogView {
            rev: self.rev,
            veryl_version: self.version,
            result: status != Verdict::Failed,
        };
        (
            RunView {
                stage: Stage::Report,
                pending: self.pending.push((self.cursor as u64, log)),
                ..self
            },
            Action::Report { id: self.cursor as u64, status },
        )
    }

    /// The run after one of the commands of a root's build ended with
    /// `success`.
    pub open spec fn build_on(self, success: bool) -> (RunView, Action) {
        let id = self.cursor as u64;
        let root = self.outcomes.len() as usize;
        let next = build_step(
            self.compiler.major,
            self.compiler.minor,
            self.mode.compares(),
            self.build,
            success,
        );
        match next.1 {
            BuildAction::Build { compiler } => (
                RunView { build: next.0, ..self },
                Action::Build { id, root, compiler },
            ),
            BuildAction::Migrate { minor } => (
                RunView { build: next.0, ..self },
                Action::Migrate { id, root, minor },
            ),
            BuildAction::Rebuild => (RunView { build: next.0, ..self }, Action::Rebuild { id, root }),
            BuildAction::Done { outcome } => {
                let outcomes = self.outcomes.push(outcome);
                if outcomes.len() < self.roots.len() {
                    (
                        RunView { outcomes, build: build_start().0, ..self },
                        Action::Build {
                            id,
                            root: outcomes.len() as usize,
                            compiler: Compiler::Target,
                        },
                    )
                } else {
                    (RunView { outcomes, build: next.0, ..self }).conclude(overall(outcomes))
                }
            },
        }
    }

    /// The run and the action that follow when `event` arrives.
    ///
    /// - A checkout that failed gives the project a failing build log
    ///   whose revision is empty; one that succeeded has the head resolved.
    /// - A head revision that the latest build log has already, under the
    ///   same compiler version, ends the work on the project: nothing is
    ///   built and no log is added. Any other has the roots searched.
    /// - A checkout without a build root gives the project a failing build
    ///   log. Otherwise the roots are built one after the other, and the
    ///   project's log says whether all of them built. The build that
    ///   follows a migration is named apart: it runs without a pin.
    /// - Once the status is reported the run moves on.
    /// - An event that does not answer the action named last is rejected,
    ///   and the run stays as it is.
    pub open spec fn step(self, event: EventView) -> (RunView, Action) {
        let id = self.cursor as u64;
        match (self.stage, event) {
            (Stage::Checkout, EventView::CheckedOut(ok)) => {
                if ok {
                    (RunView { stage: Stage::Head, ..self }, Action::ResolveHead { id })
                } else {
                    (RunView { rev: Seq::empty(), ..self }).conclude(Verdict::Failed)
                }
            },
            (Stage::Head, EventView::Head(rev)) => {
                if unchanged(self.latest[self.cursor as int], rev, self.version) {
                    self.advance(self.cursor + 1)
                } else {
                    (RunView { stage: Stage::Roots, rev, ..self }, Action::FindRoots { id })
                }
            },
            (Stage::Roots, EventView::Roots(paths)) => {
                if paths.len() == 0 {
                    self.conclude(Verdict::Failed)
                } else {
                    (
                        RunView {
                            stage: Stage::Building,
                            roots: paths,
                            outcomes: Seq::empty(),
                            build: build_start().0,
                            ..self
                        },
                        Action::Build { id, root: 0, compiler: Compiler::Target },
                    )
                }
            },
            (Stage::Building, EventView::Exited(success)) => self.build_on(success),
            (Stage::Report, EventView::Reported) => self.advance(self.cursor + 1),
            _ => (self, Action::Rejected),
        }
    }
}

/// The run over the projects of `db` as it begins, and its first action.
pub open spec fn run_start(db: DbView, mode: ModeView, version: Seq<char>, compiler: SemVerView) -> (
    RunView,
    Action,
) {
    (RunView {
        mode,
        version,
        compiler,
        latest: db.latest_logs(),
        cursor: 0,
        stage: Stage::Finished,
        rev: Seq::empty(),
        roots: Seq::empty(),
        outcomes: Seq::empty(),
        build: BuildState::First,
        pending: Seq::empty(),
    }).advance(0)
}

/// Whether a project is left out before anything is done for it.
fn known_failure(mode: &Mode, latest: &Option<BuildLog>) -> (skipped: bool)
    ensures
        skipped == skipped_beforehand(mode@, log_view(*latest)),
{
    match latest {
        Some(log) => mode.skips_known_failures() && !log.result,
        None => false,
    }
}

/// Whether the latest build log is for this revision and compiler version.
fn log_unchanged(latest: &Option<BuildLog>, rev: &String, version: &String) -> (same: bool)
    ensures
        same == unchanged(log_view(*latest), rev@, version@),
{
    match latest {
        Some(log) => log.rev == *rev && log.veryl_version == *version,
        None => false,
    }
}

impl Run {
    /// The run's invariant; see [`RunView::wf`].
    pub open spec fn wf(&self) -> bool {
        self@.wf()
    }

    /// Moves on to the first project from `from` on that is not left out
    /// beforehand.
    fn advance(&mut self, from: usize) -> (action: Action)
        requires
            from <= old(self).latest.len(),
        ensures
            (final(self)@, action) == old(self)@.advance(from as nat),
            final(self).wf(),
    {
        let count: usize = self.latest.len();
        let mut id: usize = from;
        while id < count && known_failure(&self.mode, &self.latest[id])
            invariant
                *self == *old(self),
                count == self.latest.len(),
                from <= id <= count,
                next_candidate(self@.mode, self@.latest, id as nat) == next_candidate(
                    self@.mode,
                    self@.latest,
                    from as nat,
                ),
            decreases count - id,
        {
            id += 1;
        }
        self.cursor = id;
        self.rev = String::new();
        self.roots = Vec::new();
        self.outcomes = Vec::new();
        self.build = BuildState::First;
        proof {
            assert(self@.roots =~= Seq::empty());
        }
        if id < count {
            self.stage = Stage::Checkout;
            Action::Checkout { id: id as u64 }
        } else {
            self.stage = Stage::Finished;
            Action::Finished
        }
    }

    /// Adds the build log of the project at the cursor.
    fn conclude(&mut self, status: Verdict) -> (action: Action)
        requires
            old(self).cursor < old(self).latest.len(),
            old(self).outcomes.len() <= old(self).roots.len(),
        ensures
            (final(self)@, action) == old(self)@.conclude(status),
            final(self).wf(),
    {
        let id: u64 = self.cursor as u64;
        let log = BuildLog {
            rev: self.rev.clone(),
            veryl_version: self.version.clone(),
            result: match status {
                Verdict::Failed => false,
                _ => true,
            },
        };
        self.pending.push((id, log));
        self.stage = Stage::Report;
        proof {
            assert(self@.pending =~= old(self)@.pending.push((id, log@)));
        }
        Action::Report { id, status }
    }

    /// Takes the build of the root in hand one step.
    fn build_on(&mut self, success: bool) -> (action: Action)
        requires
            old(self).wf(),
            old(self).stage == Stage::Building,
        ensures
            (final(self)@, action) == old(self)@.build_on(success),
            final(self).wf(),
    {
        let id: u64 = self.cursor as u64;
        let root: usize = self.outcomes.len();
        let (state, action) = step_build(
            self.compiler.major,
            self.compiler.minor,
            self.mode.compares(),
            self.build,
            success,
        );
        match action {
            BuildAction::Build { compiler } => {
                self.build = state;
                Action::Build { id, root, compiler }
            },
            BuildAction::Migrate { minor } => {
                self.build = state;
                Action::Migrate { id, root, minor }
            },
            BuildAction::Rebuild => {
                self.build = state;
                Action::Rebuild { id, root }
            },
            BuildAction::Done { outcome } => {
                self.outcomes.push(outcome);
                if self.outcomes.len() < self.roots.len() {
                    self.build = BuildState::First;
                    Action::Build { id, root: self.outcomes.len(), compiler: Compiler::Target }
                } else {
                    self.build = state;
                    let status = overall_verdict(&self.outcomes);
                    self.conclude(status)
                }
            },
        }
    }

    /// Takes the run one step: `event` is what came of the action that the
    /// run named last. Returns the action to take next.
    pub fn step(&mut self, event: Event) -> (action: Action)
        requires
            old(self).wf(),
        ensures
            (final(self)@, action) == old(self)@.step(event@),
            final(self).wf(),
    {
        let id: u64 = self.cursor as u64;
        match self.stage {
            Stage::Checkout => match event {
                Event::CheckedOut(ok) => {
                    if ok {
                        self.stage = Stage::Head;
                        Action::ResolveHead { id }
                    } else {
                        self.rev = String::new();
                        self.conclude(Verdict::Failed)
                    }
                },
                _ => Action::Rejected,
            },
            Stage::Head => match event {
                Event::Head(rev) => {
                    if log_unchanged(&self.latest[self.cursor], &rev, &self.version) {
                        self.advance(self.cursor + 1)
                    } else {
                        self.stage = Stage::Roots;
                        self.rev = rev;
                        Action::FindRoots { id }
                    }
                },
                _ => Action::Rejected,
            },
            Stage::Roots => match event {
                Event::Roots(paths) => {
                    if paths.len() == 0 {
                        self.conclude(Verdict::Failed)
                    } else {
                        self.stage = Stage::Building;
                        self.roots = paths;
                        self.outcomes = Vec::new();
                        self.build = BuildState::First;
                        Action::Build { id, root: 0, compiler: Compiler::Target }
                    }
                },
                _ => Action::Rejected,
            },
            Stage::Building => match event {
                Event::Exited(success) => self.build_on(success),
                _ => Action::Rejected,
            },
            Stage::Report => match event {
                Event::Reported => self.advance(self.cursor + 1),
                _ => Action::Rejected,
            },
            Stage::Finished => Action::Rejected,
        }
    }

    /// Begins a run over the projects of `db` with a compiler whose
    /// version is `version` as text and `compiler` when parsed. Returns the
    /// run and its first action.
    pub fn start_with(db: &Db, mode: Mode, version: String, compiler: SemVer) -> (begun: (Run, Action))
        requires
            db.wf(),
        ensures
            (begun.0@, begun.1) == run_start(db@, mode@, version@, compiler@),
            begun.0.wf(),
    {
        let count: u64 = db.project_count();
        let mut latest: Vec<Option<BuildLog>> = Vec::new();
        let mut id: u64 = 0;
        while id < count
            invariant
                db.wf(),
                count == db@.projects.len(),
                id <= count,
                latest.len() == id,
                forall|k: int| 0 <= k < id ==> log_view(#[trigger] latest[k]) == db@.projects[k].latest(),
            decreases count - id,
        {
            let log = match db.get_project(id) {
                Some(project) => match project.latest_log() {
                    Some(log) => Some(log.clone()),
                    None => None,
                },
                None => None,
            };
            latest.push(log);
            id += 1;
        }
        let mut run = Run {
            mode,
            version,
            compiler,
            latest,
            cursor: 0,
            stage: Stage::Finished,
            rev: String::new(),
            roots: Vec::new(),
            outcomes: Vec::new(),
            build: BuildState::First,
            pending: Vec::new(),
        };
        proof {
            assert(run@.latest =~= db@.latest_logs());
            assert(run@.roots =~= Seq::empty());
            assert(run@.pending =~= Seq::empty());
        }
        let action = run.advance(0);
        (run, action)
    }

    /// Begins a run over the projects of `db`. The compiler that does the
    /// builds is the one that the mode pins the target to, else the one
    /// that reported `reported` as its version; the run cannot begin if
    /// that version is no semantic version.
    pub fn start(db: &Db, mode: Mode, reported: &str) -> (begun: Result<(Run, Action), VersionError>)
        requires
            db.wf(),
        ensures
            match begun {
                Ok((run, action)) => {
                    &&& semver_parse(mode@.version_used(reported@)) is Some
                    &&& (run@, action) == run_start(
                        db@,
                        mode@,
                        mode@.version_used(reported@),
                        semver_parse(mode@.version_used(reported@))->0,
                    )
                    &&& run.wf()
                },
                Err(error) => {
                    &&& semver_parse(mode@.version_used(reported@)) is None
                    &&& error == VersionError::Malformed
                },
            },
    {
        let version = mode.version_used(reported);
        match SemVer::parse(version.as_str()) {
            Ok(compiler) => Ok(Run::start_with(db, mode, version, compiler)),
            Err(error) => Err(error),
        }
    }

    /// Whether every project was dealt with.
    pub fn is_finished(&self) -> (finished: bool)
        ensures
            finished == (self@.stage == Stage::Finished),
    {
        match self.stage {
            Stage::Finished => true,
            _ => false,
        }
    }

    /// The paths of the roots of the project at the cursor that failed.
    pub fn failing_roots(&self) -> (paths: Vec<String>)
        requires
            self.wf(),
        ensures
            texts_view(paths@) == failing_roots(self@.roots, self@.outcomes),
    {
        let mut paths: Vec<String> = Vec::new();
        let mut i: usize = 0;
        proof {
            assert(self@.outcomes.take(0) =~= Seq::empty());
            assert(texts_view(paths@) =~= Seq::empty());
        }
        while i < self.outcomes.len()
            invariant
                self.wf(),
                i <= self.outcomes.len(),
                texts_view(paths@) == failing_roots(self@.roots, self@.outcomes.take(i as int)),
            decreases self.outcomes.len() - i,
        {
            let ghost before = texts_view(paths@);
            match self.outcomes[i].verdict {
                Verdict::Failed => {
                    paths.push(self.roots[i].clone());
                    proof {
                        assert(texts_view(paths@) =~= before.push(self@.roots[i as int]));
                    }
                },
                _ => {},
            }
            proof {
                assert(self@.outcomes.take(i + 1).drop_last() =~= self@.outcomes.take(i as int));
            }
            i += 1;
        }
        proof {
            assert(self@.outcomes.take(i as int) =~= self@.outcomes);
        }
        paths
    }

    /// Ends the run and hands out its build logs, by project id. A run
    /// that is not finished hands out nothing: its results are dropped.
    pub fn finish(self) -> (logs: Option<Vec<(u64, BuildLog)>>)
        ensures
            match logs {
                Some(pending) => self@.stage == Stage::Finished && id_logs_view(pending@)
                    == self@.pending,
                None => self@.stage != Stage::Finished,
            },
    {
        match self.stage {
            Stage::Finished => Some(self.pending),
            _ => None,
        }
    }
}

} // verus!
