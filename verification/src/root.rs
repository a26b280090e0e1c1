//! Building one build root: the build under the target compiler, the
//! build under a reference compiler where the two are compared, and the
//! migration probe when the target build fails.
//!
//! Like the prober, this is a state machine that names commands and is
//! told how they ended.

use vstd::prelude::*;

use crate::migrate::{
    has_anchor, lemma_probe_verdict, migrate, probe_start, probe_step, probe_verdict, start_migrate,
    steps_left, Probe, ProbeAction, Toolchain,
};
use crate::run::text_view;
use crate::toolchain::{
    build_args_of, optional_invocation_view, BuildInfoView, Invocation, InvocationView,
};
use crate::version::SemVer;

verus! {

/// The compiler that a build runs under.
#[derive(Clone, Copy, Debug, PartialEq, Eq, Structural)]
pub enum Compiler {
    /// The compiler whose verdict counts.
    Target,
    /// The compiler that the target is compared with.
    Reference,
}

/// How the build of a root ended under the target compiler.
#[derive(Clone, Copy, Debug, PartialEq, Eq, Structural)]
pub enum Verdict {
    /// The root built as it was checked out.
    Passed,
    /// The root built after its sources were migrated.
    Migrated,
    /// The root does not build.
    Failed,
}

/// What is known of a root once its build is over.
#[derive(Clone, Copy, Debug, PartialEq, Eq, Structural)]
pub struct RootOutcome {
    /// The verdict, which the target compiler alone decides.
    pub verdict: Verdict,
    /// Whether the root built under the reference compiler, where one was
    /// given.
    pub reference: Option<bool>,
}

/// Where the build of a root stands. Each state but the last waits for the
/// exit status of the command that was named last.
#[derive(Clone, Copy, Debug, PartialEq, Eq, Structural)]
pub enum BuildState {
    /// The target build is running.
    First,
    /// The reference build is running; the target build ended with
    /// `target_ok`.
    Reference { target_ok: bool },
    /// The target build failed, and the prober is at work.
    Probing { probe: Probe, reference: Option<bool> },
    /// The build is over.
    Done { outcome: RootOutcome },
}

/// What the build of a root wants done next.
#[derive(Clone, Copy, Debug, PartialEq, Eq, Structural)]
pub enum BuildAction {
    /// Run the build under `compiler`, pinned as that compiler is.
    Build { compiler: Compiler },
    /// Run the target compiler's migration, pinned to version `0.minor`.
    Migrate { minor: u64 },
    /// Run the build once more under the target compiler as it stands,
    /// without a pin.
    Rebuild,
    /// Nothing more: the outcome is known.
    Done { outcome: RootOutcome },
}

/// What a build needs to know of its compiler and its root.
#[derive(Debug)]
pub struct VerylBuildInfo {
    /// The version of the target compiler.
    pub version: SemVer,
    /// The path of the compiler binary.
    pub veryl: String,
    /// The directory of the build root.
    pub veryl_root: String,
    /// The argument that pins the target compiler to a version, if any.
    pub version_arg: Option<String>,
    /// The argument that pins the reference compiler to a version, if any.
    pub reference_arg: Option<String>,
    /// Whether the root is also built under a reference compiler.
    pub compare: bool,
}

/// The first state and action of every build: the target build runs.
pub open spec fn build_start() -> (BuildState, BuildAction) {
    (BuildState::First, BuildAction::Build { compiler: Compiler::Target })
}

/// The state that ends a build with `verdict`, and the action that says so.
pub open spec fn build_done(verdict: Verdict, reference: Option<bool>) -> (BuildState, BuildAction) {
    let outcome = RootOutcome { verdict, reference };
    (BuildState::Done { outcome }, BuildAction::Done { outcome })
}

/// What follows the first target build, and the reference build if there
/// was one: a root that built has passed; one that did not goes to the
/// prober, and has failed where the prober has nothing to try.
pub open spec fn after_first_build(
    major: u64,
    minor: u64,
    target_ok: bool,
    reference: Option<bool>,
) -> (BuildState, BuildAction) {
    if target_ok {
        build_done(Verdict::Passed, reference)
    } else {
        match probe_start(major, minor).1 {
            ProbeAction::Migrate { minor: pinned } => (
                BuildState::Probing { probe: probe_start(major, minor).0, reference },
                BuildAction::Migrate { minor: pinned },
            ),
            _ => build_done(Verdict::Failed, reference),
        }
    }
}

/// The state and action that follow `state` when the command it waited for
/// ended with `success`, for a target compiler of version `major.minor`;
/// `compare` says whether a reference compiler was given.
///
/// The reference build runs right after the first target build, on the
/// sources as they were checked out, and its result is only kept. While
/// the prober is at work its commands are passed on; its rebuild is named
/// apart from the first build, since it runs without a pin; its verdict
/// makes the root migrated or failed.
pub open spec fn build_step(
    major: u64,
    minor: u64,
    compare: bool,
    state: BuildState,
    success: bool,
) -> (BuildState, BuildAction) {
    match state {
        BuildState::First => {
            if compare {
                (
                    BuildState::Reference { target_ok: success },
                    BuildAction::Build { compiler: Compiler::Reference },
                )
            } else {
                after_first_build(major, minor, success, None)
            }
        },
        BuildState::Reference { target_ok } => after_first_build(
            major,
            minor,
            target_ok,
            Some(success),
        ),
        BuildState::Probing { probe, reference } => {
            let next = probe_step(minor, probe, success);
            match next.1 {
                ProbeAction::Migrate { minor: pinned } => (
                    BuildState::Probing { probe: next.0, reference },
                    BuildAction::Migrate { minor: pinned },
                ),
                ProbeAction::Rebuild => (
                    BuildState::Probing { probe: next.0, reference },
                    BuildAction::Rebuild,
                ),
                ProbeAction::Stop { built } => build_done(
                    if built {
                        Verdict::Migrated
                    } else {
                        Verdict::Failed
                    },
                    reference,
                ),
            }
        },
        BuildState::Done { outcome } => (BuildState::Done { outcome }, BuildAction::Done { outcome }),
    }
}

/// Starts the build of a root.
pub fn start_build() -> (first: (BuildState, BuildAction))
    ensures
        first == build_start(),
{
    (BuildState::First, BuildAction::Build { compiler: Compiler::Target })
}

fn finish_build(verdict: Verdict, reference: Option<bool>) -> (last: (BuildState, BuildAction))
    ensures
        last == build_done(verdict, reference),
{
    let outcome = RootOutcome { verdict, reference };
    (BuildState::Done { outcome }, BuildAction::Done { outcome })
}

fn continue_after_first(major: u64, minor: u64, target_ok: bool, reference: Option<bool>) -> (next: (
    BuildState,
    BuildAction,
))
    ensures
        next == after_first_build(major, minor, target_ok, reference),
{
    if target_ok {
        finish_build(Verdict::Passed, reference)
    } else {
        let (probe, action) = start_migrate(major, minor);
        match action {
            ProbeAction::Migrate { minor: pinned } => (
                BuildState::Probing { probe, reference },
                BuildAction::Migrate { minor: pinned },
            ),
            _ => finish_build(Verdict::Failed, reference),
        }
    }
}

/// Takes the build of a root one step, for a target compiler of version
/// `major.minor`: `success` is the exit status of the command that `state`
/// waited for, and `compare` says whether a reference compiler was given.
pub fn step_build(major: u64, minor: u64, compare: bool, state: BuildState, success: bool) -> (next: (
    BuildState,
    BuildAction,
))
    ensures
        next == build_step(major, minor, compare, state, success),
{
    match state {
        BuildState::First => {
            if compare {
                (
                    BuildState::Reference { target_ok: success },
                    BuildAction::Build { compiler: Compiler::Reference },
                )
            } else {
                continue_after_first(major, minor, success, None)
            }
        },
        BuildState::Reference { target_ok } => continue_after_first(
            major,
            minor,
            target_ok,
            Some(success),
        ),
        BuildState::Probing { probe, reference } => {
            let (probe, action) = migrate(minor, probe, success);
            match action {
                ProbeAction::Migrate { minor: pinned } => (
                    BuildState::Probing { probe, reference },
                    BuildAction::Migrate { minor: pinned },
                ),
                ProbeAction::Rebuild => (BuildState::Probing { probe, reference }, BuildAction::Rebuild),
                ProbeAction::Stop { built } => finish_build(
                    if built {
                        Verdict::Migrated
                    } else {
                        Verdict::Failed
                    },
                    reference,
                ),
            }
        },
        BuildState::Done { outcome } => (BuildState::Done { outcome }, BuildAction::Done { outcome }),
    }
}

/// A step of the build of a root: where the build stands, what it wants
/// done next, and the command that does it, if it wants a command run.
#[derive(Debug)]
pub struct BuildStep {
    pub state: BuildState,
    pub action: BuildAction,
    pub command: Option<Invocation>,
}

/// Starts the build of the root that `info` describes: the first build
/// runs the compiler binary in the build root, with the argument that
/// pins the target compiler, if there is one, then `build`, then `--check`
/// if the root is compared.
pub fn start_veryl_build(info: &VerylBuildInfo) -> (first: BuildStep)
    ensures
        (first.state, first.action) == build_start(),
        first.command matches Some(command) && command@ == (InvocationView {
            program: info.veryl@,
            directory: info.veryl_root@,
            args: build_args_of(text_view(info.version_arg), info.compare),
        }),
{
    let (state, action) = start_build();
    BuildStep { state, action, command: info.invocation(action) }
}

/// Takes the build of the root that `info` describes one step: `success`
/// is the exit status of the command that `state` waited for. The command
/// that comes back is the one that the next action asks for.
pub fn veryl_build(info: &VerylBuildInfo, state: BuildState, success: bool) -> (next: BuildStep)
    ensures
        (next.state, next.action) == build_step(
            info.version.major,
            info.version.minor,
            info.compare,
            state,
            success,
        ),
        optional_invocation_view(next.command) == info.commands().invocation_of(next.action),
{
    let (state, action) = step_build(
        info.version.major,
        info.version.minor,
        info.compare,
        state,
        success,
    );
    BuildStep { state, action, command: info.invocation(action) }
}

/// The prober's rebuild is never a pinned build: while the prober is at
/// work the build names migrations and the rebuild only, and the rebuild
/// runs with the arguments of an unpinned build.
pub proof fn lemma_rebuild_is_unpinned(
    info: BuildInfoView,
    major: u64,
    minor: u64,
    probe: Probe,
    reference: Option<bool>,
    success: bool,
)
    ensures
        !(build_step(
            major,
            minor,
            info.compare,
            BuildState::Probing { probe, reference },
            success,
        ).1 is Build),
        info.arguments_of(BuildAction::Rebuild) == Some(build_args_of(None, info.compare)),
        build_args_of(None, info.compare)[0] == "build"@,
{
}

/// The verdict over all the roots of a project: failed if one root failed,
/// else migrated if one was migrated, else passed.
pub open spec fn overall(outcomes: Seq<RootOutcome>) -> Verdict {
    if exists|i: int| 0 <= i < outcomes.len() && (#[trigger] outcomes[i]).verdict == Verdict::Failed {
        Verdict::Failed
    } else if exists|i: int|
        0 <= i < outcomes.len() && (#[trigger] outcomes[i]).verdict == Verdict::Migrated {
        Verdict::Migrated
    } else {
        Verdict::Passed
    }
}

/// Whether every root built: the conjunction of the roots' results.
pub open spec fn all_built(outcomes: Seq<RootOutcome>) -> bool {
    forall|i: int| 0 <= i < outcomes.len() ==> (#[trigger] outcomes[i]).verdict != Verdict::Failed
}

/// Computes the verdict over all the roots of a project.
pub fn overall_verdict(outcomes: &Vec<RootOutcome>) -> (verdict: Verdict)
    ensures
        verdict == overall(outcomes@),
        (verdict != Verdict::Failed) == all_built(outcomes@),
{
    let mut migrated = false;
    let mut i: usize = 0;
    while i < outcomes.len()
        invariant
            i <= outcomes.len(),
            forall|k: int| 0 <= k < i ==> (#[trigger] outcomes[k]).verdict != Verdict::Failed,
            migrated == exists|k: int|
                0 <= k < i && (#[trigger] outcomes[k]).verdict == Verdict::Migrated,
        decreases outcomes.len() - i,
    {
        match outcomes[i].verdict {
            Verdict::Failed => {
                return Verdict::Failed;
            },
            Verdict::Migrated => {
                migrated = true;
            },
            Verdict::Passed => {},
        }
        i += 1;
    }
    if migrated {
        Verdict::Migrated
    } else {
        Verdict::Passed
    }
}

/// A build root as its build meets it: whether it builds under the target
/// compiler as it was checked out, whether it builds under the reference
/// compiler, and how the target compiler's migrations and the rebuild go.
pub struct Workshop {
    pub builds: bool,
    pub reference_builds: bool,
    pub toolchain: Toolchain,
}

impl Workshop {
    /// The exit status with which `action` ends.
    pub open spec fn answer(self, action: BuildAction) -> bool {
        match action {
            BuildAction::Build { compiler: Compiler::Reference } => self.reference_builds,
            BuildAction::Build { compiler: Compiler::Target } => self.builds,
            BuildAction::Migrate { minor } => self.toolchain.can_migrate(minor),
            BuildAction::Rebuild => self.toolchain.rebuilds,
            BuildAction::Done { .. } => true,
        }
    }

    /// The verdict that is due to the root under a target compiler of
    /// version `major.minor`: passed if it builds as it is; migrated if it
    /// does not, but the compiler is on the unstable line, one of its
    /// migrations applies and the root builds afterwards; failed
    /// otherwise.
    pub open spec fn due(self, major: u64, minor: u64) -> Verdict {
        if self.builds {
            Verdict::Passed
        } else if major == 0 && has_anchor(self.toolchain, minor) && self.toolchain.rebuilds {
            Verdict::Migrated
        } else {
            Verdict::Failed
        }
    }
}

/// A bound on the number of commands that a build in `state` still names.
pub open spec fn build_steps_left(minor: u64, state: BuildState) -> nat {
    match state {
        BuildState::First => (2 * minor + 6) as nat,
        BuildState::Reference { .. } => (2 * minor + 5) as nat,
        BuildState::Probing { probe, .. } => steps_left(minor, probe) + 1,
        BuildState::Done { .. } => 0,
    }
}

/// The outcome of a build that is in `state` and has named `action`, when
/// `workshop` answers each command.
pub open spec fn build_outcome(
    major: u64,
    minor: u64,
    compare: bool,
    state: BuildState,
    action: BuildAction,
    workshop: Workshop,
) -> RootOutcome
    decreases build_steps_left(minor, state),
{
    match state {
        BuildState::Done { outcome } => outcome,
        _ => {
            let next = build_step(major, minor, compare, state, workshop.answer(action));
            build_outcome(major, minor, compare, next.0, next.1, workshop)
        },
    }
}

/// The command of the build that passes on the command of the prober.
pub open spec fn passed_on(action: ProbeAction) -> BuildAction {
    match action {
        ProbeAction::Migrate { minor } => BuildAction::Migrate { minor },
        ProbeAction::Rebuild => BuildAction::Rebuild,
        ProbeAction::Stop { built } => BuildAction::Done {
            outcome: RootOutcome {
                verdict: if built {
                    Verdict::Migrated
                } else {
                    Verdict::Failed
                },
                reference: None,
            },
        },
    }
}

/// While the prober is at work, the outcome of the build is the prober's
/// verdict.
proof fn lemma_probing_outcome(
    major: u64,
    minor: u64,
    compare: bool,
    probe: Probe,
    action: ProbeAction,
    reference: Option<bool>,
    workshop: Workshop,
)
    requires
        probe is Done || !(action is Stop),
    ensures
        build_outcome(
            major,
            minor,
            compare,
            BuildState::Probing { probe, reference },
            passed_on(action),
            workshop,
        ) == (RootOutcome {
            verdict: if probe_verdict(minor, probe, action, workshop.toolchain) {
                Verdict::Migrated
            } else {
                Verdict::Failed
            },
            reference,
        }),
    decreases steps_left(minor, probe),
{
    let state = BuildState::Probing { probe, reference };
    let answer = workshop.answer(passed_on(action));
    let next = probe_step(minor, probe, answer);
    let after = build_step(major, minor, compare, state, answer);
    assert(build_outcome(major, minor, compare, state, passed_on(action), workshop)
        == build_outcome(major, minor, compare, after.0, after.1, workshop));
    if probe is Done {
        assert(after.0 is Done);
        assert(build_outcome(major, minor, compare, after.0, after.1, workshop) == after.0->outcome);
    } else {
        assert(answer == workshop.toolchain.answer(action));
        assert(probe_verdict(minor, probe, action, workshop.toolchain) == probe_verdict(
            minor,
            next.0,
            next.1,
            workshop.toolchain,
        ));
        if next.1 is Stop {
            assert(next.0 is Done);
            assert(after.0 is Done);
            assert(build_outcome(major, minor, compare, after.0, after.1, workshop)
                == after.0->outcome);
        } else {
            lemma_probing_outcome(major, minor, compare, next.0, next.1, reference, workshop);
            assert(build_step(major, minor, compare, state, answer) == (
                BuildState::Probing { probe: next.0, reference },
                passed_on(next.1),
            ));
        }
    }
}

/// The outcome of building a root. The verdict is the one that is due to
/// the root under the target compiler: the reference compiler has no part
/// in it, and its result is only kept.
pub proof fn lemma_root_outcome(major: u64, minor: u64, compare: bool, workshop: Workshop)
    ensures
        build_outcome(major, minor, compare, build_start().0, build_start().1, workshop) == (
        RootOutcome {
            verdict: workshop.due(major, minor),
            reference: if compare {
                Some(workshop.reference_builds)
            } else {
                None
            },
        }),
{
    let reference = if compare {
        Some(workshop.reference_builds)
    } else {
        None
    };
    let first = build_step(
        major,
        minor,
        compare,
        BuildState::First,
        workshop.answer(build_start().1),
    );
    let settled = after_first_build(major, minor, workshop.builds, reference);
    assert(build_outcome(major, minor, compare, build_start().0, build_start().1, workshop)
        == build_outcome(major, minor, compare, settled.0, settled.1, workshop)) by {
        if compare {
            assert(first.0 == BuildState::Reference { target_ok: workshop.builds });
            assert(build_outcome(major, minor, compare, first.0, first.1, workshop)
                == build_outcome(major, minor, compare, settled.0, settled.1, workshop));
        }
    }
    lemma_probe_verdict(major, minor, workshop.toolchain);
    if !workshop.builds {
        let begun = probe_start(major, minor);
        if begun.1 is Migrate {
            lemma_probing_outcome(major, minor, compare, begun.0, begun.1, reference, workshop);
        }
    }
}

} // verus!
