//! The migration prober: when a build root fails to build, it looks for a
//! minor version of the compiler whose migration applies to the sources,
//! replays the migrations from there up to the current version one minor
//! version at a time, and has the build tried again.
//!
//! The prober runs no command itself. It is a state machine: it names the
//! next command, is told whether that command succeeded, and names the
//! next one.

use vstd::prelude::*;

verus! {

/// Where the prober stands. Each state but the last waits for the exit
/// status of the command that was named last.
#[derive(Clone, Copy, Debug, PartialEq, Eq, Structural)]
pub enum Probe {
    /// Probing backward: the migration pinned to `minor` is running.
    Backward { minor: u64 },
    /// Replaying forward: the migration pinned to `minor` is running.
    Forward { minor: u64 },
    /// The build is running again.
    Rebuild,
    /// The prober is done; `built` says whether the root builds now.
    Done { built: bool },
}

/// What the prober wants done next.
#[derive(Clone, Copy, Debug, PartialEq, Eq, Structural)]
pub enum ProbeAction {
    /// Run the compiler's migration, pinned to version `0.minor`.
    Migrate { minor: u64 },
    /// Run the build that failed once more, under the compiler as it
    /// stands: migrations are pinned, the rebuild is not.
    Rebuild,
    /// Nothing more: the root builds now, or the failure stands.
    Stop { built: bool },
}

/// The first state and action of a probe for a compiler of version
/// `major.minor`. Migration exists on the unstable line only, and there
/// only from minor version 1 on: elsewhere the failure stands at once.
pub open spec fn probe_start(major: u64, minor: u64) -> (Probe, ProbeAction) {
    if major == 0 && minor >= 1 {
        (Probe::Backward { minor }, ProbeAction::Migrate { minor })
    } else {
        (Probe::Done { built: false }, ProbeAction::Stop { built: false })
    }
}

/// The state and action that follow `state` when the command it waited for
/// ended with `success`, for a compiler of minor version `current`.
///
/// Backward, a failed migration sends the probe one minor version down,
/// until at version 1 the probe gives up; the first migration that
/// succeeds is the anchor. Forward, the migrations from the anchor up to
/// `current` are run one by one, whether they succeed or not. Then the
/// build is run again, and its result is the verdict.
pub open spec fn probe_step(current: u64, state: Probe, success: bool) -> (Probe, ProbeAction) {
    match state {
        Probe::Backward { minor } => {
            if success {
                (Probe::Forward { minor }, ProbeAction::Migrate { minor })
            } else if minor > 1 {
                (
                    Probe::Backward { minor: (minor - 1) as u64 },
                    ProbeAction::Migrate { minor: (minor - 1) as u64 },
                )
            } else {
                (Probe::Done { built: false }, ProbeAction::Stop { built: false })
            }
        },
        Probe::Forward { minor } => {
            if minor < current {
                (
                    Probe::Forward { minor: (minor + 1) as u64 },
                    ProbeAction::Migrate { minor: (minor + 1) as u64 },
                )
            } else {
                (Probe::Rebuild, ProbeAction::Rebuild)
            }
        },
        Probe::Rebuild => (Probe::Done { built: success }, ProbeAction::Stop { built: success }),
        Probe::Done { built } => (Probe::Done { built }, ProbeAction::Stop { built }),
    }
}

/// Starts a probe for a compiler of version `major.minor`.
pub fn start_migrate(major: u64, minor: u64) -> (first: (Probe, ProbeAction))
    ensures
        first == probe_start(major, minor),
{
    if major == 0 && minor >= 1 {
        (Probe::Backward { minor }, ProbeAction::Migrate { minor })
    } else {
        (Probe::Done { built: false }, ProbeAction::Stop { built: false })
    }
}

/// Takes the probe one step: `success` is the exit status of the command
/// that `state` waited for, `current` the compiler's minor version.
pub fn migrate(current: u64, state: Probe, success: bool) -> (next: (Probe, ProbeAction))
    ensures
        next == probe_step(current, state, success),
{
    match state {
        Probe::Backward { minor } => {
            if success {
                (Probe::Forward { minor }, ProbeAction::Migrate { minor })
            } else if minor > 1 {
                (Probe::Backward { minor: minor - 1 }, ProbeAction::Migrate { minor: minor - 1 })
            } else {
                (Probe::Done { built: false }, ProbeAction::Stop { built: false })
            }
        },
        Probe::Forward { minor } => {
            if minor < current {
                (Probe::Forward { minor: minor + 1 }, ProbeAction::Migrate { minor: minor + 1 })
            } else {
                (Probe::Rebuild, ProbeAction::Rebuild)
            }
        },
        Probe::Rebuild => (Probe::Done { built: success }, ProbeAction::Stop { built: success }),
        Probe::Done { built } => (Probe::Done { built }, ProbeAction::Stop { built }),
    }
}

/// A compiler as the prober meets it: `migrates(minor)` says whether the
/// migration pinned to `0.minor` succeeds on the sources, `rebuilds`
/// whether the build succeeds once the migrations were replayed.
pub struct Toolchain {
    pub migrates: spec_fn(u64) -> bool,
    pub rebuilds: bool,
}

impl Toolchain {
    /// Whether the migration pinned to `0.minor` succeeds.
    pub open spec fn can_migrate(self, minor: u64) -> bool {
        (self.migrates)(minor)
    }

    /// The exit status with which the toolchain answers `action`.
    pub open spec fn answer(self, action: ProbeAction) -> bool {
        match action {
            ProbeAction::Migrate { minor } => self.can_migrate(minor),
            ProbeAction::Rebuild => self.rebuilds,
            ProbeAction::Stop { built } => built,
        }
    }
}

/// A bound on the number of commands that a probe in `state` still names.
pub open spec fn steps_left(current: u64, state: Probe) -> nat {
    match state {
        Probe::Backward { minor } => (minor + current + 3) as nat,
        Probe::Forward { minor } => if minor <= current {
            (current - minor + 2) as nat
        } else {
            2
        },
        Probe::Rebuild => 1,
        Probe::Done { .. } => 0,
    }
}

/// Everything the prober names, in order, from the moment it is in
/// `state` and has named `action`, when `toolchain` answers each command.
/// The last entry is the `Stop` that carries the verdict.
pub open spec fn probe_trace(
    current: u64,
    state: Probe,
    action: ProbeAction,
    toolchain: Toolchain,
) -> Seq<ProbeAction>
    decreases steps_left(current, state),
{
    if state is Done {
        seq![action]
    } else {
        let next = probe_step(current, state, toolchain.answer(action));
        seq![action] + probe_trace(current, next.0, next.1, toolchain)
    }
}

/// Everything the prober names for a compiler of version `major.minor`.
pub open spec fn full_trace(major: u64, minor: u64, toolchain: Toolchain) -> Seq<ProbeAction> {
    probe_trace(minor, probe_start(major, minor).0, probe_start(major, minor).1, toolchain)
}

/// The migrations pinned to `from`, `from + 1`, ..., `to`, in this order.
pub open spec fn migrations_up(from: u64, to: u64) -> Seq<ProbeAction> {
    if from <= to {
        Seq::new((to - from + 1) as nat, |i: int| ProbeAction::Migrate { minor: (from + i) as u64 })
    } else {
        Seq::empty()
    }
}

/// The migrations pinned to `from`, `from - 1`, ..., `to`, in this order.
pub open spec fn migrations_down(from: u64, to: u64) -> Seq<ProbeAction> {
    if to <= from {
        Seq::new((from - to + 1) as nat, |i: int| ProbeAction::Migrate { minor: (from - i) as u64 })
    } else {
        Seq::empty()
    }
}

/// From the anchor on, the prober replays every migration up to the
/// current version once, in increasing order, then rebuilds once.
pub proof fn lemma_forward_replay(current: u64, from: u64, toolchain: Toolchain)
    requires
        from <= current,
    ensures
        probe_trace(
            current,
            Probe::Forward { minor: from },
            ProbeAction::Migrate { minor: from },
            toolchain,
        )
            == migrations_up(from, current) + seq![
            ProbeAction::Rebuild,
            ProbeAction::Stop { built: toolchain.rebuilds },
        ],
    decreases current - from,
{
    let state = Probe::Forward { minor: from };
    let action = ProbeAction::Migrate { minor: from };
    let stop = ProbeAction::Stop { built: toolchain.rebuilds };
    if from < current {
        let up = (from + 1) as u64;
        lemma_forward_replay(current, up, toolchain);
        assert(migrations_up(from, current) =~= seq![action] + migrations_up(up, current));
        assert(probe_trace(current, state, action, toolchain) =~= migrations_up(from, current) + seq![
            ProbeAction::Rebuild,
            stop,
        ]);
    } else {
        assert(probe_step(current, state, toolchain.answer(action)) == (
            Probe::Rebuild,
            ProbeAction::Rebuild,
        ));
        assert(probe_trace(current, Probe::Rebuild, ProbeAction::Rebuild, toolchain) =~= seq![
            ProbeAction::Rebuild,
        ] + probe_trace(current, Probe::Done { built: toolchain.rebuilds }, stop, toolchain));
        assert(migrations_up(from, current) =~= seq![action]);
        assert(probe_trace(current, state, action, toolchain) =~= migrations_up(from, current) + seq![
            ProbeAction::Rebuild,
            stop,
        ]);
    }
}

/// The course of a probe that finds an anchor. Where `anchor` is the
/// highest minor version, from 1 to the current one, whose migration
/// succeeds, the prober tries the migrations from the current version
/// down to the anchor, then replays those from the anchor up to the
/// current version, each once and in increasing order, then rebuilds
/// exactly once; the result of that build is the verdict.
pub proof fn lemma_probe_with_anchor(current: u64, anchor: u64, toolchain: Toolchain)
    requires
        1 <= anchor <= current,
        toolchain.can_migrate(anchor),
        forall|minor: u64| anchor < minor <= current ==> !#[trigger] toolchain.can_migrate(minor),
    ensures
        full_trace(0, current, toolchain) == migrations_down(current, anchor) + migrations_up(
            anchor,
            current,
        ) + seq![ProbeAction::Rebuild, ProbeAction::Stop { built: toolchain.rebuilds }],
{
    lemma_backward_probe(current, current, anchor, toolchain);
}

/// The backward probe from `from` down to the anchor, and what follows it.
proof fn lemma_backward_probe(current: u64, from: u64, anchor: u64, toolchain: Toolchain)
    requires
        1 <= anchor <= from <= current,
        toolchain.can_migrate(anchor),
        forall|minor: u64| anchor < minor <= from ==> !#[trigger] toolchain.can_migrate(minor),
    ensures
        probe_trace(
            current,
            Probe::Backward { minor: from },
            ProbeAction::Migrate { minor: from },
            toolchain,
        ) == migrations_down(from, anchor) + migrations_up(anchor, current) + seq![
            ProbeAction::Rebuild,
            ProbeAction::Stop { built: toolchain.rebuilds },
        ],
    decreases from - anchor,
{
    let state = Probe::Backward { minor: from };
    let action = ProbeAction::Migrate { minor: from };
    let tail = migrations_up(anchor, current) + seq![
        ProbeAction::Rebuild,
        ProbeAction::Stop { built: toolchain.rebuilds },
    ];
    if from == anchor {
        lemma_forward_replay(current, anchor, toolchain);
        assert(migrations_down(from, anchor) =~= seq![action]);
        assert(probe_trace(current, state, action, toolchain) =~= migrations_down(from, anchor) + tail);
    } else {
        let down = (from - 1) as u64;
        assert(!toolchain.can_migrate(from));
        lemma_backward_probe(current, down, anchor, toolchain);
        assert(migrations_down(from, anchor) =~= seq![action] + migrations_down(down, anchor));
        assert(probe_trace(current, state, action, toolchain) =~= migrations_down(from, anchor) + tail);
    }
}

/// The course of a probe that finds no anchor: where no migration from
/// minor version 1 to the current one succeeds, the prober tries each
/// once, from the current version down, and stops without a rebuild: the
/// failure stands.
pub proof fn lemma_probe_without_anchor(current: u64, toolchain: Toolchain)
    requires
        1 <= current,
        forall|minor: u64| 1 <= minor <= current ==> !#[trigger] toolchain.can_migrate(minor),
    ensures
        full_trace(0, current, toolchain) == migrations_down(current, 1) + seq![
            ProbeAction::Stop { built: false },
        ],
{
    lemma_fruitless_probe(current, current, toolchain);
}

/// The backward probe from `from` down when no migration succeeds.
proof fn lemma_fruitless_probe(current: u64, from: u64, toolchain: Toolchain)
    requires
        1 <= from <= current,
        forall|minor: u64| 1 <= minor <= from ==> !#[trigger] toolchain.can_migrate(minor),
    ensures
        probe_trace(
            current,
            Probe::Backward { minor: from },
            ProbeAction::Migrate { minor: from },
            toolchain,
        ) == migrations_down(from, 1) + seq![ProbeAction::Stop { built: false }],
    decreases from,
{
    let state = Probe::Backward { minor: from };
    let action = ProbeAction::Migrate { minor: from };
    let stop = ProbeAction::Stop { built: false };
    assert(!toolchain.can_migrate(from));
    if from == 1 {
        assert(migrations_down(from, 1) =~= seq![action]);
        assert(probe_trace(current, Probe::Done { built: false }, stop, toolchain) =~= seq![stop]);
        assert(probe_trace(current, state, action, toolchain) =~= migrations_down(from, 1) + seq![stop]);
    } else {
        let down = (from - 1) as u64;
        lemma_fruitless_probe(current, down, toolchain);
        assert(migrations_down(from, 1) =~= seq![action] + migrations_down(down, 1));
        assert(probe_trace(current, state, action, toolchain) =~= migrations_down(from, 1) + seq![stop]);
    }
}

/// Off the unstable line, and at minor version 0, no migration is tried.
pub proof fn lemma_no_probe_off_the_unstable_line(major: u64, minor: u64, toolchain: Toolchain)
    requires
        major >= 1 || minor == 0,
    ensures
        full_trace(major, minor, toolchain) == seq![ProbeAction::Stop { built: false }],
{
}

/// The verdict of a probe that is in `state` and has named `action`, when
/// `toolchain` answers each command: whether the root builds in the end.
pub open spec fn probe_verdict(
    current: u64,
    state: Probe,
    action: ProbeAction,
    toolchain: Toolchain,
) -> bool
    decreases steps_left(current, state),
{
    match state {
        Probe::Done { built } => built,
        _ => {
            let next = probe_step(current, state, toolchain.answer(action));
            probe_verdict(current, next.0, next.1, toolchain)
        },
    }
}

/// Some migration from minor version 1 to `highest` succeeds.
pub open spec fn has_anchor(toolchain: Toolchain, highest: u64) -> bool {
    exists|minor: u64| 1 <= minor <= highest && #[trigger] toolchain.can_migrate(minor)
}

/// Once the replay has begun, the rebuild alone decides.
pub proof fn lemma_replay_verdict(current: u64, from: u64, toolchain: Toolchain)
    requires
        from <= current,
    ensures
        probe_verdict(
            current,
            Probe::Forward { minor: from },
            ProbeAction::Migrate { minor: from },
            toolchain,
        ) == toolchain.rebuilds,
    decreases current - from,
{
    if from < current {
        lemma_replay_verdict(current, (from + 1) as u64, toolchain);
    } else {
        assert(probe_verdict(current, Probe::Rebuild, ProbeAction::Rebuild, toolchain)
            == probe_verdict(
            current,
            Probe::Done { built: toolchain.rebuilds },
            ProbeAction::Stop { built: toolchain.rebuilds },
            toolchain,
        ));
    }
}

/// A probe from `from` down makes the root build exactly when it finds an
/// anchor and the rebuild succeeds.
pub proof fn lemma_probe_verdict_from(current: u64, from: u64, toolchain: Toolchain)
    requires
        1 <= from <= current,
    ensures
        probe_verdict(
            current,
            Probe::Backward { minor: from },
            ProbeAction::Migrate { minor: from },
            toolchain,
        ) == (has_anchor(toolchain, from) && toolchain.rebuilds),
    decreases from,
{
    if toolchain.can_migrate(from) {
        lemma_replay_verdict(current, from, toolchain);
    } else if from > 1 {
        let down = (from - 1) as u64;
        lemma_probe_verdict_from(current, down, toolchain);
        if has_anchor(toolchain, from) {
            let minor = choose|minor: u64| 1 <= minor <= from && #[trigger] toolchain.can_migrate(minor);
            assert(1 <= minor <= down && toolchain.can_migrate(minor));
        }
        if has_anchor(toolchain, down) {
            let minor = choose|minor: u64| 1 <= minor <= down && #[trigger] toolchain.can_migrate(minor);
            assert(1 <= minor <= from && toolchain.can_migrate(minor));
        }
    } else {
        assert(probe_verdict(
            current,
            Probe::Done { built: false },
            ProbeAction::Stop { built: false },
            toolchain,
        ) == false);
        if has_anchor(toolchain, from) {
            let minor = choose|minor: u64| 1 <= minor <= from && #[trigger] toolchain.can_migrate(minor);
            assert(minor == from);
        }
    }
}

/// The verdict of a whole probe: the root builds in the end exactly when
/// the compiler is on the unstable line, some migration from minor
/// version 1 to the current one succeeds, and the rebuild succeeds.
pub proof fn lemma_probe_verdict(major: u64, minor: u64, toolchain: Toolchain)
    ensures
        probe_verdict(minor, probe_start(major, minor).0, probe_start(major, minor).1, toolchain)
            == (major == 0 && has_anchor(toolchain, minor) && toolchain.rebuilds),
{
    if major == 0 && minor >= 1 {
        lemma_probe_verdict_from(minor, minor, toolchain);
    } else if has_anchor(toolchain, minor) {
        let k = choose|k: u64| 1 <= k <= minor && #[trigger] toolchain.can_migrate(k);
        assert(major != 0);
    }
}

} // verus!
