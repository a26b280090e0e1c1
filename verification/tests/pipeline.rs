use veryl_discovery::db::{BuildLog, Db, Project};
use veryl_discovery::migrate::{migrate, start_migrate, Probe, ProbeAction};
use veryl_discovery::repo_url::RepoUrl;
use veryl_discovery::root::{
    overall_verdict, start_build, start_veryl_build, step_build, veryl_build, BuildAction,
    BuildState, Compiler, RootOutcome, Verdict, VerylBuildInfo,
};
use veryl_discovery::run::{Action, Event, Mode, Run, Stage};
use veryl_discovery::toolchain::Invocation;
use veryl_discovery::version::{SemVer, VersionError};

/// Runs a probe to its end against a compiler whose migration succeeds for
/// the minor versions up to `threshold`, and returns what the prober named.
fn probe_with_stub(major: u64, current: u64, threshold: u64, rebuilds: bool) -> Vec<ProbeAction> {
    let mut trace = Vec::new();
    let (mut state, mut action) = start_migrate(major, current);
    loop {
        trace.push(action);
        let success = match action {
            ProbeAction::Migrate { minor } => minor <= threshold,
            ProbeAction::Rebuild => rebuilds,
            ProbeAction::Stop { .. } => break,
        };
        let next = migrate(current, state, success);
        state = next.0;
        action = next.1;
    }
    assert!(matches!(state, Probe::Done { .. }));
    trace
}

fn migrations(minors: &[u64]) -> Vec<ProbeAction> {
    minors.iter().map(|m| ProbeAction::Migrate { minor: *m }).collect()
}

#[test]
fn prober_replays_each_step_once_and_rebuilds_once() {
    let trace = probe_with_stub(0, 6, 3, true);
    let mut expected = migrations(&[6, 5, 4, 3]);
    expected.extend(migrations(&[3, 4, 5, 6]));
    expected.push(ProbeAction::Rebuild);
    expected.push(ProbeAction::Stop { built: true });
    assert_eq!(trace, expected);
    let rebuilds = trace.iter().filter(|a| matches!(a, ProbeAction::Rebuild)).count();
    assert_eq!(rebuilds, 1);
}

#[test]
fn prober_verdict_is_the_rebuild() {
    let trace = probe_with_stub(0, 4, 3, false);
    assert_eq!(trace.last(), Some(&ProbeAction::Stop { built: false }));
    assert_eq!(trace.len(), 2 + 2 + 2);
}

#[test]
fn prober_anchor_at_the_current_version() {
    let trace = probe_with_stub(0, 5, 9, true);
    assert_eq!(
        trace,
        vec![
            ProbeAction::Migrate { minor: 5 },
            ProbeAction::Migrate { minor: 5 },
            ProbeAction::Rebuild,
            ProbeAction::Stop { built: true },
        ]
    );
}

#[test]
fn prober_gives_up_below_version_one() {
    let trace = probe_with_stub(0, 3, 0, true);
    let mut expected = migrations(&[3, 2, 1]);
    expected.push(ProbeAction::Stop { built: false });
    assert_eq!(trace, expected);
}

#[test]
fn prober_does_nothing_off_the_unstable_line() {
    assert_eq!(probe_with_stub(1, 4, 3, true), vec![ProbeAction::Stop { built: false }]);
    assert_eq!(probe_with_stub(2, 0, 3, true), vec![ProbeAction::Stop { built: false }]);
    assert_eq!(probe_with_stub(0, 0, 3, true), vec![ProbeAction::Stop { built: false }]);
}

#[test]
fn prober_forward_steps_ignore_failures() {
    let (state, action) = start_migrate(0, 3);
    assert_eq!(action, ProbeAction::Migrate { minor: 3 });
    let (state, action) = migrate(3, state, false);
    assert_eq!((state, action), (Probe::Backward { minor: 2 }, ProbeAction::Migrate { minor: 2 }));
    let (state, action) = migrate(3, state, true);
    assert_eq!((state, action), (Probe::Forward { minor: 2 }, ProbeAction::Migrate { minor: 2 }));
    let (state, action) = migrate(3, state, false);
    assert_eq!((state, action), (Probe::Forward { minor: 3 }, ProbeAction::Migrate { minor: 3 }));
    let (state, action) = migrate(3, state, false);
    assert_eq!((state, action), (Probe::Rebuild, ProbeAction::Rebuild));
    let (state, action) = migrate(3, state, true);
    assert_eq!((state, action), (Probe::Done { built: true }, ProbeAction::Stop { built: true }));
    let (state, action) = migrate(3, state, false);
    assert_eq!((state, action), (Probe::Done { built: true }, ProbeAction::Stop { built: true }));
}

fn info(version: SemVer, compare: bool) -> VerylBuildInfo {
    VerylBuildInfo {
        version,
        veryl: "/usr/bin/veryl".to_string(),
        veryl_root: "build/a/one".to_string(),
        version_arg: None,
        reference_arg: None,
        compare,
    }
}

/// One step of a build, without the command.
fn step(info: &VerylBuildInfo, state: BuildState, success: bool) -> (BuildState, BuildAction) {
    let next = veryl_build(info, state, success);
    (next.state, next.action)
}

fn args(command: &Option<Invocation>) -> Vec<String> {
    command.as_ref().unwrap().args.clone()
}

#[test]
fn root_that_builds_has_passed() {
    let info = info(SemVer::new(0, 5, 0), false);
    let (state, action) = start_build();
    assert_eq!(action, BuildAction::Build { compiler: Compiler::Target });
    let outcome = RootOutcome { verdict: Verdict::Passed, reference: None };
    let next = veryl_build(&info, state, true);
    assert_eq!(next.state, BuildState::Done { outcome });
    assert_eq!(next.action, BuildAction::Done { outcome });
    assert!(next.command.is_none());
}

#[test]
fn root_that_fails_is_migrated_and_rebuilt() {
    let info = info(SemVer::new(0, 2, 0), false);
    let (state, _) = start_build();
    let (state, action) = step(&info, state, false);
    assert_eq!(action, BuildAction::Migrate { minor: 2 });
    let (state, action) = step(&info, state, false);
    assert_eq!(action, BuildAction::Migrate { minor: 1 });
    let (state, action) = step(&info, state, true);
    assert_eq!(action, BuildAction::Migrate { minor: 1 });
    let (state, action) = step(&info, state, true);
    assert_eq!(action, BuildAction::Migrate { minor: 2 });
    let (state, action) = step(&info, state, true);
    assert_eq!(action, BuildAction::Rebuild);
    let (state, action) = step(&info, state, true);
    let outcome = RootOutcome { verdict: Verdict::Migrated, reference: None };
    assert_eq!(action, BuildAction::Done { outcome });
    assert_eq!(state, BuildState::Done { outcome });
    assert_eq!(step(&info, state, false).1, BuildAction::Done { outcome });
}

#[test]
fn root_that_fails_after_migration_has_failed() {
    let info = info(SemVer::new(0, 1, 0), false);
    let (state, _) = start_build();
    let (state, _) = step(&info, state, false);
    let (state, _) = step(&info, state, true);
    let (state, action) = step(&info, state, true);
    assert_eq!(action, BuildAction::Rebuild);
    let (_, action) = step(&info, state, false);
    assert_eq!(
        action,
        BuildAction::Done { outcome: RootOutcome { verdict: Verdict::Failed, reference: None } }
    );
}

#[test]
fn root_on_the_stable_line_is_not_migrated() {
    let info = info(SemVer::new(1, 4, 0), false);
    let (state, _) = start_build();
    let (_, action) = step(&info, state, false);
    assert_eq!(
        action,
        BuildAction::Done { outcome: RootOutcome { verdict: Verdict::Failed, reference: None } }
    );
}

#[test]
fn reference_build_does_not_decide() {
    let info = info(SemVer::new(1, 0, 0), true);
    let (state, _) = start_build();
    let (state, action) = step(&info, state, true);
    assert_eq!(action, BuildAction::Build { compiler: Compiler::Reference });
    let (_, action) = step(&info, state, false);
    assert_eq!(
        action,
        BuildAction::Done {
            outcome: RootOutcome { verdict: Verdict::Passed, reference: Some(false) }
        }
    );

    let (state, _) = start_build();
    let (state, _) = step(&info, state, false);
    let (_, action) = step(&info, state, true);
    assert_eq!(
        action,
        BuildAction::Done {
            outcome: RootOutcome { verdict: Verdict::Failed, reference: Some(true) }
        }
    );
}

#[test]
fn step_build_is_veryl_build_on_plain_values() {
    let info = info(SemVer::new(0, 7, 0), true);
    let (state, _) = start_build();
    assert_eq!(step(&info, state, false), step_build(0, 7, true, state, false));
}

#[test]
fn first_build_runs_with_the_pin_it_was_given() {
    let mut info = info(SemVer::new(0, 4, 0), false);
    let first = start_veryl_build(&info);
    assert_eq!(first.state, BuildState::First);
    assert_eq!(first.action, BuildAction::Build { compiler: Compiler::Target });
    let command = first.command.unwrap();
    assert_eq!(command.program, "/usr/bin/veryl");
    assert_eq!(command.directory, "build/a/one");
    assert_eq!(command.args, vec!["build"]);
    assert_eq!(info.build_args(), vec!["build"]);

    info.version_arg = Some("+0.4".to_string());
    assert_eq!(start_veryl_build(&info).command.unwrap().args, vec!["+0.4", "build"]);
    assert_eq!(info.build_args(), vec!["+0.4", "build"]);

    info.compare = true;
    info.reference_arg = Some("+0.3".to_string());
    assert_eq!(start_veryl_build(&info).command.unwrap().args, vec!["+0.4", "build", "--check"]);
    let next = veryl_build(&info, BuildState::First, true);
    assert_eq!(next.action, BuildAction::Build { compiler: Compiler::Reference });
    assert_eq!(args(&next.command), vec!["+0.3", "build", "--check"]);
    assert_eq!(next.command.unwrap().directory, "build/a/one");

    info.version_arg = None;
    assert_eq!(info.build_args(), vec!["build", "--check"]);
}

#[test]
fn rebuild_after_migration_runs_without_the_pin() {
    let mut info = info(SemVer::new(0, 4, 0), false);
    info.version_arg = Some("+0.4".to_string());
    let first = start_veryl_build(&info);
    assert_eq!(args(&first.command), vec!["+0.4", "build"]);
    let next = veryl_build(&info, first.state, false);
    assert_eq!(next.action, BuildAction::Migrate { minor: 4 });
    assert_eq!(args(&next.command), vec!["+0.4", "migrate"]);
    let next = veryl_build(&info, next.state, false);
    assert_eq!(args(&next.command), vec!["+0.3", "migrate"]);
    let next = veryl_build(&info, next.state, true);
    assert_eq!(args(&next.command), vec!["+0.3", "migrate"]);
    let next = veryl_build(&info, next.state, true);
    assert_eq!(args(&next.command), vec!["+0.4", "migrate"]);
    let next = veryl_build(&info, next.state, true);
    assert_eq!(next.action, BuildAction::Rebuild);
    let command = next.command.unwrap();
    assert_eq!(command.args, vec!["build"]);
    assert!(!command.args.contains(&"+0.4".to_string()));
    assert_eq!(command.program, "/usr/bin/veryl");
    assert_eq!(command.directory, "build/a/one");
    assert_eq!(info.rebuild_args(), vec!["build"]);
    assert_eq!(info.arguments(BuildAction::Rebuild), Some(vec!["build".to_string()]));
    let outcome = RootOutcome { verdict: Verdict::Migrated, reference: None };
    assert_eq!(info.arguments(BuildAction::Done { outcome }), None);
    assert!(info.invocation(BuildAction::Done { outcome }).is_none());

    info.compare = true;
    assert_eq!(info.rebuild_args(), vec!["build", "--check"]);
}

#[test]
fn overall_verdict_is_the_conjunction() {
    let o = |verdict| RootOutcome { verdict, reference: None };
    assert_eq!(overall_verdict(&vec![]), Verdict::Passed);
    assert_eq!(overall_verdict(&vec![o(Verdict::Passed), o(Verdict::Passed)]), Verdict::Passed);
    assert_eq!(overall_verdict(&vec![o(Verdict::Passed), o(Verdict::Migrated)]), Verdict::Migrated);
    assert_eq!(
        overall_verdict(&vec![o(Verdict::Migrated), o(Verdict::Failed), o(Verdict::Passed)]),
        Verdict::Failed
    );
}

fn log(rev: &str, version: &str, result: bool) -> BuildLog {
    BuildLog { rev: rev.to_string(), veryl_version: version.to_string(), result }
}

fn store(projects: &[(&str, Option<BuildLog>)]) -> Db {
    let mut db = Db::new();
    for (url, latest) in projects {
        let mut project = Project::new(RepoUrl::parse(url).unwrap());
        if let Some(log) = latest {
            project.build_logs.push(log.clone());
        }
        db.insert_project(project);
    }
    db
}

fn selective(include_known_failures: bool) -> Mode {
    Mode::SelectiveCheck { target: None, reference: None, include_known_failures }
}

fn roots(paths: &[&str]) -> Event {
    Event::Roots(paths.iter().map(|p| p.to_string()).collect())
}

#[test]
fn unchanged_project_is_not_built() {
    let mut db = store(&[("https://github.com/a/one", Some(log("abc", "0.5.0", true)))]);
    let (mut run, action) = Run::start(&db, Mode::FullRefresh, "0.5.0").unwrap();
    let mut named = vec![action];
    named.push(run.step(Event::CheckedOut(true)));
    named.push(run.step(Event::Head("abc".to_string())));
    assert_eq!(
        named,
        vec![Action::Checkout { id: 0 }, Action::ResolveHead { id: 0 }, Action::Finished]
    );
    assert!(run.is_finished());
    let logs = run.finish().unwrap();
    assert!(logs.is_empty());
    db.append_build_logs(logs);
    assert_eq!(db.get_project(0).unwrap().build_logs.len(), 1);
}

#[test]
fn second_refresh_adds_no_log() {
    let mut db = store(&[("https://github.com/a/one", None), ("https://github.com/b/two", None)]);
    let (mut run, action) = Run::start(&db, Mode::FullRefresh, "0.5.0").unwrap();
    assert_eq!(action, Action::Checkout { id: 0 });
    assert_eq!(run.step(Event::CheckedOut(true)), Action::ResolveHead { id: 0 });
    assert_eq!(run.step(Event::Head("r0".to_string())), Action::FindRoots { id: 0 });
    assert_eq!(
        run.step(roots(&["."])),
        Action::Build { id: 0, root: 0, compiler: Compiler::Target }
    );
    assert_eq!(run.step(Event::Exited(true)), Action::Report { id: 0, status: Verdict::Passed });
    assert_eq!(run.step(Event::Reported), Action::Checkout { id: 1 });
    assert_eq!(run.step(Event::CheckedOut(true)), Action::ResolveHead { id: 1 });
    assert_eq!(run.step(Event::Head("r1".to_string())), Action::FindRoots { id: 1 });
    assert_eq!(run.step(roots(&[])), Action::Report { id: 1, status: Verdict::Failed });
    assert_eq!(run.step(Event::Reported), Action::Finished);
    db.append_build_logs(run.finish().unwrap());
    assert_eq!(db.get_project(0).unwrap().build_logs.len(), 1);
    assert_eq!(db.get_project(1).unwrap().build_logs.len(), 1);
    assert!(db.get_project(0).unwrap().latest_log().unwrap().result);
    assert!(!db.get_project(1).unwrap().latest_log().unwrap().result);
    assert_eq!(db.get_project(1).unwrap().latest_log().unwrap().rev, "r1");
    assert_eq!(db.get_project(1).unwrap().latest_log().unwrap().veryl_version, "0.5.0");

    let (mut again, action) = Run::start(&db, Mode::FullRefresh, "0.5.0").unwrap();
    assert_eq!(action, Action::Checkout { id: 0 });
    assert_eq!(again.step(Event::CheckedOut(true)), Action::ResolveHead { id: 0 });
    assert_eq!(again.step(Event::Head("r0".to_string())), Action::Checkout { id: 1 });
    assert_eq!(again.step(Event::CheckedOut(true)), Action::ResolveHead { id: 1 });
    assert_eq!(again.step(Event::Head("r1".to_string())), Action::Finished);
    let logs = again.finish().unwrap();
    assert!(logs.is_empty());
    db.append_build_logs(logs);
    assert_eq!(db.get_project(0).unwrap().build_logs.len(), 1);
    assert_eq!(db.get_project(1).unwrap().build_logs.len(), 1);
}

#[test]
fn new_revision_or_new_compiler_is_built() {
    let db = store(&[("https://github.com/a/one", Some(log("abc", "0.5.0", true)))]);
    let (mut run, _) = Run::start(&db, Mode::FullRefresh, "0.5.0").unwrap();
    run.step(Event::CheckedOut(true));
    assert_eq!(run.step(Event::Head("def".to_string())), Action::FindRoots { id: 0 });

    let (mut run, _) = Run::start(&db, Mode::FullRefresh, "0.6.0").unwrap();
    run.step(Event::CheckedOut(true));
    assert_eq!(run.step(Event::Head("abc".to_string())), Action::FindRoots { id: 0 });
}

#[test]
fn one_failing_root_fails_the_project() {
    let mut db = store(&[("https://github.com/a/one", None)]);
    let (mut run, _) = Run::start(&db, Mode::FullRefresh, "1.0.0").unwrap();
    run.step(Event::CheckedOut(true));
    run.step(Event::Head("abc".to_string()));
    assert_eq!(
        run.step(roots(&["good", "sub/bad"])),
        Action::Build { id: 0, root: 0, compiler: Compiler::Target }
    );
    assert_eq!(
        run.step(Event::Exited(true)),
        Action::Build { id: 0, root: 1, compiler: Compiler::Target }
    );
    assert_eq!(run.step(Event::Exited(false)), Action::Report { id: 0, status: Verdict::Failed });
    assert_eq!(run.failing_roots(), vec!["sub/bad".to_string()]);
    assert_eq!(run.step(Event::Reported), Action::Finished);
    db.append_build_logs(run.finish().unwrap());
    let project = db.get_project(0).unwrap();
    assert_eq!(project.build_logs.len(), 1);
    assert!(!project.build_logs[0].result);
    assert_eq!(project.build_logs[0].rev, "abc");
    assert_eq!(project.build_logs[0].veryl_version, "1.0.0");
}

#[test]
fn migrated_root_is_stored_as_success() {
    let mut db = store(&[("https://github.com/a/one", None)]);
    let (mut run, _) = Run::start(&db, Mode::FullRefresh, "0.2.1").unwrap();
    run.step(Event::CheckedOut(true));
    run.step(Event::Head("abc".to_string()));
    run.step(roots(&["first", "second"]));
    assert_eq!(
        run.step(Event::Exited(true)),
        Action::Build { id: 0, root: 1, compiler: Compiler::Target }
    );
    assert_eq!(run.step(Event::Exited(false)), Action::Migrate { id: 0, root: 1, minor: 2 });
    assert_eq!(run.step(Event::Exited(true)), Action::Migrate { id: 0, root: 1, minor: 2 });
    assert_eq!(run.step(Event::Exited(true)), Action::Rebuild { id: 0, root: 1 });
    assert_eq!(run.step(Event::Exited(true)), Action::Report { id: 0, status: Verdict::Migrated });
    assert!(run.failing_roots().is_empty());
    assert_eq!(run.outcomes[0].verdict, Verdict::Passed);
    assert_eq!(run.outcomes[1].verdict, Verdict::Migrated);
    run.step(Event::Reported);
    db.append_build_logs(run.finish().unwrap());
    assert!(db.get_project(0).unwrap().latest_log().unwrap().result);
}

#[test]
fn failed_checkout_is_logged_without_revision() {
    let mut db = store(&[("https://github.com/a/one", None), ("https://github.com/b/two", None)]);
    let (mut run, _) = Run::start(&db, Mode::FullRefresh, "0.5.0").unwrap();
    assert_eq!(run.step(Event::CheckedOut(false)), Action::Report { id: 0, status: Verdict::Failed });
    assert_eq!(run.step(Event::Reported), Action::Checkout { id: 1 });
    run.step(Event::CheckedOut(true));
    run.step(Event::Head("r".to_string()));
    run.step(roots(&["."]));
    run.step(Event::Exited(true));
    assert_eq!(run.step(Event::Reported), Action::Finished);
    db.append_build_logs(run.finish().unwrap());
    let failed = db.get_project(0).unwrap().latest_log().unwrap();
    assert_eq!(failed.rev, "");
    assert_eq!(failed.veryl_version, "0.5.0");
    assert!(!failed.result);
    assert!(db.get_project(1).unwrap().latest_log().unwrap().result);
}

#[test]
fn selective_check_skips_known_failures() {
    let db = store(&[
        ("https://github.com/a/one", Some(log("r0", "0.4.0", false))),
        ("https://github.com/b/two", Some(log("r1", "0.4.0", true))),
        ("https://github.com/c/three", Some(log("r2", "0.4.0", false))),
        ("https://github.com/d/four", None),
    ]);
    let (mut run, action) = Run::start(&db, selective(false), "0.5.0").unwrap();
    assert_eq!(action, Action::Checkout { id: 1 });
    run.step(Event::CheckedOut(true));
    run.step(Event::Head("r1".to_string()));
    run.step(roots(&["."]));
    run.step(Event::Exited(true));
    assert_eq!(run.step(Event::Reported), Action::Checkout { id: 3 });

    let (_, action) = Run::start(&db, selective(true), "0.5.0").unwrap();
    assert_eq!(action, Action::Checkout { id: 0 });
    let (_, action) = Run::start(&db, Mode::FullRefresh, "0.5.0").unwrap();
    assert_eq!(action, Action::Checkout { id: 0 });
}

#[test]
fn selective_check_of_failures_only_is_finished_at_once() {
    let db = store(&[("https://github.com/a/one", Some(log("r0", "0.4.0", false)))]);
    let (run, action) = Run::start(&db, selective(false), "0.5.0").unwrap();
    assert_eq!(action, Action::Finished);
    assert!(run.is_finished());
    assert_eq!(run.finish().unwrap().len(), 0);
}

#[test]
fn reference_compiler_is_run_but_does_not_decide() {
    let db = store(&[("https://github.com/a/one", None)]);
    let mode = Mode::SelectiveCheck {
        target: Some("0.3.0".to_string()),
        reference: Some("0.2.0".to_string()),
        include_known_failures: true,
    };
    assert!(mode.compares());
    assert!(!mode.persists());
    assert_eq!(mode.version_used("0.9.9"), "0.3.0");
    let (mut run, _) = Run::start(&db, mode, "0.9.9").unwrap();
    assert_eq!(run.version, "0.3.0");
    assert_eq!(run.compiler.minor, 3);
    run.step(Event::CheckedOut(true));
    run.step(Event::Head("abc".to_string()));
    run.step(roots(&["."]));
    assert_eq!(
        run.step(Event::Exited(true)),
        Action::Build { id: 0, root: 0, compiler: Compiler::Reference }
    );
    assert_eq!(run.step(Event::Exited(false)), Action::Report { id: 0, status: Verdict::Passed });
    assert_eq!(run.outcomes[0], RootOutcome { verdict: Verdict::Passed, reference: Some(false) });
    run.step(Event::Reported);
    let logs = run.finish().unwrap();
    assert_eq!(logs.len(), 1);
    assert_eq!(logs[0].0, 0);
    assert!(logs[0].1.result);
    assert_eq!(logs[0].1.veryl_version, "0.3.0");
}

#[test]
fn modes_say_what_they_do() {
    assert!(Mode::FullRefresh.persists());
    assert!(!Mode::FullRefresh.skips_known_failures());
    assert!(!Mode::FullRefresh.compares());
    assert_eq!(Mode::FullRefresh.version_used("0.5.0"), "0.5.0");
    assert!(selective(false).skips_known_failures());
    assert!(!selective(true).skips_known_failures());
    assert!(!selective(true).compares());
    assert_eq!(selective(true).version_used("0.5.0"), "0.5.0");
}

#[test]
fn unexpected_event_is_rejected() {
    let db = store(&[("https://github.com/a/one", None)]);
    let (mut run, _) = Run::start(&db, Mode::FullRefresh, "0.5.0").unwrap();
    assert_eq!(run.step(Event::Exited(true)), Action::Rejected);
    assert_eq!(run.step(Event::Reported), Action::Rejected);
    assert_eq!(run.stage, Stage::Checkout);
    assert_eq!(run.step(Event::CheckedOut(true)), Action::ResolveHead { id: 0 });
    assert_eq!(run.step(Event::CheckedOut(true)), Action::Rejected);
    assert_eq!(run.stage, Stage::Head);
}

#[test]
fn unfinished_run_hands_out_nothing() {
    let db = store(&[("https://github.com/a/one", None), ("https://github.com/b/two", None)]);
    let (mut run, _) = Run::start(&db, Mode::FullRefresh, "0.5.0").unwrap();
    run.step(Event::CheckedOut(false));
    run.step(Event::Reported);
    assert!(!run.is_finished());
    assert!(run.finish().is_none());
}

#[test]
fn run_on_empty_store_is_finished_at_once() {
    let db = Db::new();
    let (run, action) = Run::start(&db, Mode::FullRefresh, "0.5.0").unwrap();
    assert_eq!(action, Action::Finished);
    assert_eq!(run.finish().unwrap().len(), 0);
}

#[test]
fn run_needs_a_semantic_version() {
    let db = Db::new();
    assert_eq!(Run::start(&db, Mode::FullRefresh, "nightly").unwrap_err(), VersionError::Malformed);
    assert!(Run::start(&db, Mode::FullRefresh, "0.5").is_err());
}

#[test]
fn start_with_takes_the_parsed_version() {
    let db = store(&[("https://github.com/a/one", None)]);
    let (mut run, action) =
        Run::start_with(&db, Mode::FullRefresh, "custom".to_string(), SemVer::new(0, 1, 0));
    assert_eq!(action, Action::Checkout { id: 0 });
    run.step(Event::CheckedOut(true));
    run.step(Event::Head("abc".to_string()));
    run.step(roots(&["."]));
    assert_eq!(run.step(Event::Exited(false)), Action::Migrate { id: 0, root: 0, minor: 1 });
    assert_eq!(run.step(Event::Exited(false)), Action::Report { id: 0, status: Verdict::Failed });
    run.step(Event::Reported);
    let logs = run.finish().unwrap();
    assert_eq!(logs[0].1.veryl_version, "custom");
}

#[test]
fn pinned_run_rebuilds_without_the_pin() {
    let db = store(&[("https://github.com/a/one", None)]);
    let mode = Mode::SelectiveCheck {
        target: Some("0.4.0".to_string()),
        reference: None,
        include_known_failures: true,
    };
    let (mut run, _) = Run::start(&db, mode, "0.9.9").unwrap();
    run.step(Event::CheckedOut(true));
    run.step(Event::Head("abc".to_string()));
    let action = run.step(roots(&["."]));
    assert_eq!(action, Action::Build { id: 0, root: 0, compiler: Compiler::Target });
    assert_eq!(run.arguments(action), Some(vec!["+0.4.0".to_string(), "build".to_string()]));
    let action = run.step(Event::Exited(false));
    assert_eq!(action, Action::Migrate { id: 0, root: 0, minor: 4 });
    assert_eq!(run.arguments(action), Some(vec!["+0.4".to_string(), "migrate".to_string()]));
    let action = run.step(Event::Exited(true));
    assert_eq!(action, Action::Migrate { id: 0, root: 0, minor: 4 });
    let action = run.step(Event::Exited(true));
    assert_eq!(action, Action::Rebuild { id: 0, root: 0 });
    assert_eq!(run.arguments(action), Some(vec!["build".to_string()]));
    assert_eq!(run.mode.rebuild_args(), vec!["build"]);
    let action = run.step(Event::Exited(true));
    assert_eq!(action, Action::Report { id: 0, status: Verdict::Migrated });
    assert_eq!(run.arguments(action), None);
    assert_eq!(run.arguments(Action::Finished), None);
    assert_eq!(run.arguments(Action::Checkout { id: 0 }), None);
}

#[test]
fn failed_checkout_has_an_empty_revision_even_after_a_built_project() {
    let mut db = store(&[("https://github.com/a/one", None), ("https://github.com/b/two", None)]);
    let (mut run, _) = Run::start(&db, Mode::FullRefresh, "1.0.0").unwrap();
    run.step(Event::CheckedOut(true));
    run.step(Event::Head("abc".to_string()));
    run.step(roots(&["."]));
    run.step(Event::Exited(true));
    assert_eq!(run.step(Event::Reported), Action::Checkout { id: 1 });
    assert_eq!(run.step(Event::CheckedOut(false)), Action::Report { id: 1, status: Verdict::Failed });
    run.step(Event::Reported);
    db.append_build_logs(run.finish().unwrap());
    assert_eq!(db.get_project(0).unwrap().latest_log().unwrap().rev, "abc");
    assert_eq!(db.get_project(1).unwrap().latest_log().unwrap().rev, "");
    assert!(!db.get_project(1).unwrap().latest_log().unwrap().result);
}
