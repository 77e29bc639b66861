use starry::case_assets::StarryCaseAssets;
use starry::cli::{ArgsTestBoard, ArgsTestQemu, StarryCliArgs};
use starry::error::StarryError;
use starry::quick_start::{QuickQemuPaths, QuickStartPaths};
use starry::request::{
    BuildInfo, Op, PrepareInputs, ResolvedStarryRequest, SnapshotPersistence,
};
use starry::rootfs::QemuConfig;
use starry::run::{Action, Handle, LoadedQemu, Outcome, Run};
use starry::starry::{AppContext, Starry};
use starry::test_run::{
    cases_discovered, default_board_found, given_config_checked, groups_discovered, target_parsed,
    test_board, test_qemu, TestBoardRun, TestBoardStep, TestQemuRun, TestQemuStep,
};
use starry::test_suit::{
    DefaultBoard, StarryBoardTestGroup, StarryQemuCase, StarryQemuCaseOutcome,
    StarryQemuCaseReport, StarryQemuRunReport, StarryTestGroup,
};

fn s(text: &str) -> String {
    text.to_string()
}

fn outside(message: &str) -> StarryError {
    StarryError::Outside { message: s(message) }
}

fn request() -> ResolvedStarryRequest {
    ResolvedStarryRequest {
        package: s("starryos"),
        arch: s("x86_64"),
        target: s("t"),
        plat_dyn: None,
        smp: None,
        debug: false,
        build_info_path: s("/tmp/.build.toml"),
        build_info_override: None,
        qemu_config: None,
        uboot_config: None,
    }
}

fn case(name: &str, build_config_path: Option<String>) -> StarryQemuCase {
    StarryQemuCase {
        name: s(name),
        case_dir: format!("/cases/{name}"),
        qemu_config_path: format!("/cases/{name}/qemu.toml"),
        build_config_path,
    }
}

fn qemu_args() -> ArgsTestQemu {
    ArgsTestQemu {
        arch: Some(s("x86_64")),
        target: None,
        test_case: Some(s("smoke")),
        stress: true,
    }
}

fn board() -> DefaultBoard {
    DefaultBoard { name: s("qemu-x86_64"), build_info: BuildInfo { id: 9, plat_dyn: true } }
}

fn qemu_run(default_board: Option<DefaultBoard>) -> TestQemuRun {
    TestQemuRun::new(
        StarryTestGroup::Stress,
        s("t"),
        vec![case("smoke", None), case("net", Some(s("n.toml")))],
        default_board,
    )
}

#[test]
fn qemu_tests_start_with_target_and_cases() {
    assert!(matches!(
        test_qemu(&qemu_args()),
        TestQemuStep::ParseTarget { arch: Some(arch), target: None } if arch == "x86_64"
    ));
    assert!(matches!(
        target_parsed(&qemu_args(), Ok((s("x86_64"), s("t")))),
        TestQemuStep::DiscoverCases { arch, target, test_case: Some(test_case), group }
            if arch == "x86_64" && target == "t" && test_case == "smoke"
                && group == StarryTestGroup::Stress
    ));
    let mut normal = qemu_args();
    normal.stress = false;
    assert!(matches!(
        target_parsed(&normal, Ok((s("x86_64"), s("t")))),
        TestQemuStep::DiscoverCases { group: StarryTestGroup::Normal, .. }
    ));
    assert!(matches!(
        target_parsed(&normal, Err(outside("no such arch"))),
        TestQemuStep::Fail { error } if error == outside("no such arch")
    ));
}

fn starry() -> Starry {
    let paths = || QuickQemuPaths { arch: s("a"), build_config: s("b"), run_config: s("r") };
    Starry::new(Ok(AppContext {
        workspace_root: s("/ws"),
        default_arch: s("riscv64"),
        quick_start: QuickStartPaths {
            aarch64: paths(),
            riscv64: paths(),
            loongarch64: paths(),
            x86_64: paths(),
            orangepi_build_config: s("o"),
        },
    }))
    .ok()
    .unwrap()
}

/// The work on the next case, up to the ensured rootfs.
fn case_work(run: &TestQemuRun) -> Run {
    let qemu = LoadedQemu {
        handle: Handle { id: 4 },
        config: QemuConfig { args: vec![] },
    };
    run.config_read(&starry(), &request(), Handle { id: 3 }, qemu)
}

#[test]
fn qemu_tests_go_from_cases_to_the_first_case() {
    let cases = vec![case("smoke", None)];
    assert!(matches!(
        cases_discovered(s("x86_64"), s("t"), StarryTestGroup::Normal, Ok(cases.clone())),
        TestQemuStep::FindDefaultBoard { arch, target, group: StarryTestGroup::Normal, cases: found }
            if arch == "x86_64" && target == "t" && found == cases
    ));
    assert!(matches!(
        cases_discovered(s("x86_64"), s("t"), StarryTestGroup::Normal, Err(outside("no cases"))),
        TestQemuStep::Fail { error } if error == outside("no cases")
    ));
    let run = default_board_found(s("t"), StarryTestGroup::Normal, cases.clone(), Ok(None))
        .ok()
        .unwrap();
    assert_eq!(run.target, "t");
    assert_eq!(run.cases, cases);
    assert_eq!(run.default_board, None);
    assert!(matches!(run.next(), TestQemuStep::Prepare { index: 0, .. }));
    assert_eq!(
        default_board_found(s("t"), StarryTestGroup::Normal, cases, Err(outside("bad board"))).err(),
        Some(outside("bad board"))
    );
}

#[test]
fn case_fails_where_its_work_fails() {
    let mut run = qemu_run(Some(board()));
    let mut work = case_work(&run);
    assert!(matches!(work.next(), Some(Action::EnsureRootfs { .. })));
    work.finish(Err(outside("no rootfs")));
    assert_eq!(
        run.case_ended(Ok(work), 1).unwrap_err().message(),
        "starry qemu test failed for case `smoke`: no rootfs"
    );
    assert!(matches!(run.next(), TestQemuStep::Prepare { index: 1, .. }));
}

#[test]
fn qemu_tests_report_every_case() {
    let mut run = qemu_run(Some(board()));
    assert!(matches!(
        run.next(),
        TestQemuStep::Prepare { index: 0, inputs }
            if inputs == PrepareInputs {
                args: StarryCliArgs {
                    config: None,
                    arch: None,
                    target: Some(s("t")),
                    smp: None,
                    debug: false,
                },
                qemu_config: None,
                uboot_config: None,
                persistence: SnapshotPersistence::Discard,
            }
    ));
    let built = match run.prepared(Ok(request())) {
        TestQemuStep::EnsureRootfs { request } => request,
        _ => panic!("expected the rootfs"),
    };
    assert_eq!(built.plat_dyn, Some(true));
    assert_eq!(built.build_info_override, Some(BuildInfo { id: 9, plat_dyn: true }));
    assert!(matches!(
        run.rootfs_ensured(built.duplicate(), Ok(())),
        TestQemuStep::LoadCargoConfig { .. }
    ));
    assert!(matches!(
        run.cargo_loaded(built, Ok(Handle { id: 3 })),
        TestQemuStep::RunCase { qemu_config_path, cargo: Handle { id: 3 }, .. } if qemu_config_path == "/cases/smoke/qemu.toml"
    ));
    assert_eq!(
        run.case_ended(Err(outside("timeout")), 5).unwrap_err().message(),
        "starry qemu test failed for case `smoke`: timeout"
    );
    assert!(matches!(
        run.next(),
        TestQemuStep::Prepare { index: 1, inputs } if inputs.args.config == Some(s("n.toml"))
    ));
    assert!(matches!(
        run.prepared(Ok(request())),
        TestQemuStep::EnsureRootfs { request } if request.build_info_override.is_none()
    ));
    let mut work = case_work(&run);
    work.finish(Ok(Outcome::Path(s("/r.img"))));
    assert!(matches!(
        work.next(),
        Some(Action::PrepareCaseAssets { case, .. }) if case.name == "net"
    ));
    work.finish(Ok(Outcome::Assets(StarryCaseAssets {
        rootfs_path: s("/r.img"),
        extra_qemu_args: vec![],
        host_post_check: None,
    })));
    work.finish(Ok(Outcome::Qemu(LoadedQemu {
        handle: Handle { id: 4 },
        config: QemuConfig { args: vec![] },
    })));
    work.finish(Ok(Outcome::Done));
    work.finish(Ok(Outcome::Done));
    assert!(work.next().is_none());
    assert_eq!(run.case_ended(Ok(work), 6), Ok(()));
    assert!(matches!(run.next(), TestQemuStep::Finish));
    assert_eq!(
        run.report(11),
        StarryQemuRunReport {
            group: StarryTestGroup::Stress,
            cases: vec![
                StarryQemuCaseReport {
                    name: s("smoke"),
                    outcome: StarryQemuCaseOutcome::Failed,
                    duration: 5,
                },
                StarryQemuCaseReport {
                    name: s("net"),
                    outcome: StarryQemuCaseOutcome::Passed,
                    duration: 6,
                },
            ],
            total_duration: 11,
        }
    );
}

#[test]
fn qemu_tests_fail_as_a_whole_before_a_case_runs() {
    let run = qemu_run(None);
    match run.prepared(Ok(request())) {
        TestQemuStep::Fail { error } => assert_eq!(
            error.message(),
            "missing Starry qemu defconfig for target `t` in tests; expected a default qemu board \
             config under os/StarryOS/configs/board"
        ),
        _ => panic!("expected a failure"),
    }
    let fails = |step: TestQemuStep| matches!(step, TestQemuStep::Fail { error } if error == outside("x"));
    assert!(fails(run.prepared(Err(outside("x")))));
    assert!(fails(run.rootfs_ensured(request(), Err(outside("x")))));
    assert!(fails(run.cargo_loaded(request(), Err(outside("x")))));
}

fn board_args(config: Option<&str>, group: Option<&str>) -> ArgsTestBoard {
    ArgsTestBoard {
        test_group: group.map(s),
        board_test_config: config.map(s),
        board_type: Some(s("OrangePi-5-Plus")),
        server: Some(s("10.0.0.2")),
        port: Some(9000),
    }
}

fn group(name: &str) -> StarryBoardTestGroup {
    StarryBoardTestGroup {
        name: s(name),
        build_config_path: format!("/g/{name}/build.toml"),
        target: s("t"),
        board_test_config_path: format!("/g/{name}/board.toml"),
    }
}

#[test]
fn board_tests_check_what_was_given() {
    assert!(matches!(
        test_board(&board_args(Some("c.toml"), None)),
        TestBoardStep::Fail { error: StarryError::BoardConfigWithoutGroup }
    ));
    assert!(matches!(
        test_board(&board_args(None, None)),
        TestBoardStep::DiscoverGroups { test_group: None }
    ));
    let given = board_args(Some("c.toml"), Some("smoke"));
    assert!(matches!(
        test_board(&given),
        TestBoardStep::CheckGivenConfig { path } if path == "c.toml"
    ));
    assert!(matches!(
        given_config_checked(&given, &s("c.toml"), true),
        TestBoardStep::DiscoverGroups { test_group: Some(group) } if group == "smoke"
    ));
    match given_config_checked(&given, &s("c.toml"), false) {
        TestBoardStep::Fail { error } => {
            assert_eq!(error.message(), "missing explicit board test config `c.toml`")
        }
        _ => panic!("expected a failure"),
    }
}

fn group_work(run: &mut TestBoardRun) -> Run {
    match run.prepared(Ok(request())) {
        TestBoardStep::RunGroup { run } => run,
        _ => panic!("expected work"),
    }
}

#[test]
fn board_tests_go_from_groups_to_the_first_group() {
    let run = groups_discovered(board_args(None, None), Ok(vec![group("a")])).ok().unwrap();
    assert!(matches!(run.next(), TestBoardStep::CheckGroupConfig { index: 0, .. }));
    assert_eq!(
        groups_discovered(board_args(None, None), Err(outside("no groups"))).err(),
        Some(outside("no groups"))
    );
}

#[test]
fn board_tests_name_the_groups_that_failed() {
    let groups = vec![group("a"), group("b"), group("c"), group("d"), group("e")];
    let mut run = TestBoardRun::new(board_args(None, None), groups);

    assert!(matches!(
        run.next(),
        TestBoardStep::CheckGroupConfig { index: 0, path } if path == "/g/a/board.toml"
    ));
    assert!(matches!(
        run.config_checked(false),
        TestBoardStep::SkipGroup { index: 0, path } if path == "/g/a/board.toml"
    ));

    assert!(matches!(run.next(), TestBoardStep::CheckGroupConfig { index: 1, .. }));
    assert!(matches!(
        run.config_checked(true),
        TestBoardStep::Prepare { index: 1, inputs }
            if inputs.args.config == Some(s("/g/b/build.toml"))
                && inputs.persistence == SnapshotPersistence::Discard
    ));
    let mut work = group_work(&mut run);
    assert_eq!(run.request, Some(request()));
    assert_eq!(
        work.ops,
        vec![
            Op::LoadCargoConfig { request: request() },
            Op::ReadBoardConfig { path: s("/g/b/board.toml") },
            Op::RunBoard {
                build_info_path: s("/tmp/.build.toml"),
                board_type: Some(s("OrangePi-5-Plus")),
                server: Some(s("10.0.0.2")),
                port: Some(9000),
            },
        ]
    );
    work.finish(Ok(Outcome::Cargo(Handle { id: 1 })));
    work.finish(Ok(Outcome::Board(Handle { id: 2 })));
    assert!(matches!(
        work.next(),
        Some(Action::RunBoard { cargo: Handle { id: 1 }, board: Handle { id: 2 }, .. })
    ));
    work.finish(Ok(Outcome::Done));
    assert!(matches!(
        run.group_ran(work),
        TestBoardStep::GroupEnded { index: 1, result: Ok(()) }
    ));
    assert_eq!(run.request, None);

    assert!(matches!(run.config_checked(true), TestBoardStep::Prepare { index: 2, .. }));
    assert!(matches!(
        run.prepared(Err(outside("no request"))),
        TestBoardStep::GroupEnded { index: 2, result: Err(error) } if error == outside("no request")
    ));

    let mut work = group_work(&mut run);
    work.finish(Ok(Outcome::Cargo(Handle { id: 1 })));
    work.finish(Err(outside("bad config")));
    assert!(matches!(
        run.group_ran(work),
        TestBoardStep::GroupEnded { index: 3, result: Err(error) } if error == outside("bad config")
    ));

    let mut work = group_work(&mut run);
    work.finish(Ok(Outcome::Cargo(Handle { id: 1 })));
    work.finish(Ok(Outcome::Board(Handle { id: 2 })));
    work.finish(Err(outside("no board")));
    match run.group_ran(work) {
        TestBoardStep::GroupEnded { index: 4, result: Err(error) } => assert_eq!(
            error.message(),
            "starry board test failed for group `e` (build_config=/g/e/build.toml, \
             board_test_config=/g/e/board.toml): no board"
        ),
        _ => panic!("expected the end of the group"),
    }

    assert!(matches!(run.next(), TestBoardStep::Finish));
    assert_eq!(run.failed(), vec![s("a"), s("c"), s("d"), s("e")]);
}

#[test]
fn given_board_config_replaces_the_one_of_the_group() {
    let run = TestBoardRun::new(board_args(Some("c.toml"), Some("a")), vec![group("a")]);
    assert!(matches!(
        run.next(),
        TestBoardStep::CheckGroupConfig { index: 0, path } if path == "c.toml"
    ));
    let empty = TestBoardRun::new(board_args(None, None), vec![]);
    assert!(matches!(empty.next(), TestBoardStep::Finish));
    assert!(empty.failed().is_empty());
}
