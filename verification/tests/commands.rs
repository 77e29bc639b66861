use starry::case_assets::{add_case_args, StarryCaseAssets};
use starry::cli::{
    ensure_board_test_args, ArgsBoard, ArgsBuild, ArgsConfig, ArgsDefconfig, ArgsQemu, ArgsRootfs,
    ArgsTest, ArgsTestBoard, ArgsTestQemu, ArgsTestUboot, ArgsUboot, Command, ConfigCommand,
    StarryCliArgs, TestCommand,
};
use starry::error::StarryError;
use starry::notices;
use starry::quick_start::{
    ArgsQuickStart, QuickOrangeAction, QuickOrangeArgs, QuickOrangeConfigArgs, QuickQemuAction,
    QuickQemuArgs, QuickQemuPaths, QuickQemuPlatform, QuickStartCommand, QuickStartPaths,
};
use starry::request::{
    AfterPrepare, BuildInfo, Op, PrepareCall, PrepareInputs, PreparedRequest,
    ResolvedStarryRequest, SnapshotId, SnapshotPersistence, Stage, UbootSource,
};
use starry::rootfs::{apply_default_qemu_args, QemuConfig};
use starry::run::{
    stage_ended, Action, Handle, LoadedQemu, Outcome, Run, StageStep, Values,
};
use starry::starry::{AppContext, Starry, Task};
use starry::test_suit::{StarryBoardTestGroup, StarryQemuCase};

fn s(text: &str) -> String {
    text.to_string()
}

fn outside(message: &str) -> StarryError {
    StarryError::Outside { message: s(message) }
}

fn paths(arch: &str) -> QuickQemuPaths {
    QuickQemuPaths {
        arch: s(arch),
        build_config: format!("/ws/tmp/{arch}-build.toml"),
        run_config: format!("/ws/tmp/{arch}-run.toml"),
    }
}

fn starry() -> Starry {
    Starry::new(Ok(AppContext {
        workspace_root: s("/ws"),
        default_arch: s("riscv64"),
        quick_start: QuickStartPaths {
            aarch64: paths("aarch64"),
            riscv64: paths("riscv64"),
            loongarch64: paths("loongarch64"),
            x86_64: paths("x86_64"),
            orangepi_build_config: s("/ws/tmp/orangepi-build.toml"),
        },
    }))
    .ok()
    .unwrap()
}

fn build_args() -> ArgsBuild {
    ArgsBuild {
        config: Some(s("b.toml")),
        arch: Some(s("x86_64")),
        target: None,
        smp: Some(2),
        debug: true,
    }
}

fn build_cli() -> StarryCliArgs {
    StarryCliArgs {
        config: Some(s("b.toml")),
        arch: Some(s("x86_64")),
        target: None,
        smp: Some(2),
        debug: true,
    }
}

fn request() -> ResolvedStarryRequest {
    ResolvedStarryRequest {
        package: s("starryos"),
        arch: s("x86_64"),
        target: s("x86_64-unknown-none"),
        plat_dyn: None,
        smp: Some(2),
        debug: true,
        build_info_path: s("/tmp/.build.toml"),
        build_info_override: None,
        qemu_config: None,
        uboot_config: None,
    }
}

fn stage(command: Command) -> Stage {
    match starry().execute(command) {
        Task::Stage(stage) => stage,
        _ => panic!("expected a stage"),
    }
}

fn plain(after: AfterPrepare) -> Stage {
    Stage {
        before: vec![],
        prepare: Some(PrepareCall {
            args: build_cli(),
            qemu_config: None,
            uboot_config: UbootSource::Absent,
            persistence: SnapshotPersistence::Store,
            after,
        }),
    }
}

#[test]
fn board_test_requires_group_when_override_config_is_present() {
    let err = ensure_board_test_args(&ArgsTestBoard {
        test_group: None,
        board_test_config: Some("board-test.toml".to_string()),
        board_type: None,
        server: None,
        port: None,
    })
    .unwrap_err();

    assert!(
        err.message()
            .contains("`--board-test-config` requires `--test-group`")
    );
}

#[test]
fn board_test_config_goes_with_a_group_or_stays_away() {
    let mut args = ArgsTestBoard {
        test_group: Some(s("smoke")),
        board_test_config: Some(s("board-test.toml")),
        board_type: None,
        server: None,
        port: None,
    };
    assert!(ensure_board_test_args(&args).is_ok());
    args.board_test_config = None;
    assert!(ensure_board_test_args(&args).is_ok());
    args.test_group = None;
    assert!(ensure_board_test_args(&args).is_ok());
    assert_eq!(
        StarryError::BoardConfigWithoutGroup.message(),
        "`--board-test-config` requires `--test-group` because board test configs embed a single \
         board_type"
    );
}

#[test]
fn failing_context_fails_the_tool() {
    assert_eq!(
        Starry::new(Err(outside("no workspace"))).err(),
        Some(outside("no workspace"))
    );
}

#[test]
fn build_prepares_a_request_and_builds_it() {
    assert_eq!(StarryCliArgs::from(&build_args()), build_cli());
    assert_eq!(stage(Command::Build(build_args())), plain(AfterPrepare::Build));
    assert_eq!(
        starry().after_prepare(AfterPrepare::Build, &request()),
        vec![Op::RunBuild { request: request() }]
    );
}

#[test]
fn qemu_boots_the_default_rootfs() {
    let mut expected = plain(AfterPrepare::Qemu { rootfs: None });
    expected.prepare.as_mut().unwrap().qemu_config = Some(s("q.toml"));
    assert_eq!(
        stage(Command::Qemu(ArgsQemu {
            build: build_args(),
            qemu_config: Some(s("q.toml")),
            rootfs: None,
        })),
        expected
    );
    assert_eq!(
        starry().after_prepare(AfterPrepare::Qemu { rootfs: None }, &request()),
        vec![
            Op::EnsureDefaultBuildConfig {
                target: s("x86_64-unknown-none"),
                build_info_path: s("/tmp/.build.toml"),
            },
            Op::SetDebugMode { debug: true },
            Op::LoadCargoConfig { request: request() },
            Op::EnsureQemuConfig,
            Op::EnsureRootfs { arch: s("x86_64"), target: Some(s("x86_64-unknown-none")) },
            Op::PatchRootfs,
            Op::ApplySmp { smp: Some(2) },
            Op::RunQemu { build_info_path: s("/tmp/.build.toml") },
        ]
    );
    assert_eq!(
        apply_default_qemu_args(&request()),
        vec![
            Op::EnsureRootfs { arch: s("x86_64"), target: Some(s("x86_64-unknown-none")) },
            Op::PatchRootfs,
        ]
    );
}

#[test]
fn given_rootfs_is_booted_without_a_download() {
    let ops = starry().after_prepare(
        AfterPrepare::Qemu { rootfs: Some(s("my.img")) },
        &request(),
    );
    assert_eq!(
        ops,
        vec![
            Op::EnsureDefaultBuildConfig {
                target: s("x86_64-unknown-none"),
                build_info_path: s("/tmp/.build.toml"),
            },
            Op::ResolveRootfsPath { arch: s("x86_64"), rootfs: s("my.img") },
            Op::EnsureManagedRootfs { arch: s("x86_64") },
            Op::SetDebugMode { debug: true },
            Op::LoadCargoConfig { request: request() },
            Op::EnsureQemuConfig,
            Op::ApplySmp { smp: Some(2) },
            Op::PatchRootfs,
            Op::ApplySmp { smp: Some(2) },
            Op::RunQemu { build_info_path: s("/tmp/.build.toml") },
        ]
    );
    assert!(!ops.iter().any(|op| matches!(op, Op::EnsureRootfs { .. })));
}

#[test]
fn named_qemu_config_keeps_its_rootfs() {
    let mut request = request();
    request.qemu_config = Some(s("q.toml"));
    let ops = starry().after_prepare(AfterPrepare::RunQemu, &request);
    assert_eq!(
        ops,
        vec![
            Op::SetDebugMode { debug: true },
            Op::LoadCargoConfig { request: request.clone() },
            Op::ReadQemuConfig { path: s("q.toml") },
            Op::ApplySmp { smp: Some(2) },
            Op::RunQemu { build_info_path: s("/tmp/.build.toml") },
        ]
    );
}

#[test]
fn uboot_reads_its_config_where_one_is_given() {
    let mut expected = plain(AfterPrepare::Uboot);
    expected.prepare.as_mut().unwrap().uboot_config = UbootSource::Path(s("u.toml"));
    assert_eq!(
        stage(Command::Uboot(ArgsUboot { build: build_args(), uboot_config: Some(s("u.toml")) })),
        expected
    );
    assert_eq!(
        stage(Command::Uboot(ArgsUboot { build: build_args(), uboot_config: None })),
        plain(AfterPrepare::Uboot)
    );
    assert_eq!(
        starry().after_prepare(AfterPrepare::Uboot, &request()),
        vec![
            Op::SetDebugMode { debug: true },
            Op::LoadCargoConfig { request: request() },
            Op::RunUboot { build_info_path: s("/tmp/.build.toml") },
        ]
    );
    let mut request = request();
    request.uboot_config = Some(s("u.toml"));
    assert_eq!(
        starry().load_uboot_config(&request),
        vec![Op::ReadUbootConfig { path: s("u.toml") }]
    );
}

#[test]
fn board_runs_with_its_options() {
    let after = |board_config: Option<String>| AfterPrepare::Board {
        board_config,
        board_type: Some(s("rk3568")),
        server: Some(s("10.0.0.2")),
        port: Some(9000),
    };
    assert_eq!(
        stage(Command::Board(ArgsBoard {
            build: build_args(),
            board_config: Some(s("remote.board.toml")),
            board_type: Some(s("rk3568")),
            server: Some(s("10.0.0.2")),
            port: Some(9000),
        })),
        plain(after(Some(s("remote.board.toml"))))
    );
    let run = Op::RunBoard {
        build_info_path: s("/tmp/.build.toml"),
        board_type: Some(s("rk3568")),
        server: Some(s("10.0.0.2")),
        port: Some(9000),
    };
    assert_eq!(
        starry().after_prepare(after(Some(s("remote.board.toml"))), &request()),
        vec![
            Op::SetDebugMode { debug: true },
            Op::LoadCargoConfig { request: request() },
            Op::ReadBoardConfig { path: s("remote.board.toml") },
            run.clone(),
        ]
    );
    assert_eq!(
        starry().after_prepare(after(None), &request())[2..],
        [Op::EnsureBoardConfig, run]
    );
}

#[test]
fn commands_without_a_request() {
    let bare = |before: Vec<Op>| Stage { before, prepare: None };
    assert_eq!(
        stage(Command::Rootfs(ArgsRootfs { arch: None })),
        bare(vec![
            Op::LookupTarget { arch: s("riscv64") },
            Op::EnsureRootfs { arch: s("riscv64"), target: None },
            Op::ShowRootfs,
        ])
    );
    assert_eq!(
        stage(Command::Rootfs(ArgsRootfs { arch: Some(s("x86_64")) })).before[0],
        Op::LookupTarget { arch: s("x86_64") }
    );
    assert_eq!(
        stage(Command::Defconfig(ArgsDefconfig { board: s("qemu-aarch64") })),
        bare(vec![Op::WriteDefconfig { board: s("qemu-aarch64") }])
    );
    assert_eq!(
        stage(Command::Config(ArgsConfig { command: ConfigCommand::Ls })),
        bare(vec![Op::ListBoards])
    );
    assert_eq!(
        stage(Command::QuickStart(ArgsQuickStart { command: QuickStartCommand::List })),
        bare(vec![Op::ListPlatforms])
    );
}

#[test]
fn quick_start_refreshes_to_build_and_ensures_to_run() {
    let quick = |command: QuickStartCommand| {
        stage(Command::QuickStart(ArgsQuickStart { command }))
    };
    let built = quick(QuickStartCommand::QemuLoongarch64(QuickQemuArgs {
        action: QuickQemuAction::Build,
    }));
    let args = StarryCliArgs {
        config: Some(s("/ws/tmp/loongarch64-build.toml")),
        arch: Some(s("loongarch64")),
        target: None,
        smp: None,
        debug: false,
    };
    assert_eq!(
        built,
        Stage {
            before: vec![
                Op::LookupTarget { arch: s("loongarch64") },
                Op::RefreshQemuConfigs { platform: QuickQemuPlatform::Loongarch64 },
                Op::EnsureRootfs { arch: s("loongarch64"), target: None },
            ],
            prepare: Some(PrepareCall {
                args: args.clone(),
                qemu_config: None,
                uboot_config: UbootSource::Absent,
                persistence: SnapshotPersistence::Store,
                after: AfterPrepare::Build,
            }),
        }
    );
    let run = quick(QuickStartCommand::QemuLoongarch64(QuickQemuArgs {
        action: QuickQemuAction::Run,
    }));
    assert_eq!(
        run,
        Stage {
            before: vec![Op::EnsureQemuConfigs { platform: QuickQemuPlatform::Loongarch64 }],
            prepare: Some(PrepareCall {
                args,
                qemu_config: Some(s("/ws/tmp/loongarch64-run.toml")),
                uboot_config: UbootSource::Absent,
                persistence: SnapshotPersistence::Store,
                after: AfterPrepare::RunQemu,
            }),
        }
    );
    for (command, platform) in [
        (
            QuickStartCommand::QemuAarch64(QuickQemuArgs { action: QuickQemuAction::Run }),
            QuickQemuPlatform::Aarch64,
        ),
        (
            QuickStartCommand::QemuRiscv64(QuickQemuArgs { action: QuickQemuAction::Run }),
            QuickQemuPlatform::Riscv64,
        ),
        (
            QuickStartCommand::QemuX8664(QuickQemuArgs { action: QuickQemuAction::Run }),
            QuickQemuPlatform::X8664,
        ),
    ] {
        assert_eq!(quick(command).before, vec![Op::EnsureQemuConfigs { platform }]);
    }
}

#[test]
fn quick_start_orange_pi() {
    let serial = QuickOrangeConfigArgs {
        serial: Some(s("/dev/ttyUSB0")),
        baud: Some(s("1500000")),
    };
    let quick = |action: QuickOrangeAction| {
        stage(Command::QuickStart(ArgsQuickStart {
            command: QuickStartCommand::Orangepi5Plus(QuickOrangeArgs { action }),
        }))
    };
    let built = quick(QuickOrangeAction::Build(serial.clone()));
    assert_eq!(
        built.before,
        vec![Op::RefreshOrangepiConfigs, Op::PrepareOrangepiUboot { args: serial.clone() }]
    );
    let call = built.prepare.unwrap();
    assert_eq!(call.args.arch, Some(s("aarch64")));
    assert_eq!(call.args.config, Some(s("/ws/tmp/orangepi-build.toml")));
    assert_eq!(call.uboot_config, UbootSource::Absent);
    assert_eq!(call.after, AfterPrepare::Build);

    let run = quick(QuickOrangeAction::Run(serial.clone()));
    assert_eq!(
        run.before,
        vec![Op::EnsureOrangepiConfigs, Op::PrepareOrangepiUboot { args: serial }]
    );
    let call = run.prepare.unwrap();
    assert_eq!(call.uboot_config, UbootSource::Orangepi);
    assert_eq!(call.after, AfterPrepare::Uboot);
    assert_eq!(call.persistence, SnapshotPersistence::Store);
}

#[test]
fn test_command_is_handed_to_its_suite() {
    let test = |command: TestCommand| starry().execute(Command::Test(ArgsTest { command }));
    assert!(matches!(
        test(TestCommand::Qemu(ArgsTestQemu {
            arch: None,
            target: None,
            test_case: None,
            stress: true,
        })),
        Task::TestQemu(args) if args.stress
    ));
    assert!(matches!(
        test(TestCommand::Uboot(ArgsTestUboot)),
        Task::TestUboot
    ));
    assert!(matches!(
        test(TestCommand::Board(ArgsTestBoard::default())),
        Task::TestBoard(args) if args.test_group.is_none()
    ));
}

#[test]
fn snapshot_is_stored_only_where_asked() {
    let snapshot = SnapshotId { id: 7 };
    assert_eq!(
        Starry::prepare_request(Ok((request(), snapshot)), SnapshotPersistence::Store),
        Ok(PreparedRequest { request: request(), store: Some(snapshot) })
    );
    assert_eq!(
        Starry::prepare_request(Ok((request(), snapshot)), SnapshotPersistence::Discard),
        Ok(PreparedRequest { request: request(), store: None })
    );
    assert_eq!(
        Starry::prepare_request(Err(outside("bad config")), SnapshotPersistence::Store),
        Err(outside("bad config"))
    );
}

#[test]
fn test_requests_leave_the_rest_open() {
    assert_eq!(
        Starry::test_build_args(&s("t"), None),
        StarryCliArgs { config: None, arch: None, target: Some(s("t")), smp: None, debug: false }
    );
    let group = StarryBoardTestGroup {
        name: s("smoke"),
        build_config_path: s("b.toml"),
        target: s("t"),
        board_test_config_path: s("c.toml"),
    };
    assert_eq!(
        Starry::test_board_build_args(&group),
        StarryCliArgs {
            config: Some(s("b.toml")),
            arch: None,
            target: Some(s("t")),
            smp: None,
            debug: false,
        }
    );
}

fn case() -> StarryQemuCase {
    StarryQemuCase {
        name: s("usb"),
        case_dir: s("/cases/usb"),
        qemu_config_path: s("/cases/usb/qemu.toml"),
        build_config_path: None,
    }
}

fn loaded(args: &[&str]) -> LoadedQemu {
    LoadedQemu {
        handle: Handle { id: 5 },
        config: QemuConfig { args: args.iter().map(|arg| s(arg)).collect() },
    }
}

fn case_run(own: &ResolvedStarryRequest) -> Vec<Op> {
    vec![
        Op::EnsureRootfs { arch: s("x86_64"), target: Some(s("x86_64-unknown-none")) },
        Op::PrepareCaseAssets {
            arch: s("x86_64"),
            target: s("x86_64-unknown-none"),
            case: case(),
        },
        Op::PatchRootfs,
        Op::AddCaseArgs,
        Op::ApplySmp { smp: own.smp },
        Op::RunQemu { build_info_path: s("/tmp/.build.toml") },
        Op::ValidateHostOutputs { case: case() },
    ]
}

#[test]
fn case_takes_the_cpu_count_of_its_config() {
    let mut open = request();
    open.smp = None;
    let mut own = open.clone();
    own.smp = Some(4);
    let run = starry().run_qemu_case(&open, Handle { id: 1 }, &case(), loaded(&["-smp", "4"]));
    let mut expected = vec![Op::LoadCargoConfig { request: own.clone() }];
    expected.extend(case_run(&own));
    assert_eq!(run.ops, expected);

    let run = starry().run_qemu_case(&request(), Handle { id: 1 }, &case(), loaded(&["-smp", "4"]));
    assert_eq!(run.ops, case_run(&request()));

    let run = starry().run_qemu_case(&open, Handle { id: 1 }, &case(), loaded(&[]));
    assert_eq!(run.ops, case_run(&open));
}

#[test]
fn case_boots_its_own_assets() {
    let mut open = request();
    open.smp = None;
    let mut run =
        starry().run_qemu_case(&open, Handle { id: 1 }, &case(), loaded(&["-smp", "4", "-nographic"]));
    assert!(matches!(
        run.next(),
        Some(Action::LoadCargoConfig { request }) if request.smp == Some(4)
    ));
    run.finish(Ok(Outcome::Cargo(Handle { id: 2 })));
    assert!(matches!(
        run.next(),
        Some(Action::EnsureRootfs { arch, target })
            if arch == "x86_64" && target == "x86_64-unknown-none"
    ));
    run.finish(Ok(Outcome::Path(s("/base.img"))));
    assert!(matches!(
        run.next(),
        Some(Action::PrepareCaseAssets { case, rootfs, .. })
            if case.name == "usb" && rootfs == "/base.img"
    ));
    let assets = StarryCaseAssets {
        rootfs_path: s("/work/rootfs.img"),
        extra_qemu_args: vec![s("-device"), s("usb")],
        host_post_check: None,
    };
    run.finish(Ok(Outcome::Assets(assets.clone())));
    assert!(matches!(
        run.next(),
        Some(Action::PatchRootfs { qemu, disk_img })
            if disk_img == "/work/rootfs.img" && *qemu == loaded(&["-smp", "4", "-nographic"])
    ));
    run.finish(Ok(Outcome::Qemu(loaded(&["-smp", "1", "-nographic", "-drive", "d"]))));
    assert!(matches!(
        run.next(),
        Some(Action::RunQemu { cargo: Handle { id: 2 }, build_info_path, qemu })
            if build_info_path == "/tmp/.build.toml"
                && *qemu == loaded(&["-smp", "4", "-nographic", "-drive", "d", "-device", "usb"])
    ));
    run.finish(Ok(Outcome::Done));
    assert!(matches!(
        run.next(),
        Some(Action::ValidateHostOutputs { assets: checked, .. }) if *checked == assets
    ));
    run.finish(Ok(Outcome::Done));
    assert!(run.next().is_none());
    assert_eq!(run.result(), Ok(()));
}

#[test]
fn case_arguments_go_behind_the_others() {
    let assets = StarryCaseAssets {
        rootfs_path: s("/r"),
        extra_qemu_args: vec![s("b"), s("c")],
        host_post_check: None,
    };
    let mut qemu = QemuConfig { args: vec![s("a")] };
    add_case_args(&mut qemu, &assets);
    assert_eq!(qemu.args, vec![s("a"), s("b"), s("c")]);
}

#[test]
fn rootfs_command_shows_the_rootfs_of_the_looked_up_target() {
    let stage = stage(Command::Rootfs(ArgsRootfs { arch: None }));
    let mut run = Run::new(stage.before, Values::nothing());
    assert!(matches!(run.next(), Some(Action::LookupTarget { arch }) if arch == "riscv64"));
    run.finish(Ok(Outcome::Target(s("t"))));
    assert!(matches!(
        run.next(),
        Some(Action::EnsureRootfs { arch, target }) if arch == "riscv64" && target == "t"
    ));
    run.finish(Ok(Outcome::Path(s("/r.img"))));
    assert!(matches!(run.next(), Some(Action::ShowRootfs { disk_img }) if disk_img == "/r.img"));
}

#[test]
fn quick_start_build_ensures_the_looked_up_target() {
    let stage = starry().quick_start_qemu(QuickQemuPlatform::X8664, QuickQemuAction::Build);
    let mut run = Run::new(stage.before, Values::nothing());
    run.finish(Ok(Outcome::Target(s("t"))));
    run.finish(Ok(Outcome::Done));
    assert!(matches!(
        run.next(),
        Some(Action::EnsureRootfs { arch, target }) if arch == "x86_64" && target == "t"
    ));
}

#[test]
fn orange_pi_runs_with_the_config_that_was_written() {
    let args = QuickOrangeConfigArgs { serial: None, baud: None };
    let stage = starry().quick_start_orangepi_run(args);
    let mut run = Run::new(stage.before, Values::nothing());
    assert!(matches!(run.next(), Some(Action::EnsureOrangepiConfigs)));
    run.finish(Ok(Outcome::Done));
    assert!(matches!(run.next(), Some(Action::PrepareOrangepiUboot { .. })));
    run.finish(Ok(Outcome::Path(s("/u.toml"))));
    assert!(run.next().is_none());
    assert!(matches!(
        stage_ended(run, stage.prepare),
        StageStep::Prepare { inputs, after: AfterPrepare::Uboot }
            if inputs.uboot_config == Some(s("/u.toml")) && inputs.qemu_config.is_none()
    ));
}

#[test]
fn command_goes_on_when_its_first_work_has_ended() {
    let done = || Run::new(vec![], Values::nothing());
    assert!(matches!(stage_ended(done(), None), StageStep::Finish));
    let mut failed = Run::new(vec![Op::ListBoards], Values::nothing());
    failed.finish(Err(outside("no boards")));
    assert!(matches!(
        stage_ended(failed, plain(AfterPrepare::Build).prepare),
        StageStep::Fail { error } if error == outside("no boards")
    ));

    let mut call = plain(AfterPrepare::Uboot).prepare.unwrap();
    call.uboot_config = UbootSource::Path(s("mine.toml"));
    let expected = PrepareInputs {
        args: build_cli(),
        qemu_config: None,
        uboot_config: Some(s("mine.toml")),
        persistence: SnapshotPersistence::Store,
    };
    assert!(matches!(
        stage_ended(done(), Some(call)),
        StageStep::Prepare { inputs, after: AfterPrepare::Uboot } if inputs == expected
    ));
}

#[test]
fn default_rootfs_is_patched_into_the_config_that_runs() {
    let ops = starry().after_prepare(AfterPrepare::RunQemu, &request());
    let mut run = Run::new(ops, Values::nothing());
    assert!(matches!(run.next(), Some(Action::SetDebugMode { debug: true })));
    run.finish(Ok(Outcome::Done));
    run.finish(Ok(Outcome::Cargo(Handle { id: 3 })));
    assert!(matches!(
        run.next(),
        Some(Action::EnsureQemuConfig { cargo: Handle { id: 3 } })
    ));
    run.finish(Ok(Outcome::Qemu(loaded(&["a"]))));
    run.finish(Ok(Outcome::Path(s("/default.img"))));
    assert!(matches!(
        run.next(),
        Some(Action::PatchRootfs { qemu, disk_img })
            if *qemu == loaded(&["a"]) && disk_img == "/default.img"
    ));
    run.finish(Ok(Outcome::Qemu(loaded(&["a", "b"]))));
    assert!(matches!(
        run.next(),
        Some(Action::RunQemu { cargo: Handle { id: 3 }, qemu, .. })
            if *qemu == loaded(&["a", "b", "-smp", "2"])
    ));
}

#[test]
fn given_rootfs_is_patched_into_the_config_that_runs() {
    let ops = starry().after_prepare(
        AfterPrepare::Qemu { rootfs: Some(s("alpine")) },
        &request(),
    );
    let mut run = Run::new(ops, Values::nothing());
    run.finish(Ok(Outcome::Done));
    assert!(matches!(
        run.next(),
        Some(Action::ResolveRootfsPath { arch, rootfs }) if arch == "x86_64" && rootfs == "alpine"
    ));
    run.finish(Ok(Outcome::Path(s("/alpine.img"))));
    assert!(matches!(
        run.next(),
        Some(Action::EnsureManagedRootfs { disk_img, .. }) if disk_img == "/alpine.img"
    ));
    run.finish(Ok(Outcome::Done));
    run.finish(Ok(Outcome::Done));
    run.finish(Ok(Outcome::Cargo(Handle { id: 3 })));
    run.finish(Ok(Outcome::Qemu(loaded(&["-smp", "9"]))));
    assert!(matches!(
        run.next(),
        Some(Action::PatchRootfs { qemu, disk_img })
            if *qemu == loaded(&["-smp", "2"]) && disk_img == "/alpine.img"
    ));
    run.finish(Ok(Outcome::Qemu(loaded(&["x"]))));
    assert!(matches!(
        run.next(),
        Some(Action::RunQemu { qemu, .. }) if *qemu == loaded(&["x", "-smp", "2"])
    ));
}

#[test]
fn uboot_and_board_run_with_what_was_read() {
    let mut uboot = request();
    uboot.uboot_config = Some(s("u.toml"));
    let mut run = Run::new(starry().run_uboot_request(&uboot), Values::nothing());
    run.finish(Ok(Outcome::Done));
    run.finish(Ok(Outcome::Cargo(Handle { id: 1 })));
    assert!(matches!(run.next(), Some(Action::ReadUbootConfig { path, .. }) if path == "u.toml"));
    run.finish(Ok(Outcome::Uboot(Handle { id: 8 })));
    assert!(matches!(
        run.next(),
        Some(Action::RunUboot { uboot: Some(Handle { id: 8 }), cargo: Handle { id: 1 }, .. })
    ));

    let mut run = Run::new(starry().run_uboot_request(&request()), Values::nothing());
    run.finish(Ok(Outcome::Done));
    run.finish(Ok(Outcome::Cargo(Handle { id: 1 })));
    assert!(matches!(run.next(), Some(Action::RunUboot { uboot: None, .. })));

    let after = AfterPrepare::Board {
        board_config: None,
        board_type: None,
        server: None,
        port: Some(9000),
    };
    let mut run = Run::new(starry().after_prepare(after, &request()), Values::nothing());
    run.finish(Ok(Outcome::Done));
    run.finish(Ok(Outcome::Cargo(Handle { id: 1 })));
    assert!(matches!(run.next(), Some(Action::EnsureBoardConfig { .. })));
    run.finish(Ok(Outcome::Board(Handle { id: 6 })));
    assert!(matches!(
        run.next(),
        Some(Action::RunBoard { board: Handle { id: 6 }, port: Some(9000), .. })
    ));
}

#[test]
fn duplicate_is_the_same_request() {
    let mut full = request();
    full.build_info_override = Some(BuildInfo { id: 3, plat_dyn: true });
    full.qemu_config = Some(s("q.toml"));
    full.uboot_config = Some(s("u.toml"));
    full.plat_dyn = Some(true);
    assert_eq!(full.duplicate(), full);
}

#[test]
fn run_stops_at_the_first_failure() {
    let ops = vec![Op::ListBoards, Op::RunBuild { request: request() }, Op::ListPlatforms];
    let mut run = Run::new(ops, Values::nothing());
    assert!(matches!(run.next(), Some(Action::ListBoards)));
    run.finish(Ok(Outcome::Done));
    assert!(matches!(run.next(), Some(Action::RunBuild { request: built }) if *built == request()));
    run.finish(Err(outside("cargo failed")));
    assert!(run.next().is_none());
    run.finish(Ok(Outcome::Done));
    assert_eq!(run.done, 1);
    assert_eq!(run.result(), Err(outside("cargo failed")));
}

#[test]
fn run_ends_well_when_all_is_done() {
    let mut run = Run::new(vec![Op::RunBuild { request: request() }], Values::nothing());
    run.finish(Ok(Outcome::Done));
    assert!(run.next().is_none());
    run.finish(Err(outside("too late")));
    assert_eq!(run.result(), Ok(()));
    assert!(Run::new(vec![], Values::nothing()).next().is_none());
}

#[test]
fn notices_say_what_happened() {
    assert_eq!(
        notices::generated_build_config("/b.toml", "qemu-x86_64"),
        "generated missing Starry qemu build config /b.toml from board qemu-x86_64"
    );
    assert_eq!(notices::rootfs_ready("/r.img"), "rootfs ready at /r.img");
    assert_eq!(
        notices::generated_defconfig("/d.toml", "qemu-x86_64"),
        "Generated /d.toml for board qemu-x86_64"
    );
    assert_eq!(
        notices::qemu_tests_started("normal", "starryos", "x86_64", "x86_64-unknown-none"),
        "running starry normal qemu tests for package starryos on arch: x86_64 (target: \
         x86_64-unknown-none)"
    );
    assert_eq!(notices::qemu_case_started(1, 12, "smoke"), "[2/12] starry qemu smoke");
    assert_eq!(notices::board_group_started(0, 1, "pi"), "[1/1] starry board pi");
    assert_eq!(notices::passed("smoke"), "ok: smoke");
    assert_eq!(notices::failed("smoke", &outside("boom")), "failed: smoke: boom");
    assert_eq!(
        notices::missing_board_test_config("pi", "/c.toml"),
        "failed: pi: missing board test config `/c.toml`"
    );
}
