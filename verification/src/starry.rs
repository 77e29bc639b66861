//! The StarryOS commands: what each of them has done, in which order.

use vstd::prelude::*;

use crate::cli::{
    cli_args, ArgsBoard, ArgsBuild, ArgsConfig, ArgsDefconfig, ArgsQemu, ArgsRootfs,
    ArgsTest, ArgsTestBoard, ArgsTestQemu, ArgsUboot, Command, ConfigCommand, StarryCliArgs,
    TestCommand,
};
use crate::error::StarryError;
use crate::quick_start::{
    ArgsQuickStart, QuickOrangeAction, QuickOrangeConfigArgs, QuickOrangeRunArgs, QuickQemuAction,
    QuickQemuPlatform, QuickStartCommand, QuickStartPaths,
};
use crate::request::{
    AfterPrepare, Op, PrepareCall, PreparedRequest, ResolvedStarryRequest, SnapshotId,
    SnapshotPersistence, Stage, UbootSource,
};
use crate::rootfs::{apply_default_qemu_args, default_qemu_ops, smp_from_qemu_arg, smp_in};
use crate::run::{
    can_start, nothing_known, plan_ready, start_of, Handle, Known, LoadedQemu, QemuState, Run, Values,
};
use crate::test_suit::{StarryBoardTestGroup, StarryQemuCase};
use crate::text::texts;

verus! {

/// What the commands know of the workspace.
pub struct AppContext {
    pub workspace_root: String,
    /// The architecture where none is given.
    pub default_arch: String,
    pub quick_start: QuickStartPaths,
}

pub struct Starry {
    pub app: AppContext,
}

/// What a command comes to.
pub enum Task {
    Stage(Stage),
    TestQemu(ArgsTestQemu),
    TestUboot,
    TestBoard(ArgsTestBoard),
}

/// A command that does nothing before a request is prepared and keeps the
/// snapshot of the request.
pub open spec fn plain_stage(
    stage: Stage,
    args: StarryCliArgs,
    qemu_config: Option<String>,
    uboot_config: UbootSource,
    after: AfterPrepare,
) -> bool {
    &&& stage.before@ == Seq::<Op>::empty()
    &&& stage.prepare == Some(
        PrepareCall {
            args,
            qemu_config,
            uboot_config,
            persistence: SnapshotPersistence::Store,
            after,
        },
    )
}

pub open spec fn build_stage(stage: Stage, args: ArgsBuild) -> bool {
    plain_stage(stage, cli_args(args), None, UbootSource::Absent, AfterPrepare::Build)
}

pub open spec fn qemu_stage(stage: Stage, args: ArgsQemu) -> bool {
    plain_stage(
        stage,
        cli_args(args.build),
        args.qemu_config,
        UbootSource::Absent,
        AfterPrepare::Qemu { rootfs: args.rootfs },
    )
}

pub open spec fn uboot_stage(stage: Stage, args: ArgsUboot) -> bool {
    plain_stage(
        stage,
        cli_args(args.build),
        None,
        match args.uboot_config {
            Some(path) => UbootSource::Path(path),
            None => UbootSource::Absent,
        },
        AfterPrepare::Uboot,
    )
}

pub open spec fn board_stage(stage: Stage, args: ArgsBoard) -> bool {
    plain_stage(
        stage,
        cli_args(args.build),
        None,
        UbootSource::Absent,
        AfterPrepare::Board {
            board_config: args.board_config,
            board_type: args.board_type,
            server: args.server,
            port: args.port,
        },
    )
}

/// A command that prepares no request.
pub open spec fn bare_stage(stage: Stage, ops: Seq<Op>) -> bool {
    stage.before@ =~= ops && stage.prepare is None
}

/// The work of the rootfs command.
pub open spec fn rootfs_ops(arch: String) -> Seq<Op> {
    seq![Op::LookupTarget { arch }, Op::EnsureRootfs { arch, target: None }, Op::ShowRootfs]
}

pub open spec fn rootfs_stage(stage: Stage, args: ArgsRootfs, default_arch: String) -> bool {
    let arch = match args.arch {
        Some(arch) => arch,
        None => default_arch,
    };
    bare_stage(stage, rootfs_ops(arch))
}

pub open spec fn config_stage(stage: Stage, args: ArgsConfig) -> bool {
    match args.command {
        ConfigCommand::Ls => bare_stage(stage, seq![Op::ListBoards]),
    }
}

/// The arguments of a quick-start build.
pub open spec fn quick_args(args: StarryCliArgs, arch: Seq<char>, config: String) -> bool {
    &&& args.config == Some(config)
    &&& args.arch is Some
    &&& args.arch->0@ == arch
    &&& args.target is None
    &&& args.smp is None
    &&& !args.debug
}

/// A quick-start command that prepares a request for an architecture and a
/// build config.
pub open spec fn quick_stage(
    stage: Stage,
    before: Seq<Op>,
    arch: Seq<char>,
    config: String,
    qemu_config: Option<String>,
    uboot_config: UbootSource,
    after: AfterPrepare,
) -> bool {
    &&& stage.before@ =~= before
    &&& stage.prepare is Some
    &&& quick_args(stage.prepare->0.args, arch, config)
    &&& stage.prepare->0.qemu_config == qemu_config
    &&& stage.prepare->0.uboot_config == uboot_config
    &&& stage.prepare->0.persistence == SnapshotPersistence::Store
    &&& stage.prepare->0.after == after
}

/// The work before a quick-start build for QEMU.
pub open spec fn quick_build_ops(arch: String, platform: QuickQemuPlatform) -> Seq<Op> {
    seq![
        Op::LookupTarget { arch },
        Op::RefreshQemuConfigs { platform },
        Op::EnsureRootfs { arch, target: None },
    ]
}

/// The work before a quick-start run on an Orange Pi.
pub open spec fn orangepi_run_ops(args: QuickOrangeRunArgs) -> Seq<Op> {
    seq![Op::EnsureOrangepiConfigs, Op::PrepareOrangepiUboot { args }]
}

pub open spec fn quick_qemu_stage(
    stage: Stage,
    paths: QuickStartPaths,
    platform: QuickQemuPlatform,
    action: QuickQemuAction,
) -> bool {
    let own = paths.of(platform);
    match action {
        QuickQemuAction::Build => quick_stage(
            stage,
            quick_build_ops(own.arch, platform),
            own.arch@,
            own.build_config,
            None,
            UbootSource::Absent,
            AfterPrepare::Build,
        ),
        QuickQemuAction::Run => quick_stage(
            stage,
            seq![Op::EnsureQemuConfigs { platform }],
            own.arch@,
            own.build_config,
            Some(own.run_config),
            UbootSource::Absent,
            AfterPrepare::RunQemu,
        ),
    }
}

pub open spec fn orangepi_build_stage(
    stage: Stage,
    paths: QuickStartPaths,
    args: QuickOrangeConfigArgs,
) -> bool {
    quick_stage(
        stage,
        seq![Op::RefreshOrangepiConfigs, Op::PrepareOrangepiUboot { args }],
        "aarch64"@,
        paths.orangepi_build_config,
        None,
        UbootSource::Absent,
        AfterPrepare::Build,
    )
}

pub open spec fn orangepi_run_stage(
    stage: Stage,
    paths: QuickStartPaths,
    args: QuickOrangeRunArgs,
) -> bool {
    quick_stage(
        stage,
        orangepi_run_ops(args),
        "aarch64"@,
        paths.orangepi_build_config,
        None,
        UbootSource::Orangepi,
        AfterPrepare::Uboot,
    )
}

pub open spec fn quick_start_stage(
    stage: Stage,
    paths: QuickStartPaths,
    args: ArgsQuickStart,
) -> bool {
    match args.command {
        QuickStartCommand::List => bare_stage(stage, seq![Op::ListPlatforms]),
        QuickStartCommand::QemuAarch64(args) => quick_qemu_stage(
            stage,
            paths,
            QuickQemuPlatform::Aarch64,
            args.action,
        ),
        QuickStartCommand::QemuRiscv64(args) => quick_qemu_stage(
            stage,
            paths,
            QuickQemuPlatform::Riscv64,
            args.action,
        ),
        QuickStartCommand::QemuLoongarch64(args) => quick_qemu_stage(
            stage,
            paths,
            QuickQemuPlatform::Loongarch64,
            args.action,
        ),
        QuickStartCommand::QemuX8664(args) => quick_qemu_stage(
            stage,
            paths,
            QuickQemuPlatform::X8664,
            args.action,
        ),
        QuickStartCommand::Orangepi5Plus(args) => match args.action {
            QuickOrangeAction::Build(args) => orangepi_build_stage(stage, paths, args),
            QuickOrangeAction::Run(args) => orangepi_run_stage(stage, paths, args),
        },
    }
}

/// What the test command comes to.
pub open spec fn test_task(args: ArgsTest) -> Task {
    match args.command {
        TestCommand::Qemu(args) => Task::TestQemu(args),
        TestCommand::Uboot(_) => Task::TestUboot,
        TestCommand::Board(args) => Task::TestBoard(args),
    }
}

/// What a command comes to.
pub open spec fn command_task(command: Command, app: AppContext, task: Task) -> bool {
    match command {
        Command::Build(args) => task is Stage && build_stage(task->Stage_0, args),
        Command::Qemu(args) => task is Stage && qemu_stage(task->Stage_0, args),
        Command::Defconfig(args) => task is Stage && bare_stage(
            task->Stage_0,
            seq![Op::WriteDefconfig { board: args.board }],
        ),
        Command::Config(args) => task is Stage && config_stage(task->Stage_0, args),
        Command::Rootfs(args) => task is Stage && rootfs_stage(
            task->Stage_0,
            args,
            app.default_arch,
        ),
        Command::QuickStart(args) => task is Stage && quick_start_stage(
            task->Stage_0,
            app.quick_start,
            args,
        ),
        Command::Uboot(args) => task is Stage && uboot_stage(task->Stage_0, args),
        Command::Board(args) => task is Stage && board_stage(task->Stage_0, args),
        Command::Test(args) => task == test_task(args),
    }
}

/// The work that gets a QEMU config for a request. A config that was named is
/// taken as it is, but for the processor count; the default config gets the
/// default rootfs too where that is asked for.
pub open spec fn qemu_config_ops(
    request: ResolvedStarryRequest,
    apply_default_args: bool,
) -> Seq<Op> {
    (match request.qemu_config {
        Some(path) => seq![Op::ReadQemuConfig { path }],
        None if apply_default_args => seq![Op::EnsureQemuConfig] + default_qemu_ops(request),
        None => seq![Op::EnsureQemuConfig],
    }).push(Op::ApplySmp { smp: request.smp })
}

/// The work that gets a U-Boot config for a request, if one was named.
pub open spec fn uboot_config_ops(request: ResolvedStarryRequest) -> Seq<Op> {
    match request.uboot_config {
        Some(path) => seq![Op::ReadUbootConfig { path }],
        None => Seq::empty(),
    }
}

/// The work that gets a board config.
pub open spec fn board_config_ops(path: Option<String>) -> Seq<Op> {
    match path {
        Some(path) => seq![Op::ReadBoardConfig { path }],
        None => seq![Op::EnsureBoardConfig],
    }
}

/// What every run starts with.
pub open spec fn cargo_ops(request: ResolvedStarryRequest) -> Seq<Op> {
    seq![Op::SetDebugMode { debug: request.debug }, Op::LoadCargoConfig { request }]
}

/// The work that runs a request in QEMU.
pub open spec fn run_qemu_ops(request: ResolvedStarryRequest) -> Seq<Op> {
    (cargo_ops(request) + qemu_config_ops(request, true)).push(
        Op::RunQemu { build_info_path: request.build_info_path },
    )
}

/// The work that runs a request in QEMU on a given rootfs.
pub open spec fn run_on_rootfs_ops(request: ResolvedStarryRequest, rootfs: String) -> Seq<Op> {
    seq![
        Op::ResolveRootfsPath { arch: request.arch, rootfs },
        Op::EnsureManagedRootfs { arch: request.arch },
    ] + cargo_ops(request) + qemu_config_ops(request, false) + seq![
        Op::PatchRootfs,
        Op::ApplySmp { smp: request.smp },
        Op::RunQemu { build_info_path: request.build_info_path },
    ]
}

/// The work of the QEMU command.
pub open spec fn qemu_ops(request: ResolvedStarryRequest, rootfs: Option<String>) -> Seq<Op> {
    seq![
        Op::EnsureDefaultBuildConfig {
            target: request.target,
            build_info_path: request.build_info_path,
        },
    ] + (match rootfs {
        Some(rootfs) => run_on_rootfs_ops(request, rootfs),
        None => run_qemu_ops(request),
    })
}

/// The work that runs a request with U-Boot.
pub open spec fn run_uboot_ops(request: ResolvedStarryRequest) -> Seq<Op> {
    (cargo_ops(request) + uboot_config_ops(request)).push(
        Op::RunUboot { build_info_path: request.build_info_path },
    )
}

/// The work that runs a request on a remote board.
pub open spec fn board_ops(
    request: ResolvedStarryRequest,
    board_config: Option<String>,
    board_type: Option<String>,
    server: Option<String>,
    port: Option<u16>,
) -> Seq<Op> {
    (cargo_ops(request) + board_config_ops(board_config)).push(
        Op::RunBoard { build_info_path: request.build_info_path, board_type, server, port },
    )
}

/// The work that follows when a request has been prepared.
pub open spec fn after_ops(after: AfterPrepare, request: ResolvedStarryRequest) -> Seq<Op> {
    match after {
        AfterPrepare::Build => seq![Op::RunBuild { request }],
        AfterPrepare::Qemu { rootfs } => qemu_ops(request, rootfs),
        AfterPrepare::RunQemu => run_qemu_ops(request),
        AfterPrepare::Uboot => run_uboot_ops(request),
        AfterPrepare::Board { board_config, board_type, server, port } => board_ops(
            request,
            board_config,
            board_type,
            server,
            port,
        ),
    }
}

/// The request of a test case: the processor count is that of the QEMU config
/// where the request leaves it open.
pub open spec fn case_request(
    request: ResolvedStarryRequest,
    qemu_args: Seq<Seq<char>>,
) -> ResolvedStarryRequest {
    ResolvedStarryRequest {
        smp: match request.smp {
            Some(cpus) => Some(cpus),
            None => smp_in(qemu_args),
        },
        ..request
    }
}

/// The work that runs a test case, behind the reading of its QEMU config. The
/// cargo config is loaded anew only for another processor count.
pub open spec fn case_ops(
    request: ResolvedStarryRequest,
    case: StarryQemuCase,
    qemu_args: Seq<Seq<char>>,
) -> Seq<Op> {
    let own = case_request(request, qemu_args);
    (if own.smp != request.smp {
        seq![Op::LoadCargoConfig { request: own }]
    } else {
        Seq::empty()
    }) + seq![
        Op::EnsureRootfs { arch: own.arch, target: Some(own.target) },
        Op::PrepareCaseAssets { arch: own.arch, target: own.target, case },
        Op::PatchRootfs,
        Op::AddCaseArgs,
        Op::ApplySmp { smp: own.smp },
        Op::RunQemu { build_info_path: own.build_info_path },
        Op::ValidateHostOutputs { case },
    ]
}

/// What is known when a test case starts: the cargo config of the request and
/// the QEMU config of the case.
pub open spec fn case_known(cargo: Handle, qemu: QemuState) -> Known {
    Known { cargo: Some(cargo), qemu: Some(qemu), ..nothing_known() }
}

/// The plan of a prepared request finds the values that it needs.
proof fn lemma_after_ops_ready(after: AfterPrepare, request: ResolvedStarryRequest)
    ensures
        can_start(after_ops(after, request), nothing_known()),
{
    reveal_with_fuel(plan_ready, 12);
}

/// So does the plan of a test case.
proof fn lemma_case_ops_ready(request: ResolvedStarryRequest, case: StarryQemuCase, known: Known)
    requires
        known.cargo is Some,
        known.qemu is Some,
    ensures
        can_start(case_ops(request, case, known.qemu->0.args), known),
{
    reveal_with_fuel(plan_ready, 10);
}

/// Appends work to work.
fn append(mut front: Vec<Op>, mut back: Vec<Op>) -> (ops: Vec<Op>)
    ensures
        ops@ == front@ + back@,
{
    front.append(&mut back);
    front
}

/// A command without a request.
fn bare(before: Vec<Op>) -> (stage: Stage)
    ensures
        bare_stage(stage, before@),
{
    Stage { before, prepare: None }
}

/// A command that starts with a request.
fn plain(
    args: StarryCliArgs,
    qemu_config: Option<String>,
    uboot_config: UbootSource,
    after: AfterPrepare,
) -> (stage: Stage)
    ensures
        plain_stage(stage, args, qemu_config, uboot_config, after),
{
    Stage {
        before: Vec::new(),
        prepare: Some(
            PrepareCall {
                args,
                qemu_config,
                uboot_config,
                persistence: SnapshotPersistence::Store,
                after,
            },
        ),
    }
}

impl Starry {
    pub fn new(app: Result<AppContext, StarryError>) -> (starry: Result<Self, StarryError>)
        ensures
            match app {
                Ok(app) => starry == Ok::<Self, StarryError>(Starry { app }),
                Err(error) => starry == Err::<Self, StarryError>(error),
            },
    {
        match app {
            Ok(app) => Ok(Starry { app }),
            Err(error) => Err(error),
        }
    }

    pub fn execute(&self, command: Command) -> (task: Task)
        ensures
            command_task(command, self.app, task),
            task is Stage ==> can_start(task->Stage_0.before@, nothing_known()),
    {
        proof {
            reveal_with_fuel(plan_ready, 5);
        }
        match command {
            Command::Build(args) => Task::Stage(self.build(args)),
            Command::Qemu(args) => Task::Stage(self.qemu(args)),
            Command::Defconfig(args) => Task::Stage(self.defconfig(args)),
            Command::Config(args) => Task::Stage(self.config(args)),
            Command::Rootfs(args) => Task::Stage(self.rootfs(args)),
            Command::QuickStart(args) => Task::Stage(self.quick_start(args)),
            Command::Uboot(args) => Task::Stage(self.uboot(args)),
            Command::Board(args) => Task::Stage(self.board(args)),
            Command::Test(args) => self.test(args),
        }
    }

    pub fn build(&self, args: ArgsBuild) -> (stage: Stage)
        ensures
            build_stage(stage, args),
    {
        plain(StarryCliArgs::from(&args), None, UbootSource::Absent, AfterPrepare::Build)
    }

    pub fn qemu(&self, args: ArgsQemu) -> (stage: Stage)
        ensures
            qemu_stage(stage, args),
    {
        plain(
            StarryCliArgs::from(&args.build),
            args.qemu_config,
            UbootSource::Absent,
            AfterPrepare::Qemu { rootfs: args.rootfs },
        )
    }

    pub fn rootfs(&self, args: ArgsRootfs) -> (stage: Stage)
        ensures
            rootfs_stage(stage, args, self.app.default_arch),
    {
        let arch = match args.arch {
            Some(arch) => arch,
            None => self.app.default_arch.clone(),
        };
        bare(
            vec![
                Op::LookupTarget { arch: arch.clone() },
                Op::EnsureRootfs { arch, target: None },
                Op::ShowRootfs,
            ],
        )
    }

    pub fn defconfig(&self, args: ArgsDefconfig) -> (stage: Stage)
        ensures
            bare_stage(stage, seq![Op::WriteDefconfig { board: args.board }]),
    {
        bare(vec![Op::WriteDefconfig { board: args.board }])
    }

    pub fn config(&self, args: ArgsConfig) -> (stage: Stage)
        ensures
            config_stage(stage, args),
    {
        match args.command {
            ConfigCommand::Ls => bare(vec![Op::ListBoards]),
        }
    }

    pub fn uboot(&self, args: ArgsUboot) -> (stage: Stage)
        ensures
            uboot_stage(stage, args),
    {
        let uboot_config = match args.uboot_config {
            Some(path) => UbootSource::Path(path),
            None => UbootSource::Absent,
        };
        plain(StarryCliArgs::from(&args.build), None, uboot_config, AfterPrepare::Uboot)
    }

    pub fn board(&self, args: ArgsBoard) -> (stage: Stage)
        ensures
            board_stage(stage, args),
    {
        plain(
            StarryCliArgs::from(&args.build),
            None,
            UbootSource::Absent,
            AfterPrepare::Board {
                board_config: args.board_config,
                board_type: args.board_type,
                server: args.server,
                port: args.port,
            },
        )
    }

    pub fn quick_start(&self, args: ArgsQuickStart) -> (stage: Stage)
        ensures
            quick_start_stage(stage, self.app.quick_start, args),
    {
        match args.command {
            QuickStartCommand::List => bare(vec![Op::ListPlatforms]),
            QuickStartCommand::QemuAarch64(args) => {
                self.quick_start_qemu(QuickQemuPlatform::Aarch64, args.action)
            },
            QuickStartCommand::QemuRiscv64(args) => {
                self.quick_start_qemu(QuickQemuPlatform::Riscv64, args.action)
            },
            QuickStartCommand::QemuLoongarch64(args) => {
                self.quick_start_qemu(QuickQemuPlatform::Loongarch64, args.action)
            },
            QuickStartCommand::QemuX8664(args) => {
                self.quick_start_qemu(QuickQemuPlatform::X8664, args.action)
            },
            QuickStartCommand::Orangepi5Plus(args) => match args.action {
                QuickOrangeAction::Build(build_args) => {
                    self.quick_start_orangepi_build(build_args)
                },
                QuickOrangeAction::Run(run_args) => self.quick_start_orangepi_run(run_args),
            },
        }
    }

    pub fn test(&self, args: ArgsTest) -> (task: Task)
        ensures
            task == test_task(args),
    {
        match args.command {
            TestCommand::Qemu(args) => Task::TestQemu(args),
            TestCommand::Uboot(_) => Task::TestUboot,
            TestCommand::Board(args) => Task::TestBoard(args),
        }
    }

    /// Takes what a request was resolved to, and tells whether its snapshot
    /// is stored.
    pub fn prepare_request(
        resolved: Result<(ResolvedStarryRequest, SnapshotId), StarryError>,
        persistence: SnapshotPersistence,
    ) -> (prepared: Result<PreparedRequest, StarryError>)
        ensures
            match resolved {
                Err(error) => prepared == Err::<PreparedRequest, StarryError>(error),
                Ok((request, snapshot)) => prepared == Ok::<PreparedRequest, StarryError>(
                    PreparedRequest {
                        request,
                        store: if persistence == SnapshotPersistence::Store {
                            Some(snapshot)
                        } else {
                            None
                        },
                    },
                ),
            },
    {
        let (request, snapshot) = match resolved {
            Ok(resolved) => resolved,
            Err(error) => return Err(error),
        };
        let store = if matches!(persistence, SnapshotPersistence::Store) {
            Some(snapshot)
        } else {
            None
        };
        Ok(PreparedRequest { request, store })
    }

    pub fn test_build_args(target: &String, config: Option<String>) -> (args: StarryCliArgs)
        ensures
            args == (StarryCliArgs {
                config,
                arch: None,
                target: Some(*target),
                smp: None,
                debug: false,
            }),
    {
        StarryCliArgs { config, arch: None, target: Some(target.clone()), smp: None, debug: false }
    }

    pub fn test_board_build_args(group: &StarryBoardTestGroup) -> (args: StarryCliArgs)
        ensures
            args == (StarryCliArgs {
                config: Some(group.build_config_path),
                arch: None,
                target: Some(group.target),
                smp: None,
                debug: false,
            }),
    {
        StarryCliArgs {
            config: Some(group.build_config_path.clone()),
            arch: None,
            target: Some(group.target.clone()),
            smp: None,
            debug: false,
        }
    }

    pub fn quick_start_build_args(arch: &str, config: String) -> (args: StarryCliArgs)
        ensures
            quick_args(args, arch@, config),
    {
        StarryCliArgs {
            config: Some(config),
            arch: Some(arch.to_owned()),
            target: None,
            smp: None,
            debug: false,
        }
    }

    /// Plans what follows when a request has been prepared.
    pub fn after_prepare(&self, after: AfterPrepare, request: &ResolvedStarryRequest) -> (ops: Vec<
        Op,
    >)
        ensures
            ops@ == after_ops(after, *request),
            can_start(ops@, nothing_known()),
    {
        proof {
            lemma_after_ops_ready(after, *request);
        }
        match after {
            AfterPrepare::Build => self.run_build_request(request),
            AfterPrepare::Qemu { rootfs } => self.qemu_request(request, rootfs),
            AfterPrepare::RunQemu => self.run_qemu_request(request),
            AfterPrepare::Uboot => self.run_uboot_request(request),
            AfterPrepare::Board { board_config, board_type, server, port } => {
                self.board_request(request, board_config, board_type, server, port)
            },
        }
    }

    /// Plans the QEMU command on its request.
    pub fn qemu_request(&self, request: &ResolvedStarryRequest, rootfs: Option<String>) -> (ops:
        Vec<Op>)
        ensures
            ops@ == qemu_ops(*request, rootfs),
    {
        let ensured = vec![
            Op::EnsureDefaultBuildConfig {
                target: request.target.clone(),
                build_info_path: request.build_info_path.clone(),
            },
        ];
        let ops = if let Some(rootfs) = rootfs {
            let found = vec![
                Op::ResolveRootfsPath { arch: request.arch.clone(), rootfs },
                Op::EnsureManagedRootfs { arch: request.arch.clone() },
            ];
            let loaded = append(found, Self::load_cargo_config(request));
            let configured = append(loaded, self.load_qemu_config(request, false));
            append(
                configured,
                vec![
                    Op::PatchRootfs,
                    Op::ApplySmp { smp: request.smp },
                    Op::RunQemu { build_info_path: request.build_info_path.clone() },
                ],
            )
        } else {
            self.run_qemu_request(request)
        };
        append(ensured, ops)
    }

    /// Plans the board command on its request.
    pub fn board_request(
        &self,
        request: &ResolvedStarryRequest,
        board_config: Option<String>,
        board_type: Option<String>,
        server: Option<String>,
        port: Option<u16>,
    ) -> (ops: Vec<Op>)
        ensures
            ops@ == board_ops(*request, board_config, board_type, server, port),
    {
        let mut ops = append(
            Self::load_cargo_config(request),
            self.load_board_config(&board_config),
        );
        ops.push(
            Op::RunBoard {
                build_info_path: request.build_info_path.clone(),
                board_type,
                server,
                port,
            },
        );
        ops
    }

    /// Plans what every run starts with.
    pub fn load_cargo_config(request: &ResolvedStarryRequest) -> (ops: Vec<Op>)
        ensures
            ops@ == cargo_ops(*request),
    {
        vec![
            Op::SetDebugMode { debug: request.debug },
            Op::LoadCargoConfig { request: request.duplicate() },
        ]
    }

    pub fn load_qemu_config(
        &self,
        request: &ResolvedStarryRequest,
        apply_default_args: bool,
    ) -> (ops: Vec<Op>)
        ensures
            ops@ == qemu_config_ops(*request, apply_default_args),
    {
        let mut ops = match &request.qemu_config {
            Some(path) => vec![Op::ReadQemuConfig { path: path.clone() }],
            None => vec![Op::EnsureQemuConfig],
        };
        if request.qemu_config.is_none() && apply_default_args {
            ops = append(ops, apply_default_qemu_args(request));
        }
        ops.push(Op::ApplySmp { smp: request.smp });
        ops
    }

    pub fn load_uboot_config(&self, request: &ResolvedStarryRequest) -> (ops: Vec<Op>)
        ensures
            ops@ == uboot_config_ops(*request),
    {
        match &request.uboot_config {
            Some(path) => vec![Op::ReadUbootConfig { path: path.clone() }],
            None => Vec::new(),
        }
    }

    pub fn load_board_config(&self, board_config_path: &Option<String>) -> (ops: Vec<Op>)
        ensures
            ops@ == board_config_ops(*board_config_path),
    {
        match board_config_path {
            Some(path) => vec![Op::ReadBoardConfig { path: path.clone() }],
            None => vec![Op::EnsureBoardConfig],
        }
    }

    /// Starts the run of a test case whose QEMU config has been read; `cargo`
    /// is the cargo config of the request.
    pub fn run_qemu_case(
        &self,
        request: &ResolvedStarryRequest,
        cargo: Handle,
        case: &StarryQemuCase,
        qemu: LoadedQemu,
    ) -> (run: Run)
        ensures
            run.wf(),
            run@ == start_of(
                case_ops(*request, *case, texts(qemu.config.args@)),
                case_known(cargo, qemu@),
            ),
            run.ops@ == case_ops(*request, *case, texts(qemu.config.args@)),
    {
        let mut case_request = request.duplicate();
        if case_request.smp.is_none() {
            case_request.smp = smp_from_qemu_arg(&qemu.config);
        }
        let reload = match (case_request.smp, request.smp) {
            (Some(own), Some(given)) => own != given,
            (None, None) => false,
            _ => true,
        };
        let loaded = if reload {
            vec![Op::LoadCargoConfig { request: case_request.duplicate() }]
        } else {
            Vec::new()
        };
        let run = vec![
            Op::EnsureRootfs {
                arch: case_request.arch.clone(),
                target: Some(case_request.target.clone()),
            },
            Op::PrepareCaseAssets {
                arch: case_request.arch.clone(),
                target: case_request.target.clone(),
                case: case.duplicate(),
            },
            Op::PatchRootfs,
            Op::AddCaseArgs,
            Op::ApplySmp { smp: case_request.smp },
            Op::RunQemu { build_info_path: case_request.build_info_path.clone() },
            Op::ValidateHostOutputs { case: case.duplicate() },
        ];
        let ops = append(loaded, run);
        let ghost known = case_known(cargo, qemu@);
        let values = Values { cargo: Some(cargo), qemu: Some(qemu), ..Values::nothing() };
        assert(ops@ =~= case_ops(*request, *case, known.qemu->0.args));
        proof {
            lemma_case_ops_ready(*request, *case, known);
        }
        Run::new(ops, values)
    }

    pub fn run_qemu_request(&self, request: &ResolvedStarryRequest) -> (ops: Vec<Op>)
        ensures
            ops@ == run_qemu_ops(*request),
    {
        let mut ops = append(
            Self::load_cargo_config(request),
            self.load_qemu_config(request, true),
        );
        ops.push(Op::RunQemu { build_info_path: request.build_info_path.clone() });
        ops
    }

    pub fn run_build_request(&self, request: &ResolvedStarryRequest) -> (ops: Vec<Op>)
        ensures
            ops@ == seq![Op::RunBuild { request: *request }],
    {
        vec![Op::RunBuild { request: request.duplicate() }]
    }

    pub fn run_uboot_request(&self, request: &ResolvedStarryRequest) -> (ops: Vec<Op>)
        ensures
            ops@ == run_uboot_ops(*request),
    {
        let mut ops = append(Self::load_cargo_config(request), self.load_uboot_config(request));
        ops.push(Op::RunUboot { build_info_path: request.build_info_path.clone() });
        ops
    }

    pub fn quick_start_qemu(&self, platform: QuickQemuPlatform, action: QuickQemuAction) -> (stage:
        Stage)
        ensures
            quick_qemu_stage(stage, self.app.quick_start, platform, action),
    {
        let paths = self.app.quick_start.qemu(platform);
        let args = Self::quick_start_build_args(paths.arch.as_str(), paths.build_config.clone());
        match action {
            QuickQemuAction::Build => Stage {
                before: vec![
                    Op::LookupTarget { arch: paths.arch.clone() },
                    Op::RefreshQemuConfigs { platform },
                    Op::EnsureRootfs { arch: paths.arch.clone(), target: None },
                ],
                prepare: Some(
                    PrepareCall {
                        args,
                        qemu_config: None,
                        uboot_config: UbootSource::Absent,
                        persistence: SnapshotPersistence::Store,
                        after: AfterPrepare::Build,
                    },
                ),
            },
            QuickQemuAction::Run => Stage {
                before: vec![Op::EnsureQemuConfigs { platform }],
                prepare: Some(
                    PrepareCall {
                        args,
                        qemu_config: Some(paths.run_config.clone()),
                        uboot_config: UbootSource::Absent,
                        persistence: SnapshotPersistence::Store,
                        after: AfterPrepare::RunQemu,
                    },
                ),
            },
        }
    }

    pub fn quick_start_orangepi_build(&self, args: QuickOrangeConfigArgs) -> (stage: Stage)
        ensures
            orangepi_build_stage(stage, self.app.quick_start, args),
    {
        let config = self.app.quick_start.orangepi_build_config.clone();
        Stage {
            before: vec![Op::RefreshOrangepiConfigs, Op::PrepareOrangepiUboot { args }],
            prepare: Some(
                PrepareCall {
                    args: Self::quick_start_build_args("aarch64", config),
                    qemu_config: None,
                    uboot_config: UbootSource::Absent,
                    persistence: SnapshotPersistence::Store,
                    after: AfterPrepare::Build,
                },
            ),
        }
    }

    pub fn quick_start_orangepi_run(&self, args: QuickOrangeRunArgs) -> (stage: Stage)
        ensures
            orangepi_run_stage(stage, self.app.quick_start, args),
    {
        let config = self.app.quick_start.orangepi_build_config.clone();
        Stage {
            before: vec![Op::EnsureOrangepiConfigs, Op::PrepareOrangepiUboot { args }],
            prepare: Some(
                PrepareCall {
                    args: Self::quick_start_build_args("aarch64", config),
                    qemu_config: None,
                    uboot_config: UbootSource::Orangepi,
                    persistence: SnapshotPersistence::Store,
                    after: AfterPrepare::Uboot,
                },
            ),
        }
    }
}

} // verus!
