//! What becomes of the arguments of a command.

use vstd::prelude::*;

use crate::cli::{cli_args, ArgsBuild, ArgsTest, Command, TestCommand};
use crate::quick_start::{
    ArgsQuickStart, QuickOrangeAction, QuickQemuAction, QuickQemuPaths, QuickQemuPlatform,
    QuickStartCommand,
};
use crate::request::{AfterPrepare, Op, PrepareCall, SnapshotPersistence, UbootSource};
use crate::run::{nothing_known, start_of, Action, Outcome, RunState};
use crate::starry::{command_task, AppContext, Task};

verus! {

/// The build arguments of a command, if it has some.
pub open spec fn build_args_of(command: Command) -> Option<ArgsBuild> {
    match command {
        Command::Build(args) => Some(args),
        Command::Qemu(args) => Some(args.build),
        Command::Uboot(args) => Some(args.build),
        Command::Board(args) => Some(args.build),
        _ => None,
    }
}

/// How the request of a command is prepared.
pub open spec fn prepared_by(task: Task) -> PrepareCall {
    task->Stage_0.prepare->0
}

/// Each build argument reaches the request unchanged, for every command that
/// builds; nothing is done before, and the snapshot is kept.
pub proof fn law_build_arguments_reach_request(command: Command, app: AppContext, task: Task)
    requires
        command_task(command, app, task),
        build_args_of(command) is Some,
    ensures
        task is Stage,
        task->Stage_0.before@.len() == 0,
        task->Stage_0.prepare is Some,
        prepared_by(task).args.config == build_args_of(command)->0.config,
        prepared_by(task).args.arch == build_args_of(command)->0.arch,
        prepared_by(task).args.target == build_args_of(command)->0.target,
        prepared_by(task).args.smp == build_args_of(command)->0.smp,
        prepared_by(task).args.debug == build_args_of(command)->0.debug,
        prepared_by(task).persistence == SnapshotPersistence::Store,
{
}

/// So does each of them where the arguments are converted by themselves.
pub proof fn law_conversion_keeps_arguments(args: ArgsBuild)
    ensures
        cli_args(args).config == args.config,
        cli_args(args).arch == args.arch,
        cli_args(args).target == args.target,
        cli_args(args).smp == args.smp,
        cli_args(args).debug == args.debug,
{
}

/// The other arguments of these commands reach the request, or the work
/// behind it, unchanged too.
pub proof fn law_other_arguments_kept(command: Command, app: AppContext, task: Task)
    requires
        command_task(command, app, task),
    ensures
        match command {
            Command::Build(_) => {
                &&& prepared_by(task).qemu_config is None
                &&& prepared_by(task).uboot_config is Absent
                &&& prepared_by(task).after is Build
            },
            Command::Qemu(args) => {
                &&& prepared_by(task).qemu_config == args.qemu_config
                &&& prepared_by(task).uboot_config is Absent
                &&& prepared_by(task).after is Qemu
                &&& prepared_by(task).after->rootfs == args.rootfs
            },
            Command::Uboot(args) => {
                &&& prepared_by(task).qemu_config is None
                &&& args.uboot_config is None ==> prepared_by(task).uboot_config is Absent
                &&& args.uboot_config matches Some(path) ==> prepared_by(task).uboot_config
                    == UbootSource::Path(path)
                &&& prepared_by(task).after is Uboot
            },
            Command::Board(args) => {
                &&& prepared_by(task).qemu_config is None
                &&& prepared_by(task).uboot_config is Absent
                &&& prepared_by(task).after is Board
                &&& prepared_by(task).after->board_config == args.board_config
                &&& prepared_by(task).after->board_type == args.board_type
                &&& prepared_by(task).after->server == args.server
                &&& prepared_by(task).after->port == args.port
            },
            _ => true,
        },
{
}

/// Commands without a request do the one thing that they are for, on what
/// they were given.
pub proof fn law_commands_without_request(
    command: Command,
    app: AppContext,
    task: Task,
    action: Action<'_>,
)
    requires
        command_task(command, app, task),
        task is Stage,
        start_of(task->Stage_0.before@, nothing_known()).asks(action),
    ensures
        match command {
            Command::Defconfig(args) => {
                &&& task->Stage_0.prepare is None
                &&& task->Stage_0.before@.len() == 1
                &&& action == (Action::WriteDefconfig { board: &args.board })
            },
            Command::Config(_) => {
                &&& task->Stage_0.prepare is None
                &&& task->Stage_0.before@.len() == 1
                &&& action == Action::ListBoards
            },
            Command::Rootfs(args) => {
                &&& task->Stage_0.prepare is None
                &&& task->Stage_0.before@.len() == 3
                &&& task->Stage_0.before@[1] == (Op::EnsureRootfs {
                    arch: *action->LookupTarget_arch,
                    target: None,
                })
                &&& task->Stage_0.before@[2] is ShowRootfs
                &&& args.arch matches Some(arch) ==> action == (Action::LookupTarget {
                    arch: &arch,
                })
                &&& args.arch is None ==> action == (Action::LookupTarget {
                    arch: &app.default_arch,
                })
            },
            Command::QuickStart(args) => args.command is List ==> {
                &&& task->Stage_0.prepare is None
                &&& task->Stage_0.before@.len() == 1
                &&& action == Action::ListPlatforms
            },
            _ => true,
        },
{
    reveal_with_fuel(RunState::settled, 2);
}

/// The platform that a quick-start command names: its paths and its action.
pub open spec fn quick_platform(app: AppContext, args: ArgsQuickStart) -> Option<
    (QuickQemuPaths, QuickQemuAction),
> {
    match args.command {
        QuickStartCommand::QemuAarch64(args) => Some((app.quick_start.aarch64, args.action)),
        QuickStartCommand::QemuRiscv64(args) => Some((app.quick_start.riscv64, args.action)),
        QuickStartCommand::QemuLoongarch64(args) => Some(
            (app.quick_start.loongarch64, args.action),
        ),
        QuickStartCommand::QemuX8664(args) => Some((app.quick_start.x86_64, args.action)),
        _ => None,
    }
}

/// A quick-start command for QEMU takes the architecture and the configs of
/// its own platform: the build config in any case, the run config to run.
/// Nothing else is set.
pub proof fn law_quick_start_takes_its_platform(
    args: ArgsQuickStart,
    app: AppContext,
    task: Task,
    paths: QuickQemuPaths,
    action: QuickQemuAction,
)
    requires
        command_task(Command::QuickStart(args), app, task),
        quick_platform(app, args) == Some((paths, action)),
    ensures
        task is Stage,
        task->Stage_0.prepare is Some,
        prepared_by(task).args.config == Some(paths.build_config),
        prepared_by(task).args.arch is Some,
        prepared_by(task).args.arch->0@ == paths.arch@,
        prepared_by(task).args.target is None,
        prepared_by(task).args.smp is None,
        !prepared_by(task).args.debug,
        prepared_by(task).uboot_config is Absent,
        prepared_by(task).persistence == SnapshotPersistence::Store,
        match action {
            QuickQemuAction::Build => {
                &&& prepared_by(task).qemu_config is None
                &&& prepared_by(task).after is Build
            },
            QuickQemuAction::Run => {
                &&& prepared_by(task).qemu_config == Some(paths.run_config)
                &&& prepared_by(task).after is RunQemu
            },
        },
{
}

/// A quick-start build looks up the target of its architecture, refreshes the
/// configs of its platform and ensures the rootfs before anything is prepared;
/// a run only makes sure that the configs are there.
pub proof fn law_quick_start_refreshes_to_build(
    args: ArgsQuickStart,
    app: AppContext,
    task: Task,
)
    requires
        command_task(Command::QuickStart(args), app, task),
    ensures
        match args.command {
            QuickStartCommand::QemuAarch64(own) => refreshed(
                task->Stage_0.before@,
                own.action,
                QuickQemuPlatform::Aarch64,
                app.quick_start.aarch64.arch,
            ),
            QuickStartCommand::QemuRiscv64(own) => refreshed(
                task->Stage_0.before@,
                own.action,
                QuickQemuPlatform::Riscv64,
                app.quick_start.riscv64.arch,
            ),
            QuickStartCommand::QemuLoongarch64(own) => refreshed(
                task->Stage_0.before@,
                own.action,
                QuickQemuPlatform::Loongarch64,
                app.quick_start.loongarch64.arch,
            ),
            QuickStartCommand::QemuX8664(own) => refreshed(
                task->Stage_0.before@,
                own.action,
                QuickQemuPlatform::X8664,
                app.quick_start.x86_64.arch,
            ),
            _ => true,
        },
{
}

/// Whether the configs of a platform are refreshed, to build, or ensured, to
/// run.
pub open spec fn refreshed(
    before: Seq<Op>,
    action: QuickQemuAction,
    platform: QuickQemuPlatform,
    arch: String,
) -> bool {
    if action == QuickQemuAction::Build {
        &&& before.len() == 3
        &&& before[0] == (Op::LookupTarget { arch })
        &&& before[1] == (Op::RefreshQemuConfigs { platform })
        &&& before[2] == (Op::EnsureRootfs { arch, target: None })
    } else {
        &&& before.len() == 1
        &&& before[0] == (Op::EnsureQemuConfigs { platform })
    }
}

/// A quick-start command for an Orange Pi builds for `aarch64` with the build
/// config of the board, and hands its serial arguments to the U-Boot config;
/// only a run takes that config.
pub proof fn law_quick_start_orange_pi(args: ArgsQuickStart, app: AppContext, task: Task)
    requires
        command_task(Command::QuickStart(args), app, task),
        args.command is Orangepi5Plus,
    ensures
        task is Stage,
        task->Stage_0.prepare is Some,
        prepared_by(task).args.config == Some(app.quick_start.orangepi_build_config),
        prepared_by(task).args.arch is Some,
        prepared_by(task).args.arch->0@ == "aarch64"@,
        prepared_by(task).args.target is None,
        prepared_by(task).args.smp is None,
        !prepared_by(task).args.debug,
        prepared_by(task).qemu_config is None,
        prepared_by(task).persistence == SnapshotPersistence::Store,
        task->Stage_0.before@.len() == 2,
        match args.command->Orangepi5Plus_0.action {
            QuickOrangeAction::Build(serial) => {
                &&& task->Stage_0.before@[0] is RefreshOrangepiConfigs
                &&& task->Stage_0.before@[1] == (Op::PrepareOrangepiUboot { args: serial })
                &&& prepared_by(task).uboot_config is Absent
                &&& prepared_by(task).after is Build
            },
            QuickOrangeAction::Run(serial) => {
                &&& task->Stage_0.before@[0] is EnsureOrangepiConfigs
                &&& task->Stage_0.before@[1] == (Op::PrepareOrangepiUboot { args: serial })
                &&& prepared_by(task).uboot_config is Orangepi
                &&& prepared_by(task).after is Uboot
            },
        },
{
}

/// The test command hands its arguments to the suite that it names.
pub proof fn law_test_arguments_kept(args: ArgsTest, app: AppContext, task: Task)
    requires
        command_task(Command::Test(args), app, task),
    ensures
        match args.command {
            TestCommand::Qemu(own) => {
                &&& task is TestQemu
                &&& task->TestQemu_0.arch == own.arch
                &&& task->TestQemu_0.target == own.target
                &&& task->TestQemu_0.test_case == own.test_case
                &&& task->TestQemu_0.stress == own.stress
            },
            TestCommand::Uboot(_) => task is TestUboot,
            TestCommand::Board(own) => {
                &&& task is TestBoard
                &&& task->TestBoard_0.test_group == own.test_group
                &&& task->TestBoard_0.board_test_config == own.board_test_config
                &&& task->TestBoard_0.board_type == own.board_type
                &&& task->TestBoard_0.server == own.server
                &&& task->TestBoard_0.port == own.port
            },
        },
{
}

} // verus!
