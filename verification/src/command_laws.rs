//! What holds of the commands as a whole.

use vstd::prelude::*;

use crate::case_assets::StarryCaseAssets;
use crate::cli::Command;
use crate::quick_start::{QuickOrangeRunArgs, QuickQemuPlatform};
use crate::request::{AfterPrepare, Op, ResolvedStarryRequest, SnapshotPersistence, UbootSource};
use crate::rootfs::{smp_in, smp_set};
use crate::run::{
    nothing_known, start_of, uboot_config_of, Action, Handle, LoadedQemu, Outcome, QemuState,
    RunState,
};
use crate::starry::{
    after_ops, board_ops, case_known, case_ops, case_request, command_task, orangepi_run_ops,
    qemu_ops, quick_build_ops, rootfs_ops, run_qemu_ops, run_uboot_ops, AppContext, Task,
};
use crate::test_run::{TestBoardRun, TestQemuRun};
use crate::test_suit::StarryQemuCase;
use crate::text::texts;

verus! {

/// Whether this work builds or runs the system.
pub open spec fn is_run(op: Op) -> bool {
    op is RunBuild || op is RunQemu || op is RunUboot || op is RunBoard
}

/// Whether this work brings the default rootfs or makes QEMU boot a rootfs.
pub open spec fn is_rootfs_work(op: Op) -> bool {
    op is EnsureRootfs || op is PatchRootfs
}

/// A rootfs that is given is used without bringing the default one.
pub proof fn law_given_rootfs_skips_download(request: ResolvedStarryRequest, rootfs: String)
    ensures
        forall|i: int|
            0 <= i < qemu_ops(request, Some(rootfs)).len() ==> !((#[trigger] qemu_ops(
                request,
                Some(rootfs),
            )[i]) is EnsureRootfs),
{
}

/// A QEMU config that is named is used with its own rootfs, unless one is
/// given.
pub proof fn law_named_config_keeps_rootfs(request: ResolvedStarryRequest)
    requires
        request.qemu_config is Some,
    ensures
        forall|i: int|
            0 <= i < qemu_ops(request, None).len() ==> !is_rootfs_work(
                #[trigger] qemu_ops(request, None)[i],
            ),
{
}

/// The default QEMU config boots the default rootfs of the request, which is
/// brought before.
pub proof fn law_default_config_boots_default_rootfs(request: ResolvedStarryRequest) -> (at: int)
    requires
        request.qemu_config is None,
    ensures
        0 <= at < run_qemu_ops(request).len() - 2,
        run_qemu_ops(request)[at] == (Op::EnsureRootfs {
            arch: request.arch,
            target: Some(request.target),
        }),
        run_qemu_ops(request)[at + 1] is PatchRootfs,
        run_qemu_ops(request).last() is RunQemu,
{
    3
}

/// Nothing changes the QEMU config between the processor count of the request
/// being set and the run.
pub proof fn law_processor_count_set_last(request: ResolvedStarryRequest, rootfs: Option<String>)
    ensures
        ({
            let ops = qemu_ops(request, rootfs);
            &&& ops.len() >= 2
            &&& ops[ops.len() - 2] == (Op::ApplySmp { smp: request.smp })
            &&& ops[ops.len() - 1] == (Op::RunQemu { build_info_path: request.build_info_path })
        }),
{
}

/// A prepared request is built or run once, and nothing comes after that.
pub proof fn law_one_run_at_the_end(after: AfterPrepare, request: ResolvedStarryRequest)
    ensures
        after_ops(after, request).len() > 0,
        forall|i: int|
            0 <= i < after_ops(after, request).len() ==> (is_run(
                #[trigger] after_ops(after, request)[i],
            ) <==> i == after_ops(after, request).len() - 1),
{
}

/// Before a prepared request is run, the debug mode is set and the cargo
/// config is loaded.
pub proof fn law_cargo_loaded_before_run(
    after: AfterPrepare,
    request: ResolvedStarryRequest,
) -> (at: int)
    requires
        !(after is Build),
    ensures
        0 <= at < after_ops(after, request).len() - 2,
        after_ops(after, request)[at] == (Op::SetDebugMode { debug: request.debug }),
        after_ops(after, request)[at + 1] is LoadCargoConfig,
{
    match after {
        AfterPrepare::Qemu { rootfs: Some(_) } => 3,
        AfterPrepare::Qemu { rootfs: None } => 1,
        _ => 0,
    }
}

/// A processor count in the request wins over the one in the QEMU config of a
/// case; everything else in the request stays.
pub proof fn law_given_processor_count_wins(
    request: ResolvedStarryRequest,
    qemu_args: Seq<Seq<char>>,
)
    ensures
        request.smp is Some ==> case_request(request, qemu_args) == request,
        request.smp is None ==> case_request(request, qemu_args).smp == smp_in(qemu_args),
        case_request(request, qemu_args).target == request.target,
        case_request(request, qemu_args).build_info_override == request.build_info_override,
{
}

/// The cargo config is loaded anew for a case exactly when its QEMU config
/// sets a processor count that the request leaves open.
pub proof fn law_case_reloads_for_new_count(
    request: ResolvedStarryRequest,
    case: StarryQemuCase,
    qemu_args: Seq<Seq<char>>,
)
    ensures
        (exists|i: int|
            0 <= i < case_ops(request, case, qemu_args).len() && (#[trigger] case_ops(
                request,
                case,
                qemu_args,
            )[i]) is LoadCargoConfig) <==> request.smp is None && smp_in(qemu_args) is Some,
{
    let ops = case_ops(request, case, qemu_args);
    if request.smp is None && smp_in(qemu_args) is Some {
        assert(ops[0] is LoadCargoConfig);
    }
}

/// A test case is checked on the host after its run, and only then.
pub proof fn law_case_checked_after_run(
    request: ResolvedStarryRequest,
    case: StarryQemuCase,
    qemu_args: Seq<Seq<char>>,
)
    ensures
        ({
            let ops = case_ops(request, case, qemu_args);
            &&& ops.len() >= 7
            &&& ops[ops.len() - 3] == (Op::ApplySmp { smp: case_request(request, qemu_args).smp })
            &&& ops[ops.len() - 2] == (Op::RunQemu { build_info_path: request.build_info_path })
            &&& ops[ops.len() - 1] == (Op::ValidateHostOutputs { case })
            &&& forall|i: int| 0 <= i < ops.len() - 2 ==> !is_run(#[trigger] ops[i])
        }),
{
}

/// Commands store the snapshot of the request that they prepare.
pub proof fn law_commands_store_snapshots(command: Command, app: AppContext, task: Task)
    requires
        command_task(command, app, task),
        task is Stage,
        task->Stage_0.prepare is Some,
    ensures
        task->Stage_0.prepare->0.persistence == SnapshotPersistence::Store,
{
}

/// Test runs do not store the snapshots of the requests that they prepare.
pub proof fn law_tests_discard_snapshots(qemu: TestQemuRun, board: TestBoardRun)
    ensures
        qemu.has_next() ==> qemu.next_step() is Prepare && qemu.next_step()->inputs.persistence
            == SnapshotPersistence::Discard,
        board.prepare_step() is Prepare && board.prepare_step()->inputs.persistence
            == SnapshotPersistence::Discard,
{
}

/// The rootfs command ensures the rootfs for the target that it looked up,
/// and shows the path of that rootfs.
pub proof fn law_rootfs_command_shows_its_rootfs(arch: String, target: String, path: String)
    ensures
        ({
            let looked_up = start_of(rootfs_ops(arch), nothing_known()).stepped(
                Ok(Outcome::Target(target)),
            );
            let ensured = looked_up.stepped(Ok(Outcome::Path(path)));
            &&& looked_up.active()
            &&& forall|action: Action<'_>| #[trigger]
                looked_up.asks(action) ==> action == (Action::EnsureRootfs {
                    arch: &arch,
                    target: &target,
                })
            &&& ensured.active()
            &&& forall|action: Action<'_>| #[trigger]
                ensured.asks(action) ==> action == (Action::ShowRootfs { disk_img: &path })
        }),
{
    reveal_with_fuel(RunState::settled, 2);
}

/// A quick-start build ensures the rootfs for the target that it looked up.
pub proof fn law_quick_build_ensures_looked_up_target(
    arch: String,
    platform: QuickQemuPlatform,
    target: String,
)
    ensures
        ({
            let refreshed = start_of(quick_build_ops(arch, platform), nothing_known()).stepped(
                Ok(Outcome::Target(target)),
            ).stepped(Ok(Outcome::Done));
            &&& refreshed.active()
            &&& forall|action: Action<'_>| #[trigger]
                refreshed.asks(action) ==> action == (Action::EnsureRootfs {
                    arch: &arch,
                    target: &target,
                })
        }),
{
    reveal_with_fuel(RunState::settled, 2);
}

/// A quick-start run on an Orange Pi is prepared with the U-Boot config that
/// was written for it.
pub proof fn law_orangepi_run_takes_written_config(args: QuickOrangeRunArgs, path: String)
    ensures
        ({
            let written = start_of(orangepi_run_ops(args), nothing_known()).stepped(
                Ok(Outcome::Done),
            ).stepped(Ok(Outcome::Path(path)));
            &&& !written.active() && written.failure is None
            &&& uboot_config_of(UbootSource::Orangepi, written.known) == Some(path)
        }),
{
    reveal_with_fuel(RunState::settled, 2);
}

/// Without a named QEMU config, QEMU boots the default rootfs: the config that
/// was taken is patched with the path that ensuring the rootfs gave, and the
/// patched config, with the processor count set, is what runs.
pub proof fn law_default_rootfs_is_booted(
    request: ResolvedStarryRequest,
    cargo: Handle,
    qemu: LoadedQemu,
    path: String,
    patched: LoadedQemu,
)
    requires
        request.qemu_config is None,
    ensures
        ({
            let ensured = start_of(run_qemu_ops(request), nothing_known()).stepped(
                Ok(Outcome::Done),
            ).stepped(Ok(Outcome::Cargo(cargo))).stepped(Ok(Outcome::Qemu(qemu))).stepped(
                Ok(Outcome::Path(path)),
            );
            let ready = ensured.stepped(Ok(Outcome::Qemu(patched)));
            &&& ensured.active()
            &&& forall|action: Action<'_>| #[trigger]
                ensured.asks(action) ==> action is PatchRootfs && action->PatchRootfs_qemu@
                    == qemu@ && *action->PatchRootfs_disk_img == path
            &&& ready.active()
            &&& forall|action: Action<'_>| #[trigger]
                ready.asks(action) ==> runs_qemu(
                    action,
                    cargo,
                    request.build_info_path,
                    patched.handle,
                    smp_set(patched@.args, request.smp),
                )
        }),
{
    reveal_with_fuel(RunState::settled, 3);
}

/// Whether this runs QEMU on a cargo config with these arguments.
pub open spec fn runs_qemu(
    action: Action<'_>,
    cargo: Handle,
    build_info_path: String,
    handle: Handle,
    args: Seq<Seq<char>>,
) -> bool {
    &&& action is RunQemu
    &&& action->RunQemu_cargo == cargo
    &&& *action->RunQemu_build_info_path == build_info_path
    &&& action->RunQemu_qemu@ == (QemuState { handle, args })
}

/// QEMU boots a rootfs that is given: the path to which it was resolved is
/// extracted if need be and patched into the config that runs.
pub proof fn law_given_rootfs_is_booted(
    request: ResolvedStarryRequest,
    rootfs: String,
    path: String,
    cargo: Handle,
    qemu: LoadedQemu,
    patched: LoadedQemu,
)
    ensures
        ({
            let resolved = start_of(qemu_ops(request, Some(rootfs)), nothing_known()).stepped(
                Ok(Outcome::Done),
            ).stepped(Ok(Outcome::Path(path)));
            let loaded = resolved.stepped(Ok(Outcome::Done)).stepped(Ok(Outcome::Done)).stepped(
                Ok(Outcome::Cargo(cargo)),
            ).stepped(Ok(Outcome::Qemu(qemu)));
            let ready = loaded.stepped(Ok(Outcome::Qemu(patched)));
            &&& resolved.active()
            &&& forall|action: Action<'_>| #[trigger]
                resolved.asks(action) ==> action == (Action::EnsureManagedRootfs {
                    arch: &request.arch,
                    disk_img: &path,
                })
            &&& loaded.active()
            &&& forall|action: Action<'_>| #[trigger]
                loaded.asks(action) ==> action is PatchRootfs && action->PatchRootfs_qemu@ == (
                QemuState { handle: qemu.handle, args: smp_set(qemu@.args, request.smp) })
                    && *action->PatchRootfs_disk_img == path
            &&& ready.active()
            &&& forall|action: Action<'_>| #[trigger]
                ready.asks(action) ==> runs_qemu(
                    action,
                    cargo,
                    request.build_info_path,
                    patched.handle,
                    smp_set(patched@.args, request.smp),
                )
        }),
{
    reveal_with_fuel(RunState::settled, 3);
}

/// A test case runs on its own assets: they are prepared from the rootfs that
/// was ensured, QEMU boots the rootfs among them and gets their arguments
/// behind those of the patched config, with the processor count set last, and
/// the outputs of the run are checked against them.
pub proof fn law_case_runs_on_its_assets(
    request: ResolvedStarryRequest,
    case: StarryQemuCase,
    cargo: Handle,
    reloaded: Handle,
    qemu: LoadedQemu,
    path: String,
    assets: StarryCaseAssets,
    patched: LoadedQemu,
)
    ensures
        ({
            let own = case_request(request, qemu@.args);
            let started = start_of(
                case_ops(request, case, qemu@.args),
                case_known(cargo, qemu@),
            );
            let loaded = if own.smp != request.smp {
                started.stepped(Ok(Outcome::Cargo(reloaded)))
            } else {
                started
            };
            let ensured = loaded.stepped(Ok(Outcome::Path(path)));
            let prepared = ensured.stepped(Ok(Outcome::Assets(assets)));
            let ready = prepared.stepped(Ok(Outcome::Qemu(patched)));
            let ran = ready.stepped(Ok(Outcome::Done));
            &&& started.active()
            &&& own.smp != request.smp ==> forall|action: Action<'_>| #[trigger]
                started.asks(action) ==> action == (Action::LoadCargoConfig { request: &own })
            &&& loaded.active()
            &&& forall|action: Action<'_>| #[trigger]
                loaded.asks(action) ==> action == (Action::EnsureRootfs {
                    arch: &request.arch,
                    target: &request.target,
                })
            &&& ensured.active()
            &&& forall|action: Action<'_>| #[trigger]
                ensured.asks(action) ==> action == (Action::PrepareCaseAssets {
                    arch: &request.arch,
                    target: &request.target,
                    case: &case,
                    rootfs: &path,
                })
            &&& prepared.active()
            &&& forall|action: Action<'_>| #[trigger]
                prepared.asks(action) ==> action is PatchRootfs && action->PatchRootfs_qemu@
                    == qemu@ && *action->PatchRootfs_disk_img == assets.rootfs_path
            &&& ready.active()
            &&& forall|action: Action<'_>| #[trigger]
                ready.asks(action) ==> runs_qemu(
                    action,
                    if own.smp != request.smp {
                        reloaded
                    } else {
                        cargo
                    },
                    request.build_info_path,
                    patched.handle,
                    smp_set(patched@.args + texts(assets.extra_qemu_args@), own.smp),
                )
            &&& ran.active()
            &&& forall|action: Action<'_>| #[trigger]
                ran.asks(action) ==> action == (Action::ValidateHostOutputs {
                    case: &case,
                    assets: &assets,
                })
        }),
{
    reveal_with_fuel(RunState::settled, 4);
}

/// U-Boot runs with the config that was read for the request, or with none.
pub proof fn law_uboot_runs_with_its_config(
    request: ResolvedStarryRequest,
    cargo: Handle,
    uboot: Handle,
)
    ensures
        ({
            let loaded = start_of(run_uboot_ops(request), nothing_known()).stepped(
                Ok(Outcome::Done),
            ).stepped(Ok(Outcome::Cargo(cargo)));
            let ready = if request.uboot_config is Some {
                loaded.stepped(Ok(Outcome::Uboot(uboot)))
            } else {
                loaded
            };
            &&& ready.active()
            &&& forall|action: Action<'_>| #[trigger]
                ready.asks(action) ==> action == (Action::RunUboot {
                    cargo,
                    build_info_path: &request.build_info_path,
                    uboot: if request.uboot_config is Some {
                        Some(uboot)
                    } else {
                        None
                    },
                })
        }),
{
    reveal_with_fuel(RunState::settled, 2);
}

/// A board runs with the config that was read or taken for it.
pub proof fn law_board_runs_with_its_config(
    request: ResolvedStarryRequest,
    board_config: Option<String>,
    board_type: Option<String>,
    server: Option<String>,
    port: Option<u16>,
    cargo: Handle,
    board: Handle,
)
    ensures
        ({
            let ready = start_of(
                board_ops(request, board_config, board_type, server, port),
                nothing_known(),
            ).stepped(Ok(Outcome::Done)).stepped(Ok(Outcome::Cargo(cargo))).stepped(
                Ok(Outcome::Board(board)),
            );
            &&& ready.active()
            &&& forall|action: Action<'_>| #[trigger]
                ready.asks(action) ==> action == (Action::RunBoard {
                    cargo,
                    build_info_path: &request.build_info_path,
                    board,
                    board_type: &board_type,
                    server: &server,
                    port,
                })
        }),
{
    reveal_with_fuel(RunState::settled, 2);
}

/// The build command builds its request, and does no more.
pub proof fn law_build_builds_its_request(request: ResolvedStarryRequest)
    ensures
        ({
            let started = start_of(after_ops(AfterPrepare::Build, request), nothing_known());
            &&& started.active()
            &&& forall|action: Action<'_>| #[trigger]
                started.asks(action) ==> action == (Action::RunBuild { request: &request })
            &&& !started.stepped(Ok(Outcome::Done)).active()
        }),
{
    reveal_with_fuel(RunState::settled, 2);
}

/// Every run of a request sets the debug mode of the request and then loads
/// its cargo config.
pub proof fn law_runs_start_with_debug_mode_and_cargo(
    after: AfterPrepare,
    request: ResolvedStarryRequest,
)
    requires
        after is RunQemu || after is Uboot || after is Board,
    ensures
        ({
            let started = start_of(after_ops(after, request), nothing_known());
            let debugging = started.stepped(Ok(Outcome::Done));
            &&& started.active()
            &&& forall|action: Action<'_>| #[trigger]
                started.asks(action) ==> action == (Action::SetDebugMode { debug: request.debug })
            &&& debugging.active()
            &&& forall|action: Action<'_>| #[trigger]
                debugging.asks(action) ==> action == (Action::LoadCargoConfig {
                    request: &request,
                })
        }),
{
    reveal_with_fuel(RunState::settled, 2);
}

/// A QEMU config that is named is read from its path, and what runs is that
/// config with the processor count of the request and nothing else changed.
pub proof fn law_named_config_is_run(
    request: ResolvedStarryRequest,
    path: String,
    cargo: Handle,
    qemu: LoadedQemu,
)
    requires
        request.qemu_config == Some(path),
    ensures
        ({
            let loaded = start_of(run_qemu_ops(request), nothing_known()).stepped(
                Ok(Outcome::Done),
            ).stepped(Ok(Outcome::Cargo(cargo)));
            let ready = loaded.stepped(Ok(Outcome::Qemu(qemu)));
            &&& loaded.active()
            &&& forall|action: Action<'_>| #[trigger]
                loaded.asks(action) ==> action == (Action::ReadQemuConfig { cargo, path: &path })
            &&& ready.active()
            &&& forall|action: Action<'_>| #[trigger]
                ready.asks(action) ==> runs_qemu(
                    action,
                    cargo,
                    request.build_info_path,
                    qemu.handle,
                    smp_set(qemu@.args, request.smp),
                )
            &&& !ready.stepped(Ok(Outcome::Done)).active()
        }),
{
    reveal_with_fuel(RunState::settled, 3);
}

/// Without a named config, the default config is taken and the rootfs of the
/// architecture and target of the request is ensured.
pub proof fn law_default_config_is_taken(
    request: ResolvedStarryRequest,
    cargo: Handle,
    qemu: LoadedQemu,
)
    requires
        request.qemu_config is None,
    ensures
        ({
            let loaded = start_of(run_qemu_ops(request), nothing_known()).stepped(
                Ok(Outcome::Done),
            ).stepped(Ok(Outcome::Cargo(cargo)));
            let taken = loaded.stepped(Ok(Outcome::Qemu(qemu)));
            &&& loaded.active()
            &&& forall|action: Action<'_>| #[trigger]
                loaded.asks(action) ==> action == (Action::EnsureQemuConfig { cargo })
            &&& taken.active()
            &&& forall|action: Action<'_>| #[trigger]
                taken.asks(action) ==> action == (Action::EnsureRootfs {
                    arch: &request.arch,
                    target: &request.target,
                })
        }),
{
    reveal_with_fuel(RunState::settled, 2);
}

/// The QEMU command first makes sure that its build config is there. Without
/// a given rootfs the request is then run as any other; with one, the rootfs
/// is resolved, and the config that was named is read, or else the default
/// config taken.
pub proof fn law_qemu_command_goes_its_way(
    request: ResolvedStarryRequest,
    rootfs: String,
    path: String,
    cargo: Handle,
)
    ensures
        ({
            let plain = start_of(qemu_ops(request, None), nothing_known());
            let given = start_of(qemu_ops(request, Some(rootfs)), nothing_known());
            let ensured = given.stepped(Ok(Outcome::Done));
            let extracted = ensured.stepped(Ok(Outcome::Path(path))).stepped(Ok(Outcome::Done));
            let debugging = extracted.stepped(Ok(Outcome::Done));
            let loaded = debugging.stepped(Ok(Outcome::Cargo(cargo)));
            &&& plain.active() && given.active()
            &&& forall|action: Action<'_>| #[trigger]
                plain.asks(action) ==> action == (Action::EnsureDefaultBuildConfig {
                    target: &request.target,
                    build_info_path: &request.build_info_path,
                })
            &&& qemu_ops(request, None).drop_first() == after_ops(AfterPrepare::RunQemu, request)
            &&& forall|action: Action<'_>| #[trigger]
                given.asks(action) ==> action == (Action::EnsureDefaultBuildConfig {
                    target: &request.target,
                    build_info_path: &request.build_info_path,
                })
            &&& ensured.active()
            &&& forall|action: Action<'_>| #[trigger]
                ensured.asks(action) ==> action == (Action::ResolveRootfsPath {
                    arch: &request.arch,
                    rootfs: &rootfs,
                })
            &&& extracted.active()
            &&& forall|action: Action<'_>| #[trigger]
                extracted.asks(action) ==> action == (Action::SetDebugMode {
                    debug: request.debug,
                })
            &&& debugging.active()
            &&& forall|action: Action<'_>| #[trigger]
                debugging.asks(action) ==> action == (Action::LoadCargoConfig {
                    request: &request,
                })
            &&& loaded.active()
            &&& forall|action: Action<'_>| #[trigger]
                loaded.asks(action) ==> match request.qemu_config {
                    Some(config) => action == (Action::ReadQemuConfig { cargo, path: &config }),
                    None => action == (Action::EnsureQemuConfig { cargo }),
                }
        }),
{
    reveal_with_fuel(RunState::settled, 2);
    assert(qemu_ops(request, None).drop_first() =~= run_qemu_ops(request));
}

/// The configs of U-Boot and of a board are read from the paths that were
/// named; a board without one takes that of the workspace.
pub proof fn law_configs_are_read_from_their_paths(
    request: ResolvedStarryRequest,
    board_config: Option<String>,
    board_type: Option<String>,
    server: Option<String>,
    port: Option<u16>,
    cargo: Handle,
)
    ensures
        ({
            let uboot = start_of(run_uboot_ops(request), nothing_known()).stepped(
                Ok(Outcome::Done),
            ).stepped(Ok(Outcome::Cargo(cargo)));
            let board = start_of(
                board_ops(request, board_config, board_type, server, port),
                nothing_known(),
            ).stepped(Ok(Outcome::Done)).stepped(Ok(Outcome::Cargo(cargo)));
            &&& uboot.active() && board.active()
            &&& forall|action: Action<'_>| #[trigger]
                uboot.asks(action) ==> (request.uboot_config matches Some(path) ==> action == (
                Action::ReadUbootConfig { cargo, path: &path }))
            &&& forall|action: Action<'_>| #[trigger]
                board.asks(action) ==> match board_config {
                    Some(path) => action == (Action::ReadBoardConfig { cargo, path: &path }),
                    None => action == (Action::EnsureBoardConfig { cargo }),
                }
        }),
{
    reveal_with_fuel(RunState::settled, 2);
}

/// Only the processor count of a request is ever filled in for a test case.
pub proof fn law_case_keeps_its_request(
    request: ResolvedStarryRequest,
    qemu_args: Seq<Seq<char>>,
)
    ensures
        ({
            let own = case_request(request, qemu_args);
            &&& own.package == request.package
            &&& own.arch == request.arch
            &&& own.target == request.target
            &&& own.plat_dyn == request.plat_dyn
            &&& own.debug == request.debug
            &&& own.build_info_path == request.build_info_path
            &&& own.build_info_override == request.build_info_override
            &&& own.qemu_config == request.qemu_config
            &&& own.uboot_config == request.uboot_config
            &&& request.smp is Some ==> own.smp == request.smp
            &&& request.smp is None ==> own.smp == smp_in(qemu_args)
        }),
{
}

/// A prepared request ends in the run that the command is for, with the
/// options that were given to it.
pub proof fn law_request_ends_in_its_run(after: AfterPrepare, request: ResolvedStarryRequest)
    ensures
        match after {
            AfterPrepare::Build => after_ops(after, request) == seq![Op::RunBuild { request }],
            AfterPrepare::Qemu { rootfs } => {
                &&& after_ops(after, request) == qemu_ops(request, rootfs)
                &&& after_ops(after, request).last() == (Op::RunQemu {
                    build_info_path: request.build_info_path,
                })
            },
            AfterPrepare::RunQemu => {
                &&& after_ops(after, request) == run_qemu_ops(request)
                &&& after_ops(after, request).last() == (Op::RunQemu {
                    build_info_path: request.build_info_path,
                })
            },
            AfterPrepare::Uboot => {
                &&& after_ops(after, request) == run_uboot_ops(request)
                &&& after_ops(after, request).last() == (Op::RunUboot {
                    build_info_path: request.build_info_path,
                })
            },
            AfterPrepare::Board { board_config, board_type, server, port } => {
                &&& after_ops(after, request) == board_ops(
                    request,
                    board_config,
                    board_type,
                    server,
                    port,
                )
                &&& after_ops(after, request).last() == (Op::RunBoard {
                    build_info_path: request.build_info_path,
                    board_type,
                    server,
                    port,
                })
            },
        },
{
}

} // verus!
