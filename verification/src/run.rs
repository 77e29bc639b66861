//! Doing the work of a plan: what is asked for next, with the values that
//! earlier work gave, and what is made of its outcome.

use vstd::prelude::*;

use crate::case_assets::{add_case_args, StarryCaseAssets};
use crate::error::StarryError;
use crate::quick_start::{QuickOrangeConfigArgs, QuickQemuPlatform};
use crate::request::{
    AfterPrepare, Op, PrepareCall, PrepareInputs, ResolvedStarryRequest, UbootSource,
};
use crate::rootfs::{apply_smp_qemu_arg, smp_set, QemuConfig};
use crate::test_suit::StarryQemuCase;
use crate::text::texts;

verus! {

/// The number by which a config that was loaded is found again.
#[derive(Debug, Clone, Copy, PartialEq, Eq, Structural)]
pub struct Handle {
    pub id: u64,
}

/// A QEMU config that was loaded: its arguments, and where the rest is.
#[derive(Debug, Clone, PartialEq, Eq)]
pub struct LoadedQemu {
    pub handle: Handle,
    pub config: QemuConfig,
}

/// A loaded QEMU config, by its texts.
pub struct QemuState {
    pub handle: Handle,
    pub args: Seq<Seq<char>>,
}

impl View for LoadedQemu {
    type V = QemuState;

    open spec fn view(&self) -> QemuState {
        QemuState { handle: self.handle, args: texts(self.config.args@) }
    }
}

/// What the work so far has given.
pub struct Values {
    pub target: Option<String>,
    pub disk_img: Option<String>,
    pub uboot_path: Option<String>,
    pub cargo: Option<Handle>,
    pub qemu: Option<LoadedQemu>,
    pub uboot: Option<Handle>,
    pub board: Option<Handle>,
    pub assets: Option<StarryCaseAssets>,
}

/// What the work so far has given, with the QEMU config by its texts.
pub struct Known {
    pub target: Option<String>,
    pub disk_img: Option<String>,
    pub uboot_path: Option<String>,
    pub cargo: Option<Handle>,
    pub qemu: Option<QemuState>,
    pub uboot: Option<Handle>,
    pub board: Option<Handle>,
    pub assets: Option<StarryCaseAssets>,
}

impl View for Values {
    type V = Known;

    open spec fn view(&self) -> Known {
        Known {
            target: self.target,
            disk_img: self.disk_img,
            uboot_path: self.uboot_path,
            cargo: self.cargo,
            qemu: match self.qemu {
                Some(qemu) => Some(qemu@),
                None => None,
            },
            uboot: self.uboot,
            board: self.board,
            assets: self.assets,
        }
    }
}

/// Nothing has been given yet.
pub open spec fn nothing_known() -> Known {
    Known {
        target: None,
        disk_img: None,
        uboot_path: None,
        cargo: None,
        qemu: None,
        uboot: None,
        board: None,
        assets: None,
    }
}

impl Values {
    pub fn nothing() -> (values: Self)
        ensures
            values@ == nothing_known(),
    {
        Values {
            target: None,
            disk_img: None,
            uboot_path: None,
            cargo: None,
            qemu: None,
            uboot: None,
            board: None,
            assets: None,
        }
    }
}

/// What outside work that succeeded gives back.
pub enum Outcome {
    Done,
    Target(String),
    Path(String),
    Cargo(Handle),
    Qemu(LoadedQemu),
    Uboot(Handle),
    Board(Handle),
    Assets(StarryCaseAssets),
}

/// Outside work that is due, with all that it needs.
#[allow(inconsistent_fields)]
pub enum Action<'a> {
    LookupTarget { arch: &'a String },
    EnsureRootfs { arch: &'a String, target: &'a String },
    ShowRootfs { disk_img: &'a String },
    ResolveRootfsPath { arch: &'a String, rootfs: &'a String },
    EnsureManagedRootfs { arch: &'a String, disk_img: &'a String },
    EnsureDefaultBuildConfig { target: &'a String, build_info_path: &'a String },
    SetDebugMode { debug: bool },
    LoadCargoConfig { request: &'a ResolvedStarryRequest },
    RunBuild { request: &'a ResolvedStarryRequest },
    ReadQemuConfig { cargo: Handle, path: &'a String },
    EnsureQemuConfig { cargo: Handle },
    PatchRootfs { qemu: &'a LoadedQemu, disk_img: &'a String },
    RunQemu { cargo: Handle, build_info_path: &'a String, qemu: &'a LoadedQemu },
    ReadUbootConfig { cargo: Handle, path: &'a String },
    RunUboot { cargo: Handle, build_info_path: &'a String, uboot: Option<Handle> },
    ReadBoardConfig { cargo: Handle, path: &'a String },
    EnsureBoardConfig { cargo: Handle },
    RunBoard {
        cargo: Handle,
        build_info_path: &'a String,
        board: Handle,
        board_type: &'a Option<String>,
        server: &'a Option<String>,
        port: Option<u16>,
    },
    PrepareCaseAssets {
        arch: &'a String,
        target: &'a String,
        case: &'a StarryQemuCase,
        rootfs: &'a String,
    },
    ValidateHostOutputs { case: &'a StarryQemuCase, assets: &'a StarryCaseAssets },
    WriteDefconfig { board: &'a String },
    ListBoards,
    ListPlatforms,
    RefreshQemuConfigs { platform: QuickQemuPlatform },
    EnsureQemuConfigs { platform: QuickQemuPlatform },
    RefreshOrangepiConfigs,
    EnsureOrangepiConfigs,
    PrepareOrangepiUboot { args: &'a QuickOrangeConfigArgs },
}

/// Which values are there.
pub struct Have {
    pub target: bool,
    pub disk_img: bool,
    pub cargo: bool,
    pub qemu: bool,
    pub board: bool,
    pub assets: bool,
}

impl Known {
    pub open spec fn have(self) -> Have {
        Have {
            target: self.target is Some,
            disk_img: self.disk_img is Some,
            cargo: self.cargo is Some,
            qemu: self.qemu is Some,
            board: self.board is Some,
            assets: self.assets is Some,
        }
    }
}

/// Whether the values that a piece of work needs are there.
pub open spec fn needs_met(op: Op, have: Have) -> bool {
    match op {
        Op::EnsureRootfs { arch, target } => target is Some || have.target,
        Op::ShowRootfs => have.disk_img,
        Op::EnsureManagedRootfs { arch } => have.disk_img,
        Op::ReadQemuConfig { path } => have.cargo,
        Op::EnsureQemuConfig => have.cargo,
        Op::PatchRootfs => have.qemu && have.disk_img,
        Op::ApplySmp { smp } => have.qemu,
        Op::AddCaseArgs => have.qemu && have.assets,
        Op::RunQemu { build_info_path } => have.cargo && have.qemu,
        Op::ReadUbootConfig { path } => have.cargo,
        Op::RunUboot { build_info_path } => have.cargo,
        Op::ReadBoardConfig { path } => have.cargo,
        Op::EnsureBoardConfig => have.cargo,
        Op::RunBoard { .. } => have.cargo && have.board,
        Op::PrepareCaseAssets { .. } => have.disk_img,
        Op::ValidateHostOutputs { case } => have.assets,
        _ => true,
    }
}

/// Which values are there when a piece of work has been done.
pub open spec fn have_after(op: Op, have: Have) -> Have {
    match op {
        Op::LookupTarget { .. } => Have { target: true, ..have },
        Op::EnsureRootfs { .. } => Have { disk_img: true, ..have },
        Op::ResolveRootfsPath { .. } => Have { disk_img: true, ..have },
        Op::LoadCargoConfig { .. } => Have { cargo: true, ..have },
        Op::ReadQemuConfig { .. } => Have { qemu: true, ..have },
        Op::EnsureQemuConfig => Have { qemu: true, ..have },
        Op::ReadBoardConfig { .. } => Have { board: true, ..have },
        Op::EnsureBoardConfig => Have { board: true, ..have },
        Op::PrepareCaseAssets { .. } => Have { assets: true, disk_img: true, ..have },
        _ => have,
    }
}

/// Whether each piece of work from `at` on finds the values that it needs.
pub open spec fn plan_ready(ops: Seq<Op>, have: Have, at: int) -> bool
    decreases ops.len() - at,
{
    at < 0 || at >= ops.len() || (needs_met(ops[at], have) && plan_ready(
        ops,
        have_after(ops[at], have),
        at + 1,
    ))
}

/// Whether a plan can start with these values.
pub open spec fn can_start(ops: Seq<Op>, known: Known) -> bool {
    plan_ready(ops, known.have(), 0)
}

/// Whether this work is done by the run itself.
pub open spec fn is_own_work(op: Op) -> bool {
    op is ApplySmp || op is AddCaseArgs
}

/// The values when the run has done work of its own.
pub open spec fn after_own_work(op: Op, known: Known) -> Known {
    let qemu = known.qemu->0;
    match op {
        Op::ApplySmp { smp } => Known {
            qemu: Some(QemuState { args: smp_set(qemu.args, smp), ..qemu }),
            ..known
        },
        Op::AddCaseArgs => Known {
            qemu: Some(
                QemuState { args: qemu.args + texts(known.assets->0.extra_qemu_args@), ..qemu },
            ),
            ..known
        },
        _ => known,
    }
}

/// Whether this is the kind of outcome that a piece of work has.
pub open spec fn fits(op: Op, outcome: Outcome) -> bool {
    match op {
        Op::LookupTarget { .. } => outcome is Target,
        Op::EnsureRootfs { .. } => outcome is Path,
        Op::ResolveRootfsPath { .. } => outcome is Path,
        Op::PrepareOrangepiUboot { .. } => outcome is Path,
        Op::LoadCargoConfig { .. } => outcome is Cargo,
        Op::ReadQemuConfig { .. } => outcome is Qemu,
        Op::EnsureQemuConfig => outcome is Qemu,
        Op::PatchRootfs => outcome is Qemu,
        Op::ReadUbootConfig { .. } => outcome is Uboot,
        Op::ReadBoardConfig { .. } => outcome is Board,
        Op::EnsureBoardConfig => outcome is Board,
        Op::PrepareCaseAssets { .. } => outcome is Assets,
        _ => outcome is Done,
    }
}

/// The values when a piece of work has come to this outcome.
pub open spec fn after_outcome(op: Op, outcome: Outcome, known: Known) -> Known {
    match outcome {
        Outcome::Done => known,
        Outcome::Target(target) => Known { target: Some(target), ..known },
        Outcome::Path(path) => if op is PrepareOrangepiUboot {
            Known { uboot_path: Some(path), ..known }
        } else {
            Known { disk_img: Some(path), ..known }
        },
        Outcome::Cargo(cargo) => Known { cargo: Some(cargo), ..known },
        Outcome::Qemu(qemu) => Known { qemu: Some(qemu@), ..known },
        Outcome::Uboot(uboot) => Known { uboot: Some(uboot), ..known },
        Outcome::Board(board) => Known { board: Some(board), ..known },
        Outcome::Assets(assets) => Known {
            disk_img: Some(assets.rootfs_path),
            assets: Some(assets),
            ..known
        },
    }
}

/// How far a run has come.
pub struct RunState {
    pub ops: Seq<Op>,
    /// How many have been done.
    pub done: int,
    /// Why the run failed.
    pub failure: Option<StarryError>,
    pub known: Known,
}

/// A run that starts.
pub open spec fn start_of(ops: Seq<Op>, known: Known) -> RunState {
    RunState { ops, done: 0, failure: None, known }.settled()
}

impl RunState {
    /// Whether there is work to do.
    pub open spec fn active(self) -> bool {
        self.failure is None && self.done < self.ops.len()
    }

    /// The run when it has done what it does itself, up to the next outside
    /// work.
    pub open spec fn settled(self) -> RunState
        decreases self.ops.len() - self.done,
    {
        if 0 <= self.done && self.active() && is_own_work(self.ops[self.done]) {
            RunState {
                done: self.done + 1,
                known: after_own_work(self.ops[self.done], self.known),
                ..self
            }.settled()
        } else {
            self
        }
    }

    /// The run when the outside work that was due has come to this outcome.
    /// An outcome that comes when there is no work left changes nothing.
    pub open spec fn stepped(self, outcome: Result<Outcome, StarryError>) -> RunState {
        if !self.active() {
            self
        } else {
            match outcome {
                Ok(outcome) => RunState {
                    done: self.done + 1,
                    known: after_outcome(self.ops[self.done], outcome, self.known),
                    ..self
                }.settled(),
                Err(error) => RunState { failure: Some(error), ..self },
            }
        }
    }

    /// The run when pieces of outside work have come to these outcomes.
    pub open spec fn stepped_through(self, outcomes: Seq<Result<Outcome, StarryError>>) -> RunState
        decreases outcomes.len(),
    {
        if outcomes.len() == 0 {
            self
        } else {
            self.stepped_through(outcomes.drop_last()).stepped(outcomes.last())
        }
    }

    /// Whether this is the outside work that is due: the planned work, with
    /// the values that earlier work gave.
    pub open spec fn asks(self, action: Action<'_>) -> bool {
        let known = self.known;
        match self.ops[self.done] {
            Op::LookupTarget { arch } => action == (Action::LookupTarget { arch: &arch }),
            Op::EnsureRootfs { arch, target: Some(target) } => action == (Action::EnsureRootfs {
                arch: &arch,
                target: &target,
            }),
            Op::EnsureRootfs { arch, target: None } => action == (Action::EnsureRootfs {
                arch: &arch,
                target: &known.target->0,
            }),
            Op::ShowRootfs => action == (Action::ShowRootfs { disk_img: &known.disk_img->0 }),
            Op::ResolveRootfsPath { arch, rootfs } => action == (Action::ResolveRootfsPath {
                arch: &arch,
                rootfs: &rootfs,
            }),
            Op::EnsureManagedRootfs { arch } => action == (Action::EnsureManagedRootfs {
                arch: &arch,
                disk_img: &known.disk_img->0,
            }),
            Op::EnsureDefaultBuildConfig { target, build_info_path } => action == (
            Action::EnsureDefaultBuildConfig {
                target: &target,
                build_info_path: &build_info_path,
            }),
            Op::SetDebugMode { debug } => action == (Action::SetDebugMode { debug }),
            Op::LoadCargoConfig { request } => action == (Action::LoadCargoConfig {
                request: &request,
            }),
            Op::RunBuild { request } => action == (Action::RunBuild { request: &request }),
            Op::ReadQemuConfig { path } => action == (Action::ReadQemuConfig {
                cargo: known.cargo->0,
                path: &path,
            }),
            Op::EnsureQemuConfig => action == (Action::EnsureQemuConfig { cargo: known.cargo->0 }),
            Op::PatchRootfs => {
                &&& action is PatchRootfs
                &&& action->PatchRootfs_qemu@ == known.qemu->0
                &&& *action->PatchRootfs_disk_img == known.disk_img->0
            },
            Op::RunQemu { build_info_path } => {
                &&& action is RunQemu
                &&& action->RunQemu_cargo == known.cargo->0
                &&& *action->RunQemu_build_info_path == build_info_path
                &&& action->RunQemu_qemu@ == known.qemu->0
            },
            Op::ReadUbootConfig { path } => action == (Action::ReadUbootConfig {
                cargo: known.cargo->0,
                path: &path,
            }),
            Op::RunUboot { build_info_path } => action == (Action::RunUboot {
                cargo: known.cargo->0,
                build_info_path: &build_info_path,
                uboot: known.uboot,
            }),
            Op::ReadBoardConfig { path } => action == (Action::ReadBoardConfig {
                cargo: known.cargo->0,
                path: &path,
            }),
            Op::EnsureBoardConfig => action == (Action::EnsureBoardConfig {
                cargo: known.cargo->0,
            }),
            Op::RunBoard { build_info_path, board_type, server, port } => action == (
            Action::RunBoard {
                cargo: known.cargo->0,
                build_info_path: &build_info_path,
                board: known.board->0,
                board_type: &board_type,
                server: &server,
                port,
            }),
            Op::PrepareCaseAssets { arch, target, case } => action == (Action::PrepareCaseAssets {
                arch: &arch,
                target: &target,
                case: &case,
                rootfs: &known.disk_img->0,
            }),
            Op::ValidateHostOutputs { case } => action == (Action::ValidateHostOutputs {
                case: &case,
                assets: &known.assets->0,
            }),
            Op::WriteDefconfig { board } => action == (Action::WriteDefconfig { board: &board }),
            Op::ListBoards => action == Action::ListBoards,
            Op::ListPlatforms => action == Action::ListPlatforms,
            Op::RefreshQemuConfigs { platform } => action == (Action::RefreshQemuConfigs {
                platform,
            }),
            Op::EnsureQemuConfigs { platform } => action == (Action::EnsureQemuConfigs {
                platform,
            }),
            Op::RefreshOrangepiConfigs => action == Action::RefreshOrangepiConfigs,
            Op::EnsureOrangepiConfigs => action == Action::EnsureOrangepiConfigs,
            Op::PrepareOrangepiUboot { args } => action == (Action::PrepareOrangepiUboot {
                args: &args,
            }),
            Op::ApplySmp { .. } => false,
            Op::AddCaseArgs => false,
        }
    }
}

/// Work that is done in order, up to the first that fails.
pub struct Run {
    pub ops: Vec<Op>,
    /// How many have been done.
    pub done: usize,
    /// Why the run failed.
    pub failure: Option<StarryError>,
    pub values: Values,
}

impl View for Run {
    type V = RunState;

    open spec fn view(&self) -> RunState {
        RunState {
            ops: self.ops@,
            done: self.done as int,
            failure: self.failure,
            known: self.values@,
        }
    }
}

impl Run {
    /// Outside work is due, or the run has ended; what is due, and all that
    /// follows, finds the values that it needs.
    pub open spec fn wf(&self) -> bool {
        &&& self.done <= self.ops@.len()
        &&& self.failure is Some ==> self.done < self.ops@.len()
        &&& self@.active() ==> !is_own_work(self.ops@[self.done as int])
        &&& self.failure is None ==> plan_ready(
            self.ops@,
            self.values@.have(),
            self.done as int,
        )
    }

    /// Whether the run has ended.
    pub open spec fn ended(&self) -> bool {
        !self@.active()
    }

    pub fn new(ops: Vec<Op>, values: Values) -> (run: Self)
        requires
            can_start(ops@, values@),
        ensures
            run.wf(),
            run@ == start_of(ops@, values@),
    {
        let mut run = Run { ops, done: 0, failure: None, values };
        run.settle();
        run
    }

    /// Does what the run does itself, up to the next outside work.
    fn settle(&mut self)
        requires
            old(self).done <= old(self).ops@.len(),
            old(self).failure is None,
            plan_ready(old(self).ops@, old(self).values@.have(), old(self).done as int),
        ensures
            final(self).wf(),
            final(self)@ == old(self)@.settled(),
            final(self).ops == old(self).ops,
    {
        let ghost start = self@;
        while self.done < self.ops.len() && matches!(
            &self.ops[self.done],
            Op::ApplySmp { .. } | Op::AddCaseArgs,
        )
            invariant
                self.done <= self.ops@.len(),
                self.failure is None,
                self.ops == old(self).ops,
                plan_ready(self.ops@, self.values@.have(), self.done as int),
                start == old(self)@,
                self@.settled() == start.settled(),
            decreases self.ops@.len() - self.done,
        {
            let ghost before = self@;
            let op = &self.ops[self.done];
            match self.values.qemu.take() {
                Some(mut qemu) => {
                    match op {
                        Op::ApplySmp { smp } => {
                            apply_smp_qemu_arg(&mut qemu.config, *smp);
                        },
                        _ => {
                            match &self.values.assets {
                                Some(assets) => {
                                    add_case_args(&mut qemu.config, assets);
                                },
                                None => {},
                            }
                        },
                    }
                    self.values.qemu = Some(qemu);
                },
                None => {},
            }
            self.done = self.done + 1;
            assert(self@.known == after_own_work(before.ops[before.done], before.known));
        }
    }

    /// The outside work that is due; none when all is done or something
    /// failed.
    pub fn next(&self) -> (action: Option<Action<'_>>)
        requires
            self.wf(),
        ensures
            match action {
                Some(action) => self@.active() && self@.asks(action),
                None => self.ended(),
            },
    {
        if self.failure.is_some() || self.done >= self.ops.len() {
            return None;
        }
        let values = &self.values;
        let action = match &self.ops[self.done] {
            Op::LookupTarget { arch } => Action::LookupTarget { arch },
            Op::EnsureRootfs { arch, target } => Action::EnsureRootfs {
                arch,
                target: match target {
                    Some(target) => target,
                    None => given(&values.target),
                },
            },
            Op::ShowRootfs => Action::ShowRootfs { disk_img: given(&values.disk_img) },
            Op::ResolveRootfsPath { arch, rootfs } => Action::ResolveRootfsPath { arch, rootfs },
            Op::EnsureManagedRootfs { arch } => Action::EnsureManagedRootfs {
                arch,
                disk_img: given(&values.disk_img),
            },
            Op::EnsureDefaultBuildConfig { target, build_info_path } => {
                Action::EnsureDefaultBuildConfig { target, build_info_path }
            },
            Op::SetDebugMode { debug } => Action::SetDebugMode { debug: *debug },
            Op::LoadCargoConfig { request } => Action::LoadCargoConfig { request },
            Op::RunBuild { request } => Action::RunBuild { request },
            Op::ReadQemuConfig { path } => Action::ReadQemuConfig {
                cargo: *given(&values.cargo),
                path,
            },
            Op::EnsureQemuConfig => Action::EnsureQemuConfig { cargo: *given(&values.cargo) },
            Op::PatchRootfs => Action::PatchRootfs {
                qemu: given(&values.qemu),
                disk_img: given(&values.disk_img),
            },
            Op::RunQemu { build_info_path } => Action::RunQemu {
                cargo: *given(&values.cargo),
                build_info_path,
                qemu: given(&values.qemu),
            },
            Op::ReadUbootConfig { path } => Action::ReadUbootConfig {
                cargo: *given(&values.cargo),
                path,
            },
            Op::RunUboot { build_info_path } => Action::RunUboot {
                cargo: *given(&values.cargo),
                build_info_path,
                uboot: values.uboot,
            },
            Op::ReadBoardConfig { path } => Action::ReadBoardConfig {
                cargo: *given(&values.cargo),
                path,
            },
            Op::EnsureBoardConfig => Action::EnsureBoardConfig { cargo: *given(&values.cargo) },
            Op::RunBoard { build_info_path, board_type, server, port } => Action::RunBoard {
                cargo: *given(&values.cargo),
                build_info_path,
                board: *given(&values.board),
                board_type,
                server,
                port: *port,
            },
            Op::PrepareCaseAssets { arch, target, case } => Action::PrepareCaseAssets {
                arch,
                target,
                case,
                rootfs: given(&values.disk_img),
            },
            Op::ValidateHostOutputs { case } => Action::ValidateHostOutputs {
                case,
                assets: given(&values.assets),
            },
            Op::WriteDefconfig { board } => Action::WriteDefconfig { board },
            Op::ListBoards => Action::ListBoards,
            Op::ListPlatforms => Action::ListPlatforms,
            Op::RefreshQemuConfigs { platform } => Action::RefreshQemuConfigs {
                platform: *platform,
            },
            Op::EnsureQemuConfigs { platform } => Action::EnsureQemuConfigs { platform: *platform },
            Op::RefreshOrangepiConfigs => Action::RefreshOrangepiConfigs,
            Op::EnsureOrangepiConfigs => Action::EnsureOrangepiConfigs,
            Op::PrepareOrangepiUboot { args } => Action::PrepareOrangepiUboot { args },
            Op::ApplySmp { .. } => return None,
            Op::AddCaseArgs => return None,
        };
        Some(action)
    }

    /// Takes the outcome of the outside work that was due.
    pub fn finish(&mut self, outcome: Result<Outcome, StarryError>)
        requires
            old(self).wf(),
            old(self)@.active() && outcome is Ok ==> fits(
                old(self).ops@[old(self).done as int],
                outcome->Ok_0,
            ),
        ensures
            final(self).wf(),
            final(self)@ == old(self)@.stepped(outcome),
            final(self).ops == old(self).ops,
    {
        if self.failure.is_some() || self.done == self.ops.len() {
            return;
        }
        let outcome = match outcome {
            Ok(outcome) => outcome,
            Err(error) => {
                self.failure = Some(error);
                return;
            },
        };
        let ghost before = self@;
        match outcome {
            Outcome::Done => {},
            Outcome::Target(target) => {
                self.values.target = Some(target);
            },
            Outcome::Path(path) => {
                if matches!(&self.ops[self.done], Op::PrepareOrangepiUboot { .. }) {
                    self.values.uboot_path = Some(path);
                } else {
                    self.values.disk_img = Some(path);
                }
            },
            Outcome::Cargo(cargo) => {
                self.values.cargo = Some(cargo);
            },
            Outcome::Qemu(qemu) => {
                self.values.qemu = Some(qemu);
            },
            Outcome::Uboot(uboot) => {
                self.values.uboot = Some(uboot);
            },
            Outcome::Board(board) => {
                self.values.board = Some(board);
            },
            Outcome::Assets(assets) => {
                self.values.disk_img = Some(assets.rootfs_path.clone());
                self.values.assets = Some(assets);
            },
        }
        self.done = self.done + 1;
        self.settle();
    }

    /// How the run ended: with the first failure, if there was one.
    pub fn result(self) -> (result: Result<(), StarryError>)
        requires
            self.ended(),
        ensures
            result == (match self.failure {
                Some(error) => Err::<(), StarryError>(error),
                None => Ok(()),
            }),
    {
        match self.failure {
            Some(error) => Err(error),
            None => Ok(()),
        }
    }
}

/// A value that is there.
fn given<T>(value: &Option<T>) -> (given: &T)
    requires
        value is Some,
    ensures
        *given == value->0,
{
    value.as_ref().unwrap()
}

/// The U-Boot config that a request is prepared with; that of an Orange Pi is
/// the one that the work before gave.
pub open spec fn uboot_config_of(source: UbootSource, known: Known) -> Option<String> {
    match source {
        UbootSource::Absent => None,
        UbootSource::Path(path) => Some(path),
        UbootSource::Orangepi => known.uboot_path,
    }
}

/// What a request is prepared from, when the work before it has been done.
pub open spec fn inputs_of(call: PrepareCall, known: Known) -> PrepareInputs {
    PrepareInputs {
        args: call.args,
        qemu_config: call.qemu_config,
        uboot_config: uboot_config_of(call.uboot_config, known),
        persistence: call.persistence,
    }
}

/// What follows the work that a command does first.
#[allow(inconsistent_fields)]
pub enum StageStep {
    Fail { error: StarryError },
    Finish,
    /// Prepare a request; its plan follows.
    Prepare { inputs: PrepareInputs, after: AfterPrepare },
}

/// Goes on when the work that a command does first has ended.
pub fn stage_ended(before: Run, prepare: Option<PrepareCall>) -> (step: StageStep)
    requires
        before.ended(),
    ensures
        step == (match (before.failure, prepare) {
            (Some(error), _) => StageStep::Fail { error },
            (None, None) => StageStep::Finish,
            (None, Some(call)) => StageStep::Prepare {
                inputs: inputs_of(call, before.values@),
                after: call.after,
            },
        }),
{
    match (before.failure, prepare) {
        (Some(error), _) => StageStep::Fail { error },
        (None, None) => StageStep::Finish,
        (None, Some(call)) => StageStep::Prepare {
            inputs: PrepareInputs {
                args: call.args,
                qemu_config: call.qemu_config,
                uboot_config: match call.uboot_config {
                    UbootSource::Absent => None,
                    UbootSource::Path(path) => Some(path),
                    UbootSource::Orangepi => before.values.uboot_path,
                },
                persistence: call.persistence,
            },
            after: call.after,
        },
    }
}

/// A run that fails ends with that failure, whatever would have come later:
/// the work that failed and the work behind it are not done.
pub proof fn law_run_stops_at_failure(
    run: RunState,
    error: StarryError,
    later: Seq<Result<Outcome, StarryError>>,
)
    requires
        run.active(),
    ensures
        run.stepped(Err(error)).stepped_through(later) == (RunState {
            failure: Some(error),
            ..run
        }),
    decreases later.len(),
{
    if later.len() > 0 {
        law_run_stops_at_failure(run, error, later.drop_last());
    }
}

/// Outside work that succeeds brings a run further, and to no failure.
pub proof fn law_run_goes_on(run: RunState, outcome: Outcome)
    requires
        0 <= run.done,
        run.active(),
    ensures
        run.stepped(Ok(outcome)).failure is None,
        run.stepped(Ok(outcome)).ops == run.ops,
        run.done < run.stepped(Ok(outcome)).done <= run.ops.len(),
{
    lemma_settled(
        RunState {
            done: run.done + 1,
            known: after_outcome(run.ops[run.done], outcome, run.known),
            ..run
        },
    );
}

/// A run that ended without a failure has done all of its work.
pub proof fn law_no_failure_means_all_done(run: Run)
    requires
        run.wf(),
        run.ended(),
        run.failure is None,
    ensures
        run.done == run.ops@.len(),
{
}

proof fn lemma_settled(run: RunState)
    requires
        0 <= run.done <= run.ops.len(),
    ensures
        run.settled().failure == run.failure,
        run.settled().ops == run.ops,
        run.done <= run.settled().done <= run.ops.len(),
    decreases run.ops.len() - run.done,
{
    if run.active() && is_own_work(run.ops[run.done]) {
        lemma_settled(
            RunState {
                done: run.done + 1,
                known: after_own_work(run.ops[run.done], run.known),
                ..run
            },
        );
    }
}

/// Work that needs nothing from earlier work is asked for as it was planned.
pub proof fn law_planned_work_is_asked(run: RunState, action: Action<'_>)
    requires
        run.active(),
        run.asks(action),
    ensures
        match run.ops[run.done] {
            Op::RefreshQemuConfigs { platform } => action is RefreshQemuConfigs
                && action->RefreshQemuConfigs_platform == platform,
            Op::EnsureQemuConfigs { platform } => action is EnsureQemuConfigs
                && action->EnsureQemuConfigs_platform == platform,
            Op::RefreshOrangepiConfigs => action is RefreshOrangepiConfigs,
            Op::EnsureOrangepiConfigs => action is EnsureOrangepiConfigs,
            Op::PrepareOrangepiUboot { args } => action is PrepareOrangepiUboot
                && *action->args == args,
            Op::WriteDefconfig { board } => action is WriteDefconfig
                && *action->WriteDefconfig_board == board,
            Op::ListBoards => action is ListBoards,
            Op::ListPlatforms => action is ListPlatforms,
            Op::SetDebugMode { debug } => action is SetDebugMode && action->debug == debug,
            Op::LookupTarget { arch } => action is LookupTarget && *action->LookupTarget_arch
                == arch,
            _ => true,
        },
{
}

/// A request is prepared from what its call names; the U-Boot config of an
/// Orange Pi is the one that was written, and no other call takes that.
pub proof fn law_request_prepared_as_called(call: PrepareCall, known: Known)
    ensures
        inputs_of(call, known).args == call.args,
        inputs_of(call, known).qemu_config == call.qemu_config,
        inputs_of(call, known).persistence == call.persistence,
        call.uboot_config is Absent ==> inputs_of(call, known).uboot_config is None,
        call.uboot_config is Path ==> inputs_of(call, known).uboot_config == Some(
            call.uboot_config->Path_0,
        ),
        call.uboot_config is Orangepi ==> inputs_of(call, known).uboot_config == known.uboot_path,
{
}

} // verus!
