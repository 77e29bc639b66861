//! Resolved build requests and the work that commands consist of.

use vstd::prelude::*;

use crate::cli::{text_copy, StarryCliArgs};
use crate::quick_start::{QuickOrangeConfigArgs, QuickQemuPlatform};
use crate::test_suit::StarryQemuCase;

verus! {

/// What is read of a board's build info, and the number by which the whole of
/// it is found again.
#[derive(Debug, Clone, Copy, PartialEq, Eq, Structural)]
pub struct BuildInfo {
    pub id: u64,
    pub plat_dyn: bool,
}

/// A build request with everything that was left open filled in.
#[derive(Debug, Clone, PartialEq, Eq)]
pub struct ResolvedStarryRequest {
    pub package: String,
    pub arch: String,
    pub target: String,
    pub plat_dyn: Option<bool>,
    pub smp: Option<usize>,
    pub debug: bool,
    pub build_info_path: String,
    pub build_info_override: Option<BuildInfo>,
    pub qemu_config: Option<String>,
    pub uboot_config: Option<String>,
}

impl ResolvedStarryRequest {
    /// A copy of the request.
    pub fn duplicate(&self) -> (copy: Self)
        ensures
            copy == *self,
    {
        ResolvedStarryRequest {
            package: self.package.clone(),
            arch: self.arch.clone(),
            target: self.target.clone(),
            plat_dyn: self.plat_dyn,
            smp: self.smp,
            debug: self.debug,
            build_info_path: self.build_info_path.clone(),
            build_info_override: self.build_info_override,
            qemu_config: text_copy(&self.qemu_config),
            uboot_config: text_copy(&self.uboot_config),
        }
    }
}

/// Whether the snapshot of a request is kept for the next command.
#[derive(Debug, Clone, Copy, PartialEq, Eq, Structural)]
pub enum SnapshotPersistence {
    Store,
    Discard,
}

/// The number by which the snapshot of a request is found again.
#[derive(Debug, Clone, Copy, PartialEq, Eq, Structural)]
pub struct SnapshotId {
    pub id: u64,
}

/// A request, and the snapshot that has to be stored before it is used.
#[derive(Debug, Clone, PartialEq, Eq)]
pub struct PreparedRequest {
    pub request: ResolvedStarryRequest,
    pub store: Option<SnapshotId>,
}

/// Where the U-Boot config of a request comes from.
#[derive(Debug, Clone, PartialEq, Eq)]
pub enum UbootSource {
    Absent,
    Path(String),
    /// The config that [`Op::PrepareOrangepiUboot`] wrote.
    Orangepi,
}

/// A piece of work in the plan of a command. What earlier work gave is not
/// named here: it is filled in when the work is due.
#[derive(Debug, Clone, PartialEq, Eq)]
#[allow(inconsistent_fields)]
pub enum Op {
    /// Look up the target of an architecture.
    LookupTarget { arch: String },
    /// Make sure that the default rootfs is there, once the target is found
    /// to be that of the architecture; `None` is the looked-up target. It
    /// becomes the disk image.
    EnsureRootfs { arch: String, target: Option<String> },
    /// Say where the disk image is.
    ShowRootfs,
    /// Resolve the path of a given rootfs, which becomes the disk image.
    ResolveRootfsPath { arch: String, rootfs: String },
    /// Extract the disk image if it is a managed one.
    EnsureManagedRootfs { arch: String },
    /// Write the default build config of a target if there is none, and say
    /// so.
    EnsureDefaultBuildConfig { target: String, build_info_path: String },
    SetDebugMode { debug: bool },
    /// Load the cargo config of a request.
    LoadCargoConfig { request: ResolvedStarryRequest },
    RunBuild { request: ResolvedStarryRequest },
    ReadQemuConfig { path: String },
    /// Take the default QEMU config, and write it if there is none.
    EnsureQemuConfig,
    /// Make the QEMU config boot the disk image, with a network.
    PatchRootfs,
    /// Set the processor count of the QEMU config, if one is given.
    ApplySmp { smp: Option<usize> },
    RunQemu { build_info_path: String },
    ReadUbootConfig { path: String },
    RunUboot { build_info_path: String },
    ReadBoardConfig { path: String },
    /// Take the board config of the workspace, and write it if there is none.
    EnsureBoardConfig,
    RunBoard {
        build_info_path: String,
        board_type: Option<String>,
        server: Option<String>,
        port: Option<u16>,
    },
    /// Prepare the assets of a test case on the disk image; the rootfs among
    /// them becomes the disk image.
    PrepareCaseAssets { arch: String, target: String, case: StarryQemuCase },
    /// Add the arguments that the assets ask for to the QEMU config.
    AddCaseArgs,
    /// Check what the run of the test case left on the host.
    ValidateHostOutputs { case: StarryQemuCase },
    WriteDefconfig { board: String },
    ListBoards,
    ListPlatforms,
    RefreshQemuConfigs { platform: QuickQemuPlatform },
    EnsureQemuConfigs { platform: QuickQemuPlatform },
    RefreshOrangepiConfigs,
    EnsureOrangepiConfigs,
    /// Write the U-Boot config of an Orange Pi, and keep its path.
    PrepareOrangepiUboot { args: QuickOrangeConfigArgs },
}

/// What follows when a request has been prepared.
#[derive(Debug, Clone, PartialEq, Eq)]
pub enum AfterPrepare {
    Build,
    Qemu { rootfs: Option<String> },
    RunQemu,
    Uboot,
    Board {
        board_config: Option<String>,
        board_type: Option<String>,
        server: Option<String>,
        port: Option<u16>,
    },
}

/// How a request is prepared, and what follows.
#[derive(Debug, Clone, PartialEq, Eq)]
pub struct PrepareCall {
    pub args: StarryCliArgs,
    pub qemu_config: Option<String>,
    pub uboot_config: UbootSource,
    pub persistence: SnapshotPersistence,
    pub after: AfterPrepare,
}

/// What a request is prepared from.
#[derive(Debug, Clone, PartialEq, Eq)]
pub struct PrepareInputs {
    pub args: StarryCliArgs,
    pub qemu_config: Option<String>,
    pub uboot_config: Option<String>,
    pub persistence: SnapshotPersistence,
}

/// A command: work that is done first, then a request, if it needs one.
#[derive(Debug, Clone, PartialEq, Eq)]
pub struct Stage {
    pub before: Vec<Op>,
    pub prepare: Option<PrepareCall>,
}

} // verus!
