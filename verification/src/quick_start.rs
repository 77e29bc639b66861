//! Arguments and paths of the quick-start commands.

use vstd::prelude::*;

verus! {

pub struct ArgsQuickStart {
    pub command: QuickStartCommand,
}

pub enum QuickStartCommand {
    /// List the supported platforms
    List,
    QemuAarch64(QuickQemuArgs),
    QemuRiscv64(QuickQemuArgs),
    QemuLoongarch64(QuickQemuArgs),
    QemuX8664(QuickQemuArgs),
    Orangepi5Plus(QuickOrangeArgs),
}

pub struct QuickQemuArgs {
    pub action: QuickQemuAction,
}

#[derive(Debug, Clone, Copy, PartialEq, Eq, Structural)]
pub enum QuickQemuAction {
    Build,
    Run,
}

pub struct QuickOrangeArgs {
    pub action: QuickOrangeAction,
}

pub enum QuickOrangeAction {
    Build(QuickOrangeConfigArgs),
    Run(QuickOrangeRunArgs),
}

/// The serial console of an Orange Pi.
#[derive(Debug, Clone, PartialEq, Eq)]
pub struct QuickOrangeConfigArgs {
    pub serial: Option<String>,
    pub baud: Option<String>,
}

pub type QuickOrangeRunArgs = QuickOrangeConfigArgs;

#[derive(Debug, Clone, Copy, PartialEq, Eq, Structural)]
pub enum QuickQemuPlatform {
    Aarch64,
    Riscv64,
    Loongarch64,
    X8664,
}

/// The architecture of a QEMU platform and the configs that quick-start
/// commands keep for it.
#[derive(Debug, Clone, PartialEq, Eq)]
pub struct QuickQemuPaths {
    pub arch: String,
    pub build_config: String,
    pub run_config: String,
}

/// The configs that quick-start commands keep in the workspace.
#[derive(Debug, Clone, PartialEq, Eq)]
pub struct QuickStartPaths {
    pub aarch64: QuickQemuPaths,
    pub riscv64: QuickQemuPaths,
    pub loongarch64: QuickQemuPaths,
    pub x86_64: QuickQemuPaths,
    pub orangepi_build_config: String,
}

impl QuickStartPaths {
    /// The architecture and the configs of a platform.
    pub open spec fn of(self, platform: QuickQemuPlatform) -> QuickQemuPaths {
        match platform {
            QuickQemuPlatform::Aarch64 => self.aarch64,
            QuickQemuPlatform::Riscv64 => self.riscv64,
            QuickQemuPlatform::Loongarch64 => self.loongarch64,
            QuickQemuPlatform::X8664 => self.x86_64,
        }
    }

    pub fn qemu(&self, platform: QuickQemuPlatform) -> (paths: &QuickQemuPaths)
        ensures
            *paths == self.of(platform),
    {
        match platform {
            QuickQemuPlatform::Aarch64 => &self.aarch64,
            QuickQemuPlatform::Riscv64 => &self.riscv64,
            QuickQemuPlatform::Loongarch64 => &self.loongarch64,
            QuickQemuPlatform::X8664 => &self.x86_64,
        }
    }
}

} // verus!
