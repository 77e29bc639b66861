//! The StarryOS subcommands and their arguments.
//!
//! Paths are text: what the tool hands on of a path is what it displays as.

use vstd::prelude::*;

use crate::error::StarryError;
use crate::quick_start::ArgsQuickStart;

verus! {

/// StarryOS subcommands.
pub enum Command {
    /// Build StarryOS application
    Build(ArgsBuild),
    /// Build and run StarryOS application
    Qemu(ArgsQemu),
    /// Generate a default StarryOS board config
    Defconfig(ArgsDefconfig),
    /// StarryOS board config helpers
    Config(ArgsConfig),
    /// Run StarryOS test suites
    Test(ArgsTest),
    /// Download rootfs image into workspace target directory
    Rootfs(ArgsRootfs),
    /// Convenience entrypoints for common QEMU and Orange Pi workflows
    QuickStart(ArgsQuickStart),
    /// Build and run StarryOS application with U-Boot
    Uboot(ArgsUboot),
    /// Build and run StarryOS on a remote board
    Board(ArgsBoard),
}

#[derive(Clone)]
pub struct ArgsBuild {
    pub config: Option<String>,
    pub arch: Option<String>,
    pub target: Option<String>,
    pub smp: Option<usize>,
    pub debug: bool,
}

pub struct ArgsQemu {
    pub build: ArgsBuild,
    pub qemu_config: Option<String>,
    /// Override the rootfs disk image path (skips auto-download).
    pub rootfs: Option<String>,
}

pub struct ArgsUboot {
    pub build: ArgsBuild,
    pub uboot_config: Option<String>,
}

pub struct ArgsBoard {
    pub build: ArgsBuild,
    pub board_config: Option<String>,
    pub board_type: Option<String>,
    pub server: Option<String>,
    pub port: Option<u16>,
}

pub struct ArgsRootfs {
    pub arch: Option<String>,
}

pub struct ArgsDefconfig {
    pub board: String,
}

pub struct ArgsConfig {
    pub command: ConfigCommand,
}

pub struct ArgsTest {
    pub command: TestCommand,
}

pub enum TestCommand {
    /// Run StarryOS QEMU test suite
    Qemu(ArgsTestQemu),
    /// Reserved StarryOS U-Boot test suite entrypoint
    Uboot(ArgsTestUboot),
    /// Run StarryOS remote board test suite
    Board(ArgsTestBoard),
}

pub enum ConfigCommand {
    /// List available board names
    Ls,
}

#[derive(Debug, Clone)]
pub struct ArgsTestQemu {
    pub arch: Option<String>,
    pub target: Option<String>,
    pub test_case: Option<String>,
    pub stress: bool,
}

#[derive(Debug, Clone, Default)]
pub struct ArgsTestUboot;

#[derive(Debug, Clone, Default)]
pub struct ArgsTestBoard {
    pub test_group: Option<String>,
    pub board_test_config: Option<String>,
    pub board_type: Option<String>,
    pub server: Option<String>,
    pub port: Option<u16>,
}

/// What a build request is resolved from.
#[derive(Debug, Clone, PartialEq, Eq)]
pub struct StarryCliArgs {
    pub config: Option<String>,
    pub arch: Option<String>,
    pub target: Option<String>,
    pub smp: Option<usize>,
    pub debug: bool,
}

/// A copy of an optional text.
pub fn text_copy(text: &Option<String>) -> (copy: Option<String>)
    ensures
        copy == *text,
{
    match text {
        Some(text) => Some(text.clone()),
        None => None,
    }
}

/// What the build arguments ask for.
pub open spec fn cli_args(args: ArgsBuild) -> StarryCliArgs {
    StarryCliArgs {
        config: args.config,
        arch: args.arch,
        target: args.target,
        smp: args.smp,
        debug: args.debug,
    }
}

impl<'a> From<&'a ArgsBuild> for StarryCliArgs {
    fn from(args: &'a ArgsBuild) -> (cli: Self) {
        StarryCliArgs {
            config: text_copy(&args.config),
            arch: text_copy(&args.arch),
            target: text_copy(&args.target),
            smp: args.smp,
            debug: args.debug,
        }
    }
}

impl<'a> vstd::std_specs::convert::FromSpecImpl<&'a ArgsBuild> for StarryCliArgs {
    open spec fn obeys_from_spec() -> bool {
        true
    }

    open spec fn from_spec(args: &'a ArgsBuild) -> Self {
        cli_args(*args)
    }
}

/// Checks the arguments of a board test run: a board test config embeds a
/// single board type, so it can only override the config of one group.
pub fn ensure_board_test_args(args: &ArgsTestBoard) -> (result: Result<(), StarryError>)
    ensures
        result == (if args.board_test_config is Some && args.test_group is None {
            Err::<(), StarryError>(StarryError::BoardConfigWithoutGroup)
        } else {
            Ok(())
        }),
{
    if args.board_test_config.is_some() && args.test_group.is_none() {
        return Err(StarryError::BoardConfigWithoutGroup);
    }
    Ok(())
}

} // verus!
