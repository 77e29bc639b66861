//! Test cases, test groups and reports.

use vstd::prelude::*;

use crate::cli::text_copy;
use crate::request::BuildInfo;

verus! {

/// A test case that runs in QEMU.
#[derive(Debug, Clone, PartialEq, Eq)]
pub struct StarryQemuCase {
    pub name: String,
    pub case_dir: String,
    pub qemu_config_path: String,
    pub build_config_path: Option<String>,
}

impl StarryQemuCase {
    /// A copy of the case.
    pub fn duplicate(&self) -> (copy: Self)
        ensures
            copy == *self,
    {
        StarryQemuCase {
            name: self.name.clone(),
            case_dir: self.case_dir.clone(),
            qemu_config_path: self.qemu_config_path.clone(),
            build_config_path: text_copy(&self.build_config_path),
        }
    }
}

/// A group of tests that runs on a remote board.
#[derive(Debug, Clone, PartialEq, Eq)]
pub struct StarryBoardTestGroup {
    pub name: String,
    pub build_config_path: String,
    pub target: String,
    pub board_test_config_path: String,
}

/// Which of the QEMU cases run.
#[derive(Debug, Clone, Copy, PartialEq, Eq, Structural)]
pub enum StarryTestGroup {
    Normal,
    Stress,
}

#[derive(Debug, Clone, Copy, PartialEq, Eq, Structural)]
pub enum StarryQemuCaseOutcome {
    Passed,
    Failed,
}

/// How a QEMU case went. Times are in nanoseconds.
#[derive(Debug, Clone, PartialEq, Eq)]
pub struct StarryQemuCaseReport {
    pub name: String,
    pub outcome: StarryQemuCaseOutcome,
    pub duration: u128,
}

/// How a run of QEMU cases went.
#[derive(Debug, Clone, PartialEq, Eq)]
pub struct StarryQemuRunReport {
    pub group: StarryTestGroup,
    pub cases: Vec<StarryQemuCaseReport>,
    pub total_duration: u128,
}

/// The board whose build info stands in where a case has no build config.
#[derive(Debug, Clone, PartialEq, Eq)]
pub struct DefaultBoard {
    pub name: String,
    pub build_info: BuildInfo,
}

} // verus!
