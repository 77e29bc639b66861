//! The errors of the build tool and their messages.

use vstd::prelude::*;

use crate::pcap::PcapError;
use crate::text::decimal;
use crate::text::decimal_text;
use crate::wave::WaveError;

verus! {

/// Why a command of the build tool fails.
#[derive(Debug, Clone, PartialEq, Eq)]
pub enum StarryError {
    /// A board test config was given without the group that it belongs to.
    BoardConfigWithoutGroup,
    /// The board test config that was given does not exist.
    MissingBoardTestConfig { path: String },
    /// The target is not the one of the architecture.
    TargetMismatch { arch: String, expected: String, target: String },
    /// A case without a build config needs a default board, and there is none.
    MissingQemuDefconfig { target: String },
    /// A shell case has no directory with scripts.
    MissingShDir { path: String },
    /// The run left no capture.
    PcapNotCreated { path: String },
    /// The capture holds no more than a file header.
    PcapTooSmall { path: String },
    /// The case has no reference recording.
    ReferenceMissing { path: String },
    /// The reference recording cannot be parsed.
    ReferenceInvalid { path: String, error: WaveError },
    /// The capture cannot be parsed.
    PcapInvalid { error: PcapError },
    /// The captured payload is longer or shorter than the reference.
    PayloadLength { captured: usize, reference: usize },
    /// The captured payload is as long as the reference, but differs.
    PayloadDiffers,
    /// Outside work failed, with this message.
    Outside { message: String },
}

impl StarryError {
    /// The message of the error.
    pub open spec fn text(self) -> Seq<char> {
        match self {
            StarryError::BoardConfigWithoutGroup => {
                "`--board-test-config` requires `--test-group` because board test configs embed a single board_type"@
            },
            StarryError::MissingBoardTestConfig { path } => {
                "missing explicit board test config `"@ + path@ + "`"@
            },
            StarryError::TargetMismatch { arch, expected, target } => {
                "Starry arch `"@ + arch@ + "` maps to target `"@ + expected@ + "`, but got `"@
                    + target@ + "`"@
            },
            StarryError::MissingQemuDefconfig { target } => {
                "missing Starry qemu defconfig for target `"@ + target@
                    + "` in tests; expected a default qemu board config under os/StarryOS/configs/board"@
            },
            StarryError::MissingShDir { path } => "sh directory not found at `"@ + path@ + "`"@,
            StarryError::PcapNotCreated { path } => {
                "usb-audio-iso output pcap `"@ + path@ + "` was not created"@
            },
            StarryError::PcapTooSmall { path } => {
                "usb-audio-iso output pcap `"@ + path@ + "` is too small"@
            },
            StarryError::ReferenceMissing { path } => {
                "usb-audio-iso reference wav `"@ + path@ + "` is missing"@
            },
            StarryError::ReferenceInvalid { path, error } => {
                "failed to parse "@ + path@ + ": "@ + error.text()
            },
            StarryError::PcapInvalid { error } => error.text(),
            StarryError::PayloadLength { captured, reference } => {
                "captured USB payload length "@ + decimal(captured as nat)
                    + " does not match reference "@ + decimal(reference as nat)
            },
            StarryError::PayloadDiffers => "captured USB payload differs from reference"@,
            StarryError::Outside { message } => message@,
        }
    }

    pub fn message(&self) -> (message: String)
        ensures
            message@ == self.text(),
    {
        match self {
            StarryError::BoardConfigWithoutGroup => {
                "`--board-test-config` requires `--test-group` because board test configs embed a single board_type".to_owned()
            },
            StarryError::MissingBoardTestConfig { path } => {
                "missing explicit board test config `".to_owned().concat(path.as_str()).concat("`")
            },
            StarryError::TargetMismatch { arch, expected, target } => {
                "Starry arch `".to_owned().concat(arch.as_str()).concat(
                    "` maps to target `",
                ).concat(expected.as_str()).concat("`, but got `").concat(target.as_str()).concat("`")
            },
            StarryError::MissingQemuDefconfig { target } => {
                "missing Starry qemu defconfig for target `".to_owned().concat(
                    target.as_str(),
                ).concat(
                    "` in tests; expected a default qemu board config under os/StarryOS/configs/board",
                )
            },
            StarryError::MissingShDir { path } => {
                "sh directory not found at `".to_owned().concat(path.as_str()).concat("`")
            },
            StarryError::PcapNotCreated { path } => {
                "usb-audio-iso output pcap `".to_owned().concat(path.as_str()).concat(
                    "` was not created",
                )
            },
            StarryError::PcapTooSmall { path } => {
                "usb-audio-iso output pcap `".to_owned().concat(path.as_str()).concat(
                    "` is too small",
                )
            },
            StarryError::ReferenceMissing { path } => {
                "usb-audio-iso reference wav `".to_owned().concat(path.as_str()).concat(
                    "` is missing",
                )
            },
            StarryError::ReferenceInvalid { path, error } => {
                "failed to parse ".to_owned().concat(path.as_str()).concat(": ").concat(
                    error.message().as_str(),
                )
            },
            StarryError::PcapInvalid { error } => error.message(),
            StarryError::PayloadLength { captured, reference } => {
                "captured USB payload length ".to_owned().concat(
                    decimal_text(*captured).as_str(),
                ).concat(" does not match reference ").concat(decimal_text(*reference).as_str())
            },
            StarryError::PayloadDiffers => "captured USB payload differs from reference".to_owned(),
            StarryError::Outside { message } => message.clone(),
        }
    }
}

/// A message names what it is about as it was given, and in this order: the
/// architecture, the target that it has and the target that was asked for; the
/// length of the capture and that of the reference.
pub proof fn law_messages_name_their_parts(
    arch: String,
    expected: String,
    target: String,
    captured: usize,
    reference: usize,
    path: String,
    error: WaveError,
)
    ensures
        (StarryError::TargetMismatch { arch, expected, target }).text() == "Starry arch `"@ + arch@
            + "` maps to target `"@ + expected@ + "`, but got `"@ + target@ + "`"@,
        (StarryError::PayloadLength { captured, reference }).text()
            == "captured USB payload length "@ + decimal(captured as nat)
            + " does not match reference "@ + decimal(reference as nat),
        (StarryError::ReferenceInvalid { path, error }).text() == "failed to parse "@ + path@
            + ": "@ + error.text(),
{
}

} // verus!
