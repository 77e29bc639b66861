//! What a test case needs on the host: a work directory, a copy of the
//! rootfs, an overlay and USB devices, and the check of what its run leaves.

use vstd::prelude::*;

use crate::error::StarryError;
use crate::listing::{file_order, is_listing, law_listing_names_all_files_once, DirEntry};
use crate::paths::{join, law_join_distinct, law_join_puts_one_separator, path_join};
use crate::pcap::{
    has_pcap_magic, iso_payload, law_capture_read_back, packets_bytes,
    parse_usb_audio_iso_payloads, payload_of, records_of, sized_packet, Packet, FILE_HEADER_LEN,
};
use crate::rootfs::QemuConfig;
use crate::test_suit::StarryQemuCase;
use crate::text::{same_text, texts};
use crate::wave::{
    compare_pcm_payload, law_wave_read_back, parse_pcm_wave_bytes, wave_file, wave_in,
    PayloadMismatch, PcmWave,
};

verus! {

pub const CASE_WORK_ROOT_NAME: &'static str = "starry-cases";

pub const CASE_STAGING_DIR_NAME: &'static str = "staging-root";

pub const CASE_BUILD_DIR_NAME: &'static str = "build";

pub const CASE_OVERLAY_DIR_NAME: &'static str = "overlay";

pub const CASE_COMMAND_WRAPPER_DIR_NAME: &'static str = "guest-bin";

pub const CASE_CROSS_BIN_DIR_NAME: &'static str = "cross-bin";

pub const CASE_CMAKE_TOOLCHAIN_FILE_NAME: &'static str = "cmake-toolchain.cmake";

pub const CASE_APK_CACHE_DIR_NAME: &'static str = "apk-cache";

pub const CASE_SH_DIR_NAME: &'static str = "sh";

pub const CASE_ROOTFS_IMAGE_NAME: &'static str = "rootfs.img";

pub const USB_STICK_IMAGE_NAME: &'static str = "usb-stick.raw";

pub const USB_STICK_IMAGE_SIZE: u64 = 10 * 1024 * 1024;

pub const USB_AUDIO_OUTPUT_PCAP_NAME: &'static str = "usb-audio-iso.pcap";

pub const USB_AUDIO_REFERENCE_WAV_REL_PATH: &'static str = "c/assets/reference.wav";

/// The directories and files of a test case.
#[derive(Debug, Clone, PartialEq, Eq)]
pub struct CaseAssetLayout {
    pub work_dir: String,
    pub staging_root: String,
    pub build_dir: String,
    pub overlay_dir: String,
    pub command_wrapper_dir: String,
    pub cross_bin_dir: String,
    pub cmake_toolchain_file: String,
    pub apk_cache_dir: String,
    pub rootfs_path: String,
    pub usb_stick_path: String,
    pub usb_audio_output_pcap_path: String,
}

/// A check of what a run left on the host.
#[derive(Debug, Clone, PartialEq, Eq)]
pub enum CaseHostPostCheck {
    UsbAudioIso { output_pcap_path: String },
}

/// What QEMU gets for a test case.
#[derive(Debug, Clone, PartialEq, Eq)]
pub struct StarryCaseAssets {
    pub rootfs_path: String,
    pub extra_qemu_args: Vec<String>,
    pub host_post_check: Option<CaseHostPostCheck>,
}

/// The USB devices of a test case.
#[derive(Debug, Clone, Copy, PartialEq, Eq, Structural)]
pub enum UsbQemuProfile {
    Storage,
    AudioIso,
}

/// Work on the file system for a test case.
#[derive(Debug, Clone, PartialEq, Eq)]
pub enum AssetOp {
    /// Create a directory and its parents.
    CreateDirAll { path: String },
    /// Remove a directory with all it holds, if it exists.
    RemoveDirIfPresent { path: String },
    /// Remove a file, if it exists.
    RemoveFileIfPresent { path: String },
    CopyFile { from: String, to: String },
    /// Give a file the mode `rwxr-xr-x`.
    MakeExecutable { path: String },
    /// Create an empty file of a size.
    CreateImage { path: String, size: u64 },
    /// Build the C sources of the case into the rootfs.
    BuildC { rootfs: String },
    /// Put the shell scripts of the case into the rootfs.
    PrepareScripts { rootfs: String },
    /// List the shell scripts of the case and copy them.
    CopyScripts { dir: String, to: String },
    /// Write an overlay into a rootfs.
    InjectOverlay { rootfs: String, overlay: String },
}

/// What prepares a test case, in order, and what QEMU then gets.
#[derive(Debug, Clone, PartialEq, Eq)]
pub struct AssetPlan {
    pub layout: CaseAssetLayout,
    pub ops: Vec<AssetOp>,
    pub assets: StarryCaseAssets,
}

/// How a test case is prepared.
#[derive(Debug, Clone, PartialEq, Eq)]
pub enum CaseAssetWork {
    /// There is nothing to prepare.
    Plain(StarryCaseAssets),
    Prepare(AssetPlan),
}

/// The directory below a workspace in which a target is built.
pub open spec fn target_dir_of(workspace_root: Seq<char>, target: Seq<char>) -> Seq<char> {
    path_join(path_join(workspace_root, "target"@), target)
}

/// The work directory of a test case.
pub open spec fn work_dir_of(
    workspace_root: Seq<char>,
    target: Seq<char>,
    case_name: Seq<char>,
) -> Seq<char> {
    path_join(
        path_join(target_dir_of(workspace_root, target), CASE_WORK_ROOT_NAME@),
        case_name,
    )
}

impl CaseAssetLayout {
    /// Whether this is the layout below a work directory.
    pub open spec fn is_below(self, work_dir: Seq<char>) -> bool {
        &&& self.work_dir@ == work_dir
        &&& self.staging_root@ == path_join(work_dir, CASE_STAGING_DIR_NAME@)
        &&& self.build_dir@ == path_join(work_dir, CASE_BUILD_DIR_NAME@)
        &&& self.overlay_dir@ == path_join(work_dir, CASE_OVERLAY_DIR_NAME@)
        &&& self.command_wrapper_dir@ == path_join(work_dir, CASE_COMMAND_WRAPPER_DIR_NAME@)
        &&& self.cross_bin_dir@ == path_join(work_dir, CASE_CROSS_BIN_DIR_NAME@)
        &&& self.cmake_toolchain_file@ == path_join(work_dir, CASE_CMAKE_TOOLCHAIN_FILE_NAME@)
        &&& self.apk_cache_dir@ == path_join(work_dir, CASE_APK_CACHE_DIR_NAME@)
        &&& self.rootfs_path@ == path_join(work_dir, CASE_ROOTFS_IMAGE_NAME@)
        &&& self.usb_stick_path@ == path_join(work_dir, USB_STICK_IMAGE_NAME@)
        &&& self.usb_audio_output_pcap_path@ == path_join(work_dir, USB_AUDIO_OUTPUT_PCAP_NAME@)
    }

    /// The paths below the work directory.
    pub open spec fn parts(self) -> Seq<Seq<char>> {
        seq![
            self.staging_root@,
            self.build_dir@,
            self.overlay_dir@,
            self.command_wrapper_dir@,
            self.cross_bin_dir@,
            self.cmake_toolchain_file@,
            self.apk_cache_dir@,
            self.rootfs_path@,
            self.usb_stick_path@,
            self.usb_audio_output_pcap_path@,
        ]
    }
}

/// The USB devices that a test case of this name needs.
pub open spec fn usb_profile(case_name: Seq<char>) -> Option<UsbQemuProfile> {
    if case_name == "usb"@ {
        Some(UsbQemuProfile::Storage)
    } else if case_name == "usb-audio-iso"@ {
        Some(UsbQemuProfile::AudioIso)
    } else {
        None
    }
}

/// The QEMU arguments for a USB stick with this backing image.
pub open spec fn usb_args(usb_stick_path: Seq<char>) -> Seq<Seq<char>> {
    seq![
        "-device"@,
        "qemu-xhci,id=xhci"@,
        "-drive"@,
        "if=none,format=raw,file="@ + usb_stick_path + ",id=usbstick0"@,
        "-device"@,
        "usb-storage,drive=usbstick0,bus=xhci.0"@,
    ]
}

/// The QEMU arguments for a USB sound card whose traffic goes to this file.
pub open spec fn usb_audio_args(output_pcap_path: Seq<char>) -> Seq<Seq<char>> {
    seq![
        "-device"@,
        "qemu-xhci,id=xhci"@,
        "-audiodev"@,
        "none,id=aud0"@,
        "-device"@,
        "usb-audio,audiodev=aud0,pcap="@ + output_pcap_path + ",bus=xhci.0"@,
    ]
}

/// Resolves the workspace target directory used for a Starry build target;
/// `arch` is the architecture that is looked up for the target.
pub fn resolve_target_dir(
    workspace_root: &str,
    target: &str,
    arch: Result<String, StarryError>,
) -> (dir: Result<String, StarryError>)
    ensures
        match arch {
            Ok(_) => dir is Ok && dir->Ok_0@ == target_dir_of(workspace_root@, target@),
            Err(error) => dir == Err::<String, StarryError>(error),
        },
{
    match arch {
        Ok(_) => Ok(join(join(workspace_root, "target").as_str(), target)),
        Err(error) => Err(error),
    }
}

/// Returns the shell-script source directory for a Starry test case.
pub fn case_sh_source_dir(case: &StarryQemuCase) -> (dir: String)
    ensures
        dir@ == path_join(case.case_dir@, CASE_SH_DIR_NAME@),
{
    join(case.case_dir.as_str(), CASE_SH_DIR_NAME)
}

/// The USB devices that a test case needs, on every architecture.
pub fn case_usb_qemu_profile(arch: &str, case: &StarryQemuCase) -> (profile: Option<
    UsbQemuProfile,
>)
    ensures
        profile == usb_profile(case.name@),
{
    if same_text(case.name.as_str(), "usb") {
        Some(UsbQemuProfile::Storage)
    } else if same_text(case.name.as_str(), "usb-audio-iso") {
        Some(UsbQemuProfile::AudioIso)
    } else {
        None
    }
}

/// Returns whether a Starry test case needs extra USB-backed QEMU assets.
pub fn case_uses_usb_qemu_assets(arch: &str, case: &StarryQemuCase) -> (uses: bool)
    ensures
        uses == (usb_profile(case.name@) is Some),
{
    case_usb_qemu_profile(arch, case).is_some()
}

/// Builds the working directory layout used for a Starry case asset run.
pub fn case_asset_layout(
    workspace_root: &str,
    target: &str,
    case_name: &str,
    arch: Result<String, StarryError>,
) -> (layout: Result<CaseAssetLayout, StarryError>)
    ensures
        match arch {
            Ok(_) => layout is Ok && layout->Ok_0.is_below(
                work_dir_of(workspace_root@, target@, case_name@),
            ),
            Err(error) => layout == Err::<CaseAssetLayout, StarryError>(error),
        },
{
    let target_dir = match resolve_target_dir(workspace_root, target, arch) {
        Ok(target_dir) => target_dir,
        Err(error) => return Err(error),
    };
    let work_dir = join(join(target_dir.as_str(), CASE_WORK_ROOT_NAME).as_str(), case_name);

    Ok(
        CaseAssetLayout {
            staging_root: join(work_dir.as_str(), CASE_STAGING_DIR_NAME),
            build_dir: join(work_dir.as_str(), CASE_BUILD_DIR_NAME),
            overlay_dir: join(work_dir.as_str(), CASE_OVERLAY_DIR_NAME),
            command_wrapper_dir: join(work_dir.as_str(), CASE_COMMAND_WRAPPER_DIR_NAME),
            cross_bin_dir: join(work_dir.as_str(), CASE_CROSS_BIN_DIR_NAME),
            cmake_toolchain_file: join(work_dir.as_str(), CASE_CMAKE_TOOLCHAIN_FILE_NAME),
            apk_cache_dir: join(work_dir.as_str(), CASE_APK_CACHE_DIR_NAME),
            rootfs_path: join(work_dir.as_str(), CASE_ROOTFS_IMAGE_NAME),
            usb_stick_path: join(work_dir.as_str(), USB_STICK_IMAGE_NAME),
            usb_audio_output_pcap_path: join(work_dir.as_str(), USB_AUDIO_OUTPUT_PCAP_NAME),
            work_dir,
        },
    )
}

/// Returns the extra QEMU arguments used for the synthetic USB backing image.
pub fn usb_qemu_args(usb_stick_path: &str) -> (args: Vec<String>)
    ensures
        texts(args@) == usb_args(usb_stick_path@),
{
    let args = vec![
        "-device".to_owned(),
        "qemu-xhci,id=xhci".to_owned(),
        "-drive".to_owned(),
        "if=none,format=raw,file=".to_owned().concat(usb_stick_path).concat(",id=usbstick0"),
        "-device".to_owned(),
        "usb-storage,drive=usbstick0,bus=xhci.0".to_owned(),
    ];
    assert(texts(args@) =~= usb_args(usb_stick_path@));
    args
}

/// Returns the extra QEMU arguments used for USB audio ISO playback tests.
pub fn usb_audio_qemu_args(output_pcap_path: &str) -> (args: Vec<String>)
    ensures
        texts(args@) == usb_audio_args(output_pcap_path@),
{
    let args = vec![
        "-device".to_owned(),
        "qemu-xhci,id=xhci".to_owned(),
        "-audiodev".to_owned(),
        "none,id=aud0".to_owned(),
        "-device".to_owned(),
        "usb-audio,audiodev=aud0,pcap=".to_owned().concat(output_pcap_path).concat(",bus=xhci.0"),
    ];
    assert(texts(args@) =~= usb_audio_args(output_pcap_path@));
    args
}

/// Resets a directory to an empty existing state.
pub fn reset_dir(path: &String) -> (ops: Vec<AssetOp>)
    ensures
        ops@ == seq![
            AssetOp::RemoveDirIfPresent { path: *path },
            AssetOp::CreateDirAll { path: *path },
        ],
{
    vec![
        AssetOp::RemoveDirIfPresent { path: path.clone() },
        AssetOp::CreateDirAll { path: path.clone() },
    ]
}

/// The work that copies the base rootfs into the work directory.
pub open spec fn rootfs_ops(base_rootfs: String, layout: CaseAssetLayout) -> Seq<AssetOp> {
    seq![
        AssetOp::RemoveFileIfPresent { path: layout.rootfs_path },
        AssetOp::CopyFile { from: base_rootfs, to: layout.rootfs_path },
    ]
}

/// Copies the base managed rootfs into the case work directory before
/// case-specific overlay injection mutates it; gives the path of the copy.
pub fn prepare_case_rootfs(base_rootfs: &String, layout: &CaseAssetLayout) -> (copied: (
    Vec<AssetOp>,
    String,
))
    ensures
        copied.0@ == rootfs_ops(*base_rootfs, *layout),
        copied.1 == layout.rootfs_path,
{
    let ops = vec![
        AssetOp::RemoveFileIfPresent { path: layout.rootfs_path.clone() },
        AssetOp::CopyFile { from: base_rootfs.clone(), to: layout.rootfs_path.clone() },
    ];
    (ops, layout.rootfs_path.clone())
}

/// Creates the empty backing image used for USB-related QEMU test assets.
pub fn create_usb_backing_image(path: &String) -> (op: AssetOp)
    ensures
        op == (AssetOp::CreateImage { path: *path, size: USB_STICK_IMAGE_SIZE }),
{
    AssetOp::CreateImage { path: path.clone(), size: USB_STICK_IMAGE_SIZE }
}

/// The work that puts the C programs or else the shell scripts of a case into
/// a copy of the rootfs.
pub open spec fn pipeline_ops(
    base_rootfs: String,
    layout: CaseAssetLayout,
    uses_c: bool,
    uses_sh: bool,
) -> Seq<AssetOp> {
    if uses_c {
        rootfs_ops(base_rootfs, layout).push(AssetOp::BuildC { rootfs: layout.rootfs_path })
    } else if uses_sh {
        rootfs_ops(base_rootfs, layout).push(AssetOp::PrepareScripts { rootfs: layout.rootfs_path })
    } else {
        Seq::empty()
    }
}

/// The work for the USB devices of a case.
pub open spec fn usb_ops(layout: CaseAssetLayout, profile: Option<UsbQemuProfile>) -> Seq<AssetOp> {
    match profile {
        Some(UsbQemuProfile::Storage) => seq![
            AssetOp::CreateImage { path: layout.usb_stick_path, size: USB_STICK_IMAGE_SIZE },
        ],
        Some(UsbQemuProfile::AudioIso) => seq![
            AssetOp::RemoveFileIfPresent { path: layout.usb_audio_output_pcap_path },
        ],
        None => Seq::empty(),
    }
}

/// All the work for a case.
pub open spec fn case_ops(
    case: StarryQemuCase,
    base_rootfs: String,
    layout: CaseAssetLayout,
    uses_c: bool,
    uses_sh: bool,
) -> Seq<AssetOp> {
    seq![AssetOp::CreateDirAll { path: layout.work_dir }] + pipeline_ops(
        base_rootfs,
        layout,
        uses_c,
        uses_sh,
    ) + usb_ops(layout, usb_profile(case.name@))
}

/// Whether these are the assets of a case.
pub open spec fn assets_of(
    assets: StarryCaseAssets,
    case: StarryQemuCase,
    base_rootfs: String,
    layout: CaseAssetLayout,
    uses_c: bool,
    uses_sh: bool,
) -> bool {
    &&& assets.rootfs_path == (if uses_c || uses_sh {
        layout.rootfs_path
    } else {
        base_rootfs
    })
    &&& texts(assets.extra_qemu_args@) == (match usb_profile(case.name@) {
        Some(UsbQemuProfile::Storage) => usb_args(layout.usb_stick_path@),
        Some(UsbQemuProfile::AudioIso) => usb_audio_args(layout.usb_audio_output_pcap_path@),
        None => Seq::empty(),
    })
    &&& assets.host_post_check == (match usb_profile(case.name@) {
        Some(UsbQemuProfile::AudioIso) => Some(
            CaseHostPostCheck::UsbAudioIso { output_pcap_path: layout.usb_audio_output_pcap_path },
        ),
        _ => None,
    })
}

/// Plans the preparation of a case. `arch_of_target` is the architecture that
/// is looked up for the target; `uses_c` and `uses_sh` say whether the case
/// has a directory with C sources and one with shell scripts.
pub fn prepare_case_assets_sync(
    workspace_root: &str,
    arch: &str,
    target: &str,
    case: &StarryQemuCase,
    base_rootfs: &String,
    arch_of_target: Result<String, StarryError>,
    uses_c: bool,
    uses_sh: bool,
) -> (plan: Result<AssetPlan, StarryError>)
    ensures
        match arch_of_target {
            Err(error) => plan == Err::<AssetPlan, StarryError>(error),
            Ok(_) => {
                &&& plan is Ok
                &&& plan->Ok_0.layout.is_below(work_dir_of(workspace_root@, target@, case.name@))
                &&& plan->Ok_0.ops@ == case_ops(
                    *case,
                    *base_rootfs,
                    plan->Ok_0.layout,
                    uses_c,
                    uses_sh,
                )
                &&& assets_of(
                    plan->Ok_0.assets,
                    *case,
                    *base_rootfs,
                    plan->Ok_0.layout,
                    uses_c,
                    uses_sh,
                )
            },
        },
{
    let layout = match case_asset_layout(
        workspace_root,
        target,
        case.name.as_str(),
        arch_of_target,
    ) {
        Ok(layout) => layout,
        Err(error) => return Err(error),
    };
    let mut ops = vec![AssetOp::CreateDirAll { path: layout.work_dir.clone() }];

    let mut case_rootfs = base_rootfs.clone();
    if uses_c {
        let (mut copy, path) = prepare_case_rootfs(base_rootfs, &layout);
        ops.append(&mut copy);
        ops.push(AssetOp::BuildC { rootfs: path.clone() });
        case_rootfs = path;
    } else if uses_sh {
        let (mut copy, path) = prepare_case_rootfs(base_rootfs, &layout);
        ops.append(&mut copy);
        ops.push(AssetOp::PrepareScripts { rootfs: path.clone() });
        case_rootfs = path;
    }
    assert(ops@ =~= seq![AssetOp::CreateDirAll { path: layout.work_dir }] + pipeline_ops(
        *base_rootfs,
        layout,
        uses_c,
        uses_sh,
    ));

    let (extra_qemu_args, host_post_check) = match case_usb_qemu_profile(arch, case) {
        Some(UsbQemuProfile::Storage) => {
            ops.push(create_usb_backing_image(&layout.usb_stick_path));
            (usb_qemu_args(layout.usb_stick_path.as_str()), None)
        },
        Some(UsbQemuProfile::AudioIso) => {
            ops.push(
                AssetOp::RemoveFileIfPresent { path: layout.usb_audio_output_pcap_path.clone() },
            );
            (
                usb_audio_qemu_args(layout.usb_audio_output_pcap_path.as_str()),
                Some(
                    CaseHostPostCheck::UsbAudioIso {
                        output_pcap_path: layout.usb_audio_output_pcap_path.clone(),
                    },
                ),
            )
        },
        None => (Vec::new(), None),
    };
    assert(ops@ =~= case_ops(*case, *base_rootfs, layout, uses_c, uses_sh));
    assert(usb_profile(case.name@) is None ==> texts(extra_qemu_args@) =~= Seq::empty());

    let assets = StarryCaseAssets { rootfs_path: case_rootfs, extra_qemu_args, host_post_check };
    Ok(AssetPlan { layout, ops, assets })
}

/// Prepares any case-specific rootfs assets required by a Starry QEMU test. A
/// case without sources, scripts and USB devices runs on the rootfs as it is,
/// whatever its target.
pub fn prepare_case_assets(
    workspace_root: &str,
    arch: &str,
    target: &str,
    case: &StarryQemuCase,
    rootfs_path: String,
    arch_of_target: Result<String, StarryError>,
    uses_c: bool,
    uses_sh: bool,
) -> (work: Result<CaseAssetWork, StarryError>)
    ensures
        if !uses_c && !uses_sh && usb_profile(case.name@) is None {
            &&& work is Ok
            &&& work->Ok_0 is Plain
            &&& work->Ok_0->Plain_0.rootfs_path == rootfs_path
            &&& work->Ok_0->Plain_0.extra_qemu_args@ == Seq::<String>::empty()
            &&& work->Ok_0->Plain_0.host_post_check is None
        } else {
            match arch_of_target {
                Err(error) => work == Err::<CaseAssetWork, StarryError>(error),
                Ok(_) => {
                    &&& work is Ok
                    &&& work->Ok_0 is Prepare
                    &&& work->Ok_0->Prepare_0.layout.is_below(
                        work_dir_of(workspace_root@, target@, case.name@),
                    )
                    &&& work->Ok_0->Prepare_0.ops@ == case_ops(
                        *case,
                        rootfs_path,
                        work->Ok_0->Prepare_0.layout,
                        uses_c,
                        uses_sh,
                    )
                    &&& assets_of(
                        work->Ok_0->Prepare_0.assets,
                        *case,
                        rootfs_path,
                        work->Ok_0->Prepare_0.layout,
                        uses_c,
                        uses_sh,
                    )
                },
            }
        },
{
    if !uses_c && !uses_sh && !case_uses_usb_qemu_assets(arch, case) {
        return Ok(
            CaseAssetWork::Plain(
                StarryCaseAssets { rootfs_path, extra_qemu_args: Vec::new(), host_post_check: None },
            ),
        );
    }
    match prepare_case_assets_sync(
        workspace_root,
        arch,
        target,
        case,
        &rootfs_path,
        arch_of_target,
        uses_c,
        uses_sh,
    ) {
        Ok(plan) => Ok(CaseAssetWork::Prepare(plan)),
        Err(error) => Err(error),
    }
}

/// The directory of an overlay that holds its programs.
pub open spec fn program_dir(overlay_dir: Seq<char>) -> Seq<char> {
    path_join(overlay_dir, "usr/bin"@)
}

/// Plans the overlay of a case with shell scripts; `sh_is_dir` says whether
/// the directory with the scripts exists.
pub fn prepare_sh_case_assets_sync(
    case: &StarryQemuCase,
    case_rootfs: &String,
    layout: &CaseAssetLayout,
    sh_is_dir: bool,
) -> (ops: Result<Vec<AssetOp>, StarryError>)
    ensures
        match ops {
            Err(error) => !sh_is_dir && error is MissingShDir && error->MissingShDir_path@
                == path_join(case.case_dir@, CASE_SH_DIR_NAME@),
            Ok(ops) => {
                &&& sh_is_dir
                &&& ops@.len() == 5
                &&& ops@[0] == (AssetOp::RemoveDirIfPresent { path: layout.overlay_dir })
                &&& ops@[1] == (AssetOp::CreateDirAll { path: layout.overlay_dir })
                &&& ops@[2] is CreateDirAll
                &&& ops@[2]->CreateDirAll_path@ == program_dir(layout.overlay_dir@)
                &&& ops@[3] is CopyScripts
                &&& ops@[3]->dir@ == path_join(case.case_dir@, CASE_SH_DIR_NAME@)
                &&& ops@[3]->CopyScripts_to@ == program_dir(layout.overlay_dir@)
                &&& ops@[4] == (AssetOp::InjectOverlay {
                    rootfs: *case_rootfs,
                    overlay: layout.overlay_dir,
                })
            },
        },
{
    let sh_dir = case_sh_source_dir(case);
    if !sh_is_dir {
        return Err(StarryError::MissingShDir { path: sh_dir });
    }
    let mut ops = reset_dir(&layout.overlay_dir);
    let dest_dir = join(layout.overlay_dir.as_str(), "usr/bin");
    ops.push(AssetOp::CreateDirAll { path: dest_dir.clone() });
    ops.push(AssetOp::CopyScripts { dir: sh_dir, to: dest_dir });
    ops.push(
        AssetOp::InjectOverlay {
            rootfs: case_rootfs.clone(),
            overlay: layout.overlay_dir.clone(),
        },
    );
    Ok(ops)
}

/// Whether the `k`th pair of `ops` copies a file of this name and makes the
/// copy executable.
pub open spec fn copies_file(
    ops: Seq<AssetOp>,
    k: int,
    dir: Seq<char>,
    to: Seq<char>,
    name: Seq<char>,
) -> bool {
    &&& ops[2 * k] is CopyFile
    &&& ops[2 * k]->from@ == path_join(dir, name)
    &&& ops[2 * k]->CopyFile_to@ == path_join(to, name)
    &&& ops[2 * k + 1] is MakeExecutable
    &&& ops[2 * k + 1]->MakeExecutable_path@ == path_join(to, name)
}

/// Whether `ops` copies the numbered entries of a directory, one after the
/// other, and makes each copy executable.
pub open spec fn copies(
    ops: Seq<AssetOp>,
    order: Seq<usize>,
    dir: Seq<char>,
    to: Seq<char>,
    entries: Seq<DirEntry>,
) -> bool {
    &&& ops.len() == 2 * order.len()
    &&& forall|k: int|
        0 <= k < order.len() ==> copies_file(
            ops,
            k,
            dir,
            to,
            entries[#[trigger] order[k] as int].name@,
        )
}

/// Plans the copies of the shell scripts in a directory: its files, in the
/// order of their names.
pub fn copy_scripts(dir: &str, to: &str, entries: &Vec<DirEntry>) -> (ops: Vec<AssetOp>)
    ensures
        exists|order: Seq<usize>|
            #![trigger is_listing(order, entries@)]
            is_listing(order, entries@) && copies(ops@, order, dir@, to@, entries@),
{
    let order = file_order(entries);
    let mut ops: Vec<AssetOp> = Vec::new();
    for at in 0..order.len()
        invariant
            is_listing(order@, entries@),
            copies(ops@, order@.take(at as int), dir@, to@, entries@),
    {
        let ghost before = ops@;
        let name = &entries[order[at]].name;
        let dest = join(to, name.as_str());
        ops.push(AssetOp::CopyFile { from: join(dir, name.as_str()), to: dest.clone() });
        ops.push(AssetOp::MakeExecutable { path: dest });
        assert forall|k: int| 0 <= k < at + 1 implies copies_file(
            ops@,
            k,
            dir@,
            to@,
            entries@[#[trigger] order@.take(at + 1)[k] as int].name@,
        ) by {
            if k < at {
                assert(order@.take(at as int)[k] == order@[k]);
                assert(ops@[2 * k] == before[2 * k]);
                assert(ops@[2 * k + 1] == before[2 * k + 1]);
            }
        }
    }
    assert(order@.take(order@.len() as int) =~= order@);
    assert(is_listing(order@, entries@) && copies(ops@, order@, dir@, to@, entries@));
    ops
}

/// Adds the arguments that the assets of a case ask for to a QEMU config,
/// behind those that it has.
pub fn add_case_args(qemu: &mut QemuConfig, assets: &StarryCaseAssets)
    ensures
        texts(final(qemu).args@) == texts(old(qemu).args@) + texts(assets.extra_qemu_args@),
{
    let ghost before = texts(qemu.args@);
    let ghost extra = texts(assets.extra_qemu_args@);
    for at in 0..assets.extra_qemu_args.len()
        invariant
            extra == texts(assets.extra_qemu_args@),
            texts(qemu.args@) == before + extra.take(at as int),
    {
        let ghost so_far = texts(qemu.args@);
        let arg = assets.extra_qemu_args[at].clone();
        qemu.args.push(arg);
        assert(texts(qemu.args@) =~= so_far.push(extra[at as int]));
        assert(extra.take(at + 1) =~= extra.take(at as int).push(extra[at as int]));
        assert(before + extra.take(at + 1) =~= so_far.push(extra[at as int]));
    }
    assert(extra.take(extra.len() as int) =~= extra);
}

/// What is found on the host after a run with USB audio.
pub struct HostOutputs {
    /// Whether the capture is a file.
    pub pcap_is_file: bool,
    /// The size of the capture.
    pub pcap_len: Result<u64, StarryError>,
    /// Whether the reference recording is a file.
    pub reference_is_file: bool,
    /// The bytes of the reference recording.
    pub reference: Result<Vec<u8>, StarryError>,
    /// The bytes of the capture.
    pub pcap: Result<Vec<u8>, StarryError>,
}

/// What is said of a captured payload, held against the reference samples.
pub open spec fn payload_verdict(captured: Seq<u8>, reference: Seq<u8>) -> Result<(), StarryError> {
    if captured.len() != reference.len() {
        Err(
            StarryError::PayloadLength {
                captured: captured.len() as usize,
                reference: reference.len() as usize,
            },
        )
    } else if captured != reference {
        Err(StarryError::PayloadDiffers)
    } else {
        Ok(())
    }
}

/// What is said of the bytes of a capture, held against the reference
/// samples.
pub open spec fn capture_verdict(
    pcap: Result<Vec<u8>, StarryError>,
    reference: Seq<u8>,
) -> Result<(), StarryError> {
    match pcap {
        Err(error) => Err(error),
        Ok(bytes) => match iso_payload(bytes@) {
            Err(error) => Err(StarryError::PcapInvalid { error }),
            Ok(payload) => payload_verdict(payload, reference),
        },
    }
}

/// What is said of the outputs of a run; the first thing that is wrong
/// counts.
pub open spec fn audio_verdict(
    seen: HostOutputs,
    pcap_path: String,
    reference_path: String,
) -> Result<(), StarryError> {
    if !seen.pcap_is_file {
        Err(StarryError::PcapNotCreated { path: pcap_path })
    } else {
        match seen.pcap_len {
            Err(error) => Err(error),
            Ok(len) => if len <= 24 {
                Err(StarryError::PcapTooSmall { path: pcap_path })
            } else if !seen.reference_is_file {
                Err(StarryError::ReferenceMissing { path: reference_path })
            } else {
                match seen.reference {
                    Err(error) => Err(error),
                    Ok(bytes) => match wave_in(bytes@) {
                        Err(error) => Err(
                            StarryError::ReferenceInvalid { path: reference_path, error },
                        ),
                        Ok(wave) => capture_verdict(seen.pcap, wave.data),
                    },
                }
            },
        }
    }
}

/// Validates host-side outputs produced by Starry case-specific QEMU assets;
/// `seen` is what is found where the assets have a check.
pub fn validate_case_host_outputs(
    case: &StarryQemuCase,
    assets: &StarryCaseAssets,
    seen: HostOutputs,
) -> (result: Result<(), StarryError>)
    ensures
        match assets.host_post_check {
            None => result is Ok,
            Some(CaseHostPostCheck::UsbAudioIso { output_pcap_path }) => exists|path: String|
                path@ == reference_path_of(*case) && result == #[trigger] audio_verdict(
                    seen,
                    output_pcap_path,
                    path,
                ),
        },
{
    match &assets.host_post_check {
        Some(CaseHostPostCheck::UsbAudioIso { output_pcap_path }) => {
            validate_usb_audio_iso_output(case, output_pcap_path, seen)
        },
        None => Ok(()),
    }
}

/// The path of the reference recording of a case.
pub open spec fn reference_path_of(case: StarryQemuCase) -> Seq<char> {
    path_join(case.case_dir@, USB_AUDIO_REFERENCE_WAV_REL_PATH@)
}

/// Checks that the audio that went over USB is the reference recording.
pub fn validate_usb_audio_iso_output(
    case: &StarryQemuCase,
    output_pcap_path: &String,
    seen: HostOutputs,
) -> (result: Result<(), StarryError>)
    ensures
        exists|path: String|
            path@ == reference_path_of(*case) && result == #[trigger] audio_verdict(
                seen,
                *output_pcap_path,
                path,
            ),
{
    let reference_wav_path = join(case.case_dir.as_str(), USB_AUDIO_REFERENCE_WAV_REL_PATH);
    let ghost verdict = audio_verdict(seen, *output_pcap_path, reference_wav_path);
    if !seen.pcap_is_file {
        return Err(StarryError::PcapNotCreated { path: output_pcap_path.clone() });
    }
    let len: u64 = match seen.pcap_len {
        Ok(len) => len,
        Err(error) => return Err(error),
    };
    if len <= 24 {
        return Err(StarryError::PcapTooSmall { path: output_pcap_path.clone() });
    }
    if !seen.reference_is_file {
        return Err(StarryError::ReferenceMissing { path: reference_wav_path });
    }
    let reference_bytes = match seen.reference {
        Ok(bytes) => bytes,
        Err(error) => return Err(error),
    };
    let reference = match parse_pcm_wave_bytes(reference_bytes.as_slice()) {
        Ok(reference) => reference,
        Err(error) => {
            return Err(StarryError::ReferenceInvalid { path: reference_wav_path, error });
        },
    };
    let pcap_bytes = match seen.pcap {
        Ok(bytes) => bytes,
        Err(error) => return Err(error),
    };
    let output_payload = match parse_usb_audio_iso_payloads(pcap_bytes.as_slice()) {
        Ok(payload) => payload,
        Err(error) => return Err(StarryError::PcapInvalid { error }),
    };
    match compare_pcm_payload(&reference, output_payload.as_slice()) {
        Ok(_) => Ok(()),
        Err(PayloadMismatch::Length { captured, reference }) => Err(
            StarryError::PayloadLength { captured, reference },
        ),
        Err(PayloadMismatch::Bytes) => Err(StarryError::PayloadDiffers),
    }
}

/// The check of a run passes exactly when there is a capture with more than a
/// header, the reference recording can be read, and the audio in the capture
/// is the samples of the recording.
pub proof fn law_host_check_compares_audio(
    seen: HostOutputs,
    pcap_path: String,
    reference_path: String,
)
    ensures
        audio_verdict(seen, pcap_path, reference_path) is Ok <==> {
            &&& seen.pcap_is_file
            &&& seen.pcap_len is Ok
            &&& seen.pcap_len->Ok_0 > 24
            &&& seen.reference_is_file
            &&& seen.reference is Ok
            &&& seen.pcap is Ok
            &&& wave_in(seen.reference->Ok_0@) is Ok
            &&& iso_payload(seen.pcap->Ok_0@) is Ok
            &&& iso_payload(seen.pcap->Ok_0@)->Ok_0 == wave_in(seen.reference->Ok_0@)->Ok_0.data
        },
{
}

/// A run passes the check if its capture holds packets whose isochronous OUT
/// data is the samples of the reference recording, at least one byte of them.
pub proof fn law_faithful_playback_passes(
    seen: HostOutputs,
    wave: PcmWave,
    riff_size: u32,
    header: Seq<u8>,
    packets: Seq<Packet>,
    pcap_path: String,
    reference_path: String,
)
    requires
        0 < wave.data.len() <= u32::MAX,
        header.len() == FILE_HEADER_LEN,
        has_pcap_magic(header),
        forall|i: int| 0 <= i < packets.len() ==> sized_packet(#[trigger] packets[i]),
        payload_of(records_of(packets)) == wave.data,
        seen.pcap_is_file,
        seen.pcap is Ok,
        seen.pcap->Ok_0@ == header + packets_bytes(packets),
        seen.pcap_len is Ok,
        seen.pcap_len->Ok_0 == seen.pcap->Ok_0@.len(),
        seen.reference_is_file,
        seen.reference is Ok,
        seen.reference->Ok_0@ == wave_file(wave, riff_size),
    ensures
        audio_verdict(seen, pcap_path, reference_path) is Ok,
{
    law_wave_read_back(wave, riff_size);
    law_capture_read_back(header, packets);
    if packets.len() == 0 {
        assert(payload_of(records_of(packets)) =~= Seq::empty());
    }
    assert(packets_bytes(packets).len() > 0) by {
        assert(sized_packet(packets[0]));
    }
}

/// The path that a piece of work writes or removes. Building the C sources
/// and putting the scripts in place are given the rootfs that they change.
pub open spec fn changed_path(op: AssetOp) -> Seq<char> {
    match op {
        AssetOp::CreateDirAll { path } => path@,
        AssetOp::RemoveDirIfPresent { path } => path@,
        AssetOp::RemoveFileIfPresent { path } => path@,
        AssetOp::CopyFile { from, to } => to@,
        AssetOp::MakeExecutable { path } => path@,
        AssetOp::CreateImage { path, size } => path@,
        AssetOp::BuildC { rootfs } => rootfs@,
        AssetOp::PrepareScripts { rootfs } => rootfs@,
        AssetOp::CopyScripts { dir, to } => to@,
        AssetOp::InjectOverlay { rootfs, overlay } => rootfs@,
    }
}

/// The files of a case are different files.
pub proof fn law_layout_distinct(layout: CaseAssetLayout, work_dir: Seq<char>)
    requires
        layout.is_below(work_dir),
    ensures
        forall|i: int, j: int|
            0 <= i < j < layout.parts().len() ==> #[trigger] layout.parts()[i]
                != #[trigger] layout.parts()[j],
{
    lemma_part_names();
    let names = part_names();
    assert forall|i: int, j: int| 0 <= i < j < layout.parts().len() implies #[trigger] layout.parts()[i]
        != #[trigger] layout.parts()[j] by {
        assert(layout.parts()[i] == path_join(work_dir, names[i]));
        assert(layout.parts()[j] == path_join(work_dir, names[j]));
        if layout.parts()[i] == layout.parts()[j] {
            law_join_distinct(work_dir, names[i], names[j]);
        }
    }
}

/// The work for a case changes only its work directory and files in it, and
/// not the base rootfs, unless that is one of them.
pub proof fn law_case_changes_own_files(
    case: StarryQemuCase,
    base_rootfs: String,
    layout: CaseAssetLayout,
    work_dir: Seq<char>,
    uses_c: bool,
    uses_sh: bool,
)
    requires
        layout.is_below(work_dir),
    ensures
        forall|i: int|
            0 <= i < case_ops(case, base_rootfs, layout, uses_c, uses_sh).len() ==> {
                let path = changed_path(
                    #[trigger] case_ops(case, base_rootfs, layout, uses_c, uses_sh)[i],
                );
                path == work_dir || layout.parts().contains(path)
            },
{
    let parts = layout.parts();
    assert(parts[7] == layout.rootfs_path@);
    assert(parts[8] == layout.usb_stick_path@);
    assert(parts[9] == layout.usb_audio_output_pcap_path@);
}

/// Preparing a case leaves the base rootfs as it is, unless that is itself the
/// work directory or a file in it.
pub proof fn law_base_rootfs_kept(
    case: StarryQemuCase,
    base_rootfs: String,
    layout: CaseAssetLayout,
    work_dir: Seq<char>,
    uses_c: bool,
    uses_sh: bool,
)
    requires
        layout.is_below(work_dir),
        base_rootfs@ != work_dir,
        !layout.parts().contains(base_rootfs@),
    ensures
        forall|i: int|
            0 <= i < case_ops(case, base_rootfs, layout, uses_c, uses_sh).len() ==> changed_path(
                #[trigger] case_ops(case, base_rootfs, layout, uses_c, uses_sh)[i],
            ) != base_rootfs@,
{
    law_case_changes_own_files(case, base_rootfs, layout, work_dir, uses_c, uses_sh);
}

/// The names of the files of a case.
spec fn part_names() -> Seq<Seq<char>> {
    seq![
        CASE_STAGING_DIR_NAME@,
        CASE_BUILD_DIR_NAME@,
        CASE_OVERLAY_DIR_NAME@,
        CASE_COMMAND_WRAPPER_DIR_NAME@,
        CASE_CROSS_BIN_DIR_NAME@,
        CASE_CMAKE_TOOLCHAIN_FILE_NAME@,
        CASE_APK_CACHE_DIR_NAME@,
        CASE_ROOTFS_IMAGE_NAME@,
        USB_STICK_IMAGE_NAME@,
        USB_AUDIO_OUTPUT_PCAP_NAME@,
    ]
}

proof fn lemma_part_names()
    ensures
        forall|i: int|
            0 <= i < part_names().len() ==> (#[trigger] part_names()[i]).len() > 0
                && part_names()[i][0] != '/',
        forall|i: int, j: int|
            0 <= i < j < part_names().len() ==> #[trigger] part_names()[i]
                != #[trigger] part_names()[j],
{
    reveal_strlit("staging-root");
    reveal_strlit("build");
    reveal_strlit("overlay");
    reveal_strlit("guest-bin");
    reveal_strlit("cross-bin");
    reveal_strlit("cmake-toolchain.cmake");
    reveal_strlit("apk-cache");
    reveal_strlit("rootfs.img");
    reveal_strlit("usb-stick.raw");
    reveal_strlit("usb-audio-iso.pcap");
    assert forall|i: int, j: int| 0 <= i < j < part_names().len() implies #[trigger] part_names()[i]
        != #[trigger] part_names()[j] by {
        let (left, right) = (part_names()[i], part_names()[j]);
        assert(left.len() != right.len() || left[0] != right[0] || left[1] != right[1]);
    }
}

/// The work directory of a case stands below the target directory of the
/// workspace, for names that are no absolute paths.
pub proof fn law_work_dir_below_target(
    workspace_root: Seq<char>,
    target: Seq<char>,
    case_name: Seq<char>,
)
    requires
        workspace_root.len() > 0 && workspace_root.last() != '/',
        target.len() > 0 && target[0] != '/' && target.last() != '/',
        case_name.len() == 0 || case_name[0] != '/',
    ensures
        target_dir_of(workspace_root, target) == workspace_root + "/target/"@ + target,
        work_dir_of(workspace_root, target, case_name) == workspace_root + "/target/"@ + target
            + "/starry-cases/"@ + case_name,
{
    let below = workspace_root + "/target"@;
    let dir = workspace_root + "/target/"@ + target;
    let cases = dir + "/starry-cases"@;
    assert(path_join(workspace_root, "target"@) == below && below.last() == 't') by {
        reveal_strlit("target");
        reveal_strlit("/target");
        assert("/target"@ =~= seq!['/'] + "target"@);
        lemma_part_behind_separator(workspace_root, "target"@, "/target"@);
    }
    assert(target_dir_of(workspace_root, target) == dir) by {
        reveal_strlit("/target");
        reveal_strlit("/target/");
        assert("/target"@.push('/') =~= "/target/"@);
        law_join_puts_one_separator(below, target);
        assert(below.push('/') + target =~= dir);
    }
    assert(dir.last() == target.last());
    assert(path_join(dir, CASE_WORK_ROOT_NAME@) == cases && cases.last() == 's') by {
        reveal_strlit("starry-cases");
        reveal_strlit("/starry-cases");
        assert("/starry-cases"@ =~= seq!['/'] + "starry-cases"@);
        lemma_part_behind_separator(dir, "starry-cases"@, "/starry-cases"@);
    }
    assert(work_dir_of(workspace_root, target, case_name) == dir + "/starry-cases/"@
        + case_name) by {
        reveal_strlit("/starry-cases");
        reveal_strlit("/starry-cases/");
        assert("/starry-cases"@.push('/') =~= "/starry-cases/"@);
        law_join_puts_one_separator(cases, case_name);
        assert(cases.push('/') + case_name =~= dir + "/starry-cases/"@ + case_name);
    }
}

/// A part goes behind a directory with one separator between them.
proof fn lemma_part_behind_separator(dir: Seq<char>, part: Seq<char>, behind: Seq<char>)
    requires
        dir.len() > 0 && dir.last() != '/',
        part.len() == 0 || part[0] != '/',
        behind == seq!['/'] + part,
    ensures
        path_join(dir, part) == dir + behind,
{
    law_join_puts_one_separator(dir, part);
    assert(dir.push('/') + part =~= dir + behind);
}

/// The files of a case stand in its work directory, each under its own name.
pub proof fn law_files_in_work_dir(layout: CaseAssetLayout, work_dir: Seq<char>)
    requires
        layout.is_below(work_dir),
        work_dir.len() > 0 && work_dir.last() != '/',
    ensures
        layout.work_dir@ == work_dir,
        layout.staging_root@ == work_dir + "/staging-root"@,
        layout.build_dir@ == work_dir + "/build"@,
        layout.overlay_dir@ == work_dir + "/overlay"@,
        layout.command_wrapper_dir@ == work_dir + "/guest-bin"@,
        layout.cross_bin_dir@ == work_dir + "/cross-bin"@,
        layout.cmake_toolchain_file@ == work_dir + "/cmake-toolchain.cmake"@,
        layout.apk_cache_dir@ == work_dir + "/apk-cache"@,
        layout.rootfs_path@ == work_dir + "/rootfs.img"@,
        layout.usb_stick_path@ == work_dir + "/usb-stick.raw"@,
        layout.usb_audio_output_pcap_path@ == work_dir + "/usb-audio-iso.pcap"@,
{
    assert(layout.staging_root@ == work_dir + "/staging-root"@) by {
        reveal_strlit("staging-root");
        reveal_strlit("/staging-root");
        assert("/staging-root"@ =~= seq!['/'] + "staging-root"@);
        lemma_part_behind_separator(work_dir, "staging-root"@, "/staging-root"@);
    }
    assert(layout.build_dir@ == work_dir + "/build"@) by {
        reveal_strlit("build");
        reveal_strlit("/build");
        assert("/build"@ =~= seq!['/'] + "build"@);
        lemma_part_behind_separator(work_dir, "build"@, "/build"@);
    }
    assert(layout.overlay_dir@ == work_dir + "/overlay"@) by {
        reveal_strlit("overlay");
        reveal_strlit("/overlay");
        assert("/overlay"@ =~= seq!['/'] + "overlay"@);
        lemma_part_behind_separator(work_dir, "overlay"@, "/overlay"@);
    }
    assert(layout.command_wrapper_dir@ == work_dir + "/guest-bin"@) by {
        reveal_strlit("guest-bin");
        reveal_strlit("/guest-bin");
        assert("/guest-bin"@ =~= seq!['/'] + "guest-bin"@);
        lemma_part_behind_separator(work_dir, "guest-bin"@, "/guest-bin"@);
    }
    assert(layout.cross_bin_dir@ == work_dir + "/cross-bin"@) by {
        reveal_strlit("cross-bin");
        reveal_strlit("/cross-bin");
        assert("/cross-bin"@ =~= seq!['/'] + "cross-bin"@);
        lemma_part_behind_separator(work_dir, "cross-bin"@, "/cross-bin"@);
    }
    assert(layout.cmake_toolchain_file@ == work_dir + "/cmake-toolchain.cmake"@) by {
        reveal_strlit("cmake-toolchain.cmake");
        reveal_strlit("/cmake-toolchain.cmake");
        assert("/cmake-toolchain.cmake"@ =~= seq!['/'] + "cmake-toolchain.cmake"@);
        lemma_part_behind_separator(work_dir, "cmake-toolchain.cmake"@, "/cmake-toolchain.cmake"@);
    }
    assert(layout.apk_cache_dir@ == work_dir + "/apk-cache"@) by {
        reveal_strlit("apk-cache");
        reveal_strlit("/apk-cache");
        assert("/apk-cache"@ =~= seq!['/'] + "apk-cache"@);
        lemma_part_behind_separator(work_dir, "apk-cache"@, "/apk-cache"@);
    }
    assert(layout.rootfs_path@ == work_dir + "/rootfs.img"@) by {
        reveal_strlit("rootfs.img");
        reveal_strlit("/rootfs.img");
        assert("/rootfs.img"@ =~= seq!['/'] + "rootfs.img"@);
        lemma_part_behind_separator(work_dir, "rootfs.img"@, "/rootfs.img"@);
    }
    assert(layout.usb_stick_path@ == work_dir + "/usb-stick.raw"@) by {
        reveal_strlit("usb-stick.raw");
        reveal_strlit("/usb-stick.raw");
        assert("/usb-stick.raw"@ =~= seq!['/'] + "usb-stick.raw"@);
        lemma_part_behind_separator(work_dir, "usb-stick.raw"@, "/usb-stick.raw"@);
    }
    assert(layout.usb_audio_output_pcap_path@ == work_dir + "/usb-audio-iso.pcap"@) by {
        reveal_strlit("usb-audio-iso.pcap");
        reveal_strlit("/usb-audio-iso.pcap");
        assert("/usb-audio-iso.pcap"@ =~= seq!['/'] + "usb-audio-iso.pcap"@);
        lemma_part_behind_separator(work_dir, "usb-audio-iso.pcap"@, "/usb-audio-iso.pcap"@);
    }
}

/// Only the cases `usb` and `usb-audio-iso` get USB devices: a stick with an
/// image of ten mebibytes that is made anew, or a sound card whose capture of
/// an earlier run is removed and whose capture of this run is checked.
pub proof fn law_usb_devices_of_cases(
    case: StarryQemuCase,
    base_rootfs: String,
    layout: CaseAssetLayout,
    assets: StarryCaseAssets,
    uses_c: bool,
    uses_sh: bool,
)
    requires
        assets_of(assets, case, base_rootfs, layout, uses_c, uses_sh),
    ensures
        case.name@ == "usb"@ ==> {
            &&& case_ops(case, base_rootfs, layout, uses_c, uses_sh).last() == (
            AssetOp::CreateImage { path: layout.usb_stick_path, size: 10485760 })
            &&& assets.extra_qemu_args@.len() == 6
            &&& assets.extra_qemu_args@[0]@ == "-device"@
            &&& assets.extra_qemu_args@[1]@ == "qemu-xhci,id=xhci"@
            &&& assets.extra_qemu_args@[2]@ == "-drive"@
            &&& assets.extra_qemu_args@[3]@ == "if=none,format=raw,file="@ + layout.usb_stick_path@
                + ",id=usbstick0"@
            &&& assets.extra_qemu_args@[4]@ == "-device"@
            &&& assets.extra_qemu_args@[5]@ == "usb-storage,drive=usbstick0,bus=xhci.0"@
            &&& assets.host_post_check is None
        },
        case.name@ == "usb-audio-iso"@ ==> {
            &&& case_ops(case, base_rootfs, layout, uses_c, uses_sh).last() == (
            AssetOp::RemoveFileIfPresent { path: layout.usb_audio_output_pcap_path })
            &&& assets.extra_qemu_args@.len() == 6
            &&& assets.extra_qemu_args@[0]@ == "-device"@
            &&& assets.extra_qemu_args@[1]@ == "qemu-xhci,id=xhci"@
            &&& assets.extra_qemu_args@[2]@ == "-audiodev"@
            &&& assets.extra_qemu_args@[3]@ == "none,id=aud0"@
            &&& assets.extra_qemu_args@[4]@ == "-device"@
            &&& assets.extra_qemu_args@[5]@ == "usb-audio,audiodev=aud0,pcap="@
                + layout.usb_audio_output_pcap_path@ + ",bus=xhci.0"@
            &&& assets.host_post_check == Some(
                CaseHostPostCheck::UsbAudioIso {
                    output_pcap_path: layout.usb_audio_output_pcap_path,
                },
            )
        },
        case.name@ != "usb"@ && case.name@ != "usb-audio-iso"@ ==> {
            &&& assets.extra_qemu_args@.len() == 0
            &&& assets.host_post_check is None
        },
{
    reveal_strlit("usb");
    reveal_strlit("usb-audio-iso");
    assert("usb"@.len() != "usb-audio-iso"@.len());
    let args = texts(assets.extra_qemu_args@);
    assert(args.len() == assets.extra_qemu_args@.len());
    assert forall|i: int| 0 <= i < args.len() implies args[i]
        == #[trigger] assets.extra_qemu_args@[i]@ by {}
}

/// A case with C sources or shell scripts runs on a fresh copy of the base
/// rootfs, into which the sources, or else the scripts, are put; any other
/// case runs on the base rootfs, which is not copied.
pub proof fn law_case_runs_on_fresh_copy(
    case: StarryQemuCase,
    base_rootfs: String,
    layout: CaseAssetLayout,
    assets: StarryCaseAssets,
    uses_c: bool,
    uses_sh: bool,
)
    requires
        assets_of(assets, case, base_rootfs, layout, uses_c, uses_sh),
    ensures
        ({
            let ops = case_ops(case, base_rootfs, layout, uses_c, uses_sh);
            &&& ops.len() > 0
            &&& ops[0] == (AssetOp::CreateDirAll { path: layout.work_dir })
            &&& uses_c || uses_sh ==> {
                &&& ops.len() >= 4
                &&& ops[1] == (AssetOp::RemoveFileIfPresent { path: layout.rootfs_path })
                &&& ops[2] == (AssetOp::CopyFile { from: base_rootfs, to: layout.rootfs_path })
                &&& uses_c ==> ops[3] == (AssetOp::BuildC { rootfs: layout.rootfs_path })
                &&& !uses_c ==> ops[3] == (AssetOp::PrepareScripts { rootfs: layout.rootfs_path })
                &&& assets.rootfs_path == layout.rootfs_path
            }
            &&& !uses_c && !uses_sh ==> {
                &&& assets.rootfs_path == base_rootfs
                &&& forall|i: int| 0 <= i < ops.len() ==> !((#[trigger] ops[i]) is CopyFile)
            }
        }),
{
}

/// The first thing that is wrong with the outputs of a run is what is said of
/// them, in this order: the capture, its size, the recording, its bytes, the
/// bytes of the capture, the length of the audio, the audio.
pub proof fn law_first_wrong_output_is_named(
    seen: HostOutputs,
    pcap_path: String,
    reference_path: String,
)
    ensures
        ({
            let verdict = audio_verdict(seen, pcap_path, reference_path);
            let sized = seen.pcap_is_file && seen.pcap_len is Ok;
            let large = sized && seen.pcap_len->Ok_0 > 24;
            let read = large && seen.reference_is_file && seen.reference is Ok;
            let parsed = read && wave_in(seen.reference->Ok_0@) is Ok;
            let captured = parsed && seen.pcap is Ok;
            let both = captured && iso_payload(seen.pcap->Ok_0@) is Ok;
            let payload = iso_payload(seen.pcap->Ok_0@)->Ok_0;
            let samples = wave_in(seen.reference->Ok_0@)->Ok_0.data;
            &&& !seen.pcap_is_file ==> verdict == Err::<(), StarryError>(
                StarryError::PcapNotCreated { path: pcap_path },
            )
            &&& seen.pcap_is_file && seen.pcap_len is Err ==> verdict == Err::<(), StarryError>(
                seen.pcap_len->Err_0,
            )
            &&& sized && seen.pcap_len->Ok_0 <= 24 ==> verdict == Err::<(), StarryError>(
                StarryError::PcapTooSmall { path: pcap_path },
            )
            &&& large && !seen.reference_is_file ==> verdict == Err::<(), StarryError>(
                StarryError::ReferenceMissing { path: reference_path },
            )
            &&& large && seen.reference_is_file && seen.reference is Err ==> verdict == Err::<
                (),
                StarryError,
            >(seen.reference->Err_0)
            &&& read && wave_in(seen.reference->Ok_0@) is Err ==> verdict == Err::<(), StarryError>(
                StarryError::ReferenceInvalid {
                    path: reference_path,
                    error: wave_in(seen.reference->Ok_0@)->Err_0,
                },
            )
            &&& parsed && seen.pcap is Err ==> verdict == Err::<(), StarryError>(seen.pcap->Err_0)
            &&& captured && iso_payload(seen.pcap->Ok_0@) is Err ==> verdict == Err::<
                (),
                StarryError,
            >(StarryError::PcapInvalid { error: iso_payload(seen.pcap->Ok_0@)->Err_0 })
            &&& both && payload.len() != samples.len() ==> verdict == Err::<(), StarryError>(
                StarryError::PayloadLength {
                    captured: payload.len() as usize,
                    reference: samples.len() as usize,
                },
            )
            &&& both && payload.len() == samples.len() && payload != samples ==> verdict == Err::<
                (),
                StarryError,
            >(StarryError::PayloadDiffers)
            &&& both && payload == samples ==> verdict is Ok
        }),
{
}

/// The scripts of a case go to `usr/bin` of its overlay, and its reference
/// recording stands in its directory.
pub proof fn law_places_of_scripts_and_recording(case: StarryQemuCase, overlay_dir: Seq<char>)
    requires
        overlay_dir.len() > 0 && overlay_dir.last() != '/',
        case.case_dir@.len() > 0 && case.case_dir@.last() != '/',
    ensures
        program_dir(overlay_dir) == overlay_dir + "/usr/bin"@,
        reference_path_of(case) == case.case_dir@ + "/c/assets/reference.wav"@,
        path_join(case.case_dir@, CASE_SH_DIR_NAME@) == case.case_dir@ + "/sh"@,
{
    assert(program_dir(overlay_dir) == overlay_dir + "/usr/bin"@) by {
        reveal_strlit("usr/bin");
        reveal_strlit("/usr/bin");
        assert("/usr/bin"@ =~= seq!['/'] + "usr/bin"@);
        lemma_part_behind_separator(overlay_dir, "usr/bin"@, "/usr/bin"@);
    }
    assert(reference_path_of(case) == case.case_dir@ + "/c/assets/reference.wav"@) by {
        reveal_strlit("c/assets/reference.wav");
        reveal_strlit("/c/assets/reference.wav");
        assert("/c/assets/reference.wav"@ =~= seq!['/'] + "c/assets/reference.wav"@);
        lemma_part_behind_separator(
            case.case_dir@,
            "c/assets/reference.wav"@,
            "/c/assets/reference.wav"@,
        );
    }
    assert(path_join(case.case_dir@, CASE_SH_DIR_NAME@) == case.case_dir@ + "/sh"@) by {
        reveal_strlit("sh");
        reveal_strlit("/sh");
        assert("/sh"@ =~= seq!['/'] + "sh"@);
        lemma_part_behind_separator(case.case_dir@, "sh"@, "/sh"@);
    }
}

/// Every file of a directory, and nothing else, is copied under its own name,
/// once, and its copy is then made executable.
pub proof fn law_every_script_copied(
    ops: Seq<AssetOp>,
    order: Seq<usize>,
    dir: Seq<char>,
    to: Seq<char>,
    entries: Seq<DirEntry>,
    entry: usize,
) -> (at: int)
    requires
        is_listing(order, entries),
        copies(ops, order, dir, to, entries),
        entry < entries.len(),
        entries[entry as int].is_file,
    ensures
        0 <= at < ops.len() - 1,
        ops[at] is CopyFile,
        ops[at]->from@ == path_join(dir, entries[entry as int].name@),
        ops[at]->CopyFile_to@ == path_join(to, entries[entry as int].name@),
        ops[at + 1] is MakeExecutable,
        ops[at + 1]->MakeExecutable_path@ == path_join(to, entries[entry as int].name@),
        ops.len() == 2 * order.len(),
        forall|k: int|
            0 <= k < order.len() ==> (#[trigger] order[k]) < entries.len()
                && entries[order[k] as int].is_file,
{
    law_listing_names_all_files_once(order, entries);
    assert(order.contains(entry));
    let k = choose|k: int| 0 <= k < order.len() && order[k] == entry;
    assert(copies_file(ops, k, dir, to, entries[order[k] as int].name@));
    2 * k
}

} // verus!
