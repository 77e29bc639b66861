use starry::case_assets::{
    case_asset_layout, case_sh_source_dir, case_usb_qemu_profile, case_uses_usb_qemu_assets,
    copy_scripts, create_usb_backing_image, prepare_case_assets, prepare_case_assets_sync,
    prepare_case_rootfs, prepare_sh_case_assets_sync, reset_dir, resolve_target_dir,
    usb_audio_qemu_args, usb_qemu_args, validate_case_host_outputs, validate_usb_audio_iso_output,
    AssetOp, CaseAssetLayout, CaseAssetWork, CaseHostPostCheck, HostOutputs, StarryCaseAssets,
    UsbQemuProfile, USB_STICK_IMAGE_SIZE,
};
use starry::error::StarryError;
use starry::listing::{file_order, stands_before, DirEntry};
use starry::pcap::PcapError;
use starry::test_suit::StarryQemuCase;
use starry::wave::WaveError;
use tempfile::tempdir;

fn text(path: std::path::PathBuf) -> String {
    path.to_str().unwrap().to_string()
}

fn fake_case(root: &str, name: &str) -> StarryQemuCase {
    let case_dir = format!("{root}/test-suit/starryos/normal/{name}");
    StarryQemuCase {
        name: name.to_string(),
        case_dir: case_dir.clone(),
        qemu_config_path: format!("{case_dir}/qemu-aarch64.toml"),
        build_config_path: None,
    }
}

fn layout_of(name: &str) -> CaseAssetLayout {
    case_asset_layout("/ws", "t", name, Ok("aarch64".to_string())).unwrap()
}

fn outside(message: &str) -> StarryError {
    StarryError::Outside { message: message.to_string() }
}

#[test]
fn resolve_target_dir_uses_workspace_target_directory() {
    let root = tempdir().unwrap();
    let dir = resolve_target_dir(
        root.path().to_str().unwrap(),
        "x86_64-unknown-none",
        Ok("x86_64".to_string()),
    )
    .unwrap();

    assert_eq!(dir, text(root.path().join("target/x86_64-unknown-none")));
}

#[test]
fn resolve_target_dir_fails_where_the_target_is_unknown() {
    let error = resolve_target_dir("/ws", "vax", Err(outside("unknown target"))).unwrap_err();
    assert_eq!(error, outside("unknown target"));
}

#[test]
fn case_asset_layout_and_usb_qemu_args_use_stable_paths() {
    let root = tempdir().unwrap();
    let layout = case_asset_layout(
        root.path().to_str().unwrap(),
        "aarch64-unknown-none-softfloat",
        "usb",
        Ok("aarch64".to_string()),
    )
    .unwrap();

    assert_eq!(
        layout.work_dir,
        text(
            root.path()
                .join("target/aarch64-unknown-none-softfloat/starry-cases/usb")
        )
    );
    assert_eq!(
        layout.usb_audio_output_pcap_path,
        text(
            root.path()
                .join("target/aarch64-unknown-none-softfloat/starry-cases/usb/usb-audio-iso.pcap")
        )
    );
    assert_eq!(
        usb_qemu_args(&layout.usb_stick_path),
        vec![
            "-device".to_string(),
            "qemu-xhci,id=xhci".to_string(),
            "-drive".to_string(),
            format!(
                "if=none,format=raw,file={},id=usbstick0",
                layout.usb_stick_path
            ),
            "-device".to_string(),
            "usb-storage,drive=usbstick0,bus=xhci.0".to_string(),
        ]
    );
}

#[test]
fn usb_audio_qemu_args_use_stable_paths() {
    let root = tempdir().unwrap();
    let layout = case_asset_layout(
        root.path().to_str().unwrap(),
        "aarch64-unknown-none-softfloat",
        "usb-audio-iso",
        Ok("aarch64".to_string()),
    )
    .unwrap();

    assert_eq!(
        usb_audio_qemu_args(&layout.usb_audio_output_pcap_path),
        vec![
            "-device".to_string(),
            "qemu-xhci,id=xhci".to_string(),
            "-audiodev".to_string(),
            "none,id=aud0".to_string(),
            "-device".to_string(),
            format!(
                "usb-audio,audiodev=aud0,pcap={},bus=xhci.0",
                layout.usb_audio_output_pcap_path
            ),
        ]
    );
}

#[test]
fn layout_names_every_file_below_the_work_directory() {
    let layout = layout_of("smoke");
    let work = "/ws/target/t/starry-cases/smoke";
    assert_eq!(
        layout,
        CaseAssetLayout {
            work_dir: work.to_string(),
            staging_root: format!("{work}/staging-root"),
            build_dir: format!("{work}/build"),
            overlay_dir: format!("{work}/overlay"),
            command_wrapper_dir: format!("{work}/guest-bin"),
            cross_bin_dir: format!("{work}/cross-bin"),
            cmake_toolchain_file: format!("{work}/cmake-toolchain.cmake"),
            apk_cache_dir: format!("{work}/apk-cache"),
            rootfs_path: format!("{work}/rootfs.img"),
            usb_stick_path: format!("{work}/usb-stick.raw"),
            usb_audio_output_pcap_path: format!("{work}/usb-audio-iso.pcap"),
        }
    );
    assert!(case_asset_layout("/ws", "t", "smoke", Err(outside("no"))).is_err());
}

#[test]
fn layout_files_differ() {
    let layout = layout_of("usb");
    let mut paths = vec![
        layout.staging_root,
        layout.build_dir,
        layout.overlay_dir,
        layout.command_wrapper_dir,
        layout.cross_bin_dir,
        layout.cmake_toolchain_file,
        layout.apk_cache_dir,
        layout.rootfs_path,
        layout.usb_stick_path,
        layout.usb_audio_output_pcap_path,
    ];
    paths.sort();
    paths.dedup();
    assert_eq!(paths.len(), 10);
}

#[test]
fn usb_profile_goes_by_the_name_of_the_case() {
    assert_eq!(
        case_usb_qemu_profile("aarch64", &fake_case("/ws", "usb")),
        Some(UsbQemuProfile::Storage)
    );
    assert_eq!(
        case_usb_qemu_profile("riscv64", &fake_case("/ws", "usb-audio-iso")),
        Some(UsbQemuProfile::AudioIso)
    );
    assert_eq!(case_usb_qemu_profile("x86_64", &fake_case("/ws", "usb-")), None);
    assert!(case_uses_usb_qemu_assets("x86_64", &fake_case("/ws", "usb")));
    assert!(!case_uses_usb_qemu_assets("x86_64", &fake_case("/ws", "smoke")));
}

#[test]
fn default_case_runs_on_the_rootfs_as_it_is() {
    let rootfs = "/ws/target/rootfs/rootfs-x86_64-alpine.img";
    let work = prepare_case_assets(
        "/ws",
        "x86_64",
        "x86_64-unknown-none",
        &fake_case("/ws", "smoke"),
        rootfs.to_string(),
        Err(outside("not looked at")),
        false,
        false,
    )
    .unwrap();
    assert_eq!(
        work,
        CaseAssetWork::Plain(StarryCaseAssets {
            rootfs_path: rootfs.to_string(),
            extra_qemu_args: vec![],
            host_post_check: None,
        })
    );
}

#[test]
fn prepare_case_assets_adds_usb_audio_host_check() {
    let root = tempdir().unwrap();
    let root_path = root.path().to_str().unwrap();
    let rootfs_path = text(root.path().join("target/rootfs/rootfs-aarch64-alpine.img"));
    let case = fake_case(root_path, "usb-audio-iso");

    let work = prepare_case_assets(
        root_path,
        "aarch64",
        "aarch64-unknown-none-softfloat",
        &case,
        rootfs_path.clone(),
        Ok("aarch64".to_string()),
        false,
        false,
    )
    .unwrap();
    let assets = match work {
        CaseAssetWork::Prepare(plan) => plan.assets,
        CaseAssetWork::Plain(_) => panic!("expected work for the case"),
    };

    assert_eq!(assets.rootfs_path, rootfs_path);
    assert!(matches!(
        assets.host_post_check,
        Some(CaseHostPostCheck::UsbAudioIso { .. })
    ));
    assert!(
        assets
            .extra_qemu_args
            .iter()
            .any(|arg| arg.contains("usb-audio"))
    );
}

#[test]
fn case_rootfs_is_a_copy_of_the_base_image() {
    let layout = layout_of("usb");
    let base = "/ws/target/rootfs/rootfs-aarch64-alpine.img".to_string();
    let (ops, path) = prepare_case_rootfs(&base, &layout);
    assert_eq!(path, layout.rootfs_path);
    assert_ne!(path, base);
    assert_eq!(
        ops,
        vec![
            AssetOp::RemoveFileIfPresent { path: layout.rootfs_path.clone() },
            AssetOp::CopyFile { from: base, to: layout.rootfs_path.clone() },
        ]
    );
}

#[test]
fn c_sources_win_over_scripts() {
    let base = "/base.img".to_string();
    let plan = prepare_case_assets_sync(
        "/ws",
        "aarch64",
        "t",
        &fake_case("/ws", "usb"),
        &base,
        Ok("aarch64".to_string()),
        true,
        true,
    )
    .unwrap();
    let rootfs = plan.layout.rootfs_path.clone();
    assert_eq!(
        plan.ops,
        vec![
            AssetOp::CreateDirAll { path: plan.layout.work_dir.clone() },
            AssetOp::RemoveFileIfPresent { path: rootfs.clone() },
            AssetOp::CopyFile { from: base, to: rootfs.clone() },
            AssetOp::BuildC { rootfs: rootfs.clone() },
            AssetOp::CreateImage {
                path: plan.layout.usb_stick_path.clone(),
                size: 10485760,
            },
        ]
    );
    assert_eq!(plan.assets.rootfs_path, rootfs);
    assert_eq!(
        plan.assets.extra_qemu_args,
        usb_qemu_args(&plan.layout.usb_stick_path)
    );
    assert_eq!(plan.assets.host_post_check, None);
}

#[test]
fn scripts_are_put_into_a_copy_of_the_rootfs() {
    let base = "/base.img".to_string();
    let plan = prepare_case_assets_sync(
        "/ws",
        "aarch64",
        "t",
        &fake_case("/ws", "shell"),
        &base,
        Ok("aarch64".to_string()),
        false,
        true,
    )
    .unwrap();
    let rootfs = plan.layout.rootfs_path.clone();
    assert_eq!(
        plan.ops[3],
        AssetOp::PrepareScripts { rootfs: rootfs.clone() }
    );
    assert_eq!(plan.ops.len(), 4);
    assert_eq!(plan.assets.rootfs_path, rootfs);
    assert!(plan.assets.extra_qemu_args.is_empty());
}

#[test]
fn unknown_target_stops_the_preparation() {
    let error = prepare_case_assets(
        "/ws",
        "vax",
        "vax",
        &fake_case("/ws", "usb"),
        "/base.img".to_string(),
        Err(outside("unknown target")),
        false,
        false,
    )
    .unwrap_err();
    assert_eq!(error, outside("unknown target"));
}

#[test]
fn script_overlay_is_rebuilt_and_injected() {
    let case = fake_case("/ws", "shell");
    let layout = layout_of("shell");
    let rootfs = "/case.img".to_string();
    let ops = prepare_sh_case_assets_sync(&case, &rootfs, &layout, true).unwrap();
    let overlay = layout.overlay_dir.clone();
    assert_eq!(
        ops,
        vec![
            AssetOp::RemoveDirIfPresent { path: overlay.clone() },
            AssetOp::CreateDirAll { path: overlay.clone() },
            AssetOp::CreateDirAll { path: format!("{overlay}/usr/bin") },
            AssetOp::CopyScripts {
                dir: format!("{}/sh", case.case_dir),
                to: format!("{overlay}/usr/bin"),
            },
            AssetOp::InjectOverlay { rootfs, overlay },
        ]
    );
    assert_eq!(case_sh_source_dir(&case), format!("{}/sh", case.case_dir));
}

#[test]
fn script_overlay_needs_the_script_directory() {
    let case = fake_case("/ws", "shell");
    let error =
        prepare_sh_case_assets_sync(&case, &"/case.img".to_string(), &layout_of("shell"), false)
            .unwrap_err();
    assert_eq!(
        error.message(),
        "sh directory not found at `/ws/test-suit/starryos/normal/shell/sh`"
    );
}

#[test]
fn scripts_are_copied_in_the_order_of_their_names() {
    let entry = |name: &str, is_file: bool| DirEntry { name: name.to_string(), is_file };
    let entries = vec![
        entry("run.sh", true),
        entry("lib", false),
        entry("Zero", true),
        entry("a", true),
        entry("run", true),
    ];
    assert_eq!(file_order(&entries), vec![2, 3, 4, 0]);
    let ops = copy_scripts("/c/sh", "/o/usr/bin", &entries);
    assert_eq!(ops.len(), 8);
    assert_eq!(
        ops[0],
        AssetOp::CopyFile { from: "/c/sh/Zero".to_string(), to: "/o/usr/bin/Zero".to_string() }
    );
    assert_eq!(
        ops[1],
        AssetOp::MakeExecutable { path: "/o/usr/bin/Zero".to_string() }
    );
    assert_eq!(
        ops[6],
        AssetOp::CopyFile {
            from: "/c/sh/run.sh".to_string(),
            to: "/o/usr/bin/run.sh".to_string()
        }
    );
    assert!(file_order(&vec![]).is_empty());
    assert!(stands_before("", "a"));
    assert!(!stands_before("a", "a"));
    assert!(stands_before("z", "\u{e9}"));
}

#[test]
fn reset_removes_and_creates() {
    let path = "/o".to_string();
    assert_eq!(
        reset_dir(&path),
        vec![
            AssetOp::RemoveDirIfPresent { path: path.clone() },
            AssetOp::CreateDirAll { path: path.clone() },
        ]
    );
    assert_eq!(
        create_usb_backing_image(&path),
        AssetOp::CreateImage { path, size: USB_STICK_IMAGE_SIZE }
    );
}

fn wave(samples: &[u8]) -> Vec<u8> {
    let mut bytes = Vec::new();
    bytes.extend_from_slice(b"RIFF");
    bytes.extend_from_slice(&0u32.to_le_bytes());
    bytes.extend_from_slice(b"WAVEfmt ");
    bytes.extend_from_slice(&16u32.to_le_bytes());
    bytes.extend_from_slice(&1u16.to_le_bytes());
    bytes.extend_from_slice(&2u16.to_le_bytes());
    bytes.extend_from_slice(&48000u32.to_le_bytes());
    bytes.extend_from_slice(&192000u32.to_le_bytes());
    bytes.extend_from_slice(&4u16.to_le_bytes());
    bytes.extend_from_slice(&16u16.to_le_bytes());
    bytes.extend_from_slice(b"data");
    bytes.extend_from_slice(&(samples.len() as u32).to_le_bytes());
    bytes.extend_from_slice(samples);
    bytes
}

fn capture(payload: &[u8]) -> Vec<u8> {
    let mut bytes = 0xa1b2c3d4u32.to_le_bytes().to_vec();
    bytes.extend_from_slice(&[0; 20]);
    let mut record = vec![0u8; 64];
    record[8] = b'S';
    record.extend_from_slice(payload);
    bytes.extend_from_slice(&[0; 8]);
    bytes.extend_from_slice(&(record.len() as u32).to_le_bytes());
    bytes.extend_from_slice(&(record.len() as u32).to_le_bytes());
    bytes.extend_from_slice(&record);
    bytes
}

fn outputs(samples: &[u8], payload: &[u8]) -> HostOutputs {
    let pcap = capture(payload);
    HostOutputs {
        pcap_is_file: true,
        pcap_len: Ok(pcap.len() as u64),
        reference_is_file: true,
        reference: Ok(wave(samples)),
        pcap: Ok(pcap),
    }
}

fn verdict(seen: HostOutputs) -> Result<(), StarryError> {
    validate_usb_audio_iso_output(
        &fake_case("/ws", "usb-audio-iso"),
        &"/work/usb-audio-iso.pcap".to_string(),
        seen,
    )
}

#[test]
fn faithful_playback_passes() {
    assert_eq!(verdict(outputs(&[1, 2, 3, 4], &[1, 2, 3, 4])), Ok(()));
}

#[test]
fn assets_without_a_check_pass() {
    let assets = StarryCaseAssets {
        rootfs_path: "/base.img".to_string(),
        extra_qemu_args: vec![],
        host_post_check: None,
    };
    let mut seen = outputs(&[1], &[2]);
    seen.pcap_is_file = false;
    assert_eq!(
        validate_case_host_outputs(&fake_case("/ws", "usb"), &assets, seen),
        Ok(())
    );
}

#[test]
fn assets_with_a_check_are_checked() {
    let assets = StarryCaseAssets {
        rootfs_path: "/base.img".to_string(),
        extra_qemu_args: vec![],
        host_post_check: Some(CaseHostPostCheck::UsbAudioIso {
            output_pcap_path: "/work/p".to_string(),
        }),
    };
    let mut seen = outputs(&[1], &[1]);
    seen.pcap_is_file = false;
    assert_eq!(
        validate_case_host_outputs(&fake_case("/ws", "usb-audio-iso"), &assets, seen),
        Err(StarryError::PcapNotCreated { path: "/work/p".to_string() })
    );
}

#[test]
fn first_thing_wrong_with_the_outputs_counts() {
    let reference_path =
        "/ws/test-suit/starryos/normal/usb-audio-iso/c/assets/reference.wav".to_string();

    let mut seen = outputs(&[1], &[2]);
    seen.pcap_is_file = false;
    seen.reference_is_file = false;
    assert_eq!(
        verdict(seen).unwrap_err().message(),
        "usb-audio-iso output pcap `/work/usb-audio-iso.pcap` was not created"
    );

    let mut seen = outputs(&[1], &[2]);
    seen.pcap_len = Err(outside("failed to stat"));
    assert_eq!(verdict(seen), Err(outside("failed to stat")));

    let mut seen = outputs(&[1], &[2]);
    seen.pcap_len = Ok(24);
    seen.reference_is_file = false;
    assert_eq!(
        verdict(seen).unwrap_err().message(),
        "usb-audio-iso output pcap `/work/usb-audio-iso.pcap` is too small"
    );

    let mut seen = outputs(&[1], &[2]);
    seen.reference_is_file = false;
    assert_eq!(
        verdict(seen).unwrap_err().message(),
        format!("usb-audio-iso reference wav `{reference_path}` is missing")
    );

    let mut seen = outputs(&[1], &[2]);
    seen.reference = Err(outside("failed to read"));
    assert_eq!(verdict(seen), Err(outside("failed to read")));

    let mut seen = outputs(&[1], &[2]);
    seen.reference = Ok(vec![]);
    let error = verdict(seen).unwrap_err();
    assert_eq!(
        error,
        StarryError::ReferenceInvalid { path: reference_path.clone(), error: WaveError::TooSmall }
    );
    assert_eq!(
        error.message(),
        format!("failed to parse {reference_path}: wav is too small")
    );

    let mut seen = outputs(&[1], &[2]);
    seen.pcap = Err(outside("failed to read"));
    assert_eq!(verdict(seen), Err(outside("failed to read")));

    let mut seen = outputs(&[1], &[2]);
    seen.pcap = Ok(vec![0; 24]);
    let error = verdict(seen).unwrap_err();
    assert_eq!(error, StarryError::PcapInvalid { error: PcapError::UnsupportedMagic });
    assert_eq!(error.message(), "unsupported pcap magic");

    let error = verdict(outputs(&[1, 2, 3], &[1, 2])).unwrap_err();
    assert_eq!(
        error.message(),
        "captured USB payload length 2 does not match reference 3"
    );

    let error = verdict(outputs(&[1, 2], &[1, 3])).unwrap_err();
    assert_eq!(error, StarryError::PayloadDiffers);
    assert_eq!(error.message(), "captured USB payload differs from reference");
}
