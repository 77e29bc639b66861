use starry::error::StarryError;
use starry::paths::join;
use starry::rootfs::{
    apply_smp_qemu_arg, ensure_rootfs_in_target_dir, parse_smp_qemu_value, smp_from_qemu_arg,
    QemuConfig,
};
use starry::text::{decimal_text, parse_number, same_text, split_text};

fn config(args: &[&str]) -> QemuConfig {
    QemuConfig { args: args.iter().map(|arg| arg.to_string()).collect() }
}

#[test]
fn apply_smp_qemu_arg_appends_cpu_count() {
    let mut qemu = QemuConfig {
        args: vec!["-machine".to_string(), "virt".to_string()],
    };

    apply_smp_qemu_arg(&mut qemu, Some(4));

    assert_eq!(
        qemu.args,
        vec![
            "-machine".to_string(),
            "virt".to_string(),
            "-smp".to_string(),
            "4".to_string(),
        ]
    );
}

#[test]
fn apply_smp_qemu_arg_replaces_existing_cpu_count() {
    let mut qemu = QemuConfig {
        args: vec![
            "-machine".to_string(),
            "virt".to_string(),
            "-smp".to_string(),
            "1".to_string(),
        ],
    };

    apply_smp_qemu_arg(&mut qemu, Some(4));

    assert_eq!(
        qemu.args,
        vec![
            "-machine".to_string(),
            "virt".to_string(),
            "-smp".to_string(),
            "4".to_string(),
        ]
    );
}

#[test]
fn smp_from_qemu_arg_reads_plain_cpu_count() {
    let qemu = QemuConfig {
        args: vec![
            "-machine".to_string(),
            "virt".to_string(),
            "-smp".to_string(),
            "4".to_string(),
        ],
    };

    assert_eq!(smp_from_qemu_arg(&qemu), Some(4));
}

#[test]
fn smp_from_qemu_arg_reads_cpus_key_value_syntax() {
    let qemu = QemuConfig {
        args: vec![
            "-machine".to_string(),
            "q35".to_string(),
            "-smp".to_string(),
            "cpus=3,sockets=1,cores=3,threads=1".to_string(),
        ],
    };

    assert_eq!(smp_from_qemu_arg(&qemu), Some(3));
}

#[test]
fn smp_from_qemu_arg_returns_none_when_missing() {
    let qemu = QemuConfig {
        args: vec!["-machine".to_string(), "q35".to_string()],
    };

    assert_eq!(smp_from_qemu_arg(&qemu), None);
}

#[test]
fn no_cpu_count_leaves_the_arguments() {
    let mut qemu = config(&["-smp", "2"]);
    apply_smp_qemu_arg(&mut qemu, None);
    assert_eq!(qemu, config(&["-smp", "2"]));
}

#[test]
fn flag_without_a_value_gets_another_one() {
    let mut qemu = config(&["-nographic", "-smp"]);
    apply_smp_qemu_arg(&mut qemu, Some(2));
    assert_eq!(qemu, config(&["-nographic", "-smp", "-smp", "2"]));
    assert_eq!(smp_from_qemu_arg(&qemu), None);
    assert_eq!(smp_from_qemu_arg(&config(&["-smp"])), None);
}

#[test]
fn cpu_count_is_read_back_and_the_last_one_wins() {
    let mut qemu = config(&["-smp", "cpus=3", "-smp", "7"]);
    apply_smp_qemu_arg(&mut qemu, Some(5));
    assert_eq!(smp_from_qemu_arg(&qemu), Some(5));
    apply_smp_qemu_arg(&mut qemu, Some(12));
    assert_eq!(smp_from_qemu_arg(&qemu), Some(12));
    assert_eq!(qemu, config(&["-smp", "12", "-smp", "7"]));
}

#[test]
fn cpu_counts_are_parsed() {
    assert_eq!(parse_smp_qemu_value("8"), Some(8));
    assert_eq!(parse_smp_qemu_value("+8,sockets=2"), Some(8));
    assert_eq!(parse_smp_qemu_value("sockets=2,cpus=6"), Some(6));
    assert_eq!(parse_smp_qemu_value("cpus=x,cpus=6"), Some(6));
    assert_eq!(parse_smp_qemu_value("sockets=2"), None);
    assert_eq!(parse_smp_qemu_value(""), None);
    assert_eq!(parse_smp_qemu_value("-1"), None);
    assert_eq!(parse_smp_qemu_value("18446744073709551616"), None);
    assert_eq!(
        parse_smp_qemu_value("18446744073709551615"),
        Some(18446744073709551615)
    );
}

#[test]
fn target_has_to_be_the_one_of_the_architecture() {
    let arch = "x86_64".to_string();
    let target = "x86_64-unknown-none".to_string();
    assert_eq!(
        ensure_rootfs_in_target_dir(Ok(target.clone()), &arch, &target),
        Ok(())
    );
    let other = "riscv64gc-unknown-none-elf".to_string();
    let error = ensure_rootfs_in_target_dir(Ok(target.clone()), &arch, &other).unwrap_err();
    assert_eq!(
        error.message(),
        "Starry arch `x86_64` maps to target `x86_64-unknown-none`, but got \
         `riscv64gc-unknown-none-elf`"
    );
    let unknown = StarryError::Outside { message: "unsupported arch".to_string() };
    assert_eq!(
        ensure_rootfs_in_target_dir(Err(unknown.clone()), &arch, &target),
        Err(unknown)
    );
}

#[test]
fn numbers_are_written_and_read() {
    assert_eq!(decimal_text(0), "0");
    assert_eq!(decimal_text(1203), "1203");
    assert_eq!(decimal_text(usize::MAX), usize::MAX.to_string());
    let chars = |text: &str| text.chars().collect::<Vec<char>>();
    assert_eq!(parse_number(&chars("1203")), Some(1203));
    assert_eq!(parse_number(&chars("+")), None);
    assert_eq!(parse_number(&chars("12x")), None);
    assert_eq!(
        split_text(&chars("a,,b"), ','),
        vec![chars("a"), chars(""), chars("b")]
    );
    assert!(same_text("usb", "usb"));
    assert!(!same_text("usb", "us"));
}

#[test]
fn paths_are_joined() {
    assert_eq!(join("/ws", "target"), "/ws/target");
    assert_eq!(join("/ws/", "target"), "/ws/target");
    assert_eq!(join("", "target"), "target");
    assert_eq!(join("/ws", "/etc"), "/etc");
    assert_ne!(join("/ws", "a"), join("/ws", "b"));
}
