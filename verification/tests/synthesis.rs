use qemubox::config::{Config, Machine, VideoOption};
use qemubox::launch::LaunchCommand;

const CODE_DRIVE: &str =
    "if=pflash,format=raw,readonly=on,file=/usr/share/edk2-ovmf/x64/OVMF_CODE.fd";

fn machine(uefi: bool, kvm: bool, video: VideoOption) -> Config {
    Config {
        machine: Machine {
            disk: String::from("disk.qcow2"),
            cpus: 4,
            memory: 8192,
            kvm,
            uefi,
            video,
        },
    }
}

fn count(command: &LaunchCommand, token: &str) -> usize {
    command.args.iter().filter(|arg| arg.as_str() == token).count()
}

#[test]
fn default_machine_has_the_documented_values() {
    let config = Config::default();
    assert_eq!(config.machine.disk, "./disk.qcow2");
    assert_eq!(config.machine.cpus, 2);
    assert_eq!(config.machine.memory, 2048);
    assert!(config.machine.kvm);
    assert!(!config.machine.uefi);
    assert_eq!(config.machine.video, VideoOption::Std);
    assert_eq!(Machine::default(), config.machine);
}

#[test]
fn default_machine_gives_the_expected_command() {
    let command = Config::default().construct_launch_command("/home/u/machines/vm1", None);
    assert_eq!(command.program, "qemu-system-x86_64");
    assert_eq!(
        command.args,
        vec![
            "-smp",
            "2",
            "-m",
            "2048M",
            "-enable-kvm",
            "-vga",
            "std",
            "/home/u/machines/vm1/./disk.qcow2",
        ]
    );
}

#[test]
fn every_option_at_once_gives_the_expected_command() {
    let config = machine(true, true, VideoOption::Off);
    let command = config.construct_launch_command("/m/vm1", Some("/iso/install.iso"));
    assert_eq!(
        command.args,
        vec![
            "-smp",
            "4",
            "-m",
            "8192M",
            "-enable-kvm",
            "-drive",
            CODE_DRIVE,
            "-drive",
            "if=pflash,format=raw,file=/m/vm1/ovmf_vars.fd",
            "-vga",
            "none",
            "-nographic",
            "-cdrom",
            "/iso/install.iso",
            "/m/vm1/disk.qcow2",
        ]
    );
}

#[test]
fn synthesis_is_deterministic() {
    let first = machine(true, false, VideoOption::Qxl);
    let second = machine(true, false, VideoOption::Qxl);
    let a = first.construct_launch_command("/m/vm1", Some("cd.iso"));
    let b = first.construct_launch_command("/m/vm1", Some("cd.iso"));
    let c = second.construct_launch_command(&String::from("/m/vm1"), Some("cd.iso"));
    assert_eq!(a, b);
    assert_eq!(a, c);
}

#[test]
fn no_firmware_drives_without_uefi() {
    for kvm in [false, true] {
        for video in [VideoOption::Std, VideoOption::VirtIo, VideoOption::Qxl, VideoOption::Off] {
            let command = machine(false, kvm, video).construct_launch_command("/m/vm1", None);
            assert_eq!(count(&command, "-drive"), 0);
            assert!(!command.args.iter().any(|arg| arg.contains("pflash")));
        }
    }
}

#[test]
fn two_firmware_drives_with_uefi() {
    for kvm in [false, true] {
        let command = machine(true, kvm, VideoOption::Std).construct_launch_command("/m/vm1", None);
        assert_eq!(count(&command, "-drive"), 2);
        let at = if kvm { 5 } else { 4 };
        assert_eq!(command.args[at], "-drive");
        assert_eq!(command.args[at + 1], CODE_DRIVE);
        assert_eq!(command.args[at + 2], "-drive");
        assert_eq!(command.args[at + 3], "if=pflash,format=raw,file=/m/vm1/ovmf_vars.fd");
    }
}

#[test]
fn firmware_variables_lie_in_the_machine_directory() {
    let command = machine(true, true, VideoOption::Std).construct_launch_command("rel/dir/", None);
    assert_eq!(command.args[8], "if=pflash,format=raw,file=rel/dir/ovmf_vars.fd");
}

#[test]
fn a_cd_rom_named_like_the_drive_flag_is_counted_too() {
    let command =
        machine(false, true, VideoOption::Std).construct_launch_command("/m/vm1", Some("-drive"));
    assert_eq!(count(&command, "-drive"), 1);
    assert_eq!(command.args[command.args.len() - 2], "-drive");
    assert_eq!(command.args[command.args.len() - 3], "-cdrom");
}

#[test]
fn each_video_mode_gives_its_flag_pair() {
    let cases = [
        (VideoOption::Std, "std"),
        (VideoOption::VirtIo, "virtio"),
        (VideoOption::Qxl, "qxl"),
        (VideoOption::Off, "none"),
    ];
    for (video, name) in cases {
        assert_eq!(video.name(), name);
        let command = machine(false, false, video).construct_launch_command("/m/vm1", None);
        assert_eq!(command.args[4], "-vga");
        assert_eq!(command.args[5], name);
        assert_eq!(count(&command, "-vga"), 1);
    }
}

#[test]
fn only_no_video_switches_graphics_off() {
    for video in [VideoOption::Std, VideoOption::VirtIo, VideoOption::Qxl] {
        let command = machine(true, true, video).construct_launch_command("/m/vm1", Some("cd"));
        assert_eq!(count(&command, "-nographic"), 0);
    }
    let command = machine(true, true, VideoOption::Off).construct_launch_command("/m/vm1", None);
    assert_eq!(count(&command, "-nographic"), 1);
    assert_eq!(command.args[9], "-vga");
    assert_eq!(command.args[10], "none");
    assert_eq!(command.args[11], "-nographic");
}

#[test]
fn the_disk_is_always_the_last_argument() {
    for uefi in [false, true] {
        for kvm in [false, true] {
            for video in [VideoOption::Std, VideoOption::Off] {
                for cd_rom in [None, Some("/iso/a.iso")] {
                    let command =
                        machine(uefi, kvm, video).construct_launch_command("/m/vm1", cd_rom);
                    assert_eq!(command.args.last().unwrap(), "/m/vm1/disk.qcow2");
                }
            }
        }
    }
}

#[test]
fn an_absolute_disk_is_used_as_it_is() {
    let mut config = Config::default();
    config.machine.disk = String::from("/srv/images/disk.qcow2");
    let command = config.construct_launch_command("/m/vm1", None);
    assert_eq!(command.args.last().unwrap(), "/srv/images/disk.qcow2");
}

#[test]
fn a_relative_disk_lies_in_the_machine_directory() {
    let mut config = Config::default();
    config.machine.disk = String::from("images/disk.qcow2");
    let command = config.construct_launch_command("/m/vm1/", None);
    assert_eq!(command.args.last().unwrap(), "/m/vm1/images/disk.qcow2");
}

#[test]
fn the_cd_rom_stands_before_the_disk() {
    let command = Config::default().construct_launch_command("/m/vm1", Some("/iso/a.iso"));
    let n = command.args.len();
    assert_eq!(command.args[n - 3], "-cdrom");
    assert_eq!(command.args[n - 2], "/iso/a.iso");
    let without = Config::default().construct_launch_command("/m/vm1", None);
    assert_eq!(count(&without, "-cdrom"), 0);
    assert_eq!(without.args.len(), n - 2);
}

#[test]
fn acceleration_is_a_flag_of_its_own() {
    let with = machine(false, true, VideoOption::Std).construct_launch_command("/m", None);
    let without = machine(false, false, VideoOption::Std).construct_launch_command("/m", None);
    assert_eq!(with.args[4], "-enable-kvm");
    assert_eq!(count(&without, "-enable-kvm"), 0);
    assert_eq!(with.args.len(), without.args.len() + 1);
}

#[test]
fn counts_are_passed_through_as_declared() {
    let mut config = Config::default();
    config.machine.cpus = 4294967295;
    config.machine.memory = 1;
    let command = config.construct_launch_command("/m", None);
    assert_eq!(command.args[0], "-smp");
    assert_eq!(command.args[1], "4294967295");
    assert_eq!(command.args[2], "-m");
    assert_eq!(command.args[3], "1M");
}
