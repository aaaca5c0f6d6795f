//! The hypervisor command that a machine's configuration stands for.

use crate::config::{Config, MachineView, VideoOption};
use crate::path::{is_absolute, join, joined, path_is_absolute};
use crate::text::{decimal, decimal_text, followed_by, is_digit, lemma_decimal_digits};
use vstd::prelude::*;

verus! {

/// A program and the arguments to start it with.
#[derive(Clone, Debug, PartialEq, Eq)]
pub struct LaunchCommand {
    pub program: String,
    pub args: Vec<String>,
}

/// What a `LaunchCommand` holds, as mathematical values.
pub struct LaunchCommandView {
    pub program: Seq<char>,
    pub args: Seq<Seq<char>>,
}

impl View for LaunchCommand {
    type V = LaunchCommandView;

    open spec fn view(&self) -> LaunchCommandView {
        LaunchCommandView { program: self.program@, args: self.args.deep_view() }
    }
}

/// The text of an optional path.
pub open spec fn optional_text(path: Option<&str>) -> Option<Seq<char>> {
    match path {
        Some(p) => Some(p@),
        None => None,
    }
}

/// The hypervisor's program name.
pub open spec fn hypervisor() -> Seq<char> {
    "qemu-system-x86_64"@
}

/// The drive option for the firmware image that all machines share, which is
/// read only.
pub open spec fn firmware_code_drive() -> Seq<char> {
    "if=pflash,format=raw,readonly=on,file=/usr/share/edk2-ovmf/x64/OVMF_CODE.fd"@
}

/// The drive option for the firmware variables that the machine in
/// `directory` keeps for itself.
pub open spec fn firmware_vars_drive(directory: Seq<char>) -> Seq<char> {
    "if=pflash,format=raw,file="@ + joined(directory, "ovmf_vars.fd"@)
}

/// Where the disk image lies: an absolute path as it is, a relative one
/// under the machine's directory.
pub open spec fn resolved_disk(disk: Seq<char>, directory: Seq<char>) -> Seq<char> {
    if is_absolute(disk) {
        disk
    } else {
        joined(directory, disk)
    }
}

/// The processor count and the memory size.
pub open spec fn sizing_arguments(machine: MachineView) -> Seq<Seq<char>> {
    seq!["-smp"@, decimal(machine.cpus as nat), "-m"@, decimal(machine.memory as nat) + "M"@]
}

/// The acceleration flag, if acceleration is on.
pub open spec fn acceleration_arguments(machine: MachineView) -> Seq<Seq<char>> {
    if machine.kvm {
        seq!["-enable-kvm"@]
    } else {
        Seq::empty()
    }
}

/// The two firmware drives, if the machine boots through UEFI.
pub open spec fn firmware_arguments(machine: MachineView, directory: Seq<char>) -> Seq<
    Seq<char>,
> {
    if machine.uefi {
        seq!["-drive"@, firmware_code_drive(), "-drive"@, firmware_vars_drive(directory)]
    } else {
        Seq::empty()
    }
}

/// The display adapter; without one, graphics are switched off as well.
pub open spec fn video_arguments(video: VideoOption) -> Seq<Seq<char>> {
    match video {
        VideoOption::Off => seq!["-vga"@, video.name_text(), "-nographic"@],
        _ => seq!["-vga"@, video.name_text()],
    }
}

/// The CD-ROM image, if one is given.
pub open spec fn cdrom_arguments(cd_rom: Option<Seq<char>>) -> Seq<Seq<char>> {
    match cd_rom {
        Some(image) => seq!["-cdrom"@, image],
        None => Seq::empty(),
    }
}

/// The hypervisor's arguments for `machine`, kept in `directory`: sizing,
/// acceleration, firmware, display, CD-ROM, and last the disk image, which
/// the hypervisor boots from.
pub open spec fn launch_arguments(
    machine: MachineView,
    directory: Seq<char>,
    cd_rom: Option<Seq<char>>,
) -> Seq<Seq<char>> {
    sizing_arguments(machine) + acceleration_arguments(machine) + firmware_arguments(
        machine,
        directory,
    ) + video_arguments(machine.video) + cdrom_arguments(cd_rom) + seq![
        resolved_disk(machine.disk, directory),
    ]
}

/// The command that starts `machine`.
pub open spec fn launch_command(
    machine: MachineView,
    directory: Seq<char>,
    cd_rom: Option<Seq<char>>,
) -> LaunchCommandView {
    LaunchCommandView {
        program: hypervisor(),
        args: launch_arguments(machine, directory, cd_rom),
    }
}

/// Appends `text` to `args`.
pub(crate) fn push_text(args: &mut Vec<String>, text: &str)
    ensures
        final(args).deep_view() == old(args).deep_view().push(text@),
{
    args.push(String::from_str(text));
}

impl Config {
    /// The command that starts this machine, whose directory is
    /// `containing_dir_path`, with the image `cd_rom` in its CD-ROM drive if
    /// one is given.
    pub fn construct_launch_command(
        &self,
        containing_dir_path: &str,
        cd_rom: Option<&str>,
    ) -> (r: LaunchCommand)
        ensures
            r@ == launch_command(self@.machine, containing_dir_path@, optional_text(cd_rom)),
    {
        let machine = &self.machine;
        let ghost m = machine@;
        let ghost dir = containing_dir_path@;
        let mut args: Vec<String> = Vec::new();

        push_text(&mut args, "-smp");
        let cpus = decimal_text(machine.cpus);
        push_text(&mut args, cpus.as_str());
        push_text(&mut args, "-m");
        let mut memory = decimal_text(machine.memory);
        memory.append("M");
        push_text(&mut args, memory.as_str());

        if machine.kvm {
            push_text(&mut args, "-enable-kvm");
        }

        if machine.uefi {
            let vars = join(containing_dir_path, "ovmf_vars.fd");
            let vars_drive = followed_by("if=pflash,format=raw,file=", vars.as_str());
            push_text(&mut args, "-drive");
            push_text(
                &mut args,
                "if=pflash,format=raw,readonly=on,file=/usr/share/edk2-ovmf/x64/OVMF_CODE.fd",
            );
            push_text(&mut args, "-drive");
            push_text(&mut args, vars_drive.as_str());
        }

        push_text(&mut args, "-vga");
        push_text(&mut args, machine.video.name());
        match machine.video {
            VideoOption::Off => {
                push_text(&mut args, "-nographic");
            },
            _ => {},
        }

        match cd_rom {
            Some(image) => {
                push_text(&mut args, "-cdrom");
                push_text(&mut args, image);
            },
            None => {},
        }

        let disk = if path_is_absolute(machine.disk.as_str()) {
            machine.disk.clone()
        } else {
            join(containing_dir_path, machine.disk.as_str())
        };
        push_text(&mut args, disk.as_str());
        assert(args.deep_view() =~= launch_arguments(m, dir, optional_text(cd_rom)));

        LaunchCommand { program: String::from_str("qemu-system-x86_64"), args }
    }
}

/// How often `token` stands in `tokens`.
pub open spec fn occurrences(tokens: Seq<Seq<char>>, token: Seq<char>) -> nat
    decreases tokens.len(),
{
    if tokens.len() == 0 {
        0
    } else {
        occurrences(tokens.drop_last(), token) + if tokens.last() == token {
            1nat
        } else {
            0nat
        }
    }
}

/// Where the firmware drives start in the arguments of a machine that boots
/// through UEFI.
pub open spec fn firmware_position(machine: MachineView) -> int {
    if machine.kvm {
        5
    } else {
        4
    }
}

/// Where the display adapter's flag stands in the arguments.
pub open spec fn video_position(machine: MachineView) -> int {
    firmware_position(machine) + if machine.uefi {
        4int
    } else {
        0int
    }
}

proof fn lemma_occurrences_push(tokens: Seq<Seq<char>>, last: Seq<char>, token: Seq<char>)
    ensures
        occurrences(tokens.push(last), token) == occurrences(tokens, token) + if last == token {
            1nat
        } else {
            0nat
        },
{
    assert(tokens.push(last).drop_last() =~= tokens);
}

proof fn lemma_occurrences_concat(a: Seq<Seq<char>>, b: Seq<Seq<char>>, token: Seq<char>)
    ensures
        occurrences(a + b, token) == occurrences(a, token) + occurrences(b, token),
    decreases b.len(),
{
    if b.len() > 0 {
        lemma_occurrences_concat(a, b.drop_last(), token);
        assert((a + b).drop_last() =~= a + b.drop_last());
    }
}

proof fn lemma_occurrences_none(tokens: Seq<Seq<char>>, token: Seq<char>)
    requires
        forall|i: int| 0 <= i < tokens.len() ==> tokens[i] != token,
    ensures
        occurrences(tokens, token) == 0,
    decreases tokens.len(),
{
    if tokens.len() > 0 {
        lemma_occurrences_none(tokens.drop_last(), token);
    }
}

/// The lengths and leading characters by which the fixed argument texts are
/// told apart.
proof fn lemma_token_shapes()
    ensures
        "-drive"@.len() == 6 && "-drive"@[0] == '-' && "-drive"@[1] == 'd',
        "-nographic"@.len() == 10 && "-nographic"@[0] == '-',
        "-cdrom"@.len() == 6 && "-cdrom"@[1] == 'c',
        "-smp"@.len() == 4,
        "-m"@.len() == 2,
        "-enable-kvm"@.len() == 11,
        "-vga"@.len() == 4,
        "std"@.len() == 3 && "std"@[0] == 's',
        "virtio"@.len() == 6 && "virtio"@[0] == 'v',
        "qxl"@.len() == 3 && "qxl"@[0] == 'q',
        "none"@.len() == 4,
        "M"@.len() == 1,
        "if=pflash,format=raw,file="@.len() > 0 && "if=pflash,format=raw,file="@[0] == 'i',
        firmware_code_drive().len() > 0 && firmware_code_drive()[0] == 'i',
{
    reveal_strlit("-drive");
    reveal_strlit("-nographic");
    reveal_strlit("-cdrom");
    reveal_strlit("-smp");
    reveal_strlit("-m");
    reveal_strlit("-enable-kvm");
    reveal_strlit("-vga");
    reveal_strlit("std");
    reveal_strlit("virtio");
    reveal_strlit("qxl");
    reveal_strlit("none");
    reveal_strlit("M");
    reveal_strlit("if=pflash,format=raw,file=");
    reveal_strlit("if=pflash,format=raw,readonly=on,file=/usr/share/edk2-ovmf/x64/OVMF_CODE.fd");
}

/// A flag is no numeral, and no numeral followed by `M`.
proof fn lemma_numeral_is_no_flag(n: nat, token: Seq<char>)
    requires
        token.len() > 0,
        token[0] == '-',
    ensures
        decimal(n) != token,
        decimal(n) + "M"@ != token,
{
    lemma_decimal_digits(n);
    assert(is_digit(decimal(n)[0]));
}

/// Neither the sizing nor the acceleration arguments hold the drive flag or
/// the flag that switches graphics off.
proof fn lemma_leading_arguments(machine: MachineView, token: Seq<char>)
    requires
        token == "-drive"@ || token == "-nographic"@,
    ensures
        occurrences(sizing_arguments(machine) + acceleration_arguments(machine), token) == 0,
{
    lemma_token_shapes();
    lemma_numeral_is_no_flag(machine.cpus as nat, token);
    lemma_numeral_is_no_flag(machine.memory as nat, token);
    let leading = sizing_arguments(machine) + acceleration_arguments(machine);
    assert forall|i: int| 0 <= i < leading.len() implies leading[i] != token by {}
    lemma_occurrences_none(leading, token);
}

/// How often the drive flag and the flag that switches graphics off stand
/// among the firmware arguments.
proof fn lemma_firmware_arguments(machine: MachineView, directory: Seq<char>)
    ensures
        occurrences(firmware_arguments(machine, directory), "-nographic"@) == 0,
        occurrences(firmware_arguments(machine, directory), "-drive"@) == if machine.uefi {
            2nat
        } else {
            0nat
        },
{
    lemma_token_shapes();
    let firmware = firmware_arguments(machine, directory);
    let vars = firmware_vars_drive(directory);
    assert forall|i: int| 0 <= i < firmware.len() implies firmware[i] != "-nographic"@ by {}
    lemma_occurrences_none(firmware, "-nographic"@);
    if machine.uefi {
        let empty = Seq::<Seq<char>>::empty();
        let one = empty.push("-drive"@);
        let two = one.push(firmware_code_drive());
        let three = two.push("-drive"@);
        lemma_occurrences_push(empty, "-drive"@, "-drive"@);
        lemma_occurrences_push(one, firmware_code_drive(), "-drive"@);
        lemma_occurrences_push(two, "-drive"@, "-drive"@);
        lemma_occurrences_push(three, vars, "-drive"@);
        assert(firmware =~= three.push(vars));
    }
}

/// How often the drive flag and the flag that switches graphics off stand
/// among the display arguments.
proof fn lemma_video_occurrences(video: VideoOption)
    ensures
        occurrences(video_arguments(video), "-drive"@) == 0,
        occurrences(video_arguments(video), "-nographic"@) == if video == VideoOption::Off {
            1nat
        } else {
            0nat
        },
{
    lemma_token_shapes();
    let display = video_arguments(video);
    assert forall|i: int| 0 <= i < display.len() implies display[i] != "-drive"@ by {}
    lemma_occurrences_none(display, "-drive"@);
    let pair = seq!["-vga"@, video.name_text()];
    assert forall|i: int| 0 <= i < pair.len() implies pair[i] != "-nographic"@ by {}
    lemma_occurrences_none(pair, "-nographic"@);
    if video == VideoOption::Off {
        lemma_occurrences_push(pair, "-nographic"@, "-nographic"@);
        assert(display =~= pair.push("-nographic"@));
    }
}

/// Past the display arguments a flag stands only where the CD-ROM image or
/// the disk image is named like it.
proof fn lemma_trailing_arguments(
    cd_rom: Option<Seq<char>>,
    disk: Seq<char>,
    token: Seq<char>,
)
    requires
        token == "-drive"@ || token == "-nographic"@,
        cd_rom != Some(token),
        disk != token,
    ensures
        occurrences(cdrom_arguments(cd_rom) + seq![disk], token) == 0,
{
    lemma_token_shapes();
    let trailing = cdrom_arguments(cd_rom) + seq![disk];
    assert forall|i: int| 0 <= i < trailing.len() implies trailing[i] != token by {}
    lemma_occurrences_none(trailing, token);
}

/// The number of occurrences of a token in the arguments is the sum over the
/// parts that they are made of.
proof fn lemma_occurrences_by_part(
    machine: MachineView,
    directory: Seq<char>,
    cd_rom: Option<Seq<char>>,
    token: Seq<char>,
)
    ensures
        occurrences(launch_arguments(machine, directory, cd_rom), token) == occurrences(
            sizing_arguments(machine) + acceleration_arguments(machine),
            token,
        ) + occurrences(firmware_arguments(machine, directory), token) + occurrences(
            video_arguments(machine.video),
            token,
        ) + occurrences(
            cdrom_arguments(cd_rom) + seq![resolved_disk(machine.disk, directory)],
            token,
        ),
{
    let leading = sizing_arguments(machine) + acceleration_arguments(machine);
    let firmware = firmware_arguments(machine, directory);
    let display = video_arguments(machine.video);
    let trailing = cdrom_arguments(cd_rom) + seq![resolved_disk(machine.disk, directory)];
    assert(launch_arguments(machine, directory, cd_rom) =~= leading + firmware + display
        + trailing);
    lemma_occurrences_concat(leading, firmware, token);
    lemma_occurrences_concat(leading + firmware, display, token);
    lemma_occurrences_concat(leading + firmware + display, trailing, token);
}

/// The same configuration, directory and CD-ROM image give the same command,
/// whichever values hold them.
pub proof fn lemma_launch_command_deterministic(
    first: Config,
    second: Config,
    first_directory: &str,
    second_directory: &str,
    first_cd_rom: Option<&str>,
    second_cd_rom: Option<&str>,
)
    requires
        first@ == second@,
        first_directory@ == second_directory@,
        optional_text(first_cd_rom) == optional_text(second_cd_rom),
    ensures
        launch_command(first@.machine, first_directory@, optional_text(first_cd_rom))
            == launch_command(second@.machine, second_directory@, optional_text(second_cd_rom)),
{
}

/// Without UEFI no argument is the drive flag, unless the CD-ROM image or the
/// resolved disk image is itself named `-drive`.
pub proof fn lemma_no_firmware_without_uefi(config: Config, directory: &str, cd_rom: Option<&str>)
    requires
        !config.machine.uefi,
        optional_text(cd_rom) != Some("-drive"@),
        resolved_disk(config.machine.disk@, directory@) != "-drive"@,
    ensures
        occurrences(
            launch_arguments(config@.machine, directory@, optional_text(cd_rom)),
            "-drive"@,
        ) == 0,
{
    let machine = config@.machine;
    lemma_occurrences_by_part(machine, directory@, optional_text(cd_rom), "-drive"@);
    lemma_leading_arguments(machine, "-drive"@);
    lemma_firmware_arguments(machine, directory@);
    lemma_video_occurrences(machine.video);
    lemma_trailing_arguments(
        optional_text(cd_rom),
        resolved_disk(machine.disk, directory@),
        "-drive"@,
    );
}

/// With UEFI the firmware drives follow the sizing and acceleration
/// arguments: the shared firmware image first, read only, then the machine's
/// own variables in `ovmf_vars.fd` under its directory.
pub proof fn lemma_firmware_with_uefi(config: Config, directory: &str, cd_rom: Option<&str>)
    requires
        config.machine.uefi,
    ensures
        ({
            let args = launch_arguments(config@.machine, directory@, optional_text(cd_rom));
            let at = firmware_position(config@.machine);
            &&& at + 3 < args.len()
            &&& args[at] == "-drive"@
            &&& args[at + 1] == firmware_code_drive()
            &&& args[at + 2] == "-drive"@
            &&& args[at + 3] == "if=pflash,format=raw,file="@ + joined(
                directory@,
                "ovmf_vars.fd"@,
            )
        }),
{
}

/// With UEFI exactly two arguments are the drive flag, unless the CD-ROM
/// image or the resolved disk image is itself named `-drive`; they are the
/// two that `lemma_firmware_with_uefi` places.
pub proof fn lemma_two_firmware_drives(config: Config, directory: &str, cd_rom: Option<&str>)
    requires
        config.machine.uefi,
        optional_text(cd_rom) != Some("-drive"@),
        resolved_disk(config.machine.disk@, directory@) != "-drive"@,
    ensures
        occurrences(
            launch_arguments(config@.machine, directory@, optional_text(cd_rom)),
            "-drive"@,
        ) == 2,
{
    let machine = config@.machine;
    lemma_occurrences_by_part(machine, directory@, optional_text(cd_rom), "-drive"@);
    lemma_leading_arguments(machine, "-drive"@);
    lemma_firmware_arguments(machine, directory@);
    lemma_video_occurrences(machine.video);
    lemma_trailing_arguments(
        optional_text(cd_rom),
        resolved_disk(machine.disk, directory@),
        "-drive"@,
    );
}

/// The display flag is followed by the adapter's name, and where the machine
/// has no adapter, by the flag that switches graphics off.
pub proof fn lemma_video_pair(config: Config, directory: &str, cd_rom: Option<&str>)
    ensures
        ({
            let args = launch_arguments(config@.machine, directory@, optional_text(cd_rom));
            let at = video_position(config@.machine);
            &&& at + 2 < args.len()
            &&& args[at] == "-vga"@
            &&& args[at + 1] == config.machine.video.name_text()
            &&& config.machine.video == VideoOption::Off ==> args[at + 2] == "-nographic"@
        }),
{
}

/// Graphics are switched off once where the machine has no display adapter
/// and not at all where it has one, unless the CD-ROM image or the resolved
/// disk image is itself named `-nographic`.
pub proof fn lemma_nographic_only_without_adapter(
    config: Config,
    directory: &str,
    cd_rom: Option<&str>,
)
    requires
        optional_text(cd_rom) != Some("-nographic"@),
        resolved_disk(config.machine.disk@, directory@) != "-nographic"@,
    ensures
        occurrences(
            launch_arguments(config@.machine, directory@, optional_text(cd_rom)),
            "-nographic"@,
        ) == if config.machine.video == VideoOption::Off {
            1nat
        } else {
            0nat
        },
{
    let machine = config@.machine;
    lemma_occurrences_by_part(machine, directory@, optional_text(cd_rom), "-nographic"@);
    lemma_leading_arguments(machine, "-nographic"@);
    lemma_firmware_arguments(machine, directory@);
    lemma_video_occurrences(machine.video);
    lemma_trailing_arguments(
        optional_text(cd_rom),
        resolved_disk(machine.disk, directory@),
        "-nographic"@,
    );
}

/// The last argument is the disk image, whatever stands before it.
pub proof fn lemma_disk_is_last(config: Config, directory: &str, cd_rom: Option<&str>)
    ensures
        launch_arguments(config@.machine, directory@, optional_text(cd_rom)).len() > 0,
        launch_arguments(config@.machine, directory@, optional_text(cd_rom)).last()
            == resolved_disk(config.machine.disk@, directory@),
{
}

} // verus!
