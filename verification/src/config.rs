//! The configuration of one machine.

use vstd::prelude::*;

verus! {

/// The display adapter that the hypervisor emulates.
#[derive(Clone, Copy, Debug, PartialEq, Eq, Structural)]
pub enum VideoOption {
    Std,
    VirtIo,
    Qxl,
    Off,
}

impl VideoOption {
    /// The name of the adapter, as configuration files and the hypervisor
    /// write it.
    pub open spec fn name_text(self) -> Seq<char> {
        match self {
            VideoOption::Std => "std"@,
            VideoOption::VirtIo => "virtio"@,
            VideoOption::Qxl => "qxl"@,
            VideoOption::Off => "none"@,
        }
    }

    /// The name of the adapter.
    pub fn name(&self) -> (r: &'static str)
        ensures
            r@ == self.name_text(),
    {
        match self {
            VideoOption::Std => "std",
            VideoOption::VirtIo => "virtio",
            VideoOption::Qxl => "qxl",
            VideoOption::Off => "none",
        }
    }
}

/// The parameters of one machine.
#[derive(Clone, Debug, PartialEq, Eq)]
pub struct Machine {
    /// The disk image; a relative path is taken from the machine's directory.
    pub disk: String,
    /// The number of virtual processors.
    pub cpus: u32,
    /// The memory size in megabytes.
    pub memory: u32,
    /// Whether hardware acceleration is asked for.
    pub kvm: bool,
    /// Whether the machine boots through UEFI firmware.
    pub uefi: bool,
    /// The display adapter.
    pub video: VideoOption,
}

/// What a `Machine` holds, as mathematical values.
pub struct MachineView {
    pub disk: Seq<char>,
    pub cpus: u32,
    pub memory: u32,
    pub kvm: bool,
    pub uefi: bool,
    pub video: VideoOption,
}

impl View for Machine {
    type V = MachineView;

    open spec fn view(&self) -> MachineView {
        MachineView {
            disk: self.disk@,
            cpus: self.cpus,
            memory: self.memory,
            kvm: self.kvm,
            uefi: self.uefi,
            video: self.video,
        }
    }
}

/// Whether the counts of a machine are positive, as a configuration file
/// must give them.
pub open spec fn valid_machine(machine: MachineView) -> bool {
    machine.cpus > 0 && machine.memory > 0
}

/// The parameters that a machine has when its configuration names none.
pub open spec fn default_machine() -> MachineView {
    MachineView {
        disk: "./disk.qcow2"@,
        cpus: 2,
        memory: 2048,
        kvm: true,
        uefi: false,
        video: VideoOption::Std,
    }
}

impl Default for Machine {
    fn default() -> (r: Machine)
        ensures
            r@ == default_machine(),
    {
        Machine {
            disk: String::from_str("./disk.qcow2"),
            cpus: 2,
            memory: 2048,
            kvm: true,
            uefi: false,
            video: VideoOption::Std,
        }
    }
}

/// A machine's configuration file.
#[derive(Clone, Debug, PartialEq, Eq)]
pub struct Config {
    pub machine: Machine,
}

/// What a `Config` holds, as mathematical values.
pub struct ConfigView {
    pub machine: MachineView,
}

impl View for Config {
    type V = ConfigView;

    open spec fn view(&self) -> ConfigView {
        ConfigView { machine: self.machine@ }
    }
}

impl Default for Config {
    fn default() -> (r: Config)
        ensures
            r@ == (ConfigView { machine: default_machine() }),
    {
        Config { machine: Machine::default() }
    }
}

/// The four display adapters have four different names.
pub proof fn lemma_video_names_differ(first: VideoOption, second: VideoOption)
    requires
        first != second,
    ensures
        first.name_text() != second.name_text(),
{
    reveal_strlit("std");
    reveal_strlit("virtio");
    reveal_strlit("qxl");
    reveal_strlit("none");
    assert("virtio"@.len() == 6);
    assert("qxl"@.len() == 3 && "qxl"@[0] == 'q');
    assert("none"@.len() == 4);
}

} // verus!
