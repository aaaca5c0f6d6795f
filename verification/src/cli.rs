//! What the user asks for on the command line, as plain values.

use vstd::prelude::*;

verus! {

/// One invocation of the program.
#[derive(Clone, Debug, PartialEq, Eq)]
pub struct Cli {
    pub command: CliCommand,
}

/// What the user asks for.
#[derive(Clone, Debug, PartialEq, Eq)]
pub enum CliCommand {
    /// List machines.
    Ls,
    /// Create a new machine with a name and disk size.
    New { name: String, disk_size: u32 },
    /// Run, remove or edit a machine.
    Machine { name: String, cmd: MachineCommand },
}

/// What the user asks of one machine.
#[derive(Clone, Debug, PartialEq, Eq)]
pub enum MachineCommand {
    /// Launch the hypervisor for this machine, with `cd_rom` in its CD-ROM
    /// drive if one is given.
    Run { cd_rom: Option<String>, verbose: bool },
    /// Remove the machine's directory, if `yes` confirms it.
    Remove { yes: bool },
    /// Open the machine's configuration file in an editor.
    Edit,
}

/// What a `MachineCommand` holds, as mathematical values.
pub enum MachineCommandView {
    Run { cd_rom: Option<Seq<char>>, verbose: bool },
    Remove { yes: bool },
    Edit,
}

impl View for MachineCommand {
    type V = MachineCommandView;

    open spec fn view(&self) -> MachineCommandView {
        match self {
            MachineCommand::Run { cd_rom, verbose } => MachineCommandView::Run {
                cd_rom: match cd_rom {
                    Some(image) => Some(image@),
                    None => None,
                },
                verbose: *verbose,
            },
            MachineCommand::Remove { yes } => MachineCommandView::Remove { yes: *yes },
            MachineCommand::Edit => MachineCommandView::Edit,
        }
    }
}

/// What a `CliCommand` holds, as mathematical values.
pub enum CliCommandView {
    Ls,
    New { name: Seq<char>, disk_size: u32 },
    Machine { name: Seq<char>, cmd: MachineCommandView },
}

impl View for CliCommand {
    type V = CliCommandView;

    open spec fn view(&self) -> CliCommandView {
        match self {
            CliCommand::Ls => CliCommandView::Ls,
            CliCommand::New { name, disk_size } => CliCommandView::New {
                name: name@,
                disk_size: *disk_size,
            },
            CliCommand::Machine { name, cmd } => CliCommandView::Machine {
                name: name@,
                cmd: cmd@,
            },
        }
    }
}

impl View for Cli {
    type V = CliCommandView;

    open spec fn view(&self) -> CliCommandView {
        self.command@
    }
}

} // verus!
