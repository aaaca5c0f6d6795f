//! The operations on machines: create, run, remove, edit.
//!
//! An operation is planned here and carried out by the caller. A plan names
//! the actions to take on the file system and the programs to start; the
//! caller takes one action at a time and reports what became of it, and the
//! functions here say what follows.

use crate::cli::{Cli, CliCommand, CliCommandView, MachineCommand, MachineCommandView};
use crate::config::{default_machine, Config, ConfigView};
use crate::document::pretty_text;
use crate::error::{RegistryError, RegistryErrorView};
use crate::launch::{hypervisor, launch_command, push_text, LaunchCommand, LaunchCommandView};
use crate::path::{join, joined};
use crate::registry::{
    collected, config_file, config_path, found, get_machines, names_of, scan_fails_with,
    scan_succeeds, scan_view, DirItem, DirItemView, MachineEntryView, Registry,
};
use crate::schema::config_items;
use crate::text::{decimal, decimal_text, followed_by, same_text};
use vstd::prelude::*;

verus! {

/// One thing for the caller to do.
#[derive(Clone, Debug, PartialEq, Eq)]
pub enum Action {
    /// Make the directory at this path, and fail where something is there
    /// already.
    MakeDirectory(String),
    /// Write the text to a new file at the path.
    WriteFile(String, String),
    /// Remove the file at this path.
    RemoveFile(String),
    /// Remove the directory at this path with all that is in it.
    RemoveTree(String),
    /// Start the program and wait until it has ended.
    Execute(LaunchCommand),
}

/// What an `Action` holds, as mathematical values.
pub enum ActionView {
    MakeDirectory(Seq<char>),
    WriteFile(Seq<char>, Seq<char>),
    RemoveFile(Seq<char>),
    RemoveTree(Seq<char>),
    Execute(LaunchCommandView),
}

impl View for Action {
    type V = ActionView;

    open spec fn view(&self) -> ActionView {
        match self {
            Action::MakeDirectory(path) => ActionView::MakeDirectory(path@),
            Action::WriteFile(path, text) => ActionView::WriteFile(path@, text@),
            Action::RemoveFile(path) => ActionView::RemoveFile(path@),
            Action::RemoveTree(path) => ActionView::RemoveTree(path@),
            Action::Execute(command) => ActionView::Execute(command@),
        }
    }
}

/// The view of an optional action.
pub open spec fn optional_action(action: Option<Action>) -> Option<ActionView> {
    match action {
        Some(action) => Some(action@),
        None => None,
    }
}

/// What became of an action.
#[derive(Clone, Copy, Debug, PartialEq, Eq, Structural)]
pub enum Report {
    /// The action on the file system was carried out.
    Done,
    /// The action on the file system failed, or the program did not start.
    Failed,
    /// The program ran and ended with this exit code.
    Exited(i32),
    /// The program ran and ended without an exit code.
    Killed,
}

/// The program that makes disk images.
pub open spec fn disk_tool() -> Seq<char> {
    "qemu-img"@
}

/// The command that makes the disk image of a new machine in `directory`,
/// `disk_size` megabytes large.
pub open spec fn disk_tool_command(directory: Seq<char>, disk_size: u32) -> LaunchCommandView {
    LaunchCommandView {
        program: disk_tool(),
        args: seq![
            "create"@,
            "-f"@,
            "qcow2"@,
            joined(directory, "disk.qcow2"@),
            decimal(disk_size as nat) + "M"@,
        ],
    }
}

/// How a new machine comes to be.
#[derive(Clone, Debug, PartialEq, Eq)]
pub struct CreatePlan {
    /// The machine's directory, to be made.
    pub directory: String,
    /// The machine's configuration file, to be written.
    pub config_path: String,
    /// What to write there: the default configuration.
    pub config_text: String,
    /// The command that makes the machine's disk image.
    pub disk_tool: LaunchCommand,
}

/// What a `CreatePlan` holds, as mathematical values.
pub struct CreatePlanView {
    pub directory: Seq<char>,
    pub config_path: Seq<char>,
    pub config_text: Seq<char>,
    pub disk_tool: LaunchCommandView,
}

impl View for CreatePlan {
    type V = CreatePlanView;

    open spec fn view(&self) -> CreatePlanView {
        CreatePlanView {
            directory: self.directory@,
            config_path: self.config_path@,
            config_text: self.config_text@,
            disk_tool: self.disk_tool@,
        }
    }
}

/// How far the creation of a machine has come: what is to be done next.
#[derive(Clone, Copy, Debug, PartialEq, Eq, Structural)]
pub enum CreateStage {
    MakeDirectory,
    WriteConfig,
    ProvisionDisk,
    /// Nothing is left to do: the machine exists.
    Created,
}

impl Default for CreateStage {
    /// Where a creation starts.
    fn default() -> (r: CreateStage)
        ensures
            r == CreateStage::MakeDirectory,
    {
        CreateStage::MakeDirectory
    }
}

impl CreatePlanView {
    /// What is to be done at `stage`.
    pub open spec fn action_at(self, stage: CreateStage) -> Option<ActionView> {
        match stage {
            CreateStage::MakeDirectory => Some(ActionView::MakeDirectory(self.directory)),
            CreateStage::WriteConfig => Some(
                ActionView::WriteFile(self.config_path, self.config_text),
            ),
            CreateStage::ProvisionDisk => Some(ActionView::Execute(self.disk_tool)),
            CreateStage::Created => None,
        }
    }
}

/// Whether a name is taken: whether the scan found an item of that name,
/// machine or not.
pub open spec fn name_taken(items: Seq<DirItemView>, name: Seq<char>) -> bool {
    exists|i: int| 0 <= i < items.len() && (#[trigger] items[i]).name == name
}

/// The plan for the machine `name` under `root`, `disk_size` megabytes
/// large, with `config_text` as its configuration file.
pub open spec fn create_plan(
    root: Seq<char>,
    name: Seq<char>,
    disk_size: u32,
    config_text: Seq<char>,
) -> CreatePlanView {
    CreatePlanView {
        directory: joined(root, name),
        config_path: config_path(joined(root, name)),
        config_text,
        disk_tool: disk_tool_command(joined(root, name), disk_size),
    }
}

/// What planning a new machine comes to. A root that could not be read, a
/// name that is taken, and a default configuration that cannot be written
/// out are failures, in this order.
pub open spec fn new_machine_outcome(
    root: Seq<char>,
    scan: Option<Seq<DirItemView>>,
    name: Seq<char>,
    disk_size: u32,
) -> Result<CreatePlanView, RegistryErrorView> {
    match scan {
        None => Err(RegistryErrorView::ReadMachinesDirectoryFail),
        Some(items) => if name_taken(items, name) {
            Err(RegistryErrorView::NewMachineDirectoryExists)
        } else {
            match pretty_text(config_items(ConfigView { machine: default_machine() })) {
                Some(text) => Ok(create_plan(root, name, disk_size, text)),
                None => Err(RegistryErrorView::WriteMachineTomlFail),
            }
        },
    }
}

/// The view of an outcome.
pub open spec fn create_outcome(outcome: Result<CreatePlan, RegistryError>) -> Result<
    CreatePlanView,
    RegistryErrorView,
> {
    match outcome {
        Ok(plan) => Ok(plan@),
        Err(error) => Err(error@),
    }
}

fn is_taken(items: &Vec<DirItem>, name: &str) -> (r: bool)
    ensures
        r == name_taken(items.deep_view(), name@),
{
    let mut i: usize = 0;
    while i < items.len()
        invariant
            0 <= i <= items.len(),
            forall|j: int| 0 <= j < i ==> (#[trigger] items.deep_view()[j]).name != name@,
        decreases items.len() - i,
    {
        assert(items.deep_view()[i as int] == items[i as int]@);
        if same_text(items[i].name.as_str(), name) {
            return true;
        }
        i += 1;
    }
    false
}

/// Plans the machine `name` under `root`, with a disk image of `disk_size`
/// megabytes; `scan` is the scan of `root`, `None` where it could not be
/// read. The name must be free: an item of that name, machine or not, is in
/// the way.
pub fn new_machine(root: &str, scan: Option<&Vec<DirItem>>, name: &str, disk_size: u32) -> (r:
    Result<CreatePlan, RegistryError>)
    ensures
        create_outcome(r) == new_machine_outcome(root@, scan_view(scan), name@, disk_size),
{
    let items = match scan {
        Some(items) => items,
        None => {
            return Err(RegistryError::ReadMachinesDirectoryFail);
        },
    };
    if is_taken(items, name) {
        return Err(RegistryError::NewMachineDirectoryExists);
    }
    let config_text = match Config::default().to_toml() {
        Some(text) => text,
        None => {
            return Err(RegistryError::WriteMachineTomlFail);
        },
    };
    let directory = join(root, name);
    let config_path = config_file(directory.as_str());
    let disk = join(directory.as_str(), "disk.qcow2");
    let mut size = decimal_text(disk_size);
    size.append("M");
    let mut args: Vec<String> = Vec::new();
    push_text(&mut args, "create");
    push_text(&mut args, "-f");
    push_text(&mut args, "qcow2");
    push_text(&mut args, disk.as_str());
    push_text(&mut args, size.as_str());
    assert(args.deep_view() =~= disk_tool_command(directory@, disk_size).args);
    let disk_tool = LaunchCommand { program: String::from_str("qemu-img"), args };
    Ok(CreatePlan { directory, config_path, config_text, disk_tool })
}

impl CreatePlan {
    /// What is to be done at `stage`; nothing once the machine exists.
    pub fn action(&self, stage: CreateStage) -> (r: Option<Action>)
        ensures
            optional_action(r) == self@.action_at(stage),
    {
        match stage {
            CreateStage::MakeDirectory => Some(Action::MakeDirectory(self.directory.clone())),
            CreateStage::WriteConfig => Some(
                Action::WriteFile(self.config_path.clone(), self.config_text.clone()),
            ),
            CreateStage::ProvisionDisk => Some(Action::Execute(copy_command(&self.disk_tool))),
            CreateStage::Created => None,
        }
    }
}

/// A copy of `command`.
fn copy_command(command: &LaunchCommand) -> (r: LaunchCommand)
    ensures
        r@ == command@,
{
    let mut args: Vec<String> = Vec::new();
    let mut i: usize = 0;
    while i < command.args.len()
        invariant
            0 <= i <= command.args.len(),
            args.len() == i,
            forall|j: int| 0 <= j < i ==> (#[trigger] args[j])@ == command.args[j]@,
        decreases command.args.len() - i,
    {
        args.push(command.args[i].clone());
        i += 1;
    }
    assert(args.deep_view() =~= command.args.deep_view());
    LaunchCommand { program: command.program.clone(), args }
}

/// What follows when the action of `stage` came to `report`: the next stage,
/// or the failure of the creation. The directory and the file have to be
/// `Done`; the disk tool has to exit with code 0.
pub open spec fn create_step(stage: CreateStage, report: Report) -> Result<
    CreateStage,
    RegistryErrorView,
> {
    match stage {
        CreateStage::MakeDirectory => if report == Report::Done {
            Ok(CreateStage::WriteConfig)
        } else {
            Err(RegistryErrorView::CreateMachineDirectoryFail)
        },
        CreateStage::WriteConfig => if report == Report::Done {
            Ok(CreateStage::ProvisionDisk)
        } else {
            Err(RegistryErrorView::WriteMachineTomlFail)
        },
        CreateStage::ProvisionDisk => if report == Report::Exited(0) {
            Ok(CreateStage::Created)
        } else if report == Report::Failed {
            Err(RegistryErrorView::SpawnFail(disk_tool()))
        } else {
            Err(RegistryErrorView::ProcessFail(disk_tool()))
        },
        CreateStage::Created => Ok(CreateStage::Created),
    }
}

/// The view of an outcome.
pub open spec fn stage_outcome<S>(outcome: Result<S, RegistryError>) -> Result<
    S,
    RegistryErrorView,
> {
    match outcome {
        Ok(stage) => Ok(stage),
        Err(error) => Err(error@),
    }
}

/// Takes the creation of a machine one step further: from `stage`, whose
/// action came to `report`.
pub fn advance_create(stage: CreateStage, report: Report) -> (r: Result<
    CreateStage,
    RegistryError,
>)
    ensures
        stage_outcome(r) == create_step(stage, report),
{
    match stage {
        CreateStage::MakeDirectory => match report {
            Report::Done => Ok(CreateStage::WriteConfig),
            _ => Err(RegistryError::CreateMachineDirectoryFail),
        },
        CreateStage::WriteConfig => match report {
            Report::Done => Ok(CreateStage::ProvisionDisk),
            _ => Err(RegistryError::WriteMachineTomlFail),
        },
        CreateStage::ProvisionDisk => match report {
            Report::Exited(code) => if code == 0 {
                Ok(CreateStage::Created)
            } else {
                Err(RegistryError::ProcessFail(String::from_str("qemu-img")))
            },
            Report::Failed => Err(RegistryError::SpawnFail(String::from_str("qemu-img"))),
            _ => Err(RegistryError::ProcessFail(String::from_str("qemu-img"))),
        },
        CreateStage::Created => Ok(CreateStage::Created),
    }
}

/// Where a creation stands after the reports `reports`, taken from the
/// start.
pub open spec fn create_run(reports: Seq<Report>) -> Result<CreateStage, RegistryErrorView>
    decreases reports.len(),
{
    if reports.len() == 0 {
        Ok(CreateStage::MakeDirectory)
    } else {
        match create_run(reports.drop_last()) {
            Ok(stage) => create_step(stage, reports.last()),
            Err(error) => Err(error),
        }
    }
}

/// A machine is created only when its directory was made, its configuration
/// file written and its disk image made, in this order, and the disk tool
/// has ended with exit code 0.
pub proof fn lemma_created_after_all_steps(reports: Seq<Report>)
    requires
        create_run(reports) == Ok::<CreateStage, RegistryErrorView>(CreateStage::Created),
    ensures
        reports.len() >= 3,
        reports[0] == Report::Done,
        reports[1] == Report::Done,
        reports[2] == Report::Exited(0),
{
    lemma_create_run(reports);
}

proof fn lemma_create_run(reports: Seq<Report>)
    ensures
        match create_run(reports) {
            Ok(CreateStage::MakeDirectory) => reports.len() == 0,
            Ok(CreateStage::WriteConfig) => reports.len() == 1 && reports[0] == Report::Done,
            Ok(CreateStage::ProvisionDisk) => reports.len() == 2 && reports[0] == Report::Done
                && reports[1] == Report::Done,
            Ok(CreateStage::Created) => reports.len() >= 3 && reports[0] == Report::Done
                && reports[1] == Report::Done && reports[2] == Report::Exited(0),
            Err(_) => true,
        },
    decreases reports.len(),
{
    if reports.len() > 0 {
        let front = reports.drop_last();
        lemma_create_run(front);
    }
}

/// How a machine goes away. The configuration file goes first: without it
/// the directory is no machine, so that no scan finds a machine of which a
/// part is gone.
#[derive(Clone, Debug, PartialEq, Eq)]
pub struct RemovePlan {
    /// The machine's configuration file.
    pub config_path: String,
    /// The machine's directory.
    pub directory: String,
}

/// What a `RemovePlan` holds, as mathematical values.
pub struct RemovePlanView {
    pub config_path: Seq<char>,
    pub directory: Seq<char>,
}

impl View for RemovePlan {
    type V = RemovePlanView;

    open spec fn view(&self) -> RemovePlanView {
        RemovePlanView { config_path: self.config_path@, directory: self.directory@ }
    }
}

/// How far the removal of a machine has come: what is to be done next.
#[derive(Clone, Copy, Debug, PartialEq, Eq, Structural)]
pub enum RemoveStage {
    RemoveConfig,
    RemoveDirectory,
    /// Nothing is left to do: the machine is gone.
    Removed,
}

impl Default for RemoveStage {
    /// Where a removal starts.
    fn default() -> (r: RemoveStage)
        ensures
            r == RemoveStage::RemoveConfig,
    {
        RemoveStage::RemoveConfig
    }
}

impl RemovePlanView {
    /// What is to be done at `stage`.
    pub open spec fn action_at(self, stage: RemoveStage) -> Option<ActionView> {
        match stage {
            RemoveStage::RemoveConfig => Some(ActionView::RemoveFile(self.config_path)),
            RemoveStage::RemoveDirectory => Some(ActionView::RemoveTree(self.directory)),
            RemoveStage::Removed => None,
        }
    }
}

impl RemovePlan {
    /// What is to be done at `stage`; nothing once the machine is gone.
    pub fn action(&self, stage: RemoveStage) -> (r: Option<Action>)
        ensures
            optional_action(r) == self@.action_at(stage),
    {
        match stage {
            RemoveStage::RemoveConfig => Some(Action::RemoveFile(self.config_path.clone())),
            RemoveStage::RemoveDirectory => Some(Action::RemoveTree(self.directory.clone())),
            RemoveStage::Removed => None,
        }
    }
}

/// What follows when the action of `stage` came to `report`: the next stage,
/// or the failure of the removal.
pub open spec fn remove_step(stage: RemoveStage, report: Report) -> Result<
    RemoveStage,
    RegistryErrorView,
> {
    match stage {
        RemoveStage::RemoveConfig => if report == Report::Done {
            Ok(RemoveStage::RemoveDirectory)
        } else {
            Err(RegistryErrorView::RemoveMachineDirectoryFail)
        },
        RemoveStage::RemoveDirectory => if report == Report::Done {
            Ok(RemoveStage::Removed)
        } else {
            Err(RegistryErrorView::RemoveMachineDirectoryFail)
        },
        RemoveStage::Removed => Ok(RemoveStage::Removed),
    }
}

/// Takes the removal of a machine one step further: from `stage`, whose
/// action came to `report`.
pub fn advance_remove(stage: RemoveStage, report: Report) -> (r: Result<
    RemoveStage,
    RegistryError,
>)
    ensures
        stage_outcome(r) == remove_step(stage, report),
{
    match stage {
        RemoveStage::RemoveConfig => match report {
            Report::Done => Ok(RemoveStage::RemoveDirectory),
            _ => Err(RegistryError::RemoveMachineDirectoryFail),
        },
        RemoveStage::RemoveDirectory => match report {
            Report::Done => Ok(RemoveStage::Removed),
            _ => Err(RegistryError::RemoveMachineDirectoryFail),
        },
        RemoveStage::Removed => Ok(RemoveStage::Removed),
    }
}

/// What the run of `program` comes to when it came to `report`: its exit
/// code where it has one, whatever the code is, else a failure.
pub open spec fn program_outcome(program: Seq<char>, report: Report) -> Result<
    i32,
    RegistryErrorView,
> {
    match report {
        Report::Exited(code) => Ok(code),
        Report::Failed => Err(RegistryErrorView::SpawnFail(program)),
        _ => Err(RegistryErrorView::ProcessFail(program)),
    }
}

/// Concludes the run of `program`: its exit code, or the failure to start
/// it or to see it end with one.
pub fn finish_program(program: &str, report: Report) -> (r: Result<i32, RegistryError>)
    ensures
        stage_outcome(r) == program_outcome(program@, report),
{
    match report {
        Report::Exited(code) => Ok(code),
        Report::Failed => Err(RegistryError::SpawnFail(String::from_str(program))),
        _ => Err(RegistryError::ProcessFail(String::from_str(program))),
    }
}

/// Concludes the run of a machine: the hypervisor's exit code, or the
/// failure to start it or to see it end with one.
pub fn finish_run(report: Report) -> (r: Result<i32, RegistryError>)
    ensures
        stage_outcome(r) == program_outcome(hypervisor(), report),
{
    finish_program("qemu-system-x86_64", report)
}

/// What is asked before a machine is removed for good.
pub open spec fn removal_warning(directory: Seq<char>) -> Seq<char> {
    "are you sure? This will remove \""@ + directory
        + "\" and all of its contents.\nRun with --yes to confirm."@
}

/// What to do for one machine.
#[derive(Clone, Debug, PartialEq, Eq)]
pub enum MachinePlan {
    /// Start the hypervisor for the machine `name`.
    Launch { name: String, command: LaunchCommand, verbose: bool },
    /// Remove nothing, and tell the user how to confirm the removal of
    /// `directory`.
    ConfirmRemoval { directory: String, warning: String },
    /// Remove the machine.
    Remove(RemovePlan),
    /// Open the machine's configuration file in an editor.
    Edit { config_path: String },
}

/// What a `MachinePlan` holds, as mathematical values.
pub enum MachinePlanView {
    Launch { name: Seq<char>, command: LaunchCommandView, verbose: bool },
    ConfirmRemoval { directory: Seq<char>, warning: Seq<char> },
    Remove(RemovePlanView),
    Edit { config_path: Seq<char> },
}

impl View for MachinePlan {
    type V = MachinePlanView;

    open spec fn view(&self) -> MachinePlanView {
        match self {
            MachinePlan::Launch { name, command, verbose } => MachinePlanView::Launch {
                name: name@,
                command: command@,
                verbose: *verbose,
            },
            MachinePlan::ConfirmRemoval { directory, warning } => MachinePlanView::ConfirmRemoval {
                directory: directory@,
                warning: warning@,
            },
            MachinePlan::Remove(plan) => MachinePlanView::Remove(plan@),
            MachinePlan::Edit { config_path } => MachinePlanView::Edit {
                config_path: config_path@,
            },
        }
    }
}

/// What `cmd` asks of the machine `entry`.
pub open spec fn machine_plan(entry: MachineEntryView, cmd: MachineCommandView) -> MachinePlanView {
    match cmd {
        MachineCommandView::Run { cd_rom, verbose } => MachinePlanView::Launch {
            name: entry.name,
            command: launch_command(entry.config.machine, entry.directory, cd_rom),
            verbose,
        },
        MachineCommandView::Remove { yes } => if yes {
            MachinePlanView::Remove(
                RemovePlanView {
                    config_path: config_path(entry.directory),
                    directory: entry.directory,
                },
            )
        } else {
            MachinePlanView::ConfirmRemoval {
                directory: entry.directory,
                warning: removal_warning(entry.directory),
            }
        },
        MachineCommandView::Edit => MachinePlanView::Edit {
            config_path: config_path(entry.directory),
        },
    }
}

/// What `cmd` comes to for the machine `name` among `machines`: a plan for
/// the first machine of that name, or the failure that there is none.
pub open spec fn machine_outcome(
    machines: Seq<MachineEntryView>,
    name: Seq<char>,
    cmd: MachineCommandView,
) -> Result<MachinePlanView, RegistryErrorView> {
    match found(machines, name) {
        Some(entry) => Ok(machine_plan(entry, cmd)),
        None => Err(RegistryErrorView::NoMachineByName),
    }
}

/// The view of an outcome.
pub open spec fn plan_outcome(outcome: Result<MachinePlan, RegistryError>) -> Result<
    MachinePlanView,
    RegistryErrorView,
> {
    match outcome {
        Ok(plan) => Ok(plan@),
        Err(error) => Err(error@),
    }
}

/// Plans what `cmd` asks of the machine `name` in `registry`. A removal
/// that is not confirmed plans no action: it comes to the warning that says
/// what would be removed.
pub fn machine(registry: &Registry, name: &str, cmd: &MachineCommand) -> (r: Result<
    MachinePlan,
    RegistryError,
>)
    ensures
        plan_outcome(r) == machine_outcome(registry@.machines, name@, cmd@),
{
    let entry = match registry.find(name) {
        Ok(entry) => entry,
        Err(error) => {
            return Err(error);
        },
    };
    match cmd {
        MachineCommand::Run { cd_rom, verbose } => {
            let image = match cd_rom {
                Some(image) => Some(image.as_str()),
                None => None,
            };
            let command = entry.config.construct_launch_command(entry.directory.as_str(), image);
            Ok(MachinePlan::Launch { name: entry.name.clone(), command, verbose: *verbose })
        },
        MachineCommand::Remove { yes } => {
            if *yes {
                Ok(
                    MachinePlan::Remove(
                        RemovePlan {
                            config_path: config_file(entry.directory.as_str()),
                            directory: entry.directory.clone(),
                        },
                    ),
                )
            } else {
                let mut warning = followed_by(
                    "are you sure? This will remove \"",
                    entry.directory.as_str(),
                );
                warning.append("\" and all of its contents.\nRun with --yes to confirm.");
                Ok(MachinePlan::ConfirmRemoval { directory: entry.directory.clone(), warning })
            }
        },
        MachineCommand::Edit => Ok(
            MachinePlan::Edit { config_path: config_file(entry.directory.as_str()) },
        ),
    }
}

/// What to do for one invocation of the program.
#[derive(Clone, Debug, PartialEq, Eq)]
pub enum Plan {
    /// Print the names of the machines.
    List(Vec<String>),
    /// Create a machine.
    Create(CreatePlan),
    /// Run, remove or edit a machine.
    Machine(MachinePlan),
}

/// What a `Plan` holds, as mathematical values.
pub enum PlanView {
    List(Seq<Seq<char>>),
    Create(CreatePlanView),
    Machine(MachinePlanView),
}

impl View for Plan {
    type V = PlanView;

    open spec fn view(&self) -> PlanView {
        match self {
            Plan::List(names) => PlanView::List(names.deep_view()),
            Plan::Create(plan) => PlanView::Create(plan@),
            Plan::Machine(plan) => PlanView::Machine(plan@),
        }
    }
}

/// Whether `command` comes to `outcome`, given the scan of `root`.
///
/// To create a machine only the names in the scan count. To list the
/// machines or to handle one, the scan has to give a registry; where it
/// does, a list is the names in their order, and a machine is handled as
/// `machine_outcome` says.
pub open spec fn command_comes_to(
    command: CliCommandView,
    root: Seq<char>,
    scan: Option<Seq<DirItemView>>,
    outcome: Result<PlanView, RegistryErrorView>,
) -> bool {
    match command {
        CliCommandView::New { name, disk_size } => match new_machine_outcome(
            root,
            scan,
            name,
            disk_size,
        ) {
            Ok(plan) => outcome == Ok::<PlanView, RegistryErrorView>(PlanView::Create(plan)),
            Err(error) => outcome == Err::<PlanView, RegistryErrorView>(error),
        },
        CliCommandView::Ls => if scan_succeeds(scan) {
            outcome == Ok::<PlanView, RegistryErrorView>(
                PlanView::List(names_of(collected(root, scan->0))),
            )
        } else {
            outcome matches Err(error) && scan_fails_with(root, scan, error)
        },
        CliCommandView::Machine { name, cmd } => if scan_succeeds(scan) {
            match machine_outcome(collected(root, scan->0), name, cmd) {
                Ok(plan) => outcome == Ok::<PlanView, RegistryErrorView>(PlanView::Machine(plan)),
                Err(error) => outcome == Err::<PlanView, RegistryErrorView>(error),
            }
        } else {
            outcome matches Err(error) && scan_fails_with(root, scan, error)
        },
    }
}

/// The view of an outcome.
pub open spec fn dispatch_outcome(outcome: Result<Plan, RegistryError>) -> Result<
    PlanView,
    RegistryErrorView,
> {
    match outcome {
        Ok(plan) => Ok(plan@),
        Err(error) => Err(error@),
    }
}

/// Plans what the invocation `cli` asks for; `scan` is the scan of the
/// registry's root `root`, `None` where it could not be read.
pub fn dispatch(cli: &Cli, root: &str, scan: Option<&Vec<DirItem>>) -> (r: Result<
    Plan,
    RegistryError,
>)
    ensures
        command_comes_to(cli@, root@, scan_view(scan), dispatch_outcome(r)),
{
    match &cli.command {
        CliCommand::Ls => match crate::registry::ls(root, scan) {
            Ok(names) => Ok(Plan::List(names)),
            Err(error) => Err(error),
        },
        CliCommand::New { name, disk_size } => match new_machine(
            root,
            scan,
            name.as_str(),
            *disk_size,
        ) {
            Ok(plan) => Ok(Plan::Create(plan)),
            Err(error) => Err(error),
        },
        CliCommand::Machine { name, cmd } => match get_machines(root, scan) {
            Ok(registry) => match machine(&registry, name.as_str(), cmd) {
                Ok(plan) => Ok(Plan::Machine(plan)),
                Err(error) => Err(error),
            },
            Err(error) => Err(error),
        },
    }
}

/// A name that the scan found cannot be given to a new machine, whatever
/// stands under it and whatever size is asked for.
pub proof fn lemma_taken_name_is_a_conflict(
    root: Seq<char>,
    items: Seq<DirItemView>,
    i: int,
    disk_size: u32,
)
    requires
        0 <= i < items.len(),
    ensures
        new_machine_outcome(root, Some(items), items[i].name, disk_size) == Err::<
            CreatePlanView,
            RegistryErrorView,
        >(RegistryErrorView::NewMachineDirectoryExists),
{
}

/// A removal that is not confirmed plans no action: for a machine that is
/// there it comes to the warning, which names the machine's directory.
pub proof fn lemma_unconfirmed_removal_plans_no_action(
    machines: Seq<MachineEntryView>,
    name: Seq<char>,
)
    ensures
        match found(machines, name) {
            Some(entry) => machine_outcome(
                machines,
                name,
                MachineCommandView::Remove { yes: false },
            ) == Ok::<MachinePlanView, RegistryErrorView>(
                MachinePlanView::ConfirmRemoval {
                    directory: entry.directory,
                    warning: removal_warning(entry.directory),
                },
            ),
            None => machine_outcome(machines, name, MachineCommandView::Remove { yes: false })
                == Err::<MachinePlanView, RegistryErrorView>(RegistryErrorView::NoMachineByName),
        },
{
}

} // verus!
