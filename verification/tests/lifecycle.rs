use qemubox::cli::{Cli, CliCommand, MachineCommand};
use qemubox::config::Config;
use qemubox::launch::LaunchCommand;
use qemubox::error::RegistryError;
use qemubox::lifecycle::{
    advance_create, advance_remove, dispatch, finish_run, machine, new_machine, Action,
    CreatePlan, CreateStage, MachinePlan, Plan, RemovePlan, RemoveStage, Report,
};
use qemubox::registry::{get_machines, ls, DirItem};
use qemubox::schema::ConfigFault;

const ROOT: &str = "/home/u/.local/share/qemubox/machines";

fn directory(name: &str, config: Option<&str>) -> DirItem {
    DirItem { name: String::from(name), is_dir: true, config: config.map(String::from) }
}

fn asking(command: CliCommand) -> Cli {
    Cli { command }
}

fn new_command(name: &str, disk_size: u32) -> Cli {
    asking(CliCommand::New { name: String::from(name), disk_size })
}

fn machine_command(name: &str, cmd: MachineCommand) -> Cli {
    asking(CliCommand::Machine { name: String::from(name), cmd })
}

fn texts(items: &[&str]) -> Vec<String> {
    items.iter().map(|item| String::from(*item)).collect()
}

fn expected_plan(name: &str, size: &str) -> CreatePlan {
    let dir = format!("{}/{}", ROOT, name);
    CreatePlan {
        directory: dir.clone(),
        config_path: format!("{}/machine.toml", dir),
        config_text: Config::default().to_toml().unwrap(),
        disk_tool: LaunchCommand {
            program: String::from("qemu-img"),
            args: vec![
                String::from("create"),
                String::from("-f"),
                String::from("qcow2"),
                format!("{}/disk.qcow2", dir),
                String::from(size),
            ],
        },
    }
}

#[test]
fn a_new_machine_is_planned_in_full() {
    let plan = new_machine(ROOT, Some(&Vec::new()), "vm1", 2048).unwrap();
    assert_eq!(plan, expected_plan("vm1", "2048M"));
    assert_eq!(
        plan.config_text,
        "[machine]\ncpus = 2\ndisk = \"./disk.qcow2\"\nkvm = true\nmemory = 2048\nuefi = false\nvideo = \"std\"\n"
    );
}

#[test]
fn the_disk_has_exactly_the_size_that_was_asked_for() {
    for (size, text) in [(0, "0M"), (1, "1M"), (4096, "4096M"), (u32::MAX, "4294967295M")] {
        let plan = new_machine("/r", Some(&vec![]), "vm", size).unwrap();
        assert_eq!(plan.disk_tool.args[4], text);
        assert_eq!(plan.disk_tool.args[3], "/r/vm/disk.qcow2");
    }
}

#[test]
fn creating_a_machine_twice_is_a_conflict() {
    let mut scan: Vec<DirItem> = Vec::new();
    let first = new_machine(ROOT, Some(&scan), "vm1", 2048).unwrap();
    assert_eq!(first.directory, "/home/u/.local/share/qemubox/machines/vm1");
    scan.push(directory("vm1", Some(&first.config_text)));
    let before = get_machines(ROOT, Some(&scan)).unwrap();
    assert_eq!(
        new_machine(ROOT, Some(&scan), "vm1", 4096),
        Err(RegistryError::NewMachineDirectoryExists)
    );
    assert_eq!(get_machines(ROOT, Some(&scan)), Ok(before));
}

#[test]
fn a_name_is_taken_by_anything_of_that_name() {
    let scan = vec![
        DirItem { name: String::from("plain"), is_dir: false, config: None },
        directory("bare", None),
        directory("broken", Some("[[[")),
    ];
    for name in ["plain", "bare", "broken"] {
        assert_eq!(
            new_machine(ROOT, Some(&scan), name, 1),
            Err(RegistryError::NewMachineDirectoryExists)
        );
    }
    assert!(new_machine(ROOT, Some(&scan), "free", 1).is_ok());
    assert!(new_machine(ROOT, Some(&scan), "Plain", 1).is_ok());
}

#[test]
fn no_machine_is_planned_under_a_root_that_cannot_be_read() {
    assert_eq!(new_machine(ROOT, None, "vm1", 1), Err(RegistryError::ReadMachinesDirectoryFail));
}

#[test]
fn the_stages_of_a_creation_name_their_actions() {
    let plan = expected_plan("vm1", "10M");
    assert_eq!(
        plan.action(CreateStage::MakeDirectory),
        Some(Action::MakeDirectory(plan.directory.clone()))
    );
    assert_eq!(
        plan.action(CreateStage::WriteConfig),
        Some(Action::WriteFile(plan.config_path.clone(), plan.config_text.clone()))
    );
    assert_eq!(
        plan.action(CreateStage::ProvisionDisk),
        Some(Action::Execute(plan.disk_tool.clone()))
    );
    assert_eq!(plan.action(CreateStage::Created), None);
}

#[test]
fn a_creation_goes_through_its_stages() {
    assert_eq!(
        advance_create(CreateStage::MakeDirectory, Report::Done),
        Ok(CreateStage::WriteConfig)
    );
    assert_eq!(
        advance_create(CreateStage::WriteConfig, Report::Done),
        Ok(CreateStage::ProvisionDisk)
    );
    assert_eq!(
        advance_create(CreateStage::ProvisionDisk, Report::Exited(0)),
        Ok(CreateStage::Created)
    );
    assert_eq!(advance_create(CreateStage::Created, Report::Done), Ok(CreateStage::Created));
    assert_eq!(advance_create(CreateStage::Created, Report::Failed), Ok(CreateStage::Created));
}

#[test]
fn a_creation_fails_where_a_step_fails() {
    for report in [Report::Failed, Report::Killed, Report::Exited(0), Report::Exited(1)] {
        assert_eq!(
            advance_create(CreateStage::MakeDirectory, report),
            Err(RegistryError::CreateMachineDirectoryFail)
        );
        assert_eq!(
            advance_create(CreateStage::WriteConfig, report),
            Err(RegistryError::WriteMachineTomlFail)
        );
    }
    assert_eq!(
        advance_create(CreateStage::ProvisionDisk, Report::Failed),
        Err(RegistryError::SpawnFail(String::from("qemu-img")))
    );
    for report in [Report::Exited(1), Report::Exited(-1), Report::Killed, Report::Done] {
        assert_eq!(
            advance_create(CreateStage::ProvisionDisk, report),
            Err(RegistryError::ProcessFail(String::from("qemu-img")))
        );
    }
}

#[test]
fn a_machine_is_created_only_after_the_disk_tool_has_succeeded() {
    let reports = [Report::Done, Report::Done, Report::Exited(0)];
    let mut stage = CreateStage::MakeDirectory;
    let mut steps = 0;
    for report in reports {
        assert_ne!(stage, CreateStage::Created);
        stage = advance_create(stage, report).unwrap();
        steps += 1;
    }
    assert_eq!(stage, CreateStage::Created);
    assert_eq!(steps, 3);
}

fn registry_with_vm1() -> (Vec<DirItem>, qemubox::registry::Registry) {
    let scan = vec![
        directory("vm0", Some("[machine]\ncpus = 1\n")),
        directory("vm1", Some("[machine]\nuefi = true\nvideo = \"none\"\n")),
    ];
    let registry = get_machines(ROOT, Some(&scan)).unwrap();
    (scan, registry)
}

#[test]
fn removal_without_confirmation_removes_nothing() {
    let (scan, registry) = registry_with_vm1();
    let plan = machine(&registry, "vm1", &MachineCommand::Remove { yes: false }).unwrap();
    assert_eq!(
        plan,
        MachinePlan::ConfirmRemoval {
            directory: String::from("/home/u/.local/share/qemubox/machines/vm1"),
            warning: String::from(
                "are you sure? This will remove \"/home/u/.local/share/qemubox/machines/vm1\" and all of its contents.\nRun with --yes to confirm."
            ),
        }
    );
    assert_eq!(ls(ROOT, Some(&scan)), Ok(texts(&["vm0", "vm1"])));
}

#[test]
fn removal_with_confirmation_removes_the_config_first() {
    let (mut scan, registry) = registry_with_vm1();
    let plan = machine(&registry, "vm1", &MachineCommand::Remove { yes: true }).unwrap();
    let expected = RemovePlan {
        config_path: String::from("/home/u/.local/share/qemubox/machines/vm1/machine.toml"),
        directory: String::from("/home/u/.local/share/qemubox/machines/vm1"),
    };
    assert_eq!(plan, MachinePlan::Remove(expected.clone()));
    assert_eq!(
        expected.action(RemoveStage::RemoveConfig),
        Some(Action::RemoveFile(expected.config_path.clone()))
    );
    assert_eq!(
        expected.action(RemoveStage::RemoveDirectory),
        Some(Action::RemoveTree(expected.directory.clone()))
    );
    assert_eq!(expected.action(RemoveStage::Removed), None);

    scan[1].config = None;
    assert_eq!(ls(ROOT, Some(&scan)), Ok(texts(&["vm0"])));
    scan.remove(1);
    assert_eq!(ls(ROOT, Some(&scan)), Ok(texts(&["vm0"])));
}

#[test]
fn a_removal_goes_through_its_stages() {
    assert_eq!(
        advance_remove(RemoveStage::RemoveConfig, Report::Done),
        Ok(RemoveStage::RemoveDirectory)
    );
    assert_eq!(
        advance_remove(RemoveStage::RemoveDirectory, Report::Done),
        Ok(RemoveStage::Removed)
    );
    assert_eq!(advance_remove(RemoveStage::Removed, Report::Failed), Ok(RemoveStage::Removed));
    for report in [Report::Failed, Report::Killed, Report::Exited(0)] {
        assert_eq!(
            advance_remove(RemoveStage::RemoveConfig, report),
            Err(RegistryError::RemoveMachineDirectoryFail)
        );
        assert_eq!(
            advance_remove(RemoveStage::RemoveDirectory, report),
            Err(RegistryError::RemoveMachineDirectoryFail)
        );
    }
}

#[test]
fn a_machine_that_is_not_there_cannot_be_handled() {
    let (_, registry) = registry_with_vm1();
    let commands = [
        MachineCommand::Run { cd_rom: None, verbose: false },
        MachineCommand::Remove { yes: false },
        MachineCommand::Remove { yes: true },
        MachineCommand::Edit,
    ];
    for command in commands {
        assert_eq!(
            machine(&registry, "nonexistent", &command),
            Err(RegistryError::NoMachineByName)
        );
    }
}

#[test]
fn running_a_machine_starts_the_hypervisor_in_its_directory() {
    let (_, registry) = registry_with_vm1();
    let command = MachineCommand::Run { cd_rom: Some(String::from("/iso/a.iso")), verbose: true };
    let plan = machine(&registry, "vm1", &command).unwrap();
    let entry = registry.find("vm1").unwrap();
    assert_eq!(
        plan,
        MachinePlan::Launch {
            name: String::from("vm1"),
            command: entry.config.construct_launch_command(&entry.directory, Some("/iso/a.iso")),
            verbose: true,
        }
    );
    if let MachinePlan::Launch { command, .. } = plan {
        assert_eq!(command.program, "qemu-system-x86_64");
        assert_eq!(
            command.args,
            texts(&[
                "-smp",
                "2",
                "-m",
                "2048M",
                "-enable-kvm",
                "-drive",
                "if=pflash,format=raw,readonly=on,file=/usr/share/edk2-ovmf/x64/OVMF_CODE.fd",
                "-drive",
                "if=pflash,format=raw,file=/home/u/.local/share/qemubox/machines/vm1/ovmf_vars.fd",
                "-vga",
                "none",
                "-nographic",
                "-cdrom",
                "/iso/a.iso",
                "/home/u/.local/share/qemubox/machines/vm1/./disk.qcow2",
            ])
        );
    }
}

#[test]
fn editing_a_machine_names_its_config_file() {
    let (_, registry) = registry_with_vm1();
    assert_eq!(
        machine(&registry, "vm0", &MachineCommand::Edit),
        Ok(MachinePlan::Edit {
            config_path: String::from("/home/u/.local/share/qemubox/machines/vm0/machine.toml"),
        })
    );
}

#[test]
fn a_run_hands_on_the_exit_code() {
    assert_eq!(finish_run(Report::Exited(0)), Ok(0));
    assert_eq!(finish_run(Report::Exited(1)), Ok(1));
    assert_eq!(finish_run(Report::Exited(-7)), Ok(-7));
    assert_eq!(finish_run(Report::Exited(i32::MAX)), Ok(i32::MAX));
}

#[test]
fn a_run_fails_without_an_exit_code() {
    assert_eq!(
        finish_run(Report::Failed),
        Err(RegistryError::SpawnFail(String::from("qemu-system-x86_64")))
    );
    assert_eq!(
        finish_run(Report::Killed),
        Err(RegistryError::ProcessFail(String::from("qemu-system-x86_64")))
    );
    assert_eq!(
        finish_run(Report::Done),
        Err(RegistryError::ProcessFail(String::from("qemu-system-x86_64")))
    );
}

#[test]
fn dispatch_lists_the_machines() {
    let (scan, _) = registry_with_vm1();
    let cli = asking(CliCommand::Ls);
    assert_eq!(dispatch(&cli, ROOT, Some(&scan)), Ok(Plan::List(texts(&["vm0", "vm1"]))));
    assert_eq!(dispatch(&cli, ROOT, Some(&vec![])), Ok(Plan::List(vec![])));
    assert_eq!(dispatch(&cli, ROOT, None), Err(RegistryError::ReadMachinesDirectoryFail));
}

#[test]
fn dispatch_plans_a_new_machine() {
    let (scan, _) = registry_with_vm1();
    let command = new_command("vm2", 512);
    assert_eq!(
        dispatch(&command, ROOT, Some(&scan)),
        Ok(Plan::Create(expected_plan("vm2", "512M")))
    );
    let command = new_command("vm1", 512);
    assert_eq!(
        dispatch(&command, ROOT, Some(&scan)),
        Err(RegistryError::NewMachineDirectoryExists)
    );
    assert_eq!(dispatch(&command, ROOT, None), Err(RegistryError::ReadMachinesDirectoryFail));
}

#[test]
fn dispatch_creates_beside_a_broken_machine() {
    let scan = vec![directory("broken", Some("[machine]\ncolour = 1\n"))];
    let command = new_command("vm2", 512);
    assert_eq!(
        dispatch(&command, ROOT, Some(&scan)),
        Ok(Plan::Create(expected_plan("vm2", "512M")))
    );
}

#[test]
fn dispatch_handles_a_machine() {
    let (scan, registry) = registry_with_vm1();
    for cmd in [
        MachineCommand::Run { cd_rom: None, verbose: false },
        MachineCommand::Remove { yes: false },
        MachineCommand::Remove { yes: true },
        MachineCommand::Edit,
    ] {
        let command = machine_command("vm1", cmd.clone());
        assert_eq!(
            dispatch(&command, ROOT, Some(&scan)),
            machine(&registry, "vm1", &cmd).map(Plan::Machine)
        );
        let command = machine_command("vm9", cmd);
        assert_eq!(dispatch(&command, ROOT, Some(&scan)), Err(RegistryError::NoMachineByName));
    }
}

#[test]
fn dispatch_fails_on_a_broken_machine() {
    let scan = vec![
        directory("vm1", Some("")),
        directory("broken", Some("[machine]\ncolour = 1\n")),
    ];
    let expected = RegistryError::Deserialize(
        String::from("/home/u/.local/share/qemubox/machines/broken/machine.toml"),
        ConfigFault::UnknownField(String::from("colour")),
    );
    assert_eq!(dispatch(&asking(CliCommand::Ls), ROOT, Some(&scan)), Err(expected.clone()));
    let command = machine_command("vm1", MachineCommand::Edit);
    assert_eq!(dispatch(&command, ROOT, Some(&scan)), Err(expected));
}
