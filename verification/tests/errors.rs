use qemubox::config::Config;
use qemubox::error::{report_error, ErrorKind, RegistryError};
use qemubox::schema::{ConfigFault, SchemaField};

#[test]
fn each_error_has_its_line() {
    assert_eq!(report_error(&RegistryError::NoHomeDirectory), "you have no home directory");
    assert_eq!(
        report_error(&RegistryError::ReadMachinesDirectoryFail),
        "could not read ~/.local/share/qemubox/machines"
    );
    assert_eq!(
        report_error(&RegistryError::NewMachineDirectoryExists),
        "a machine directory with that name already exists"
    );
    assert_eq!(
        report_error(&RegistryError::CreateMachineDirectoryFail),
        "could not create the directory for the machine"
    );
    assert_eq!(
        report_error(&RegistryError::WriteMachineTomlFail),
        "could not write machines.toml"
    );
    assert_eq!(report_error(&RegistryError::NoMachineByName), "no machine found by that name");
    assert_eq!(
        report_error(&RegistryError::RemoveMachineDirectoryFail),
        "could not remove the directory of the machine"
    );
    assert_eq!(
        report_error(&RegistryError::SpawnFail(String::from("qemu-img"))),
        "could not start qemu-img"
    );
    assert_eq!(
        report_error(&RegistryError::ProcessFail(String::from("qemu-img"))),
        "qemu-img did not finish successfully"
    );
}

#[test]
fn a_config_error_names_the_file_and_the_fault() {
    let error = RegistryError::Deserialize(
        String::from("/r/vm1/machine.toml"),
        ConfigFault::UnknownField(String::from("colour")),
    );
    assert_eq!(report_error(&error), "in reading /r/vm1/machine.toml: unknown field `colour`");
    let error = RegistryError::Deserialize(
        String::from("/r/vm2/machine.toml"),
        ConfigFault::Syntax(String::from("expected `]`")),
    );
    assert_eq!(report_error(&error), "in reading /r/vm2/machine.toml: expected `]`");
}

#[test]
fn each_fault_has_its_words() {
    assert_eq!(ConfigFault::Syntax(String::from("bad")).detail(), "bad");
    assert_eq!(ConfigFault::UnknownField(String::from("x")).detail(), "unknown field `x`");
    assert_eq!(
        ConfigFault::WrongType(SchemaField::Kvm).detail(),
        "invalid type for field `kvm`"
    );
    assert_eq!(
        ConfigFault::WrongType(SchemaField::Machine).detail(),
        "invalid type for field `machine`"
    );
    assert_eq!(
        ConfigFault::OutOfRange(SchemaField::Memory).detail(),
        "field `memory` must be a positive integer that fits in 32 bits"
    );
    assert_eq!(
        ConfigFault::UnknownVideo(String::from("vga")).detail(),
        "unknown video option `vga`, expected one of `std`, `virtio`, `qxl`, `none`"
    );
}

#[test]
fn each_error_has_its_kind() {
    assert_eq!(RegistryError::NoHomeDirectory.kind(), ErrorKind::Environment);
    assert_eq!(RegistryError::ReadMachinesDirectoryFail.kind(), ErrorKind::Environment);
    assert_eq!(RegistryError::NoMachineByName.kind(), ErrorKind::NotFound);
    assert_eq!(RegistryError::NewMachineDirectoryExists.kind(), ErrorKind::Conflict);
    assert_eq!(
        RegistryError::Deserialize(String::new(), ConfigFault::Syntax(String::new())).kind(),
        ErrorKind::Config
    );
    assert_eq!(RegistryError::CreateMachineDirectoryFail.kind(), ErrorKind::Io);
    assert_eq!(RegistryError::WriteMachineTomlFail.kind(), ErrorKind::Io);
    assert_eq!(RegistryError::RemoveMachineDirectoryFail.kind(), ErrorKind::Io);
    assert_eq!(RegistryError::SpawnFail(String::new()).kind(), ErrorKind::Process);
    assert_eq!(RegistryError::ProcessFail(String::new()).kind(), ErrorKind::Process);
}

#[test]
fn an_error_fills_one_line() {
    let error = RegistryError::Deserialize(
        String::from("/r/odd\nname/machine.toml"),
        ConfigFault::Syntax(String::from("invalid string\nexpected `\"`, `'`")),
    );
    assert_eq!(
        report_error(&error),
        "in reading /r/odd\\nname/machine.toml: invalid string\\nexpected `\"`, `'`"
    );
    let error = RegistryError::SpawnFail(String::from("my\r\neditor"));
    assert_eq!(report_error(&error), "could not start my\\r\\neditor");
}

#[test]
fn a_syntax_fault_from_the_parser_fills_one_line() {
    for text in ["cpus = = 2", "[machine\n", "[machine]\ndisk = \"unterminated\n", "a = 1\na = 2"] {
        let fault = Config::from_toml(text).unwrap_err();
        let error = RegistryError::Deserialize(String::from("/r/vm/machine.toml"), fault);
        let line = report_error(&error);
        assert!(line.starts_with("in reading /r/vm/machine.toml: "));
        assert_eq!(line.lines().count(), 1);
    }
}
