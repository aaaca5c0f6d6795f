//! What can go wrong, and the line that tells the user of it.

use crate::schema::{ConfigFault, FaultView};
use crate::text::{followed_by, lemma_one_line, on_one_line, one_line};
use vstd::prelude::*;

verus! {

impl FaultView {
    /// The fault in words.
    pub open spec fn detail(self) -> Seq<char> {
        match self {
            FaultView::Syntax(reason) => reason,
            FaultView::UnknownField(key) => "unknown field `"@ + key + "`"@,
            FaultView::WrongType(field) => "invalid type for field `"@ + field.key_text() + "`"@,
            FaultView::OutOfRange(field) => "field `"@ + field.key_text()
                + "` must be a positive integer that fits in 32 bits"@,
            FaultView::UnknownVideo(name) => "unknown video option `"@ + name
                + "`, expected one of `std`, `virtio`, `qxl`, `none`"@,
        }
    }
}

impl ConfigFault {
    /// The fault in words.
    pub fn detail(&self) -> (r: String)
        ensures
            r@ == self@.detail(),
    {
        match self {
            ConfigFault::Syntax(reason) => reason.clone(),
            ConfigFault::UnknownField(key) => {
                let mut r = followed_by("unknown field `", key.as_str());
                r.append("`");
                r
            },
            ConfigFault::WrongType(field) => {
                let mut r = followed_by("invalid type for field `", field.key());
                r.append("`");
                r
            },
            ConfigFault::OutOfRange(field) => {
                let mut r = followed_by("field `", field.key());
                r.append("` must be a positive integer that fits in 32 bits");
                r
            },
            ConfigFault::UnknownVideo(name) => {
                let mut r = followed_by("unknown video option `", name.as_str());
                r.append("`, expected one of `std`, `virtio`, `qxl`, `none`");
                r
            },
        }
    }
}

/// The kinds of failure.
#[derive(Clone, Copy, Debug, PartialEq, Eq, Structural)]
pub enum ErrorKind {
    /// The user's environment lacks what the registry needs.
    Environment,
    /// No machine has the name that was given.
    NotFound,
    /// The name that was given is taken.
    Conflict,
    /// A configuration file breaks the schema.
    Config,
    /// A directory or a file could not be made, written or removed.
    Io,
    /// An external program did not start, or did not end well.
    Process,
}

/// A failure of an operation on the registry.
#[derive(Clone, Debug, PartialEq, Eq)]
pub enum RegistryError {
    /// The user has no home directory.
    NoHomeDirectory,
    /// The directory of the machines could not be read.
    ReadMachinesDirectoryFail,
    /// The configuration file at the given path is no configuration.
    Deserialize(String, ConfigFault),
    /// The name of the new machine is taken.
    NewMachineDirectoryExists,
    /// The directory of the new machine could not be made.
    CreateMachineDirectoryFail,
    /// The configuration file of the new machine could not be written.
    WriteMachineTomlFail,
    /// No machine has the given name.
    NoMachineByName,
    /// The machine's directory could not be removed.
    RemoveMachineDirectoryFail,
    /// The given program could not be started.
    SpawnFail(String),
    /// The given program did not end as it should have.
    ProcessFail(String),
}

/// What a `RegistryError` holds, as mathematical values.
pub enum RegistryErrorView {
    NoHomeDirectory,
    ReadMachinesDirectoryFail,
    Deserialize(Seq<char>, FaultView),
    NewMachineDirectoryExists,
    CreateMachineDirectoryFail,
    WriteMachineTomlFail,
    NoMachineByName,
    RemoveMachineDirectoryFail,
    SpawnFail(Seq<char>),
    ProcessFail(Seq<char>),
}

impl View for RegistryError {
    type V = RegistryErrorView;

    open spec fn view(&self) -> RegistryErrorView {
        match self {
            RegistryError::NoHomeDirectory => RegistryErrorView::NoHomeDirectory,
            RegistryError::ReadMachinesDirectoryFail =>
                RegistryErrorView::ReadMachinesDirectoryFail,
            RegistryError::Deserialize(path, fault) =>
                RegistryErrorView::Deserialize(path@, fault@),
            RegistryError::NewMachineDirectoryExists =>
                RegistryErrorView::NewMachineDirectoryExists,
            RegistryError::CreateMachineDirectoryFail =>
                RegistryErrorView::CreateMachineDirectoryFail,
            RegistryError::WriteMachineTomlFail => RegistryErrorView::WriteMachineTomlFail,
            RegistryError::NoMachineByName => RegistryErrorView::NoMachineByName,
            RegistryError::RemoveMachineDirectoryFail =>
                RegistryErrorView::RemoveMachineDirectoryFail,
            RegistryError::SpawnFail(program) => RegistryErrorView::SpawnFail(program@),
            RegistryError::ProcessFail(program) => RegistryErrorView::ProcessFail(program@),
        }
    }
}

impl RegistryErrorView {
    /// The kind of the failure.
    pub open spec fn kind(self) -> ErrorKind {
        match self {
            RegistryErrorView::NoHomeDirectory => ErrorKind::Environment,
            RegistryErrorView::ReadMachinesDirectoryFail => ErrorKind::Environment,
            RegistryErrorView::Deserialize(_, _) => ErrorKind::Config,
            RegistryErrorView::NewMachineDirectoryExists => ErrorKind::Conflict,
            RegistryErrorView::CreateMachineDirectoryFail => ErrorKind::Io,
            RegistryErrorView::WriteMachineTomlFail => ErrorKind::Io,
            RegistryErrorView::NoMachineByName => ErrorKind::NotFound,
            RegistryErrorView::RemoveMachineDirectoryFail => ErrorKind::Io,
            RegistryErrorView::SpawnFail(_) => ErrorKind::Process,
            RegistryErrorView::ProcessFail(_) => ErrorKind::Process,
        }
    }

    /// The line that tells the user of the failure: its wording, with any
    /// line break in it written out.
    pub open spec fn message(self) -> Seq<char> {
        on_one_line(self.wording())
    }

    /// The failure in words.
    pub open spec fn wording(self) -> Seq<char> {
        match self {
            RegistryErrorView::NoHomeDirectory => "you have no home directory"@,
            RegistryErrorView::ReadMachinesDirectoryFail =>
                "could not read ~/.local/share/qemubox/machines"@,
            RegistryErrorView::Deserialize(path, fault) =>
                "in reading "@ + path + ": "@ + fault.detail(),
            RegistryErrorView::NewMachineDirectoryExists =>
                "a machine directory with that name already exists"@,
            RegistryErrorView::CreateMachineDirectoryFail =>
                "could not create the directory for the machine"@,
            RegistryErrorView::WriteMachineTomlFail => "could not write machines.toml"@,
            RegistryErrorView::NoMachineByName => "no machine found by that name"@,
            RegistryErrorView::RemoveMachineDirectoryFail =>
                "could not remove the directory of the machine"@,
            RegistryErrorView::SpawnFail(program) => "could not start "@ + program,
            RegistryErrorView::ProcessFail(program) => program + " did not finish successfully"@,
        }
    }
}

impl RegistryError {
    /// The kind of the failure.
    pub fn kind(&self) -> (r: ErrorKind)
        ensures
            r == self@.kind(),
    {
        match self {
            RegistryError::NoHomeDirectory => ErrorKind::Environment,
            RegistryError::ReadMachinesDirectoryFail => ErrorKind::Environment,
            RegistryError::Deserialize(_, _) => ErrorKind::Config,
            RegistryError::NewMachineDirectoryExists => ErrorKind::Conflict,
            RegistryError::CreateMachineDirectoryFail => ErrorKind::Io,
            RegistryError::WriteMachineTomlFail => ErrorKind::Io,
            RegistryError::NoMachineByName => ErrorKind::NotFound,
            RegistryError::RemoveMachineDirectoryFail => ErrorKind::Io,
            RegistryError::SpawnFail(_) => ErrorKind::Process,
            RegistryError::ProcessFail(_) => ErrorKind::Process,
        }
    }
}

/// The failure in words.
fn wording(error: &RegistryError) -> (r: String)
    ensures
        r@ == error@.wording(),
{
    match error {
        RegistryError::NoHomeDirectory => String::from_str("you have no home directory"),
        RegistryError::ReadMachinesDirectoryFail => String::from_str(
            "could not read ~/.local/share/qemubox/machines",
        ),
        RegistryError::Deserialize(path, fault) => {
            let mut r = followed_by("in reading ", path.as_str());
            r.append(": ");
            let detail = fault.detail();
            r.append(detail.as_str());
            r
        },
        RegistryError::NewMachineDirectoryExists => String::from_str(
            "a machine directory with that name already exists",
        ),
        RegistryError::CreateMachineDirectoryFail => String::from_str(
            "could not create the directory for the machine",
        ),
        RegistryError::WriteMachineTomlFail => String::from_str("could not write machines.toml"),
        RegistryError::NoMachineByName => String::from_str("no machine found by that name"),
        RegistryError::RemoveMachineDirectoryFail => String::from_str(
            "could not remove the directory of the machine",
        ),
        RegistryError::SpawnFail(program) => followed_by("could not start ", program.as_str()),
        RegistryError::ProcessFail(program) => followed_by(
            program.as_str(),
            " did not finish successfully",
        ),
    }
}

/// The line that tells the user of `error`.
pub fn report_error(error: &RegistryError) -> (r: String)
    ensures
        r@ == error@.message(),
{
    let words = wording(error);
    one_line(words.as_str())
}

/// The line that tells of a failure is one line: it holds no line break,
/// whatever the paths and reasons in it hold.
pub proof fn lemma_message_is_one_line(error: RegistryError)
    ensures
        forall|i: int|
            0 <= i < error@.message().len() ==> (#[trigger] error@.message()[i]) != '\n'
                && error@.message()[i] != '\r',
{
    lemma_one_line(error@.wording());
}

} // verus!
