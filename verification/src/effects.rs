//! The vocabulary between the decisions and the runtime that carries them out: a machine
//! names the action that it waits for, and is told what came of it.
use crate::path::UnixPath;
use vstd::prelude::*;

verus! {

/// What the runtime is to do next.
#[derive(Debug, PartialEq, Eq)]
pub enum Action {
    /// Test whether something lies at the path.
    Exists(UnixPath),
    /// Test whether a directory lies at the path.
    IsDir(UnixPath),
    /// Test whether a file lies at the path.
    IsFile(UnixPath),
    /// Read the whole file.
    ReadFile(UnixPath),
    /// Create the directory and those above it.
    CreateDirAll(UnixPath),
    /// Write the bytes to the file.
    WriteFile(UnixPath, Vec<u8>),
    /// Rename the first path to the second.
    Rename(UnixPath, UnixPath),
    /// Copy the first file to the second path.
    Copy(UnixPath, UnixPath),
    /// Remove the file.
    RemoveFile(UnixPath),
    /// Run the program with the arguments and collect what it writes.
    Run(String, Vec<Vec<u8>>),
    /// Nothing: the machine has come to its end.
    Nothing,
}

/// What a finished program left behind.
#[derive(Debug, PartialEq, Eq)]
pub struct CliOutput {
    /// Whether it ended successfully.
    pub success: bool,
    /// How it ended, as text.
    pub status: String,
    pub stdout: Vec<u8>,
    pub stderr: Vec<u8>,
}

/// What came of an action.
#[derive(Debug, PartialEq, Eq)]
pub enum Event {
    /// The answer to a test.
    Flag(bool),
    /// The contents of a file that was read.
    Bytes(Vec<u8>),
    /// The program ran to its end.
    Exited(CliOutput),
    /// The action was carried out.
    Done,
    /// The action failed.
    Failed,
}

/// The model of [`Action`].
#[verifier::ext_equal]
pub enum ActionModel {
    Exists(Seq<u8>),
    IsDir(Seq<u8>),
    IsFile(Seq<u8>),
    ReadFile(Seq<u8>),
    CreateDirAll(Seq<u8>),
    WriteFile(Seq<u8>, Seq<u8>),
    Rename(Seq<u8>, Seq<u8>),
    Copy(Seq<u8>, Seq<u8>),
    RemoveFile(Seq<u8>),
    Run(Seq<char>, Seq<Seq<u8>>),
    Nothing,
}

/// The model of [`CliOutput`].
#[verifier::ext_equal]
pub struct OutputModel {
    pub success: bool,
    pub status: Seq<char>,
    pub stdout: Seq<u8>,
    pub stderr: Seq<u8>,
}

/// The model of [`Event`].
#[verifier::ext_equal]
pub enum EventModel {
    Flag(bool),
    Bytes(Seq<u8>),
    Exited(OutputModel),
    Done,
    Failed,
}

/// The event for an action that was carried out or failed.
pub open spec fn done(success: bool) -> EventModel {
    if success {
        EventModel::Done
    } else {
        EventModel::Failed
    }
}

/// The byte strings in a list.
pub open spec fn byte_strings(list: Seq<Vec<u8>>) -> Seq<Seq<u8>> {
    list.map_values(|b: Vec<u8>| b@)
}

impl View for Action {
    type V = ActionModel;

    open spec fn view(&self) -> ActionModel {
        match *self {
            Action::Exists(p) => ActionModel::Exists(p@),
            Action::IsDir(p) => ActionModel::IsDir(p@),
            Action::IsFile(p) => ActionModel::IsFile(p@),
            Action::ReadFile(p) => ActionModel::ReadFile(p@),
            Action::CreateDirAll(p) => ActionModel::CreateDirAll(p@),
            Action::WriteFile(p, data) => ActionModel::WriteFile(p@, data@),
            Action::Rename(from, to) => ActionModel::Rename(from@, to@),
            Action::Copy(from, to) => ActionModel::Copy(from@, to@),
            Action::RemoveFile(p) => ActionModel::RemoveFile(p@),
            Action::Run(program, args) => ActionModel::Run(program@, byte_strings(args@)),
            Action::Nothing => ActionModel::Nothing,
        }
    }
}

impl View for CliOutput {
    type V = OutputModel;

    open spec fn view(&self) -> OutputModel {
        OutputModel {
            success: self.success,
            status: self.status@,
            stdout: self.stdout@,
            stderr: self.stderr@,
        }
    }
}

impl View for Event {
    type V = EventModel;

    open spec fn view(&self) -> EventModel {
        match *self {
            Event::Flag(b) => EventModel::Flag(b),
            Event::Bytes(data) => EventModel::Bytes(data@),
            Event::Exited(output) => EventModel::Exited(output@),
            Event::Done => EventModel::Done,
            Event::Failed => EventModel::Failed,
        }
    }
}

/// The model of an action names the same paths, bytes and arguments in the same places.
pub proof fn action_model(action: Action)
    ensures
        match action {
            Action::Exists(p) => action@ == ActionModel::Exists(p.bytes@),
            Action::IsDir(p) => action@ == ActionModel::IsDir(p.bytes@),
            Action::IsFile(p) => action@ == ActionModel::IsFile(p.bytes@),
            Action::ReadFile(p) => action@ == ActionModel::ReadFile(p.bytes@),
            Action::CreateDirAll(p) => action@ == ActionModel::CreateDirAll(p.bytes@),
            Action::WriteFile(p, data) => action@ == ActionModel::WriteFile(p.bytes@, data@),
            Action::Rename(from, to) => action@ == ActionModel::Rename(from.bytes@, to.bytes@),
            Action::Copy(from, to) => action@ == ActionModel::Copy(from.bytes@, to.bytes@),
            Action::RemoveFile(p) => action@ == ActionModel::RemoveFile(p.bytes@),
            Action::Run(program, args) => action@ matches ActionModel::Run(name, list) && name
                == program@ && list.len() == args@.len() && (forall|i: int|
                0 <= i < list.len() ==> #[trigger] list[i] == args@[i]@),
            Action::Nothing => action@ == ActionModel::Nothing,
        },
{
}

/// The model of an event says what the event says.
pub proof fn event_model(event: Event)
    ensures
        match event {
            Event::Flag(b) => event@ == EventModel::Flag(b),
            Event::Bytes(data) => event@ == EventModel::Bytes(data@),
            Event::Exited(output) => event@ matches EventModel::Exited(model) && model.success
                == output.success && model.status == output.status@ && model.stdout
                == output.stdout@ && model.stderr == output.stderr@,
            Event::Done => event@ == EventModel::Done,
            Event::Failed => event@ == EventModel::Failed,
        },
{
}

/// Whether an event answers an action.
pub open spec fn answers(action: ActionModel, e: EventModel) -> bool {
    match action {
        ActionModel::Exists(_) | ActionModel::IsDir(_) | ActionModel::IsFile(_) => e is Flag,
        ActionModel::ReadFile(_) => e is Bytes || e is Failed,
        ActionModel::Run(_, _) => e is Exited || e is Failed,
        ActionModel::Nothing => false,
        _ => e is Done || e is Failed,
    }
}

} // verus!
