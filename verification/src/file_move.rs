//! Moving one file.
use crate::effects;
use crate::effects::{Action, ActionModel, Event, EventModel};
use crate::path::UnixPath;
use crate::text;
use vstd::prelude::*;
use vstd::string::*;

verus! {

/// Why a file was not moved.
#[derive(Debug, PartialEq, Eq)]
pub enum FileMoveError {
    /// It could be neither renamed nor copied.
    Copy(UnixPath, UnixPath),
    /// It was copied, but the source could not be removed.
    RemoveSource(UnixPath),
}

/// How far the move has come.
#[derive(Debug, PartialEq, Eq)]
pub enum FileMovePhase {
    Rename,
    Copy,
    RemoveSource,
    Finished(Result<(), FileMoveError>),
}

/// The move of one file.
#[derive(Debug, PartialEq, Eq)]
pub struct FileMove {
    pub source: UnixPath,
    pub destination: UnixPath,
    pub phase: FileMovePhase,
}

/// The model of [`FileMoveError`].
#[verifier::ext_equal]
pub enum FileMoveErrorModel {
    Copy(Seq<u8>, Seq<u8>),
    RemoveSource(Seq<u8>),
}

/// The model of [`FileMovePhase`].
#[verifier::ext_equal]
pub enum FileMovePhaseModel {
    Rename,
    Copy,
    RemoveSource,
    Finished(Result<(), FileMoveErrorModel>),
}

/// The model of [`FileMove`].
#[verifier::ext_equal]
pub struct FileMoveModel {
    pub source: Seq<u8>,
    pub destination: Seq<u8>,
    pub phase: FileMovePhaseModel,
}

impl View for FileMoveError {
    type V = FileMoveErrorModel;

    open spec fn view(&self) -> FileMoveErrorModel {
        match *self {
            FileMoveError::Copy(from, to) => FileMoveErrorModel::Copy(from@, to@),
            FileMoveError::RemoveSource(p) => FileMoveErrorModel::RemoveSource(p@),
        }
    }
}

impl View for FileMovePhase {
    type V = FileMovePhaseModel;

    open spec fn view(&self) -> FileMovePhaseModel {
        match *self {
            FileMovePhase::Rename => FileMovePhaseModel::Rename,
            FileMovePhase::Copy => FileMovePhaseModel::Copy,
            FileMovePhase::RemoveSource => FileMovePhaseModel::RemoveSource,
            FileMovePhase::Finished(result) => FileMovePhaseModel::Finished(
                match result {
                    Ok(_) => Ok(()),
                    Err(e) => Err(e@),
                },
            ),
        }
    }
}

impl View for FileMove {
    type V = FileMoveModel;

    open spec fn view(&self) -> FileMoveModel {
        FileMoveModel {
            source: self.source@,
            destination: self.destination@,
            phase: self.phase@,
        }
    }
}

/// The text of an error.
pub open spec fn file_move_error_text(e: FileMoveErrorModel) -> Seq<char> {
    match e {
        FileMoveErrorModel::Copy(from, to) => "failed copying tagged file from "@ + text::shown(
            from,
        ) + " to "@ + text::shown(to),
        FileMoveErrorModel::RemoveSource(p) =>
        "failed removing source file after copy fallback: "@ + text::shown(p),
    }
}

/// The move of a file at its beginning.
pub open spec fn file_move(source: Seq<u8>, destination: Seq<u8>) -> FileMoveModel {
    FileMoveModel { source, destination, phase: FileMovePhaseModel::Rename }
}

/// The action that the move waits for.
pub open spec fn file_move_action(m: FileMoveModel) -> ActionModel {
    match m.phase {
        FileMovePhaseModel::Rename => ActionModel::Rename(m.source, m.destination),
        FileMovePhaseModel::Copy => ActionModel::Copy(m.source, m.destination),
        FileMovePhaseModel::RemoveSource => ActionModel::RemoveFile(m.source),
        FileMovePhaseModel::Finished(_) => ActionModel::Nothing,
    }
}

/// The phase that follows. An event that does not answer the pending action changes
/// nothing.
pub open spec fn file_move_next(m: FileMoveModel, e: EventModel) -> FileMovePhaseModel {
    match (m.phase, e) {
        (FileMovePhaseModel::Rename, EventModel::Done) => FileMovePhaseModel::Finished(Ok(())),
        (FileMovePhaseModel::Rename, EventModel::Failed) => FileMovePhaseModel::Copy,
        (FileMovePhaseModel::Copy, EventModel::Done) => FileMovePhaseModel::RemoveSource,
        (FileMovePhaseModel::Copy, EventModel::Failed) => FileMovePhaseModel::Finished(
            Err(FileMoveErrorModel::Copy(m.source, m.destination)),
        ),
        (FileMovePhaseModel::RemoveSource, EventModel::Done) => FileMovePhaseModel::Finished(
            Ok(()),
        ),
        (FileMovePhaseModel::RemoveSource, EventModel::Failed) => FileMovePhaseModel::Finished(
            Err(FileMoveErrorModel::RemoveSource(m.source)),
        ),
        _ => m.phase,
    }
}

/// A text that names two paths.
pub(crate) fn from_to(what: &str, from: &UnixPath, to: &UnixPath) -> (r: String)
    ensures
        r@ == what@ + text::shown(from@) + " to "@ + text::shown(to@),
{
    let mut s: String = what.to_string();
    s.append(from.display().as_str());
    s.append(" to ");
    s.append(to.display().as_str());
    s
}

impl FileMoveError {
    /// The text of the error.
    pub fn message(&self) -> (r: String)
        ensures
            r@ == file_move_error_text(self@),
    {
        match self {
            FileMoveError::Copy(from, to) => from_to("failed copying tagged file from ", from, to),
            FileMoveError::RemoveSource(p) => "failed removing source file after copy fallback: ".to_string().concat(
                p.display().as_str(),
            ),
        }
    }
}

/// Begins the move of a file: it is renamed, or else copied and then removed at its source.
pub fn move_file(source: UnixPath, destination: UnixPath) -> (r: FileMove)
    ensures
        r@ == file_move(source@, destination@),
{
    FileMove { source, destination, phase: FileMovePhase::Rename }
}

impl FileMove {
    /// The action that the move waits for.
    pub fn action(&self) -> (r: Action)
        ensures
            r@ == file_move_action(self@),
    {
        match self.phase {
            FileMovePhase::Rename => Action::Rename(self.source.clone(), self.destination.clone()),
            FileMovePhase::Copy => Action::Copy(self.source.clone(), self.destination.clone()),
            FileMovePhase::RemoveSource => Action::RemoveFile(self.source.clone()),
            FileMovePhase::Finished(_) => Action::Nothing,
        }
    }

    /// Goes on with what came of the pending action.
    pub fn step(self, event: Event) -> (r: FileMove)
        ensures
            r@ == (FileMoveModel { phase: file_move_next(self@, event@), ..self@ }),
    {
        let phase: FileMovePhase = match (self.phase, event) {
            (FileMovePhase::Rename, Event::Done) => FileMovePhase::Finished(Ok(())),
            (FileMovePhase::Rename, Event::Failed) => FileMovePhase::Copy,
            (FileMovePhase::Copy, Event::Done) => FileMovePhase::RemoveSource,
            (FileMovePhase::Copy, Event::Failed) => FileMovePhase::Finished(
                Err(FileMoveError::Copy(self.source.clone(), self.destination.clone())),
            ),
            (FileMovePhase::RemoveSource, Event::Done) => FileMovePhase::Finished(Ok(())),
            (FileMovePhase::RemoveSource, Event::Failed) => FileMovePhase::Finished(
                Err(FileMoveError::RemoveSource(self.source.clone())),
            ),
            (phase, _) => phase,
        };
        FileMove { source: self.source, destination: self.destination, phase }
    }
}

/// What the runtime achieves while a file is moved.
pub struct FileMoveWorld {
    pub renamed: bool,
    pub copied: bool,
    pub removed: bool,
}

/// What the runtime answers to the pending action.
pub open spec fn file_move_answer(m: FileMoveModel, w: FileMoveWorld) -> EventModel {
    match m.phase {
        FileMovePhaseModel::Rename => effects::done(w.renamed),
        FileMovePhaseModel::Copy => effects::done(w.copied),
        FileMovePhaseModel::RemoveSource => effects::done(w.removed),
        FileMovePhaseModel::Finished(_) => EventModel::Done,
    }
}

/// An upper bound on the actions that are left.
pub open spec fn file_move_rank(m: FileMoveModel) -> nat {
    match m.phase {
        FileMovePhaseModel::Rename => 3,
        FileMovePhaseModel::Copy => 2,
        FileMovePhaseModel::RemoveSource => 1,
        FileMovePhaseModel::Finished(_) => 0,
    }
}

/// The result of a move that is carried to its end.
pub open spec fn file_move_run(m: FileMoveModel, w: FileMoveWorld) -> Result<(), FileMoveErrorModel>
    decreases file_move_rank(m),
{
    match m.phase {
        FileMovePhaseModel::Finished(result) => result,
        _ => file_move_run(
            FileMoveModel { phase: file_move_next(m, file_move_answer(m, w)), ..m },
            w,
        ),
    }
}

/// What becomes of the move.
pub open spec fn file_move_verdict(
    source: Seq<u8>,
    destination: Seq<u8>,
    w: FileMoveWorld,
) -> Result<(), FileMoveErrorModel> {
    if w.renamed {
        Ok(())
    } else if !w.copied {
        Err(FileMoveErrorModel::Copy(source, destination))
    } else if !w.removed {
        Err(FileMoveErrorModel::RemoveSource(source))
    } else {
        Ok(())
    }
}

/// A file is moved exactly where it was renamed, or else copied and then removed at its
/// source.
pub proof fn file_move_result(source: Seq<u8>, destination: Seq<u8>, w: FileMoveWorld)
    ensures
        file_move_run(file_move(source, destination), w) == file_move_verdict(
            source,
            destination,
            w,
        ),
{
    reveal_with_fuel(file_move_run, 4);
}

/// No file is lost: the source is removed only behind a copy that was made, and nothing but
/// the source is ever removed.
pub proof fn source_outlives_copy(m: FileMoveModel, e: EventModel)
    ensures
        file_move_action(m) matches ActionModel::RemoveFile(p) ==> m.phase is RemoveSource && p
            == m.source,
        file_move_next(m, e) is RemoveSource && !(m.phase is RemoveSource) ==> m.phase is Copy && e
            == EventModel::Done && file_move_action(m) == ActionModel::Copy(m.source, m.destination),
{
}

/// The move after an event.
pub open spec fn file_move_step(m: FileMoveModel, e: EventModel) -> FileMoveModel {
    FileMoveModel { phase: file_move_next(m, e), ..m }
}

/// The course of a move, action by action: the file is renamed; where that fails it is copied,
/// and only when the copy was made is the source removed. A failed copy and a failed removal
/// are told apart.
pub proof fn file_move_course(source: Seq<u8>, destination: Seq<u8>)
    ensures
        ({
            let moved = FileMovePhaseModel::Finished(Ok::<(), FileMoveErrorModel>(()));
            let begun = file_move(source, destination);
            let fallback = file_move_step(begun, EventModel::Failed);
            let copied = file_move_step(fallback, EventModel::Done);
            &&& file_move_action(begun) == ActionModel::Rename(source, destination)
            &&& file_move_next(begun, EventModel::Done) == moved
            &&& file_move_action(fallback) == ActionModel::Copy(source, destination)
            &&& file_move_next(fallback, EventModel::Failed) == FileMovePhaseModel::Finished(
                Err::<(), FileMoveErrorModel>(FileMoveErrorModel::Copy(source, destination)),
            )
            &&& file_move_action(copied) == ActionModel::RemoveFile(source)
            &&& file_move_next(copied, EventModel::Done) == moved
            &&& file_move_next(copied, EventModel::Failed) == FileMovePhaseModel::Finished(
                Err::<(), FileMoveErrorModel>(FileMoveErrorModel::RemoveSource(source)),
            )
        }),
{
}

/// What the errors say.
pub proof fn file_move_error_texts(source: Seq<u8>, destination: Seq<u8>)
    ensures
        file_move_error_text(FileMoveErrorModel::Copy(source, destination))
            == "failed copying tagged file from "@ + text::shown(source) + " to "@ + text::shown(
            destination,
        ),
        file_move_error_text(FileMoveErrorModel::RemoveSource(source))
            == "failed removing source file after copy fallback: "@ + text::shown(source),
{
}

/// An event that answers what the move waits for brings it nearer to its end; any other event changes
/// nothing.
pub proof fn file_move_goes_on(m: FileMoveModel, e: EventModel)
    ensures
        effects::answers(file_move_action(m), e) ==> file_move_rank(
            FileMoveModel { phase: file_move_next(m, e), ..m },
        ) < file_move_rank(m),
        !effects::answers(file_move_action(m), e) ==> file_move_next(m, e) == m.phase,
{
}

/// The model of a move says what the move says: which paths it is about, and what it ended with.
pub proof fn file_move_model(f: FileMove)
    ensures
        f@.source == f.source.bytes@,
        f@.destination == f.destination.bytes@,
        match f.phase {
            FileMovePhase::Finished(Ok(_)) => f@.phase == FileMovePhaseModel::Finished(
                Ok::<(), FileMoveErrorModel>(()),
            ),
            FileMovePhase::Finished(Err(FileMoveError::Copy(from, to))) => f@.phase
                == FileMovePhaseModel::Finished(
                Err::<(), FileMoveErrorModel>(FileMoveErrorModel::Copy(from.bytes@, to.bytes@)),
            ),
            FileMovePhase::Finished(Err(FileMoveError::RemoveSource(p))) => f@.phase
                == FileMovePhaseModel::Finished(
                Err::<(), FileMoveErrorModel>(FileMoveErrorModel::RemoveSource(p.bytes@)),
            ),
            _ => !(f@.phase is Finished),
        },
{
}

} // verus!
