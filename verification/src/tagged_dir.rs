//! Making sure that the directory for tagged files is there.
use crate::effects;
use crate::effects::{Action, ActionModel, Event, EventModel};
use crate::path::UnixPath;
use crate::text;
use vstd::prelude::*;
use vstd::string::*;

verus! {

/// Why the directory for tagged files is not there.
#[derive(Debug, PartialEq, Eq)]
pub enum TaggedDirError {
    /// Something else lies at its path.
    NotDirectory(UnixPath),
    /// It could not be created.
    NotCreated(UnixPath),
}

/// How far the check of the directory has come.
#[derive(Debug, PartialEq, Eq)]
pub enum TaggedDirPhase {
    CheckExists,
    CheckDir,
    Create,
    Finished(Result<(), TaggedDirError>),
}

/// The check that the directory for tagged files is there.
#[derive(Debug, PartialEq, Eq)]
pub struct TaggedDirCheck {
    pub path: UnixPath,
    pub phase: TaggedDirPhase,
}

/// The model of [`TaggedDirError`].
#[verifier::ext_equal]
pub enum TaggedDirErrorModel {
    NotDirectory(Seq<u8>),
    NotCreated(Seq<u8>),
}

/// The model of [`TaggedDirPhase`].
#[verifier::ext_equal]
pub enum TaggedDirPhaseModel {
    CheckExists,
    CheckDir,
    Create,
    Finished(Result<(), TaggedDirErrorModel>),
}

/// The model of [`TaggedDirCheck`].
#[verifier::ext_equal]
pub struct TaggedDirModel {
    pub path: Seq<u8>,
    pub phase: TaggedDirPhaseModel,
}

impl View for TaggedDirError {
    type V = TaggedDirErrorModel;

    open spec fn view(&self) -> TaggedDirErrorModel {
        match *self {
            TaggedDirError::NotDirectory(p) => TaggedDirErrorModel::NotDirectory(p@),
            TaggedDirError::NotCreated(p) => TaggedDirErrorModel::NotCreated(p@),
        }
    }
}

impl View for TaggedDirPhase {
    type V = TaggedDirPhaseModel;

    open spec fn view(&self) -> TaggedDirPhaseModel {
        match *self {
            TaggedDirPhase::CheckExists => TaggedDirPhaseModel::CheckExists,
            TaggedDirPhase::CheckDir => TaggedDirPhaseModel::CheckDir,
            TaggedDirPhase::Create => TaggedDirPhaseModel::Create,
            TaggedDirPhase::Finished(result) => TaggedDirPhaseModel::Finished(
                match result {
                    Ok(_) => Ok(()),
                    Err(e) => Err(e@),
                },
            ),
        }
    }
}

impl View for TaggedDirCheck {
    type V = TaggedDirModel;

    open spec fn view(&self) -> TaggedDirModel {
        TaggedDirModel { path: self.path@, phase: self.phase@ }
    }
}

/// The text of an error.
pub open spec fn tagged_dir_error_text(e: TaggedDirErrorModel) -> Seq<char> {
    match e {
        TaggedDirErrorModel::NotDirectory(p) =>
        "configured tagged destination exists but is not a directory: "@ + text::shown(p),
        TaggedDirErrorModel::NotCreated(p) => "failed creating tagged destination "@ + text::shown(
            p,
        ),
    }
}

/// The action that the check waits for.
pub open spec fn tagged_dir_action(m: TaggedDirModel) -> ActionModel {
    match m.phase {
        TaggedDirPhaseModel::CheckExists => ActionModel::Exists(m.path),
        TaggedDirPhaseModel::CheckDir => ActionModel::IsDir(m.path),
        TaggedDirPhaseModel::Create => ActionModel::CreateDirAll(m.path),
        TaggedDirPhaseModel::Finished(_) => ActionModel::Nothing,
    }
}

/// The phase that follows. An event that does not answer the pending action changes
/// nothing.
pub open spec fn tagged_dir_next(m: TaggedDirModel, e: EventModel) -> TaggedDirPhaseModel {
    match (m.phase, e) {
        (TaggedDirPhaseModel::CheckExists, EventModel::Flag(true)) => TaggedDirPhaseModel::CheckDir,
        (TaggedDirPhaseModel::CheckExists, EventModel::Flag(false)) => TaggedDirPhaseModel::Create,
        (TaggedDirPhaseModel::CheckDir, EventModel::Flag(true)) => TaggedDirPhaseModel::Finished(
            Ok(()),
        ),
        (TaggedDirPhaseModel::CheckDir, EventModel::Flag(false)) => TaggedDirPhaseModel::Finished(
            Err(TaggedDirErrorModel::NotDirectory(m.path)),
        ),
        (TaggedDirPhaseModel::Create, EventModel::Done) => TaggedDirPhaseModel::Finished(Ok(())),
        (TaggedDirPhaseModel::Create, EventModel::Failed) => TaggedDirPhaseModel::Finished(
            Err(TaggedDirErrorModel::NotCreated(m.path)),
        ),
        _ => m.phase,
    }
}

impl TaggedDirError {
    /// The text of the error.
    pub fn message(&self) -> (r: String)
        ensures
            r@ == tagged_dir_error_text(self@),
    {
        match self {
            TaggedDirError::NotDirectory(p) => "configured tagged destination exists but is not a directory: ".to_string().concat(
                p.display().as_str(),
            ),
            TaggedDirError::NotCreated(p) => "failed creating tagged destination ".to_string().concat(
                p.display().as_str(),
            ),
        }
    }
}

/// Begins the check that the directory for tagged files is there; where nothing lies at its
/// path it is created.
pub fn ensure_tagged_dir(path: UnixPath) -> (r: TaggedDirCheck)
    ensures
        r@ == (TaggedDirModel { path: path@, phase: TaggedDirPhaseModel::CheckExists }),
{
    TaggedDirCheck { path, phase: TaggedDirPhase::CheckExists }
}

impl TaggedDirCheck {
    /// The action that the check waits for.
    pub fn action(&self) -> (r: Action)
        ensures
            r@ == tagged_dir_action(self@),
    {
        match self.phase {
            TaggedDirPhase::CheckExists => Action::Exists(self.path.clone()),
            TaggedDirPhase::CheckDir => Action::IsDir(self.path.clone()),
            TaggedDirPhase::Create => Action::CreateDirAll(self.path.clone()),
            TaggedDirPhase::Finished(_) => Action::Nothing,
        }
    }

    /// Goes on with what came of the pending action.
    pub fn step(self, event: Event) -> (r: TaggedDirCheck)
        ensures
            r@ == (TaggedDirModel { phase: tagged_dir_next(self@, event@), ..self@ }),
    {
        let phase: TaggedDirPhase = match (self.phase, event) {
            (TaggedDirPhase::CheckExists, Event::Flag(true)) => TaggedDirPhase::CheckDir,
            (TaggedDirPhase::CheckExists, Event::Flag(false)) => TaggedDirPhase::Create,
            (TaggedDirPhase::CheckDir, Event::Flag(true)) => TaggedDirPhase::Finished(Ok(())),
            (TaggedDirPhase::CheckDir, Event::Flag(false)) => TaggedDirPhase::Finished(
                Err(TaggedDirError::NotDirectory(self.path.clone())),
            ),
            (TaggedDirPhase::Create, Event::Done) => TaggedDirPhase::Finished(Ok(())),
            (TaggedDirPhase::Create, Event::Failed) => TaggedDirPhase::Finished(
                Err(TaggedDirError::NotCreated(self.path.clone())),
            ),
            (phase, _) => phase,
        };
        TaggedDirCheck { path: self.path, phase }
    }
}

/// What the runtime finds while the directory is checked.
pub struct TaggedDirWorld {
    pub exists: bool,
    pub is_dir: bool,
    pub created: bool,
}

/// What the runtime answers to the pending action.
pub open spec fn tagged_dir_answer(m: TaggedDirModel, w: TaggedDirWorld) -> EventModel {
    match m.phase {
        TaggedDirPhaseModel::CheckExists => EventModel::Flag(w.exists),
        TaggedDirPhaseModel::CheckDir => EventModel::Flag(w.is_dir),
        TaggedDirPhaseModel::Create => effects::done(w.created),
        TaggedDirPhaseModel::Finished(_) => EventModel::Done,
    }
}

/// An upper bound on the actions that are left.
pub open spec fn tagged_dir_rank(m: TaggedDirModel) -> nat {
    match m.phase {
        TaggedDirPhaseModel::CheckExists => 2,
        TaggedDirPhaseModel::CheckDir => 1,
        TaggedDirPhaseModel::Create => 1,
        TaggedDirPhaseModel::Finished(_) => 0,
    }
}

/// The result of a check that is carried to its end.
pub open spec fn tagged_dir_run(m: TaggedDirModel, w: TaggedDirWorld) -> Result<
    (),
    TaggedDirErrorModel,
>
    decreases tagged_dir_rank(m),
{
    match m.phase {
        TaggedDirPhaseModel::Finished(result) => result,
        _ => tagged_dir_run(
            TaggedDirModel { phase: tagged_dir_next(m, tagged_dir_answer(m, w)), ..m },
            w,
        ),
    }
}

/// What becomes of the check.
pub open spec fn tagged_dir_verdict(path: Seq<u8>, w: TaggedDirWorld) -> Result<
    (),
    TaggedDirErrorModel,
> {
    if w.exists && !w.is_dir {
        Err(TaggedDirErrorModel::NotDirectory(path))
    } else if !w.exists && !w.created {
        Err(TaggedDirErrorModel::NotCreated(path))
    } else {
        Ok(())
    }
}

/// The check succeeds exactly where a directory lies at the path, or nothing does and one
/// was created.
pub proof fn tagged_dir_result(path: Seq<u8>, w: TaggedDirWorld)
    ensures
        tagged_dir_run(TaggedDirModel { path, phase: TaggedDirPhaseModel::CheckExists }, w)
            == tagged_dir_verdict(path, w),
{
    reveal_with_fuel(tagged_dir_run, 3);
}

/// The check after an event.
pub open spec fn tagged_dir_step(m: TaggedDirModel, e: EventModel) -> TaggedDirModel {
    TaggedDirModel { phase: tagged_dir_next(m, e), ..m }
}

/// The course of the check, question by question: a directory is left as it is, anything else
/// that lies at the path is an error, and where nothing lies the directory is created.
pub proof fn tagged_dir_course(path: Seq<u8>)
    ensures
        ({
            let ready = TaggedDirPhaseModel::Finished(Ok::<(), TaggedDirErrorModel>(()));
            let asked = TaggedDirModel { path, phase: TaggedDirPhaseModel::CheckExists };
            let there = tagged_dir_step(asked, EventModel::Flag(true));
            let missing = tagged_dir_step(asked, EventModel::Flag(false));
            &&& tagged_dir_action(asked) == ActionModel::Exists(path)
            &&& tagged_dir_action(there) == ActionModel::IsDir(path)
            &&& tagged_dir_next(there, EventModel::Flag(true)) == ready
            &&& tagged_dir_next(there, EventModel::Flag(false)) == TaggedDirPhaseModel::Finished(
                Err::<(), TaggedDirErrorModel>(TaggedDirErrorModel::NotDirectory(path)),
            )
            &&& tagged_dir_action(missing) == ActionModel::CreateDirAll(path)
            &&& tagged_dir_next(missing, EventModel::Done) == ready
            &&& tagged_dir_next(missing, EventModel::Failed) == TaggedDirPhaseModel::Finished(
                Err::<(), TaggedDirErrorModel>(TaggedDirErrorModel::NotCreated(path)),
            )
        }),
{
}

/// What the errors say.
pub proof fn tagged_dir_error_texts(path: Seq<u8>)
    ensures
        tagged_dir_error_text(TaggedDirErrorModel::NotDirectory(path))
            == "configured tagged destination exists but is not a directory: "@ + text::shown(path),
        tagged_dir_error_text(TaggedDirErrorModel::NotCreated(path))
            == "failed creating tagged destination "@ + text::shown(path),
{
}

/// An event that answers what the check waits for brings it nearer to its end; any other event changes
/// nothing.
pub proof fn tagged_dir_check_goes_on(m: TaggedDirModel, e: EventModel)
    ensures
        effects::answers(tagged_dir_action(m), e) ==> tagged_dir_rank(
            TaggedDirModel { phase: tagged_dir_next(m, e), ..m },
        ) < tagged_dir_rank(m),
        !effects::answers(tagged_dir_action(m), e) ==> tagged_dir_next(m, e) == m.phase,
{
}

/// The model of a check says what the check says: which path it is about, and what it ended
/// with.
pub proof fn tagged_dir_model(t: TaggedDirCheck)
    ensures
        t@.path == t.path.bytes@,
        match t.phase {
            TaggedDirPhase::Finished(Ok(_)) => t@.phase == TaggedDirPhaseModel::Finished(
                Ok::<(), TaggedDirErrorModel>(()),
            ),
            TaggedDirPhase::Finished(Err(TaggedDirError::NotDirectory(p))) => t@.phase
                == TaggedDirPhaseModel::Finished(
                Err::<(), TaggedDirErrorModel>(TaggedDirErrorModel::NotDirectory(p.bytes@)),
            ),
            TaggedDirPhase::Finished(Err(TaggedDirError::NotCreated(p))) => t@.phase
                == TaggedDirPhaseModel::Finished(
                Err::<(), TaggedDirErrorModel>(TaggedDirErrorModel::NotCreated(p.bytes@)),
            ),
            _ => !(t@.phase is Finished),
        },
{
}

} // verus!
