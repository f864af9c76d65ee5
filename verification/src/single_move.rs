//! Moving a tagged single file to the directory for tagged files.
use crate::destination;
use crate::destination::{
    DestinationError, DestinationErrorModel, DestinationSearch, SearchModel, SearchPhase,
    SearchPhaseModel,
};
use crate::effects;
use crate::effects::{Action, ActionModel, Event, EventModel};
use crate::file_move;
use crate::file_move::{
    FileMove, FileMoveError, FileMoveErrorModel, FileMoveModel, FileMovePhase, FileMovePhaseModel,
    FileMoveWorld,
};
use crate::jobs;
use crate::jobs::{Job, JobModel};
use crate::path;
use crate::path::UnixPath;
use crate::tagged_dir;
use crate::tagged_dir::{
    TaggedDirCheck, TaggedDirError, TaggedDirErrorModel, TaggedDirModel, TaggedDirPhase,
    TaggedDirPhaseModel, TaggedDirWorld,
};
use crate::text;
use vstd::prelude::*;
use vstd::string::*;
use vstd::utf8::*;

verus! {

/// Why a tagged file was not moved.
#[derive(Debug, PartialEq, Eq)]
pub enum MoveError {
    /// The file is no longer at its place.
    OriginalGone(UnixPath),
    /// The directory for tagged files is not there.
    TaggedDir(TaggedDirError),
    /// There is no free name for the file.
    Destination(DestinationError),
    /// The file could not be moved from the first path to the second.
    Transfer(UnixPath, UnixPath, FileMoveError),
}

/// How far the move of a tagged file has come.
#[derive(Debug, PartialEq, Eq)]
pub enum MovePhase {
    CheckOriginal,
    TaggedDir(TaggedDirCheck),
    Search(DestinationSearch),
    Transfer(FileMove),
    /// The path that the file was moved to, or none where there was nothing to move.
    Finished(Result<Option<UnixPath>, MoveError>),
}

/// The move of a tagged file.
#[derive(Debug, PartialEq, Eq)]
pub struct SingleFileMove {
    pub original: UnixPath,
    pub tagged_dir: UnixPath,
    pub phase: MovePhase,
}

/// The model of [`MoveError`].
#[verifier::ext_equal]
pub enum MoveErrorModel {
    OriginalGone(Seq<u8>),
    TaggedDir(TaggedDirErrorModel),
    Destination(DestinationErrorModel),
    Transfer(Seq<u8>, Seq<u8>, FileMoveErrorModel),
}

/// The model of [`MovePhase`].
#[verifier::ext_equal]
pub enum MovePhaseModel {
    CheckOriginal,
    TaggedDir(TaggedDirModel),
    Search(SearchModel),
    Transfer(FileMoveModel),
    Finished(Result<Option<Seq<u8>>, MoveErrorModel>),
}

/// The model of [`SingleFileMove`].
#[verifier::ext_equal]
pub struct SingleMoveModel {
    pub original: Seq<u8>,
    pub tagged_dir: Seq<u8>,
    pub phase: MovePhaseModel,
}

impl View for MoveError {
    type V = MoveErrorModel;

    open spec fn view(&self) -> MoveErrorModel {
        match *self {
            MoveError::OriginalGone(p) => MoveErrorModel::OriginalGone(p@),
            MoveError::TaggedDir(e) => MoveErrorModel::TaggedDir(e@),
            MoveError::Destination(e) => MoveErrorModel::Destination(e@),
            MoveError::Transfer(from, to, e) => MoveErrorModel::Transfer(from@, to@, e@),
        }
    }
}

impl View for MovePhase {
    type V = MovePhaseModel;

    open spec fn view(&self) -> MovePhaseModel {
        match *self {
            MovePhase::CheckOriginal => MovePhaseModel::CheckOriginal,
            MovePhase::TaggedDir(t) => MovePhaseModel::TaggedDir(t@),
            MovePhase::Search(s) => MovePhaseModel::Search(s@),
            MovePhase::Transfer(f) => MovePhaseModel::Transfer(f@),
            MovePhase::Finished(result) => MovePhaseModel::Finished(move_outcome(result)),
        }
    }
}

/// The model of a finished move.
pub open spec fn move_outcome(result: Result<Option<UnixPath>, MoveError>) -> Result<
    Option<Seq<u8>>,
    MoveErrorModel,
> {
    match result {
        Ok(moved) => Ok(jobs::path_option(moved)),
        Err(e) => Err(e@),
    }
}

impl View for SingleFileMove {
    type V = SingleMoveModel;

    open spec fn view(&self) -> SingleMoveModel {
        SingleMoveModel {
            original: self.original@,
            tagged_dir: self.tagged_dir@,
            phase: self.phase@,
        }
    }
}

/// The text of an error.
pub open spec fn move_error_text(e: MoveErrorModel) -> Seq<char> {
    match e {
        MoveErrorModel::OriginalGone(p) =>
        "cannot move tagged file because original path no longer exists after tagging: "@
            + text::shown(p),
        MoveErrorModel::TaggedDir(e) => tagged_dir::tagged_dir_error_text(e),
        MoveErrorModel::Destination(e) => destination::destination_error_text(e),
        MoveErrorModel::Transfer(from, to, _) => "failed moving tagged file from "@ + text::shown(
            from,
        ) + " to "@ + text::shown(to),
    }
}

/// The text of what lies behind an error, where something does.
pub open spec fn move_error_cause(e: MoveErrorModel) -> Option<Seq<char>> {
    match e {
        MoveErrorModel::Transfer(_, _, e) => Some(file_move::file_move_error_text(e)),
        _ => None,
    }
}

/// The move of a tagged file at its beginning: only a file that the tagger was given by way
/// of a playlist is moved.
pub open spec fn single_move(job: JobModel) -> SingleMoveModel {
    SingleMoveModel {
        original: job.original_path,
        tagged_dir: job.tagged_dir,
        phase: match job.temp_playlist {
            Some(_) => MovePhaseModel::CheckOriginal,
            None => MovePhaseModel::Finished(Ok(None)),
        },
    }
}

/// The action that the move waits for.
pub open spec fn single_move_action(m: SingleMoveModel) -> ActionModel {
    match m.phase {
        MovePhaseModel::CheckOriginal => ActionModel::Exists(m.original),
        MovePhaseModel::TaggedDir(t) => tagged_dir::tagged_dir_action(t),
        MovePhaseModel::Search(s) => destination::search_action(s),
        MovePhaseModel::Transfer(f) => file_move::file_move_action(f),
        MovePhaseModel::Finished(_) => ActionModel::Nothing,
    }
}

/// The phase of a move whose search has come to the given point.
pub open spec fn with_search(original: Seq<u8>, s: SearchModel) -> MovePhaseModel {
    match s.phase {
        SearchPhaseModel::Finished(Ok(p)) => MovePhaseModel::Transfer(
            file_move::file_move(original, p),
        ),
        SearchPhaseModel::Finished(Err(e)) => MovePhaseModel::Finished(
            Err(MoveErrorModel::Destination(e)),
        ),
        _ => MovePhaseModel::Search(s),
    }
}

/// The phase of a move whose directory check has come to the given point.
pub open spec fn with_tagged_dir(m: SingleMoveModel, t: TaggedDirModel) -> MovePhaseModel {
    match t.phase {
        TaggedDirPhaseModel::Finished(Ok(_)) => with_search(
            m.original,
            destination::search(m.tagged_dir, m.original),
        ),
        TaggedDirPhaseModel::Finished(Err(e)) => MovePhaseModel::Finished(
            Err(MoveErrorModel::TaggedDir(e)),
        ),
        _ => MovePhaseModel::TaggedDir(t),
    }
}

/// The phase of a move whose transfer has come to the given point.
pub open spec fn with_transfer(original: Seq<u8>, f: FileMoveModel) -> MovePhaseModel {
    match f.phase {
        FileMovePhaseModel::Finished(Ok(_)) => MovePhaseModel::Finished(Ok(Some(f.destination))),
        FileMovePhaseModel::Finished(Err(e)) => MovePhaseModel::Finished(
            Err(MoveErrorModel::Transfer(original, f.destination, e)),
        ),
        _ => MovePhaseModel::Transfer(f),
    }
}

/// The phase that follows. An event that does not answer the pending action changes
/// nothing.
pub open spec fn single_move_next(m: SingleMoveModel, e: EventModel) -> MovePhaseModel {
    match m.phase {
        MovePhaseModel::CheckOriginal => match e {
            EventModel::Flag(true) => MovePhaseModel::TaggedDir(
                TaggedDirModel { path: m.tagged_dir, phase: TaggedDirPhaseModel::CheckExists },
            ),
            EventModel::Flag(false) => MovePhaseModel::Finished(
                Err(MoveErrorModel::OriginalGone(m.original)),
            ),
            _ => m.phase,
        },
        MovePhaseModel::TaggedDir(t) => with_tagged_dir(
            m,
            TaggedDirModel { phase: tagged_dir::tagged_dir_next(t, e), ..t },
        ),
        MovePhaseModel::Search(s) => with_search(
            m.original,
            SearchModel { phase: destination::search_next(s, e), ..s },
        ),
        MovePhaseModel::Transfer(f) => with_transfer(
            m.original,
            FileMoveModel { phase: file_move::file_move_next(f, e), ..f },
        ),
        MovePhaseModel::Finished(_) => m.phase,
    }
}

impl MoveError {
    /// The text of the error.
    pub fn message(&self) -> (r: String)
        ensures
            r@ == move_error_text(self@),
    {
        match self {
            MoveError::OriginalGone(p) => "cannot move tagged file because original path no longer exists after tagging: ".to_string().concat(
                p.display().as_str(),
            ),
            MoveError::TaggedDir(e) => e.message(),
            MoveError::Destination(e) => e.message(),
            MoveError::Transfer(from, to, _) => file_move::from_to(
                "failed moving tagged file from ",
                from,
                to,
            ),
        }
    }

    /// The text of what lies behind the error, where something does.
    pub fn cause(&self) -> (r: Option<String>)
        ensures
            match r {
                Some(s) => move_error_cause(self@) == Some(s@),
                None => move_error_cause(self@) is None,
            },
    {
        match self {
            MoveError::Transfer(_, _, e) => Some(e.message()),
            _ => None,
        }
    }
}

/// Begins the move of the file that a job has tagged.
pub fn move_single_file_after_success(job: &Job) -> (r: SingleFileMove)
    ensures
        r@ == single_move(job@),
{
    let phase: MovePhase = match job.temp_playlist {
        Some(_) => MovePhase::CheckOriginal,
        None => MovePhase::Finished(Ok(None)),
    };
    SingleFileMove {
        original: job.original_path.clone(),
        tagged_dir: job.tagged_dir.clone(),
        phase,
    }
}

fn after_search(original: &UnixPath, s: DestinationSearch) -> (r: MovePhase)
    ensures
        r@ == with_search(original@, s@),
{
    match s.phase {
        SearchPhase::Finished(Ok(p)) => MovePhase::Transfer(
            file_move::move_file(original.clone(), p),
        ),
        SearchPhase::Finished(Err(e)) => MovePhase::Finished(Err(MoveError::Destination(e))),
        _ => MovePhase::Search(s),
    }
}

impl SingleFileMove {
    /// The action that the move waits for.
    pub fn action(&self) -> (r: Action)
        ensures
            r@ == single_move_action(self@),
    {
        match &self.phase {
            MovePhase::CheckOriginal => Action::Exists(self.original.clone()),
            MovePhase::TaggedDir(t) => t.action(),
            MovePhase::Search(s) => s.action(),
            MovePhase::Transfer(f) => f.action(),
            MovePhase::Finished(_) => Action::Nothing,
        }
    }

    /// Goes on with what came of the pending action.
    pub fn step(self, event: Event) -> (r: SingleFileMove)
        ensures
            r@ == (SingleMoveModel { phase: single_move_next(self@, event@), ..self@ }),
    {
        let phase: MovePhase = match self.phase {
            MovePhase::CheckOriginal => match event {
                Event::Flag(true) => MovePhase::TaggedDir(
                    tagged_dir::ensure_tagged_dir(self.tagged_dir.clone()),
                ),
                Event::Flag(false) => MovePhase::Finished(
                    Err(MoveError::OriginalGone(self.original.clone())),
                ),
                _ => MovePhase::CheckOriginal,
            },
            MovePhase::TaggedDir(t) => {
                let t: TaggedDirCheck = t.step(event);
                match t.phase {
                    TaggedDirPhase::Finished(Ok(_)) => {
                        let s: DestinationSearch = destination::unique_destination_path(
                            self.tagged_dir.clone(),
                            self.original.clone(),
                        );
                        after_search(&self.original, s)
                    },
                    TaggedDirPhase::Finished(Err(e)) => MovePhase::Finished(
                        Err(MoveError::TaggedDir(e)),
                    ),
                    _ => MovePhase::TaggedDir(t),
                }
            },
            MovePhase::Search(s) => after_search(&self.original, s.step(event)),
            MovePhase::Transfer(f) => {
                let f: FileMove = f.step(event);
                match f.phase {
                    FileMovePhase::Finished(Ok(_)) => MovePhase::Finished(Ok(Some(f.destination))),
                    FileMovePhase::Finished(Err(e)) => MovePhase::Finished(
                        Err(MoveError::Transfer(self.original.clone(), f.destination, e)),
                    ),
                    _ => MovePhase::Transfer(f),
                }
            },
            MovePhase::Finished(result) => MovePhase::Finished(result),
        };
        SingleFileMove { original: self.original, tagged_dir: self.tagged_dir, phase }
    }
}

/// What the runtime finds and achieves while a tagged file is moved.
pub struct MoveWorld {
    pub original_exists: bool,
    pub tagged_dir: TaggedDirWorld,
    /// Whether something lies at a path.
    pub taken: spec_fn(Seq<u8>) -> bool,
    pub transfer: FileMoveWorld,
}

/// What the runtime answers to the pending action.
pub open spec fn single_move_answer(m: SingleMoveModel, w: MoveWorld) -> EventModel {
    match m.phase {
        MovePhaseModel::CheckOriginal => EventModel::Flag(w.original_exists),
        MovePhaseModel::TaggedDir(t) => tagged_dir::tagged_dir_answer(t, w.tagged_dir),
        MovePhaseModel::Search(s) => match s.phase {
            SearchPhaseModel::Probe(name, index) => EventModel::Flag(
                (w.taken)(destination::candidate(s.destination_dir, name, index)),
            ),
            SearchPhaseModel::Finished(_) => EventModel::Done,
        },
        MovePhaseModel::Transfer(f) => file_move::file_move_answer(f, w.transfer),
        MovePhaseModel::Finished(_) => EventModel::Done,
    }
}

/// An upper bound on the actions that are left.
pub open spec fn single_move_rank(m: SingleMoveModel) -> nat {
    match m.phase {
        MovePhaseModel::CheckOriginal => destination::NAME_LIMIT as nat + 10,
        MovePhaseModel::TaggedDir(t) => destination::NAME_LIMIT as nat + 7
            + tagged_dir::tagged_dir_rank(t),
        MovePhaseModel::Search(s) => 5 + destination::search_rank(s),
        MovePhaseModel::Transfer(f) => 1 + file_move::file_move_rank(f),
        MovePhaseModel::Finished(_) => 0,
    }
}

/// The result of a move that is carried to its end.
pub open spec fn single_move_run(m: SingleMoveModel, w: MoveWorld) -> Result<
    Option<Seq<u8>>,
    MoveErrorModel,
>
    decreases single_move_rank(m),
{
    match m.phase {
        MovePhaseModel::Finished(result) => result,
        _ => single_move_run(
            SingleMoveModel { phase: single_move_next(m, single_move_answer(m, w)), ..m },
            w,
        ),
    }
}

/// What becomes of a file for which a destination was found.
pub open spec fn transfer_verdict(original: Seq<u8>, destination: Seq<u8>, w: MoveWorld) -> Result<
    Option<Seq<u8>>,
    MoveErrorModel,
> {
    match file_move::file_move_verdict(original, destination, w.transfer) {
        Ok(_) => Ok(Some(destination)),
        Err(e) => Err(MoveErrorModel::Transfer(original, destination, e)),
    }
}

/// What becomes of the file that a job has tagged.
pub open spec fn single_move_verdict(job: JobModel, w: MoveWorld) -> Result<
    Option<Seq<u8>>,
    MoveErrorModel,
> {
    if job.temp_playlist is None {
        Ok(None)
    } else if !w.original_exists {
        Err(MoveErrorModel::OriginalGone(job.original_path))
    } else {
        match tagged_dir::tagged_dir_verdict(job.tagged_dir, w.tagged_dir) {
            Err(e) => Err(MoveErrorModel::TaggedDir(e)),
            Ok(_) => match destination::search_run(
                destination::search(job.tagged_dir, job.original_path),
                w.taken,
            ) {
                Err(e) => Err(MoveErrorModel::Destination(e)),
                Ok(p) => transfer_verdict(job.original_path, p, w),
            },
        }
    }
}

proof fn lemma_run_search(m: SingleMoveModel, w: MoveWorld, s: SearchModel)
    requires
        m.phase == with_search(m.original, s),
    ensures
        single_move_run(m, w) == match destination::search_run(s, w.taken) {
            Err(e) => Err(MoveErrorModel::Destination(e)),
            Ok(p) => transfer_verdict(m.original, p, w),
        },
    decreases destination::search_rank(s),
{
    match s.phase {
        SearchPhaseModel::Finished(_) => {
            reveal_with_fuel(single_move_run, 4);
        },
        SearchPhaseModel::Probe(name, index) => {
            let exists = (w.taken)(destination::candidate(s.destination_dir, name, index));
            let next = SearchModel {
                phase: destination::search_next(s, EventModel::Flag(exists)),
                ..s
            };
            lemma_run_search(
                SingleMoveModel { phase: with_search(m.original, next), ..m },
                w,
                next,
            );
        },
    }
}

/// The file of a job that tagged a single file is moved, to the first free name in the
/// directory for tagged files; that of any other job is left alone. The first thing that is
/// in the way says why a file was not moved.
pub proof fn single_move_result(job: JobModel, w: MoveWorld)
    ensures
        single_move_run(single_move(job), w) == single_move_verdict(job, w),
{
    let m = single_move(job);
    if job.temp_playlist is Some && w.original_exists {
        reveal_with_fuel(single_move_run, 4);
        let s = destination::search(m.tagged_dir, m.original);
        lemma_run_search(SingleMoveModel { phase: with_search(m.original, s), ..m }, w, s);
    } else {
        reveal_with_fuel(single_move_run, 2);
    }
}

/// A file that was moved lies in the directory for tagged files, under its own name or its
/// own name with a number, where nothing lay before.
pub proof fn moved_file_displaces_nothing(job: JobModel, w: MoveWorld)
    ensures
        single_move_verdict(job, w) matches Ok(Some(p)) ==> {
            &&& !(w.taken)(p)
            &&& path::file_name(job.original_path) matches Some(name) && exists|n: nat|
                #[trigger] destination::first_free(job.tagged_dir, name, w.taken, n) && p
                    == destination::candidate(job.tagged_dir, name, n)
        },
{
    destination::search_finds_first_free(job.tagged_dir, job.original_path, w.taken);
}

/// In a move, each part works on the file and the directory of the move.
pub open spec fn consistent(m: SingleMoveModel) -> bool {
    match m.phase {
        MovePhaseModel::CheckOriginal => true,
        MovePhaseModel::TaggedDir(t) => t.path == m.tagged_dir,
        MovePhaseModel::Search(s) => {
            &&& s.destination_dir == m.tagged_dir
            &&& s.source == m.original
            &&& s.phase matches SearchPhaseModel::Probe(name, index) && path::file_name(m.original)
                == Some(name) && index < destination::NAME_LIMIT
        },
        MovePhaseModel::Transfer(f) => {
            &&& f.source == m.original
            &&& is_candidate(m.tagged_dir, m.original, f.destination)
        },
        MovePhaseModel::Finished(_) => true,
    }
}

/// The path is one of those that are tried for a file in a directory.
pub open spec fn is_candidate(tagged_dir: Seq<u8>, original: Seq<u8>, p: Seq<u8>) -> bool {
    path::file_name(original) matches Some(name) && exists|n: nat|
        n < destination::NAME_LIMIT && p == #[trigger] destination::candidate(tagged_dir, name, n)
}

/// Every step keeps a move consistent, and it begins so.
pub proof fn steps_keep_consistent(m: SingleMoveModel, e: EventModel, job: JobModel)
    requires
        consistent(m),
    ensures
        consistent(single_move(job)),
        consistent(SingleMoveModel { phase: single_move_next(m, e), ..m }),
{
    match m.phase {
        MovePhaseModel::Search(s) => {
            match s.phase {
                SearchPhaseModel::Probe(name, index) => {
                    assert(is_candidate(
                        m.tagged_dir,
                        m.original,
                        destination::candidate(m.tagged_dir, name, index),
                    ));
                },
                _ => {},
            }
        },
        _ => {},
    }
}

/// All that a move does to the file system is to create the directory for tagged files, and to
/// bring the file to one of the paths in it that are tried.
pub proof fn single_move_effects(m: SingleMoveModel)
    requires
        consistent(m),
    ensures
        match single_move_action(m) {
            ActionModel::Exists(_) | ActionModel::IsDir(_) | ActionModel::Nothing => true,
            ActionModel::CreateDirAll(dir) => dir == m.tagged_dir,
            ActionModel::Rename(from, to) | ActionModel::Copy(from, to) => from == m.original
                && is_candidate(m.tagged_dir, m.original, to),
            ActionModel::RemoveFile(p) => p == m.original,
            _ => false,
        },
{
}

/// The move after an event.
pub open spec fn single_move_step(m: SingleMoveModel, e: EventModel) -> SingleMoveModel {
    SingleMoveModel { phase: single_move_next(m, e), ..m }
}

/// The move of a job's file when the directory for tagged files is known to be there.
pub open spec fn with_directory(job: JobModel) -> SingleMoveModel {
    let there = single_move_step(single_move(job), EventModel::Flag(true));
    single_move_step(single_move_step(there, EventModel::Flag(true)), EventModel::Flag(true))
}

/// The course of a move up to the search for a name, question by question. Only a job with a
/// playlist of its own has a file to move. The file has to be there still, and the directory for
/// tagged files has to be one, or has to be created where nothing lies at its path.
pub proof fn course_of_the_preparations(job: JobModel)
    ensures
        job.temp_playlist is None ==> single_move(job).phase == MovePhaseModel::Finished(
            Ok::<Option<Seq<u8>>, MoveErrorModel>(None),
        ),
        job.temp_playlist is Some ==> {
            let begun = single_move(job);
            let there = single_move_step(begun, EventModel::Flag(true));
            let taken = single_move_step(there, EventModel::Flag(true));
            let missing = single_move_step(there, EventModel::Flag(false));
            &&& single_move_action(begun) == ActionModel::Exists(job.original_path)
            &&& single_move_next(begun, EventModel::Flag(false)) == MovePhaseModel::Finished(
                Err::<Option<Seq<u8>>, MoveErrorModel>(
                    MoveErrorModel::OriginalGone(job.original_path),
                ),
            )
            &&& single_move_action(there) == ActionModel::Exists(job.tagged_dir)
            &&& single_move_action(taken) == ActionModel::IsDir(job.tagged_dir)
            &&& single_move_next(taken, EventModel::Flag(false)) == MovePhaseModel::Finished(
                Err::<Option<Seq<u8>>, MoveErrorModel>(
                    MoveErrorModel::TaggedDir(TaggedDirErrorModel::NotDirectory(job.tagged_dir)),
                ),
            )
            &&& single_move_action(missing) == ActionModel::CreateDirAll(job.tagged_dir)
            &&& single_move_next(missing, EventModel::Failed) == MovePhaseModel::Finished(
                Err::<Option<Seq<u8>>, MoveErrorModel>(
                    MoveErrorModel::TaggedDir(TaggedDirErrorModel::NotCreated(job.tagged_dir)),
                ),
            )
            &&& single_move_step(missing, EventModel::Done) == with_directory(job)
            &&& path::file_name(job.original_path) is None ==> with_directory(job).phase
                == MovePhaseModel::Finished(
                Err::<Option<Seq<u8>>, MoveErrorModel>(
                    MoveErrorModel::Destination(
                        DestinationErrorModel::NoFileName(job.original_path),
                    ),
                ),
            )
        },
{
}

/// The move after it was told `n` times that something lies at the path in question.
pub open spec fn after_taken(m: SingleMoveModel, n: nat) -> SingleMoveModel
    decreases n,
{
    if n == 0 {
        m
    } else {
        single_move_step(after_taken(m, (n - 1) as nat), EventModel::Flag(true))
    }
}

proof fn lemma_after_taken(job: JobModel, name: Seq<u8>, n: nat)
    requires
        job.temp_playlist is Some,
        path::file_name(job.original_path) == Some(name),
        n < 10000,
        n == 0 || valid_utf8(path::stem_of(name)),
    ensures
        after_taken(with_directory(job), n) == (SingleMoveModel {
            original: job.original_path,
            tagged_dir: job.tagged_dir,
            phase: MovePhaseModel::Search(
                SearchModel {
                    destination_dir: job.tagged_dir,
                    source: job.original_path,
                    phase: SearchPhaseModel::Probe(name, n),
                },
            ),
        }),
    decreases n,
{
    if n > 0 {
        lemma_after_taken(job, name, (n - 1) as nat);
    }
}

/// The course of a move from the search for a name to its end. The names are tried in order, and
/// the file is brought to the first path at which nothing lies: it is renamed to it, or, where
/// that fails, copied to it and then removed at its source. The path that it came to is the
/// result; every failure is told with the paths in question.
pub proof fn course_of_the_transfer(job: JobModel, name: Seq<u8>, n: nat)
    requires
        job.temp_playlist is Some,
        path::file_name(job.original_path) == Some(name),
        n < 10000,
        n == 0 || valid_utf8(path::stem_of(name)),
    ensures
        ({
            let source = job.original_path;
            let tried = destination::candidate(job.tagged_dir, name, n);
            let asked = after_taken(with_directory(job), n);
            let begun = single_move_step(asked, EventModel::Flag(false));
            let fallback = single_move_step(begun, EventModel::Failed);
            let copied = single_move_step(fallback, EventModel::Done);
            let moved = MovePhaseModel::Finished(
                Ok::<Option<Seq<u8>>, MoveErrorModel>(Some(tried)),
            );
            &&& n == 0 ==> tried == path::joined(job.tagged_dir, name)
            &&& single_move_action(asked) == ActionModel::Exists(tried)
            &&& single_move_action(begun) == ActionModel::Rename(source, tried)
            &&& single_move_next(begun, EventModel::Done) == moved
            &&& single_move_action(fallback) == ActionModel::Copy(source, tried)
            &&& single_move_next(fallback, EventModel::Failed) == MovePhaseModel::Finished(
                Err::<Option<Seq<u8>>, MoveErrorModel>(
                    MoveErrorModel::Transfer(
                        source,
                        tried,
                        FileMoveErrorModel::Copy(source, tried),
                    ),
                ),
            )
            &&& single_move_action(copied) == ActionModel::RemoveFile(source)
            &&& single_move_next(copied, EventModel::Done) == moved
            &&& single_move_next(copied, EventModel::Failed) == MovePhaseModel::Finished(
                Err::<Option<Seq<u8>>, MoveErrorModel>(
                    MoveErrorModel::Transfer(
                        source,
                        tried,
                        FileMoveErrorModel::RemoveSource(source),
                    ),
                ),
            )
            &&& !valid_utf8(path::stem_of(name)) ==> single_move_next(asked, EventModel::Flag(true))
                == MovePhaseModel::Finished(
                Err::<Option<Seq<u8>>, MoveErrorModel>(
                    MoveErrorModel::Destination(DestinationErrorModel::NoStem(source)),
                ),
            )
            &&& n == 9999 ==> single_move_next(asked, EventModel::Flag(true))
                == MovePhaseModel::Finished(
                Err::<Option<Seq<u8>>, MoveErrorModel>(
                    MoveErrorModel::Destination(
                        DestinationErrorModel::NoneFree(job.tagged_dir, source),
                    ),
                ),
            )
        }),
{
    lemma_after_taken(job, name, n);
}

/// What the errors say, and what lies behind them.
pub proof fn move_error_texts(
    p: Seq<u8>,
    to: Seq<u8>,
    dir: TaggedDirErrorModel,
    search: DestinationErrorModel,
    transfer: FileMoveErrorModel,
)
    ensures
        move_error_text(MoveErrorModel::OriginalGone(p))
            == "cannot move tagged file because original path no longer exists after tagging: "@
            + text::shown(p),
        move_error_text(MoveErrorModel::TaggedDir(dir)) == tagged_dir::tagged_dir_error_text(dir),
        move_error_text(MoveErrorModel::Destination(search))
            == destination::destination_error_text(search),
        move_error_text(MoveErrorModel::Transfer(p, to, transfer))
            == "failed moving tagged file from "@ + text::shown(p) + " to "@ + text::shown(to),
        move_error_cause(MoveErrorModel::Transfer(p, to, transfer)) == Some(
            file_move::file_move_error_text(transfer),
        ),
        move_error_cause(MoveErrorModel::OriginalGone(p)) is None,
        move_error_cause(MoveErrorModel::TaggedDir(dir)) is None,
        move_error_cause(MoveErrorModel::Destination(search)) is None,
{
}

/// No part of a move has come to its end while the move goes on with it.
pub open spec fn progressing(m: SingleMoveModel) -> bool {
    match m.phase {
        MovePhaseModel::TaggedDir(t) => !(t.phase is Finished),
        MovePhaseModel::Search(s) => !(s.phase is Finished),
        MovePhaseModel::Transfer(f) => !(f.phase is Finished),
        _ => true,
    }
}

/// A move begins so, and every step keeps it so.
pub proof fn steps_keep_progressing(m: SingleMoveModel, e: EventModel, job: JobModel)
    requires
        progressing(m),
    ensures
        progressing(single_move(job)),
        progressing(SingleMoveModel { phase: single_move_next(m, e), ..m }),
{
}

/// An event that answers what the move waits for brings it nearer to its end; any other event changes
/// nothing.
pub proof fn single_move_goes_on(m: SingleMoveModel, e: EventModel)
    requires
        progressing(m),
    ensures
        effects::answers(single_move_action(m), e) ==> single_move_rank(
            SingleMoveModel { phase: single_move_next(m, e), ..m },
        ) < single_move_rank(m),
        !effects::answers(single_move_action(m), e) ==> single_move_next(m, e) == m.phase,
{
}

/// The model of a move says what the move says: which file and directory it is about, and what
/// it ended with.
pub proof fn single_move_model(m: SingleFileMove)
    ensures
        m@.original == m.original.bytes@,
        m@.tagged_dir == m.tagged_dir.bytes@,
        match m.phase {
            MovePhase::Finished(Ok(Some(p))) => m@.phase == MovePhaseModel::Finished(
                Ok::<Option<Seq<u8>>, MoveErrorModel>(Some(p.bytes@)),
            ),
            MovePhase::Finished(Ok(None)) => m@.phase == MovePhaseModel::Finished(
                Ok::<Option<Seq<u8>>, MoveErrorModel>(None),
            ),
            MovePhase::Finished(Err(e)) => m@.phase == MovePhaseModel::Finished(
                Err::<Option<Seq<u8>>, MoveErrorModel>(e@),
            ) && match e {
                MoveError::OriginalGone(p) => e@ == MoveErrorModel::OriginalGone(p.bytes@),
                MoveError::TaggedDir(cause) => e@ == MoveErrorModel::TaggedDir(cause@),
                MoveError::Destination(cause) => e@ == MoveErrorModel::Destination(cause@),
                MoveError::Transfer(from, to, cause) => e@ == MoveErrorModel::Transfer(
                    from.bytes@,
                    to.bytes@,
                    cause@,
                ),
            },
            _ => !(m@.phase is Finished),
        },
{
}

} // verus!
