//! Carrying out one job: the tagger is called, a tagged single file is moved, and the playlist
//! that was written for the job is removed, whatever happened.
use crate::admission;
use crate::admission::{AdmissionWorld, PendingModel};
use crate::command;
use crate::command::{RunError, RunErrorModel};
use crate::effects;
use crate::effects::{Action, ActionModel, Event, EventModel, OutputModel};
use crate::jobs;
use crate::jobs::{Job, JobModel};
use crate::normalize;
use crate::path::UnixPath;
use crate::single_move;
use crate::single_move::{
    MoveError, MoveErrorModel, MovePhase, MovePhaseModel, MoveWorld, SingleFileMove,
    SingleMoveModel,
};
use vstd::prelude::*;

verus! {

/// Why a job failed.
#[derive(Debug, PartialEq, Eq)]
pub enum JobError {
    /// The tagger did not tag.
    Run(RunError),
    /// The tagged file was not moved.
    Move(MoveError),
}

/// How far a job has come.
#[derive(Debug, PartialEq, Eq)]
pub enum RunPhase {
    Launch,
    Move(SingleFileMove),
    Cleanup(Result<Option<UnixPath>, JobError>),
    /// The path that the tagged file was moved to, or none where there was nothing to move.
    Finished(Result<Option<UnixPath>, JobError>),
}

/// A job that is being carried out.
#[derive(Debug, PartialEq, Eq)]
pub struct JobRun {
    pub cli_bin: String,
    pub config_dir: UnixPath,
    pub job: Job,
    pub phase: RunPhase,
}

/// The model of [`JobError`].
#[verifier::ext_equal]
pub enum JobErrorModel {
    Run(RunErrorModel),
    Move(MoveErrorModel),
}

/// The model of [`RunPhase`].
#[verifier::ext_equal]
pub enum RunPhaseModel {
    Launch,
    Move(SingleMoveModel),
    Cleanup(Result<Option<Seq<u8>>, JobErrorModel>),
    Finished(Result<Option<Seq<u8>>, JobErrorModel>),
}

/// The model of [`JobRun`].
#[verifier::ext_equal]
pub struct JobRunModel {
    pub cli_bin: Seq<char>,
    pub config_dir: Seq<u8>,
    pub job: JobModel,
    pub phase: RunPhaseModel,
}

impl View for JobError {
    type V = JobErrorModel;

    open spec fn view(&self) -> JobErrorModel {
        match *self {
            JobError::Run(e) => JobErrorModel::Run(e@),
            JobError::Move(e) => JobErrorModel::Move(e@),
        }
    }
}

/// The model of the outcome of a job.
pub open spec fn job_outcome(result: Result<Option<UnixPath>, JobError>) -> Result<
    Option<Seq<u8>>,
    JobErrorModel,
> {
    match result {
        Ok(moved) => Ok(jobs::path_option(moved)),
        Err(e) => Err(e@),
    }
}

impl View for RunPhase {
    type V = RunPhaseModel;

    open spec fn view(&self) -> RunPhaseModel {
        match *self {
            RunPhase::Launch => RunPhaseModel::Launch,
            RunPhase::Move(m) => RunPhaseModel::Move(m@),
            RunPhase::Cleanup(result) => RunPhaseModel::Cleanup(job_outcome(result)),
            RunPhase::Finished(result) => RunPhaseModel::Finished(job_outcome(result)),
        }
    }
}

impl View for JobRun {
    type V = JobRunModel;

    open spec fn view(&self) -> JobRunModel {
        JobRunModel {
            cli_bin: self.cli_bin@,
            config_dir: self.config_dir@,
            job: self.job@,
            phase: self.phase@,
        }
    }
}

/// The text of an error.
pub open spec fn job_error_text(e: JobErrorModel) -> Seq<char> {
    match e {
        JobErrorModel::Run(e) => command::run_error_text(e),
        JobErrorModel::Move(e) => single_move::move_error_text(e),
    }
}

/// A job at its beginning.
pub open spec fn job_run(cli_bin: Seq<char>, config_dir: Seq<u8>, job: JobModel) -> JobRunModel {
    JobRunModel { cli_bin, config_dir, job, phase: RunPhaseModel::Launch }
}

/// The removal of the playlist that was written for a job, if one was.
pub open spec fn cleanup(job: JobModel) -> ActionModel {
    match job.temp_playlist {
        Some(playlist) => ActionModel::RemoveFile(playlist),
        None => ActionModel::Nothing,
    }
}

/// The action that the job waits for.
pub open spec fn job_action(m: JobRunModel) -> ActionModel {
    match m.phase {
        RunPhaseModel::Launch => command::tagger_call(m.cli_bin, m.config_dir, m.job),
        RunPhaseModel::Move(mv) => single_move::single_move_action(mv),
        RunPhaseModel::Cleanup(_) => cleanup(m.job),
        RunPhaseModel::Finished(_) => ActionModel::Nothing,
    }
}

/// The phase of a job whose outcome is known.
pub open spec fn concluded(
    job: JobModel,
    outcome: Result<Option<Seq<u8>>, JobErrorModel>,
) -> RunPhaseModel {
    match job.temp_playlist {
        Some(_) => RunPhaseModel::Cleanup(outcome),
        None => RunPhaseModel::Finished(outcome),
    }
}

/// The phase of a job whose move has come to the given point.
pub open spec fn with_move(job: JobModel, mv: SingleMoveModel) -> RunPhaseModel {
    match mv.phase {
        MovePhaseModel::Finished(Ok(moved)) => concluded(job, Ok(moved)),
        MovePhaseModel::Finished(Err(e)) => concluded(job, Err(JobErrorModel::Move(e))),
        _ => RunPhaseModel::Move(mv),
    }
}

/// The phase that follows. An event that does not answer the pending action changes
/// nothing.
pub open spec fn job_next(m: JobRunModel, e: EventModel) -> RunPhaseModel {
    match m.phase {
        RunPhaseModel::Launch => match command::run_verdict(e) {
            Some(Ok(_)) => with_move(m.job, single_move::single_move(m.job)),
            Some(Err(e)) => concluded(m.job, Err(JobErrorModel::Run(e))),
            None => m.phase,
        },
        RunPhaseModel::Move(mv) => with_move(
            m.job,
            SingleMoveModel { phase: single_move::single_move_next(mv, e), ..mv },
        ),
        RunPhaseModel::Cleanup(outcome) => match e {
            EventModel::Done | EventModel::Failed => RunPhaseModel::Finished(outcome),
            _ => m.phase,
        },
        RunPhaseModel::Finished(_) => m.phase,
    }
}

impl JobError {
    /// The text of the error.
    pub fn message(&self) -> (r: String)
        ensures
            r@ == job_error_text(self@),
    {
        match self {
            JobError::Run(e) => e.message(),
            JobError::Move(e) => e.message(),
        }
    }
}

/// The removal of the playlist that was written for a job, if one was.
pub fn cleanup_temp_playlist(job: &Job) -> (r: Action)
    ensures
        r@ == cleanup(job@),
{
    match &job.temp_playlist {
        Some(playlist) => Action::RemoveFile(playlist.clone()),
        None => Action::Nothing,
    }
}

fn conclude(job: &Job, outcome: Result<Option<UnixPath>, JobError>) -> (r: RunPhase)
    ensures
        r@ == concluded(job@, job_outcome(outcome)),
{
    match job.temp_playlist {
        Some(_) => RunPhase::Cleanup(outcome),
        None => RunPhase::Finished(outcome),
    }
}

fn after_move(job: &Job, mv: SingleFileMove) -> (r: RunPhase)
    ensures
        r@ == with_move(job@, mv@),
{
    match mv.phase {
        MovePhase::Finished(Ok(moved)) => conclude(job, Ok(moved)),
        MovePhase::Finished(Err(e)) => conclude(job, Err(JobError::Move(e))),
        _ => RunPhase::Move(mv),
    }
}

/// Begins a job.
pub(crate) fn begin_run(cli_bin: &String, config_dir: &UnixPath, job: Job) -> (r: JobRun)
    ensures
        r@ == job_run(cli_bin@, config_dir@, job@),
{
    JobRun {
        cli_bin: cli_bin.clone(),
        config_dir: config_dir.clone(),
        job,
        phase: RunPhase::Launch,
    }
}

impl JobRun {
    /// The action that the job waits for.
    pub fn action(&self) -> (r: Action)
        ensures
            r@ == job_action(self@),
    {
        match &self.phase {
            RunPhase::Launch => command::run_job(&self.cli_bin, &self.config_dir, &self.job),
            RunPhase::Move(mv) => mv.action(),
            RunPhase::Cleanup(_) => cleanup_temp_playlist(&self.job),
            RunPhase::Finished(_) => Action::Nothing,
        }
    }

    /// Goes on with what came of the pending action.
    pub fn step(self, event: Event) -> (r: JobRun)
        ensures
            r@ == (JobRunModel { phase: job_next(self@, event@), ..self@ }),
    {
        let phase: RunPhase = match self.phase {
            RunPhase::Launch => match command::judge_run(event) {
                Some(Ok(_)) => {
                    let mv: SingleFileMove = single_move::move_single_file_after_success(&self.job);
                    after_move(&self.job, mv)
                },
                Some(Err(e)) => conclude(&self.job, Err(JobError::Run(e))),
                None => RunPhase::Launch,
            },
            RunPhase::Move(mv) => after_move(&self.job, mv.step(event)),
            RunPhase::Cleanup(outcome) => match event {
                Event::Done | Event::Failed => RunPhase::Finished(outcome),
                _ => RunPhase::Cleanup(outcome),
            },
            RunPhase::Finished(outcome) => RunPhase::Finished(outcome),
        };
        JobRun { cli_bin: self.cli_bin, config_dir: self.config_dir, job: self.job, phase }
    }
}

/// What the runtime finds and achieves while a job is carried out.
pub struct JobWorld {
    /// How the tagger ended, unless it could not be run.
    pub output: Option<OutputModel>,
    pub file: MoveWorld,
    pub playlist_removed: bool,
}

/// What the runtime answers to the pending action.
pub open spec fn job_answer(m: JobRunModel, w: JobWorld) -> EventModel {
    match m.phase {
        RunPhaseModel::Launch => match w.output {
            Some(output) => EventModel::Exited(output),
            None => EventModel::Failed,
        },
        RunPhaseModel::Move(mv) => single_move::single_move_answer(mv, w.file),
        RunPhaseModel::Cleanup(_) => effects::done(w.playlist_removed),
        RunPhaseModel::Finished(_) => EventModel::Done,
    }
}

/// An upper bound on the actions that are left.
pub open spec fn job_rank(m: JobRunModel) -> nat {
    match m.phase {
        RunPhaseModel::Launch => single_move::single_move_rank(
            SingleMoveModel {
                original: seq![],
                tagged_dir: seq![],
                phase: MovePhaseModel::CheckOriginal,
            },
        ) + 3,
        RunPhaseModel::Move(mv) => single_move::single_move_rank(mv) + 2,
        RunPhaseModel::Cleanup(_) => 1,
        RunPhaseModel::Finished(_) => 0,
    }
}

/// The outcome of a job that is carried to its end.
pub open spec fn job_run_through(m: JobRunModel, w: JobWorld) -> Result<
    Option<Seq<u8>>,
    JobErrorModel,
>
    decreases job_rank(m),
{
    match m.phase {
        RunPhaseModel::Finished(outcome) => outcome,
        _ => job_run_through(JobRunModel { phase: job_next(m, job_answer(m, w)), ..m }, w),
    }
}

/// What becomes of a job.
pub open spec fn job_verdict(job: JobModel, w: JobWorld) -> Result<Option<Seq<u8>>, JobErrorModel> {
    match w.output {
        None => Err(JobErrorModel::Run(RunErrorModel::Launch)),
        Some(output) => if !output.success {
            Err(JobErrorModel::Run(RunErrorModel::Exit(output)))
        } else {
            match single_move::single_move_verdict(job, w.file) {
                Ok(moved) => Ok(moved),
                Err(e) => Err(JobErrorModel::Move(e)),
            }
        },
    }
}

proof fn lemma_concluded(m: JobRunModel, w: JobWorld, outcome: Result<Option<Seq<u8>>, JobErrorModel>)
    requires
        m.phase == concluded(m.job, outcome),
    ensures
        job_run_through(m, w) == outcome,
{
    reveal_with_fuel(job_run_through, 2);
}

proof fn lemma_through_move(m: JobRunModel, w: JobWorld, mv: SingleMoveModel)
    requires
        m.phase == with_move(m.job, mv),
    ensures
        job_run_through(m, w) == match single_move::single_move_run(mv, w.file) {
            Ok(moved) => Ok(moved),
            Err(e) => Err(JobErrorModel::Move(e)),
        },
    decreases single_move::single_move_rank(mv),
{
    match mv.phase {
        MovePhaseModel::Finished(Ok(moved)) => {
            lemma_concluded(m, w, Ok(moved));
        },
        MovePhaseModel::Finished(Err(e)) => {
            lemma_concluded(m, w, Err(JobErrorModel::Move(e)));
        },
        _ => {
            let next = SingleMoveModel {
                phase: single_move::single_move_next(
                    mv,
                    single_move::single_move_answer(mv, w.file),
                ),
                ..mv
            };
            lemma_through_move(JobRunModel { phase: with_move(m.job, next), ..m }, w, next);
        },
    }
}

/// A job succeeds exactly where the tagger ended successfully and, for a single file, the file
/// was moved. Whether its playlist could be removed makes no difference.
pub proof fn job_result(cli_bin: Seq<char>, config_dir: Seq<u8>, job: JobModel, w: JobWorld)
    ensures
        job_run_through(job_run(cli_bin, config_dir, job), w) == job_verdict(job, w),
{
    let m = job_run(cli_bin, config_dir, job);
    let next = JobRunModel { phase: job_next(m, job_answer(m, w)), ..m };
    match w.output {
        None => {
            lemma_concluded(next, w, Err(JobErrorModel::Run(RunErrorModel::Launch)));
        },
        Some(output) => {
            if output.success {
                let mv = single_move::single_move(job);
                lemma_through_move(next, w, mv);
                single_move::single_move_result(job, w.file);
            } else {
                lemma_concluded(next, w, Err(JobErrorModel::Run(RunErrorModel::Exit(output))));
            }
        },
    }
}

/// Where the tagger could not be run or did not end successfully, no file is moved: all that is
/// left is to remove the playlist of the job.
pub proof fn failed_tagging_moves_nothing(m: JobRunModel, e: EventModel)
    requires
        m.phase is Launch,
        !(e matches EventModel::Exited(output) && output.success),
    ensures
        job_next(m, e) is Launch || job_next(m, e) == concluded(
            m.job,
            Err(JobErrorModel::Run(command::run_verdict(e)->0->Err_0)),
        ),
        !(job_next(m, e) is Launch) ==> job_action(JobRunModel { phase: job_next(m, e), ..m })
            == cleanup(m.job),
{
}

/// A job for which a playlist was written comes to its end only over the removal of that
/// playlist.
pub proof fn playlist_is_always_removed(m: JobRunModel, e: EventModel)
    requires
        !(m.phase is Finished),
    ensures
        job_next(m, e) is Finished && m.job.temp_playlist is Some ==> m.phase is Cleanup
            && job_action(m) == ActionModel::RemoveFile(m.job.temp_playlist->0),
{
}

/// A job on a directory or a playlist calls the tagger, and that is all: nothing is moved and
/// nothing is removed.
pub proof fn other_jobs_only_tag(m: JobRunModel, e: EventModel)
    requires
        m.job.temp_playlist is None,
        m.phase is Launch,
    ensures
        job_next(m, e) is Launch || job_next(m, e) is Finished,
{
}

/// In a job, the move is that of the job's file.
pub open spec fn consistent(m: JobRunModel) -> bool {
    m.phase matches RunPhaseModel::Move(mv) ==> {
        &&& m.job.temp_playlist is Some
        &&& mv.original == m.job.original_path
        &&& mv.tagged_dir == m.job.tagged_dir
        &&& single_move::consistent(mv)
    }
}

/// Every step keeps a job consistent.
pub proof fn steps_keep_consistent(m: JobRunModel, e: EventModel)
    requires
        consistent(m),
    ensures
        consistent(JobRunModel { phase: job_next(m, e), ..m }),
{
    match m.phase {
        RunPhaseModel::Move(mv) => {
            single_move::steps_keep_consistent(mv, e, m.job);
        },
        _ => {
            single_move::steps_keep_consistent(single_move::single_move(m.job), e, m.job);
        },
    }
}

/// All that a job does: it calls the tagger; it brings its single file to one of the tried
/// paths in the directory for tagged files, which is created where it is missing; and it
/// removes its playlist.
pub proof fn job_effects(m: JobRunModel)
    requires
        consistent(m),
    ensures
        match job_action(m) {
            ActionModel::Exists(_) | ActionModel::IsDir(_) | ActionModel::Nothing => true,
            ActionModel::Run(_, _) => m.phase is Launch && job_action(m) == command::tagger_call(
                m.cli_bin,
                m.config_dir,
                m.job,
            ),
            ActionModel::CreateDirAll(dir) => dir == m.job.tagged_dir,
            ActionModel::Rename(from, to) | ActionModel::Copy(from, to) => from
                == m.job.original_path && single_move::is_candidate(
                m.job.tagged_dir,
                m.job.original_path,
                to,
            ),
            ActionModel::RemoveFile(p) => if m.phase is Cleanup {
                m.job.temp_playlist == Some(p)
            } else {
                p == m.job.original_path && m.job.temp_playlist is Some
            },
            _ => false,
        },
{
    match m.phase {
        RunPhaseModel::Move(mv) => {
            single_move::single_move_effects(mv);
        },
        _ => {},
    }
}

/// The tagger is called for an accepted request with what was checked: the requested path or
/// the playlist that stands for it, the configuration that was found and read, and the further
/// arguments of the request, as they are and in their order.
pub proof fn tagger_gets_what_was_checked(
    p: PendingModel,
    w: AdmissionWorld,
    cli_bin: Seq<char>,
)
    ensures
        admission::admission_verdict(p, w) matches Ok(job) ==> {
            &&& command::tagger_call(cli_bin, p.config_dir, job) == ActionModel::Run(
                cli_bin,
                command::tagger_args(job.req, p.config()),
            )
            &&& job.req.file == p.req.file || job.req.file == normalize::playlist_path(
                p.config_dir,
                p.id,
            )
            &&& command::further_args(job.req) == command::further_args(p.req)
        },
{
}

/// The file that a client asked for is never what is removed with the job's playlist.
pub proof fn cleanup_spares_the_original(p: PendingModel, w: AdmissionWorld)
    ensures
        admission::admission_verdict(p, w) matches Ok(job) ==> cleanup(job)
            != ActionModel::RemoveFile(job.original_path),
{
    admission::job_keeps_request(p, w);
}

/// The job after an event.
pub open spec fn job_step(m: JobRunModel, e: EventModel) -> JobRunModel {
    JobRunModel { phase: job_next(m, e), ..m }
}

/// The course of a job, action by action. The tagger is called. Where it did not tag, nothing is
/// moved. Where it tagged, the file of a job with a playlist is moved. At the end the playlist
/// of the job is removed, whether that succeeds or not, and the outcome is that of the call and
/// the move.
pub proof fn job_course(
    cli_bin: Seq<char>,
    config_dir: Seq<u8>,
    job: JobModel,
    output: OutputModel,
    removed: bool,
)
    ensures
        ({
            let begun = job_run(cli_bin, config_dir, job);
            let answer = if removed {
                EventModel::Done
            } else {
                EventModel::Failed
            };
            let no_launch = Err::<Option<Seq<u8>>, JobErrorModel>(
                JobErrorModel::Run(RunErrorModel::Launch),
            );
            let no_success = Err::<Option<Seq<u8>>, JobErrorModel>(
                JobErrorModel::Run(RunErrorModel::Exit(output)),
            );
            let failed = job_step(begun, EventModel::Failed);
            let ended = job_step(begun, EventModel::Exited(output));
            &&& job_action(begun) == command::tagger_call(cli_bin, config_dir, job)
            &&& match job.temp_playlist {
                Some(playlist) => {
                    &&& job_action(failed) == ActionModel::RemoveFile(playlist)
                    &&& job_next(failed, answer) == RunPhaseModel::Finished(no_launch)
                    &&& !output.success ==> {
                        &&& job_action(ended) == ActionModel::RemoveFile(playlist)
                        &&& job_next(ended, answer) == RunPhaseModel::Finished(no_success)
                    }
                    &&& output.success ==> ended.phase == RunPhaseModel::Move(
                        single_move::single_move(job),
                    ) && job_action(ended) == ActionModel::Exists(job.original_path)
                },
                None => {
                    &&& failed.phase == RunPhaseModel::Finished(no_launch)
                    &&& !output.success ==> ended.phase == RunPhaseModel::Finished(no_success)
                    &&& output.success ==> ended.phase == RunPhaseModel::Finished(
                        Ok::<Option<Seq<u8>>, JobErrorModel>(None),
                    )
                },
            }
        }),
{
}

/// While the file of a job is moved, the job does what the move does. When the move has come to
/// its end, the playlist is removed, whether that succeeds or not, and the job ends as the move
/// did.
pub proof fn job_course_in_the_move(
    m: JobRunModel,
    mv: SingleMoveModel,
    e: EventModel,
    playlist: Seq<u8>,
    removed: bool,
)
    requires
        m.phase == RunPhaseModel::Move(mv),
        m.job.temp_playlist == Some(playlist),
    ensures
        ({
            let next = job_step(m, e);
            let answer = if removed {
                EventModel::Done
            } else {
                EventModel::Failed
            };
            &&& job_action(m) == single_move::single_move_action(mv)
            &&& match single_move::single_move_next(mv, e) {
                MovePhaseModel::Finished(Ok(moved)) => {
                    &&& job_action(next) == ActionModel::RemoveFile(playlist)
                    &&& job_next(next, answer) == RunPhaseModel::Finished(
                        Ok::<Option<Seq<u8>>, JobErrorModel>(moved),
                    )
                },
                MovePhaseModel::Finished(Err(e)) => {
                    &&& job_action(next) == ActionModel::RemoveFile(playlist)
                    &&& job_next(next, answer) == RunPhaseModel::Finished(
                        Err::<Option<Seq<u8>>, JobErrorModel>(JobErrorModel::Move(e)),
                    )
                },
                _ => next.phase == RunPhaseModel::Move(single_move::single_move_step(mv, e)),
            }
        }),
{
}

/// A job's error says what the error of the call or of the move says.
pub proof fn job_error_texts(run: RunErrorModel, mv: MoveErrorModel)
    ensures
        job_error_text(JobErrorModel::Run(run)) == command::run_error_text(run),
        job_error_text(JobErrorModel::Move(mv)) == single_move::move_error_text(mv),
{
}

/// An event that answers what the job waits for brings it nearer to its end; any other event changes
/// nothing.
pub proof fn job_goes_on(m: JobRunModel, e: EventModel)
    requires
        consistent(m),
        m.phase matches RunPhaseModel::Move(mv) ==> single_move::progressing(mv) && !(
        mv.phase is Finished),
        m.phase is Cleanup ==> m.job.temp_playlist is Some,
    ensures
        effects::answers(job_action(m), e) ==> job_rank(
            JobRunModel { phase: job_next(m, e), ..m },
        ) < job_rank(m),
        !effects::answers(job_action(m), e) ==> job_next(m, e) == m.phase,
{
    match m.phase {
        RunPhaseModel::Move(mv) => {
            single_move::single_move_goes_on(mv, e);
        },
        _ => {},
    }
}

/// The model of a job that is carried out says what the job says, and what it ended with.
pub proof fn job_run_model(run: JobRun)
    ensures
        run@.cli_bin == run.cli_bin@,
        run@.config_dir == run.config_dir.bytes@,
        run@.job == run.job@,
        match run.phase {
            RunPhase::Launch => run@.phase is Launch,
            RunPhase::Move(mv) => run@.phase == RunPhaseModel::Move(mv@),
            RunPhase::Cleanup(outcome) => run@.phase == RunPhaseModel::Cleanup(job_outcome(outcome)),
            RunPhase::Finished(outcome) => run@.phase == RunPhaseModel::Finished(
                job_outcome(outcome),
            ),
        },
{
}

/// The model of an outcome says what the outcome says.
pub proof fn outcome_model(outcome: Result<Option<UnixPath>, JobError>)
    ensures
        match outcome {
            Ok(Some(p)) => job_outcome(outcome) == Ok::<Option<Seq<u8>>, JobErrorModel>(
                Some(p.bytes@),
            ),
            Ok(None) => job_outcome(outcome) == Ok::<Option<Seq<u8>>, JobErrorModel>(None),
            Err(JobError::Run(RunError::Launch)) => job_outcome(outcome) == Err::<
                Option<Seq<u8>>,
                JobErrorModel,
            >(JobErrorModel::Run(RunErrorModel::Launch)),
            Err(JobError::Run(RunError::Exit(output))) => job_outcome(outcome) == Err::<
                Option<Seq<u8>>,
                JobErrorModel,
            >(JobErrorModel::Run(RunErrorModel::Exit(output@))),
            Err(JobError::Move(e)) => job_outcome(outcome) == Err::<Option<Seq<u8>>, JobErrorModel>(
                JobErrorModel::Move(e@),
            ),
        },
{
}

} // verus!
