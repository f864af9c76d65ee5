//! Taking a request into the queue: the checks that it has to pass, and the job that is
//! made of it.
use crate::effects;
use crate::effects::{Action, ActionModel, Event, EventModel};
use crate::ident;
use crate::jobs;
use crate::jobs::{Job, JobModel, JobRequest, Rejection, RejectionModel, RequestModel};
use crate::json;
use crate::json::Json;
use crate::move_config;
use crate::move_config::{
    AutotaggerMoveConfig, MoveConfigError, MoveConfigErrorModel, MoveConfigModel,
};
use crate::normalize;
use crate::normalize::{
    InputError, InputErrorModel, InputWorld, Normalization, NormalizationModel, NormalizePhase,
    NormalizePhaseModel, NormalizedInput, NormalizedModel,
};
use crate::path;
use crate::path::UnixPath;
use crate::text;
use vstd::prelude::*;
use vstd::string::*;
use vstd::utf8::*;

verus! {

/// A request that is being checked.
#[derive(Debug, PartialEq, Eq)]
pub struct Pending {
    pub config_dir: UnixPath,
    pub tagged_dir: UnixPath,
    pub id: u128,
    pub req: JobRequest,
}

/// How far the checks on a request have come.
#[derive(Debug, PartialEq, Eq)]
pub enum Admission {
    CheckInput(Pending),
    CheckConfig(Pending),
    ReadConfig(Pending),
    Normalize(Pending, AutotaggerMoveConfig, Normalization),
    Finished(Result<Job, Rejection>),
}

/// The model of [`Pending`].
#[verifier::ext_equal]
pub struct PendingModel {
    pub config_dir: Seq<u8>,
    pub tagged_dir: Seq<u8>,
    pub id: u128,
    pub req: RequestModel,
}

/// The model of [`Admission`].
#[verifier::ext_equal]
pub enum AdmissionModel {
    CheckInput(PendingModel),
    CheckConfig(PendingModel),
    ReadConfig(PendingModel),
    Normalize(PendingModel, MoveConfigModel, NormalizationModel),
    Finished(Result<JobModel, RejectionModel>),
}

impl View for Pending {
    type V = PendingModel;

    open spec fn view(&self) -> PendingModel {
        PendingModel {
            config_dir: self.config_dir@,
            tagged_dir: self.tagged_dir@,
            id: self.id,
            req: self.req@,
        }
    }
}

impl View for Admission {
    type V = AdmissionModel;

    open spec fn view(&self) -> AdmissionModel {
        match *self {
            Admission::CheckInput(p) => AdmissionModel::CheckInput(p@),
            Admission::CheckConfig(p) => AdmissionModel::CheckConfig(p@),
            Admission::ReadConfig(p) => AdmissionModel::ReadConfig(p@),
            Admission::Normalize(p, c, n) => AdmissionModel::Normalize(p@, c@, n@),
            Admission::Finished(result) => AdmissionModel::Finished(
                match result {
                    Ok(job) => Ok(job@),
                    Err(rejection) => Err(rejection@),
                },
            ),
        }
    }
}

impl PendingModel {
    /// The configuration that the request is to use.
    pub open spec fn config(self) -> Seq<u8> {
        jobs::config_for(self.req.config, self.config_dir)
    }

    /// The answer where nothing lies at the requested path.
    pub open spec fn input_missing(self) -> RejectionModel {
        jobs::refusal(
            jobs::BAD_REQUEST,
            "input path does not exist"@,
            "path"@,
            text::shown(self.req.file),
        )
    }

    /// The answer where the configuration does not exist.
    pub open spec fn config_missing(self) -> RejectionModel {
        RejectionModel {
            status: jobs::BAD_REQUEST,
            body: seq![
                ("error"@, "config path does not exist"@),
                ("config"@, text::shown(self.config())),
                (
                    "hint"@,
                    "mount /config and provide autotagger.json or pass explicit config in payload"@,
                ),
            ],
        }
    }

    /// The answer where the configuration could not be taken in.
    pub open spec fn config_unusable(self, e: MoveConfigErrorModel) -> RejectionModel {
        jobs::refusal(
            jobs::BAD_REQUEST,
            "failed reading autotagger move configuration: "@ + move_config::move_config_error_text(
                e,
            ),
            "config"@,
            text::shown(self.config()),
        )
    }

    /// The answer where the requested path cannot be given to the tagger.
    pub open spec fn invalid_input(self, e: InputErrorModel) -> RejectionModel {
        jobs::refusal(
            jobs::BAD_REQUEST,
            "invalid input path: "@ + normalize::input_error_text(e),
            "path"@,
            text::shown(self.req.file),
        )
    }

    /// The job that is made of the request: what the tagger is given takes the place of the
    /// requested path, which is kept beside it.
    pub open spec fn job(self, config: MoveConfigModel, input: NormalizedModel) -> JobModel {
        JobModel {
            id: self.id,
            req: RequestModel { file: input.cli_path, ..self.req },
            original_path: self.req.file,
            temp_playlist: input.temp_playlist,
            tagged_dir: self.tagged_dir,
            success_destination: move_config::destination_of(config),
        }
    }

    /// The normalization of the requested path.
    pub open spec fn normalization(self) -> NormalizationModel {
        normalize::normalization(self.config_dir, self.id, self.req.file)
    }
}

/// The action that an admission waits for.
pub open spec fn admission_action(m: AdmissionModel) -> ActionModel {
    match m {
        AdmissionModel::CheckInput(p) => ActionModel::Exists(p.req.file),
        AdmissionModel::CheckConfig(p) => ActionModel::Exists(p.config()),
        AdmissionModel::ReadConfig(p) => ActionModel::ReadFile(p.config()),
        AdmissionModel::Normalize(_, _, n) => normalize::normalize_action(n),
        AdmissionModel::Finished(_) => ActionModel::Nothing,
    }
}

/// The admission whose normalization has come to the given point.
pub open spec fn with_normalization(
    p: PendingModel,
    c: MoveConfigModel,
    n: NormalizationModel,
) -> AdmissionModel {
    match n.phase {
        NormalizePhaseModel::Finished(Ok(input)) => AdmissionModel::Finished(Ok(p.job(c, input))),
        NormalizePhaseModel::Finished(Err(e)) => AdmissionModel::Finished(Err(p.invalid_input(e))),
        _ => AdmissionModel::Normalize(p, c, n),
    }
}

/// The admission whose configuration has the given contents, or could not be read.
pub open spec fn with_config(p: PendingModel, contents: Option<Seq<u8>>) -> AdmissionModel {
    match move_config::loaded_config(p.config(), contents) {
        Ok(c) => AdmissionModel::Normalize(p, c, p.normalization()),
        Err(e) => AdmissionModel::Finished(Err(p.config_unusable(e))),
    }
}

/// The admission that follows. An event that does not answer the pending action changes
/// nothing.
pub open spec fn admission_next(m: AdmissionModel, e: EventModel) -> AdmissionModel {
    match (m, e) {
        (AdmissionModel::CheckInput(p), EventModel::Flag(exists)) => if exists {
            AdmissionModel::CheckConfig(p)
        } else {
            AdmissionModel::Finished(Err(p.input_missing()))
        },
        (AdmissionModel::CheckConfig(p), EventModel::Flag(exists)) => if exists {
            AdmissionModel::ReadConfig(p)
        } else {
            AdmissionModel::Finished(Err(p.config_missing()))
        },
        (AdmissionModel::ReadConfig(p), EventModel::Failed) => with_config(p, None),
        (AdmissionModel::ReadConfig(p), EventModel::Bytes(bytes)) => with_config(p, Some(bytes)),
        (AdmissionModel::Normalize(p, c, n), e) => with_normalization(
            p,
            c,
            NormalizationModel { phase: normalize::normalize_next(n, e), ..n },
        ),
        (m, _) => m,
    }
}

impl Pending {
    fn config(&self) -> (r: UnixPath)
        ensures
            r@ == self@.config(),
    {
        jobs::resolve_config(&self.req.config, &self.config_dir)
    }

    fn refuse_missing_input(&self) -> (r: Rejection)
        ensures
            r@ == self@.input_missing(),
    {
        jobs::refuse(
            jobs::BAD_REQUEST,
            "input path does not exist".to_string(),
            "path",
            self.req.file.display(),
        )
    }

    fn refuse_missing_config(&self) -> (r: Rejection)
        ensures
            r@ == self@.config_missing(),
    {
        let body: Vec<(String, String)> = vec![
            ("error".to_string(), "config path does not exist".to_string()),
            ("config".to_string(), self.config().display()),
            (
                "hint".to_string(),
                "mount /config and provide autotagger.json or pass explicit config in payload".to_string(),
            ),
        ];
        let r: Rejection = Rejection { status: jobs::BAD_REQUEST, body };
        assert(r@.body =~= self@.config_missing().body);
        r
    }

    fn refuse_config(&self, e: &MoveConfigError) -> (r: Rejection)
        ensures
            r@ == self@.config_unusable(e@),
    {
        let mut error: String = "failed reading autotagger move configuration: ".to_string();
        error.append(e.message().as_str());
        jobs::refuse(jobs::BAD_REQUEST, error, "config", self.config().display())
    }

    fn refuse_input(&self, e: &InputError) -> (r: Rejection)
        ensures
            r@ == self@.invalid_input(e@),
    {
        let mut error: String = "invalid input path: ".to_string();
        error.append(e.message().as_str());
        jobs::refuse(jobs::BAD_REQUEST, error, "path", self.req.file.display())
    }

    fn into_job(self, config: AutotaggerMoveConfig, input: NormalizedInput) -> (r: Job)
        ensures
            r@ == self@.job(config@, input@),
    {
        Job {
            id: self.id,
            req: JobRequest {
                file: input.cli_path,
                config: self.req.config,
                extra_args: self.req.extra_args,
            },
            original_path: self.req.file,
            temp_playlist: input.temp_playlist,
            tagged_dir: self.tagged_dir,
            success_destination: config.success_destination(),
        }
    }

    fn with_config(self, contents: Option<Vec<u8>>) -> (r: Admission)
        ensures
            r@ == with_config(
                self@,
                match contents {
                    Some(bytes) => Some(bytes@),
                    None => None,
                },
            ),
    {
        match move_config::load_move_config(self.config(), contents) {
            Ok(config) => {
                let n: Normalization = normalize::normalize_cli_input_path(
                    self.config_dir.clone(),
                    self.id,
                    self.req.file.clone(),
                );
                Admission::Normalize(self, config, n)
            },
            Err(e) => Admission::Finished(Err(self.refuse_config(&e))),
        }
    }

    fn with_normalization(self, config: AutotaggerMoveConfig, n: Normalization) -> (r: Admission)
        ensures
            r@ == with_normalization(self@, config@, n@),
    {
        match n.phase {
            NormalizePhase::Finished(Ok(input)) => Admission::Finished(
                Ok(self.into_job(config, input)),
            ),
            NormalizePhase::Finished(Err(e)) => Admission::Finished(Err(self.refuse_input(&e))),
            _ => Admission::Normalize(self, config, n),
        }
    }
}

/// Begins the checks on a request that gets the given id.
pub fn begin_admission(config_dir: UnixPath, tagged_dir: UnixPath, id: u128, req: JobRequest) -> (r:
    Admission)
    ensures
        r@ == AdmissionModel::CheckInput(
            PendingModel { config_dir: config_dir@, tagged_dir: tagged_dir@, id, req: req@ },
        ),
{
    Admission::CheckInput(Pending { config_dir, tagged_dir, id, req })
}

/// Begins the checks on a request, which gets an id of its own.
pub fn prepare_job(config_dir: UnixPath, tagged_dir: UnixPath, req: JobRequest) -> (r: Admission)
    ensures
        r@ matches AdmissionModel::CheckInput(p) && ident::is_random_uuid(p.id) && p
            == (PendingModel {
            config_dir: config_dir@,
            tagged_dir: tagged_dir@,
            id: p.id,
            req: req@,
        }),
{
    let id: u128 = ident::fresh_id();
    begin_admission(config_dir, tagged_dir, id, req)
}

/// Begins the checks on the path that the worker was told to tag when it starts: as a request
/// for that path, with the default configuration and no further arguments.
pub fn enqueue_startup_job(config_dir: UnixPath, tagged_dir: UnixPath, file: UnixPath) -> (r:
    Admission)
    ensures
        r@ matches AdmissionModel::CheckInput(p) && ident::is_random_uuid(p.id) && p
            == (PendingModel {
            config_dir: config_dir@,
            tagged_dir: tagged_dir@,
            id: p.id,
            req: RequestModel { file: file@, config: None, extra_args: None },
        }),
{
    prepare_job(config_dir, tagged_dir, JobRequest { file, config: None, extra_args: None })
}

impl Admission {
    /// The action that the admission waits for.
    pub fn action(&self) -> (r: Action)
        ensures
            r@ == admission_action(self@),
    {
        match self {
            Admission::CheckInput(p) => Action::Exists(p.req.file.clone()),
            Admission::CheckConfig(p) => Action::Exists(p.config()),
            Admission::ReadConfig(p) => Action::ReadFile(p.config()),
            Admission::Normalize(_, _, n) => n.action(),
            Admission::Finished(_) => Action::Nothing,
        }
    }

    /// Goes on with what came of the pending action.
    pub fn step(self, event: Event) -> (r: Admission)
        ensures
            r@ == admission_next(self@, event@),
    {
        match (self, event) {
            (Admission::CheckInput(p), Event::Flag(exists)) => if exists {
                Admission::CheckConfig(p)
            } else {
                Admission::Finished(Err(p.refuse_missing_input()))
            },
            (Admission::CheckConfig(p), Event::Flag(exists)) => if exists {
                Admission::ReadConfig(p)
            } else {
                Admission::Finished(Err(p.refuse_missing_config()))
            },
            (Admission::ReadConfig(p), Event::Failed) => p.with_config(None),
            (Admission::ReadConfig(p), Event::Bytes(bytes)) => p.with_config(Some(bytes)),
            (Admission::Normalize(p, config, n), event) => p.with_normalization(
                config,
                n.step(event),
            ),
            (admission, _) => admission,
        }
    }
}

/// What the runtime finds while a request is checked.
pub struct AdmissionWorld {
    pub input_exists: bool,
    pub config_exists: bool,
    /// The contents of the configuration, unless it cannot be read.
    pub config_file: Option<Seq<u8>>,
    pub input: InputWorld,
}

/// What the runtime answers to the pending action.
pub open spec fn admission_answer(m: AdmissionModel, w: AdmissionWorld) -> EventModel {
    match m {
        AdmissionModel::CheckInput(_) => EventModel::Flag(w.input_exists),
        AdmissionModel::CheckConfig(_) => EventModel::Flag(w.config_exists),
        AdmissionModel::ReadConfig(_) => match w.config_file {
            Some(bytes) => EventModel::Bytes(bytes),
            None => EventModel::Failed,
        },
        AdmissionModel::Normalize(_, _, n) => normalize::normalize_answer(n, w.input),
        AdmissionModel::Finished(_) => EventModel::Done,
    }
}

/// An upper bound on the actions that are left.
pub open spec fn admission_rank(m: AdmissionModel) -> nat {
    match m {
        AdmissionModel::CheckInput(_) => 8,
        AdmissionModel::CheckConfig(_) => 7,
        AdmissionModel::ReadConfig(_) => 6,
        AdmissionModel::Normalize(_, _, n) => 1 + normalize::normalize_rank(n),
        AdmissionModel::Finished(_) => 0,
    }
}

/// The result of an admission that is carried to its end.
pub open spec fn admission_run(m: AdmissionModel, w: AdmissionWorld) -> Result<
    JobModel,
    RejectionModel,
>
    decreases admission_rank(m),
{
    match m {
        AdmissionModel::Finished(result) => result,
        _ => admission_run(admission_next(m, admission_answer(m, w)), w),
    }
}

/// What becomes of a request.
pub open spec fn admission_verdict(p: PendingModel, w: AdmissionWorld) -> Result<
    JobModel,
    RejectionModel,
> {
    if !w.input_exists {
        Err(p.input_missing())
    } else if !w.config_exists {
        Err(p.config_missing())
    } else {
        match move_config::loaded_config(p.config(), w.config_file) {
            Err(e) => Err(p.config_unusable(e)),
            Ok(config) => match normalize::normalized(p.config_dir, p.id, p.req.file, w.input) {
                Ok(input) => Ok(p.job(config, input)),
                Err(e) => Err(p.invalid_input(e)),
            },
        }
    }
}

/// A request becomes a job exactly where its input exists, its configuration exists, can be
/// read and parsed, and its input can be given to the tagger; the first of these that
/// fails says how it is refused.
pub proof fn admission_result(p: PendingModel, w: AdmissionWorld)
    ensures
        admission_run(AdmissionModel::CheckInput(p), w) == admission_verdict(p, w),
{
    reveal_with_fuel(admission_run, 9);
}

/// A job keeps what its request asked for: the path, the configuration and the further
/// arguments. What the tagger is given is that path, or else the playlist that was written
/// for this job and is a different file.
pub proof fn job_keeps_request(p: PendingModel, w: AdmissionWorld)
    ensures
        admission_verdict(p, w) matches Ok(job) ==> {
            &&& job.id == p.id
            &&& job.original_path == p.req.file
            &&& job.req.config == p.req.config
            &&& job.req.extra_args == p.req.extra_args
            &&& job.tagged_dir == p.tagged_dir
            &&& match job.temp_playlist {
                None => job.req.file == job.original_path,
                Some(playlist) => {
                    &&& playlist == normalize::playlist_path(p.config_dir, p.id)
                    &&& job.req.file == playlist
                    &&& job.original_path != playlist
                },
            }
        },
{
    normalize::temp_playlist_is_playlist(p.config_dir, p.id, p.req.file);
}

/// Every refusal by the checks is a bad request with an error text.
pub proof fn refusals_are_bad_requests(p: PendingModel, w: AdmissionWorld)
    ensures
        admission_verdict(p, w) matches Err(rejection) ==> {
            &&& rejection.status == jobs::BAD_REQUEST
            &&& rejection.body.len() > 1
            &&& rejection.body[0].0 == "error"@
        },
{
}

/// In an admission, the normalization is that of the request, and is not yet at its end.
pub open spec fn consistent(m: AdmissionModel) -> bool {
    match m {
        AdmissionModel::Normalize(p, _, n) => {
            &&& n == (NormalizationModel { phase: n.phase, ..p.normalization() })
            &&& !(n.phase is Finished)
        },
        _ => true,
    }
}

/// Every step keeps an admission consistent.
pub proof fn steps_keep_consistent(m: AdmissionModel, e: EventModel)
    requires
        consistent(m),
    ensures
        consistent(admission_next(m, e)),
{
}

/// All that the checks on a request do to the file system is to create the directory for
/// playlists and to write the playlist of this very job there.
pub proof fn admission_effects(m: AdmissionModel)
    requires
        consistent(m),
    ensures
        match admission_action(m) {
            ActionModel::Exists(_) | ActionModel::IsDir(_) | ActionModel::IsFile(_)
            | ActionModel::ReadFile(_) | ActionModel::Nothing => true,
            ActionModel::CreateDirAll(dir) => m matches AdmissionModel::Normalize(p, _, _) && dir
                == normalize::queue_dir(p.config_dir),
            ActionModel::WriteFile(file, data) => m matches AdmissionModel::Normalize(p, _, _)
                && file == normalize::playlist_path(p.config_dir, p.id) && data
                == normalize::playlist_data(p.req.file),
            _ => false,
        },
{
}

/// The course of the checks up to the configuration, question by question: the requested path
/// has to exist, and then the configuration, which is the one that the request names, or else
/// `autotagger.json` in the configuration directory; then the configuration is read. A request
/// is refused with status 400 and a body that says what is wrong with which path.
pub proof fn course_of_the_checks(p: PendingModel, bytes: Seq<u8>)
    ensures
        ({
            let config = match p.req.config {
                Some(config) => config,
                None => path::joined(p.config_dir, encode_utf8("autotagger.json"@)),
            };
            let asked = AdmissionModel::CheckInput(p);
            let there = admission_next(asked, EventModel::Flag(true));
            let configured = admission_next(there, EventModel::Flag(true));
            &&& admission_action(asked) == ActionModel::Exists(p.req.file)
            &&& admission_next(asked, EventModel::Flag(false)) == AdmissionModel::Finished(
                Err::<JobModel, RejectionModel>(
                    RejectionModel {
                        status: 400,
                        body: seq![
                            ("error"@, "input path does not exist"@),
                            ("path"@, text::shown(p.req.file)),
                        ],
                    },
                ),
            )
            &&& admission_action(there) == ActionModel::Exists(config)
            &&& admission_next(there, EventModel::Flag(false)) == AdmissionModel::Finished(
                Err::<JobModel, RejectionModel>(
                    RejectionModel {
                        status: 400,
                        body: seq![
                            ("error"@, "config path does not exist"@),
                            ("config"@, text::shown(config)),
                            (
                                "hint"@,
                                "mount /config and provide autotagger.json or pass explicit config in payload"@,
                            ),
                        ],
                    },
                ),
            )
            &&& admission_action(configured) == ActionModel::ReadFile(config)
            &&& admission_next(configured, EventModel::Failed) == AdmissionModel::Finished(
                Err::<JobModel, RejectionModel>(
                    RejectionModel {
                        status: 400,
                        body: seq![
                            (
                                "error"@,
                                "failed reading autotagger move configuration: "@ + (
                                "failed reading config "@ + text::shown(config)),
                            ),
                            ("config"@, text::shown(config)),
                        ],
                    },
                ),
            )
            &&& json::json_text(bytes) is None ==> admission_next(
                configured,
                EventModel::Bytes(bytes),
            ) == AdmissionModel::Finished(
                Err::<JobModel, RejectionModel>(
                    RejectionModel {
                        status: 400,
                        body: seq![
                            (
                                "error"@,
                                "failed reading autotagger move configuration: "@ + (
                                "failed parsing config "@ + text::shown(config)),
                            ),
                            ("config"@, text::shown(config)),
                        ],
                    },
                ),
            )
            &&& json::json_text(bytes) is Some ==> (move_config::loaded_config(config, Some(bytes))
                matches Ok(settings) && admission_next(configured, EventModel::Bytes(bytes))
                == AdmissionModel::Normalize(
                p,
                settings,
                normalize::normalization(p.config_dir, p.id, p.req.file),
            ))
        }),
{
}

/// While the requested path is normalized, the checks do what the normalization does. When that
/// has come to its end, the request is a job: with its id, the tagged directory, its configuration
/// and its further arguments, with the path for the tagger in place of the requested one, which
/// is kept beside it, and with the configured destination where moving is switched on. Or it is
/// refused with status 400 and the reason.
pub proof fn course_of_the_normalization(
    p: PendingModel,
    settings: MoveConfigModel,
    n: NormalizationModel,
    e: EventModel,
)
    ensures
        ({
            let m = AdmissionModel::Normalize(p, settings, n);
            &&& admission_action(m) == normalize::normalize_action(n)
            &&& match normalize::normalize_next(n, e) {
                NormalizePhaseModel::Finished(Ok(input)) => admission_next(m, e)
                    == AdmissionModel::Finished(
                    Ok::<JobModel, RejectionModel>(
                        JobModel {
                            id: p.id,
                            req: RequestModel {
                                file: input.cli_path,
                                config: p.req.config,
                                extra_args: p.req.extra_args,
                            },
                            original_path: p.req.file,
                            temp_playlist: input.temp_playlist,
                            tagged_dir: p.tagged_dir,
                            success_destination: if settings.move_success {
                                settings.move_success_path
                            } else {
                                None
                            },
                        },
                    ),
                ),
                NormalizePhaseModel::Finished(Err(reason)) => admission_next(m, e)
                    == AdmissionModel::Finished(
                    Err::<JobModel, RejectionModel>(
                        RejectionModel {
                            status: 400,
                            body: seq![
                                (
                                    "error"@,
                                    "invalid input path: "@ + normalize::input_error_text(reason),
                                ),
                                ("path"@, text::shown(p.req.file)),
                            ],
                        },
                    ),
                ),
                _ => admission_next(m, e) == AdmissionModel::Normalize(
                    p,
                    settings,
                    normalize::normalize_step(n, e),
                ),
            }
        }),
{
}

/// A job has a destination for the tagger exactly where its configuration is an object whose
/// member `moveSuccess` is `true` and whose member `moveSuccessPath` is a string that is not
/// blank; then it is that string.
pub proof fn destination_comes_from_the_configuration(
    p: PendingModel,
    w: AdmissionWorld,
    bytes: Seq<u8>,
    members: Map<Seq<char>, Json>,
)
    requires
        w.config_file == Some(bytes),
        json::json_text(bytes) == Some(Json::Object(members)),
    ensures
        admission_verdict(p, w) matches Ok(job) ==> {
            let on = members.dom().contains("moveSuccess"@) && members["moveSuccess"@]
                == Json::Bool(true);
            let given = members.dom().contains("moveSuccessPath"@);
            &&& !on || !given ==> job.success_destination is None
            &&& on && given ==> match members["moveSuccessPath"@] {
                Json::Text(s) => if forall|i: int|
                    0 <= i < s.len() ==> #[trigger] text::white_space(s[i]) {
                    job.success_destination is None
                } else {
                    job.success_destination == Some(encode_utf8(s))
                },
                _ => job.success_destination is None,
            }
        },
{
    move_config::settings_are_the_members(p.config(), bytes, members);
}

/// An event that answers what the request waits for brings it nearer to its end; any other event changes
/// nothing.
pub proof fn admission_goes_on(m: AdmissionModel, e: EventModel)
    requires
        consistent(m),
    ensures
        effects::answers(admission_action(m), e) ==> admission_rank(
            admission_next(m, e),
        ) < admission_rank(m),
        !effects::answers(admission_action(m), e) ==> admission_next(m, e) == m,
{
}

/// The model of an admission says what the admission says: which request it is about, and what
/// it ended with.
pub proof fn admission_model(a: Admission)
    ensures
        match a {
            Admission::CheckInput(p) => a@ == AdmissionModel::CheckInput(p@) && p@.id == p.id
                && p@.req == p.req@ && p@.config_dir == p.config_dir.bytes@ && p@.tagged_dir
                == p.tagged_dir.bytes@,
            Admission::CheckConfig(p) => a@ == AdmissionModel::CheckConfig(p@),
            Admission::ReadConfig(p) => a@ == AdmissionModel::ReadConfig(p@),
            Admission::Normalize(p, settings, n) => a@ == AdmissionModel::Normalize(
                p@,
                settings@,
                n@,
            ),
            Admission::Finished(Ok(job)) => a@ == AdmissionModel::Finished(
                Ok::<JobModel, RejectionModel>(job@),
            ),
            Admission::Finished(Err(rejection)) => a@ == AdmissionModel::Finished(
                Err::<JobModel, RejectionModel>(rejection@),
            ),
        },
{
}

} // verus!
