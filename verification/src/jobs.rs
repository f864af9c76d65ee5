//! Requests, jobs and the answers that a client gets.
use crate::path;
use crate::path::UnixPath;
use vstd::prelude::*;
use vstd::string::*;
use vstd::utf8::*;

verus! {

/// What a client asks for.
#[derive(Debug, PartialEq, Eq)]
pub struct JobRequest {
    /// File, folder or playlist to tag.
    pub file: UnixPath,
    /// The autotagger configuration to use in place of the default one.
    pub config: Option<UnixPath>,
    /// Further arguments for the tagger.
    pub extra_args: Option<Vec<String>>,
}

/// A job in the queue.
#[derive(Debug, PartialEq, Eq)]
pub struct Job {
    pub id: u128,
    pub req: JobRequest,
    /// The path that the client asked for.
    pub original_path: UnixPath,
    /// The playlist that was written for this job alone.
    pub temp_playlist: Option<UnixPath>,
    /// The directory that a tagged single file is moved to.
    pub tagged_dir: UnixPath,
    /// The destination that the tagger itself moves tagged files to.
    pub success_destination: Option<UnixPath>,
}

/// The answer to an accepted request.
#[derive(Debug, PartialEq, Eq)]
pub struct JobAccepted {
    pub id: u128,
    pub queue_position: usize,
}

/// The answer to a refused request: an HTTP status and the members of a JSON object.
#[derive(Debug, PartialEq, Eq)]
pub struct Rejection {
    pub status: u16,
    pub body: Vec<(String, String)>,
}

/// The HTTP status of a request that cannot be carried out.
pub const BAD_REQUEST: u16 = 400;

/// The HTTP status of a request that was taken into the queue.
pub const ACCEPTED: u16 = 202;

/// The HTTP status of a request that failed for a reason on the worker's side.
pub const INTERNAL_SERVER_ERROR: u16 = 500;

/// The model of [`JobRequest`].
#[verifier::ext_equal]
pub struct RequestModel {
    pub file: Seq<u8>,
    pub config: Option<Seq<u8>>,
    pub extra_args: Option<Seq<Seq<char>>>,
}

/// The model of [`Job`].
#[verifier::ext_equal]
pub struct JobModel {
    pub id: u128,
    pub req: RequestModel,
    pub original_path: Seq<u8>,
    pub temp_playlist: Option<Seq<u8>>,
    pub tagged_dir: Seq<u8>,
    pub success_destination: Option<Seq<u8>>,
}

/// The model of [`Rejection`].
#[verifier::ext_equal]
pub struct RejectionModel {
    pub status: u16,
    pub body: Seq<(Seq<char>, Seq<char>)>,
}

/// The bytes of a path that may be missing.
pub open spec fn path_option(path: Option<UnixPath>) -> Option<Seq<u8>> {
    match path {
        Some(p) => Some(p@),
        None => None,
    }
}

/// The texts in a list.
pub open spec fn texts(list: Seq<String>) -> Seq<Seq<char>> {
    list.map_values(|s: String| s@)
}

/// The texts in a list that may be missing.
pub open spec fn texts_option(list: Option<Vec<String>>) -> Option<Seq<Seq<char>>> {
    match list {
        Some(v) => Some(texts(v@)),
        None => None,
    }
}

impl View for JobRequest {
    type V = RequestModel;

    open spec fn view(&self) -> RequestModel {
        RequestModel {
            file: self.file@,
            config: path_option(self.config),
            extra_args: texts_option(self.extra_args),
        }
    }
}

impl View for Job {
    type V = JobModel;

    open spec fn view(&self) -> JobModel {
        JobModel {
            id: self.id,
            req: self.req@,
            original_path: self.original_path@,
            temp_playlist: path_option(self.temp_playlist),
            tagged_dir: self.tagged_dir@,
            success_destination: path_option(self.success_destination),
        }
    }
}

impl View for Rejection {
    type V = RejectionModel;

    open spec fn view(&self) -> RejectionModel {
        RejectionModel {
            status: self.status,
            body: self.body@.map_values(|m: (String, String)| (m.0@, m.1@)),
        }
    }
}

fn copy_path(path: &Option<UnixPath>) -> (r: Option<UnixPath>)
    ensures
        path_option(r) == path_option(*path),
{
    match path {
        Some(p) => Some(p.clone()),
        None => None,
    }
}

fn copy_texts(list: &Vec<String>) -> (r: Vec<String>)
    ensures
        texts(r@) == texts(list@),
{
    let mut copy: Vec<String> = Vec::new();
    let mut i: usize = 0;
    while i < list.len()
        invariant
            i <= list@.len(),
            copy@.len() == i,
            forall|k: int| 0 <= k < i ==> #[trigger] copy@[k]@ == list@[k]@,
        decreases list@.len() - i,
    {
        copy.push(list[i].clone());
        i = i + 1;
    }
    assert(texts(copy@) =~= texts(list@));
    copy
}

impl Clone for JobRequest {
    fn clone(&self) -> (r: Self)
        ensures
            r@ == self@,
    {
        let extra_args: Option<Vec<String>> = match &self.extra_args {
            Some(args) => Some(copy_texts(args)),
            None => None,
        };
        JobRequest { file: self.file.clone(), config: copy_path(&self.config), extra_args }
    }
}

impl Clone for Job {
    fn clone(&self) -> (r: Self)
        ensures
            r@ == self@,
    {
        Job {
            id: self.id,
            req: self.req.clone(),
            original_path: self.original_path.clone(),
            temp_playlist: copy_path(&self.temp_playlist),
            tagged_dir: self.tagged_dir.clone(),
            success_destination: copy_path(&self.success_destination),
        }
    }
}

/// The configuration that a request names, or else the default one in the configuration
/// directory.
pub open spec fn config_for(config: Option<Seq<u8>>, config_dir: Seq<u8>) -> Seq<u8> {
    match config {
        Some(p) => p,
        None => default_config(config_dir),
    }
}

/// The default configuration in a configuration directory.
pub open spec fn default_config(config_dir: Seq<u8>) -> Seq<u8> {
    path::joined(config_dir, encode_utf8("autotagger.json"@))
}

/// The path of the default configuration.
pub fn default_config_path(config_dir: &UnixPath) -> (r: UnixPath)
    ensures
        r@ == default_config(config_dir@),
{
    config_dir.join_text("autotagger.json")
}

/// The path of the configuration that a request is to use.
pub fn resolve_config(config: &Option<UnixPath>, config_dir: &UnixPath) -> (r: UnixPath)
    ensures
        r@ == config_for(path_option(*config), config_dir@),
{
    match config {
        Some(p) => p.clone(),
        None => default_config_path(config_dir),
    }
}

/// The rejection with one member beside the error text.
pub open spec fn refusal(
    status: u16,
    error: Seq<char>,
    key: Seq<char>,
    value: Seq<char>,
) -> RejectionModel {
    RejectionModel { status, body: seq![("error"@, error), (key, value)] }
}

/// Makes a rejection with one member beside the error text.
pub(crate) fn refuse(status: u16, error: String, key: &str, value: String) -> (r: Rejection)
    ensures
        r@ == refusal(status, error@, key@, value@),
{
    let body: Vec<(String, String)> = vec![
        ("error".to_string(), error),
        (key.to_string(), value),
    ];
    let r: Rejection = Rejection { status, body };
    assert(r@.body =~= seq![("error"@, error@), (key@, value@)]);
    r
}

/// The HTTP statuses of the answers.
pub proof fn statuses()
    ensures
        ACCEPTED == 202,
        BAD_REQUEST == 400,
        INTERNAL_SERVER_ERROR == 500,
{
}

/// A request that names a configuration uses that one, and any other the file `autotagger.json`
/// in the configuration directory.
pub proof fn configuration_of_a_request(config: Option<Seq<u8>>, config_dir: Seq<u8>)
    ensures
        config matches Some(p) ==> config_for(config, config_dir) == p,
        config is None ==> config_for(config, config_dir) == path::joined(
            config_dir,
            encode_utf8("autotagger.json"@),
        ),
        default_config(config_dir) == path::joined(config_dir, encode_utf8("autotagger.json"@)),
{
}

/// The model of a request and of a job leaves nothing out.
pub proof fn job_model(job: Job)
    ensures
        job@.id == job.id,
        job@.original_path == job.original_path.bytes@,
        job@.tagged_dir == job.tagged_dir.bytes@,
        job@.req == job.req@,
        job.req@.file == job.req.file.bytes@,
        match job.temp_playlist {
            Some(p) => job@.temp_playlist == Some(p.bytes@),
            None => job@.temp_playlist is None,
        },
        match job.success_destination {
            Some(p) => job@.success_destination == Some(p.bytes@),
            None => job@.success_destination is None,
        },
        match job.req.config {
            Some(p) => job.req@.config == Some(p.bytes@),
            None => job.req@.config is None,
        },
        match job.req.extra_args {
            Some(args) => job.req@.extra_args matches Some(list) && list.len() == args@.len() && (
            forall|i: int| 0 <= i < list.len() ==> #[trigger] list[i] == args@[i]@),
            None => job.req@.extra_args is None,
        },
{
}

/// The model of a rejection leaves nothing out.
pub proof fn rejection_model(rejection: Rejection)
    ensures
        rejection@.status == rejection.status,
        rejection@.body.len() == rejection.body@.len(),
        forall|i: int|
            0 <= i < rejection.body@.len() ==> #[trigger] rejection@.body[i] == (
                rejection.body@[i].0@,
                rejection.body@[i].1@,
            ),
{
}

} // verus!
