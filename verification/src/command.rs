//! Calling the tagger: its arguments, and what its end means.
use crate::effects;
use crate::effects::{Action, ActionModel, CliOutput, Event, EventModel, OutputModel};
use crate::jobs;
use crate::jobs::{Job, JobModel, RequestModel};
use crate::path;
use crate::path::UnixPath;
use crate::text;
use vstd::prelude::*;
use vstd::string::*;
use vstd::utf8::*;

verus! {

/// How the worker was set up.
#[derive(Debug, PartialEq, Eq)]
pub struct Cli {
    /// The address that the HTTP interface is bound to.
    pub bind: String,
    /// The tagger's program.
    pub cli_bin: String,
    /// The directory that holds configurations.
    pub config_dir: UnixPath,
    /// The directory that tagged single files are moved to.
    pub tagged_dir: UnixPath,
    /// A path to tag when the worker starts.
    pub startup_path: Option<UnixPath>,
}

/// Why the tagger did not tag.
#[derive(Debug, PartialEq, Eq)]
pub enum RunError {
    /// The program could not be run.
    Launch,
    /// The program ended, but not successfully.
    Exit(CliOutput),
}

/// The model of [`RunError`].
#[verifier::ext_equal]
pub enum RunErrorModel {
    Launch,
    Exit(OutputModel),
}

impl View for RunError {
    type V = RunErrorModel;

    open spec fn view(&self) -> RunErrorModel {
        match *self {
            RunError::Launch => RunErrorModel::Launch,
            RunError::Exit(output) => RunErrorModel::Exit(output@),
        }
    }
}

/// The further arguments of a request, none where it gives none.
pub open spec fn further_args(req: RequestModel) -> Seq<Seq<char>> {
    match req.extra_args {
        Some(args) => args,
        None => seq![],
    }
}

/// The arguments with which the tagger is called: the path, the configuration and the further
/// arguments as they are.
pub open spec fn tagger_args(req: RequestModel, config: Seq<u8>) -> Seq<Seq<u8>> {
    seq![
        encode_utf8("autotagger"@),
        encode_utf8("--path"@),
        req.file,
        encode_utf8("--config"@),
        config,
    ] + further_args(req).map_values(|s: Seq<char>| encode_utf8(s))
}

/// The command line as text.
pub open spec fn command_preview(cli_bin: Seq<char>, req: RequestModel, config: Seq<u8>) -> Seq<
    Seq<char>,
> {
    seq![
        cli_bin,
        "autotagger"@,
        "--path"@,
        text::shown(req.file),
        "--config"@,
        text::shown(config),
    ] + further_args(req)
}

/// The call of the tagger for a job.
pub open spec fn tagger_call(cli_bin: Seq<char>, config_dir: Seq<u8>, job: JobModel) -> ActionModel {
    ActionModel::Run(
        cli_bin,
        tagger_args(job.req, jobs::config_for(job.req.config, config_dir)),
    )
}

/// What the end of the tagger means, where the event tells of it.
pub open spec fn run_verdict(e: EventModel) -> Option<Result<(), RunErrorModel>> {
    match e {
        EventModel::Failed => Some(Err(RunErrorModel::Launch)),
        EventModel::Exited(output) => if output.success {
            Some(Ok(()))
        } else {
            Some(Err(RunErrorModel::Exit(output)))
        },
        _ => None,
    }
}

/// The text of an error.
pub open spec fn run_error_text(e: RunErrorModel) -> Seq<char> {
    match e {
        RunErrorModel::Launch => "failed to launch onetagger-cli"@,
        RunErrorModel::Exit(output) => "cli exited with status "@ + output.status + "\nstdout:\n"@
            + text::shown(output.stdout) + "\nstderr:\n"@ + text::shown(output.stderr),
    }
}

/// The command line of a job, as text.
pub fn build_command_preview(cli: &Cli, job: &Job, config_path: &UnixPath) -> (r: Vec<String>)
    ensures
        jobs::texts(r@) == command_preview(cli.cli_bin@, job.req@, config_path@),
{
    let mut command: Vec<String> = vec![
        cli.cli_bin.clone(),
        "autotagger".to_string(),
        "--path".to_string(),
        job.req.file.display(),
        "--config".to_string(),
        config_path.display(),
    ];
    let ghost front = jobs::texts(command@);
    assert(front + seq![] =~= front);
    match &job.req.extra_args {
        Some(extra_args) => {
            let mut i: usize = 0;
            assert(extra_args@.take(0) =~= seq![]);
            assert(jobs::texts(command@) =~= front + jobs::texts(extra_args@.take(0)));
            while i < extra_args.len()
                invariant
                    i <= extra_args@.len(),
                    jobs::texts(command@) == front + jobs::texts(extra_args@.take(i as int)),
                decreases extra_args@.len() - i,
            {
                let ghost before = command@;
                let ghost done = extra_args@.take(i as int);
                let ghost arg = extra_args@[i as int];
                command.push(extra_args[i].clone());
                i = i + 1;
                proof {
                    assert(extra_args@.take(i as int) =~= done.push(arg));
                    assert(jobs::texts(done.push(arg)) =~= jobs::texts(done).push(arg@));
                    assert(jobs::texts(command@) =~= jobs::texts(before).push(arg@));
                    assert((front + jobs::texts(done)).push(arg@) =~= front + jobs::texts(
                        done,
                    ).push(arg@));
                }
            }
            assert(extra_args@.take(i as int) =~= extra_args@);
        },
        None => {},
    }
    assert(jobs::texts(command@) =~= command_preview(cli.cli_bin@, job.req@, config_path@));
    command
}

fn command_args(req: &jobs::JobRequest, config_path: &UnixPath) -> (r: Vec<Vec<u8>>)
    ensures
        effects::byte_strings(r@) == tagger_args(req@, config_path@),
{
    let mut args: Vec<Vec<u8>> = vec![
        text::bytes_of("autotagger"),
        text::bytes_of("--path"),
        text::copy_bytes(&req.file.bytes),
        text::bytes_of("--config"),
        text::copy_bytes(&config_path.bytes),
    ];
    let ghost front = effects::byte_strings(args@);
    let ghost encode = |s: Seq<char>| encode_utf8(s);
    match &req.extra_args {
        Some(extra_args) => {
            let mut i: usize = 0;
            assert(effects::byte_strings(args@) =~= front + jobs::texts(
                extra_args@.take(0),
            ).map_values(encode));
            while i < extra_args.len()
                invariant
                    i <= extra_args@.len(),
                    encode == (|s: Seq<char>| encode_utf8(s)),
                    effects::byte_strings(args@) == front + jobs::texts(
                        extra_args@.take(i as int),
                    ).map_values(encode),
                decreases extra_args@.len() - i,
            {
                let ghost before = args@;
                let ghost done = extra_args@.take(i as int);
                let ghost arg = extra_args@[i as int];
                args.push(text::bytes_of(extra_args[i].as_str()));
                i = i + 1;
                proof {
                    let encoded = jobs::texts(done).map_values(encode);
                    assert(extra_args@.take(i as int) =~= done.push(arg));
                    assert(jobs::texts(done.push(arg)).map_values(encode) =~= encoded.push(
                        encode_utf8(arg@),
                    ));
                    assert(effects::byte_strings(args@) =~= effects::byte_strings(before).push(
                        encode_utf8(arg@),
                    ));
                    assert((front + encoded).push(encode_utf8(arg@)) =~= front + encoded.push(
                        encode_utf8(arg@),
                    ));
                }
            }
            assert(extra_args@.take(i as int) =~= extra_args@);
        },
        None => {},
    }
    assert(effects::byte_strings(args@) =~= tagger_args(req@, config_path@));
    args
}

/// The call of the tagger for a job.
pub fn run_job(cli_bin: &String, config_dir: &UnixPath, job: &Job) -> (r: Action)
    ensures
        r@ == tagger_call(cli_bin@, config_dir@, job@),
{
    let config_path: UnixPath = jobs::resolve_config(&job.req.config, config_dir);
    Action::Run(cli_bin.clone(), command_args(&job.req, &config_path))
}

/// What the end of the tagger means, where the event tells of it.
pub fn judge_run(event: Event) -> (r: Option<Result<(), RunError>>)
    ensures
        match r {
            Some(Ok(_)) => run_verdict(event@) == Some(Ok::<(), RunErrorModel>(())),
            Some(Err(e)) => run_verdict(event@) == Some(Err::<(), RunErrorModel>(e@)),
            None => run_verdict(event@) is None,
        },
{
    match event {
        Event::Failed => Some(Err(RunError::Launch)),
        Event::Exited(output) => if output.success {
            Some(Ok(()))
        } else {
            Some(Err(RunError::Exit(output)))
        },
        _ => None,
    }
}

impl RunError {
    /// The text of the error.
    pub fn message(&self) -> (r: String)
        ensures
            r@ == run_error_text(self@),
    {
        match self {
            RunError::Launch => "failed to launch onetagger-cli".to_string(),
            RunError::Exit(output) => {
                let mut s: String = "cli exited with status ".to_string();
                s.append(output.status.as_str());
                s.append("\nstdout:\n");
                s.append(text::show(output.stdout.as_slice()).as_str());
                s.append("\nstderr:\n");
                s.append(text::show(output.stderr.as_slice()).as_str());
                s
            },
        }
    }
}

/// The command line that is shown for a job is the one that is run: the program, and each
/// argument as it is shown.
pub proof fn preview_shows_the_call(cli_bin: Seq<char>, req: RequestModel, config: Seq<u8>)
    ensures
        command_preview(cli_bin, req, config) == seq![cli_bin] + tagger_args(
            req,
            config,
        ).map_values(|arg: Seq<u8>| text::shown(arg)),
{
    let extra = further_args(req);
    let args = tagger_args(req, config);
    let shown = args.map_values(|arg: Seq<u8>| text::shown(arg));
    text::shown_text("autotagger"@);
    text::shown_text("--path"@);
    text::shown_text("--config"@);
    assert forall|i: int| 0 <= i < extra.len() implies #[trigger] shown[5 + i] == extra[i] by {
        text::shown_text(extra[i]);
    }
    let preview = command_preview(cli_bin, req, config);
    assert forall|i: int| 0 <= i < preview.len() implies #[trigger] preview[i] == (seq![cli_bin]
        + shown)[i] by {
        if i >= 6 {
            assert(preview[i] == extra[i - 6]);
            assert(shown[5 + (i - 6)] == extra[i - 6]);
        } else if i > 0 {
            assert(args[i - 1] == seq![
                encode_utf8("autotagger"@),
                encode_utf8("--path"@),
                req.file,
                encode_utf8("--config"@),
                config,
            ][i - 1]);
        }
    }
    assert(preview =~= seq![cli_bin] + shown);
}

/// The tagger is called with `autotagger`, `--path` and the path, `--config` and the
/// configuration, and then with the further arguments of the request, one for one; a request that
/// gives none adds none.
pub proof fn tagger_is_called_so(cli_bin: Seq<char>, config_dir: Seq<u8>, job: JobModel)
    ensures
        tagger_call(cli_bin, config_dir, job) matches ActionModel::Run(program, args) && {
            &&& program == cli_bin
            &&& args.len() == 5 + match job.req.extra_args {
                Some(extra) => extra.len() as int,
                None => 0int,
            }
            &&& args[0] == encode_utf8("autotagger"@)
            &&& args[1] == encode_utf8("--path"@)
            &&& args[2] == job.req.file
            &&& args[3] == encode_utf8("--config"@)
            &&& args[4] == match job.req.config {
                Some(config) => config,
                None => path::joined(config_dir, encode_utf8("autotagger.json"@)),
            }
            &&& job.req.extra_args matches Some(extra) ==> forall|i: int|
                0 <= i < extra.len() ==> #[trigger] args[5 + i] == encode_utf8(extra[i])
        },
{
}

/// The command line that is shown: the program, and then the arguments as text, one for one.
pub proof fn preview_is_made_so(cli_bin: Seq<char>, req: RequestModel, config: Seq<u8>)
    ensures
        ({
            let shown = command_preview(cli_bin, req, config);
            &&& shown.len() == 6 + match req.extra_args {
                Some(extra) => extra.len() as int,
                None => 0int,
            }
            &&& shown[0] == cli_bin
            &&& shown[1] == "autotagger"@
            &&& shown[2] == "--path"@
            &&& shown[3] == text::shown(req.file)
            &&& shown[4] == "--config"@
            &&& shown[5] == text::shown(config)
            &&& req.extra_args matches Some(extra) ==> forall|i: int|
                0 <= i < extra.len() ==> #[trigger] shown[6 + i] == extra[i]
        }),
{
}

/// The tagger has tagged exactly where it ran and ended successfully. Where it could not be run,
/// or ended otherwise, that is the error, with all that it left behind; no other event tells of
/// its end.
pub proof fn end_of_the_tagger(output: OutputModel, e: EventModel)
    ensures
        run_verdict(EventModel::Exited(output)) == if output.success {
            Some(Ok::<(), RunErrorModel>(()))
        } else {
            Some(Err::<(), RunErrorModel>(RunErrorModel::Exit(output)))
        },
        run_verdict(EventModel::Failed) == Some(Err::<(), RunErrorModel>(RunErrorModel::Launch)),
        !(e is Exited) && !(e is Failed) ==> run_verdict(e) is None,
{
}

/// What the errors say.
pub proof fn run_error_texts(output: OutputModel)
    ensures
        run_error_text(RunErrorModel::Launch) == "failed to launch onetagger-cli"@,
        run_error_text(RunErrorModel::Exit(output)) == "cli exited with status "@ + output.status
            + "\nstdout:\n"@ + text::shown(output.stdout) + "\nstderr:\n"@ + text::shown(
            output.stderr,
        ),
{
}

} // verus!
