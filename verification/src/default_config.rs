//! Making sure that there is a default configuration: where none exists, the tagger is asked
//! for one.
use crate::command::Cli;
use crate::effects;
use crate::effects::{Action, ActionModel, CliOutput, Event, EventModel, OutputModel};
use crate::jobs;
use crate::path;
use crate::path::UnixPath;
use crate::text;
use vstd::prelude::*;
use vstd::string::*;
use vstd::utf8::*;

verus! {

/// Why there is no default configuration.
#[derive(Debug, PartialEq, Eq)]
pub enum DefaultConfigError {
    /// The tagger could not be run.
    Launch,
    /// The tagger ended, but not successfully.
    Exit(CliOutput),
    /// The configuration could not be written.
    Write(UnixPath),
}

/// How far the check has come.
#[derive(Debug, PartialEq, Eq)]
pub enum DefaultConfigPhase {
    CheckExists,
    Generate,
    /// The tagger has given these bytes.
    Write(Vec<u8>),
    Finished(Result<(), DefaultConfigError>),
}

/// The check that there is a default configuration.
#[derive(Debug, PartialEq, Eq)]
pub struct DefaultConfigCheck {
    pub cli_bin: String,
    pub config_dir: UnixPath,
    pub phase: DefaultConfigPhase,
}

/// The model of [`DefaultConfigError`].
#[verifier::ext_equal]
pub enum DefaultConfigErrorModel {
    Launch,
    Exit(OutputModel),
    Write(Seq<u8>),
}

/// The model of [`DefaultConfigPhase`].
#[verifier::ext_equal]
pub enum DefaultConfigPhaseModel {
    CheckExists,
    Generate,
    Write(Seq<u8>),
    Finished(Result<(), DefaultConfigErrorModel>),
}

/// The model of [`DefaultConfigCheck`].
#[verifier::ext_equal]
pub struct DefaultConfigModel {
    pub cli_bin: Seq<char>,
    pub config_dir: Seq<u8>,
    pub phase: DefaultConfigPhaseModel,
}

impl View for DefaultConfigError {
    type V = DefaultConfigErrorModel;

    open spec fn view(&self) -> DefaultConfigErrorModel {
        match *self {
            DefaultConfigError::Launch => DefaultConfigErrorModel::Launch,
            DefaultConfigError::Exit(output) => DefaultConfigErrorModel::Exit(output@),
            DefaultConfigError::Write(p) => DefaultConfigErrorModel::Write(p@),
        }
    }
}

impl View for DefaultConfigPhase {
    type V = DefaultConfigPhaseModel;

    open spec fn view(&self) -> DefaultConfigPhaseModel {
        match *self {
            DefaultConfigPhase::CheckExists => DefaultConfigPhaseModel::CheckExists,
            DefaultConfigPhase::Generate => DefaultConfigPhaseModel::Generate,
            DefaultConfigPhase::Write(data) => DefaultConfigPhaseModel::Write(data@),
            DefaultConfigPhase::Finished(result) => DefaultConfigPhaseModel::Finished(
                match result {
                    Ok(_) => Ok(()),
                    Err(e) => Err(e@),
                },
            ),
        }
    }
}

impl View for DefaultConfigCheck {
    type V = DefaultConfigModel;

    open spec fn view(&self) -> DefaultConfigModel {
        DefaultConfigModel {
            cli_bin: self.cli_bin@,
            config_dir: self.config_dir@,
            phase: self.phase@,
        }
    }
}

/// The text of an error.
pub open spec fn default_config_error_text(e: DefaultConfigErrorModel) -> Seq<char> {
    match e {
        DefaultConfigErrorModel::Launch => "failed to run onetagger-cli --autotagger-config"@,
        DefaultConfigErrorModel::Exit(output) => "failed to generate default config, status="@
            + output.status + " stderr="@ + text::shown(output.stderr) + " stdout="@ + text::shown(
            output.stdout,
        ),
        DefaultConfigErrorModel::Write(p) => "failed writing default config to "@ + text::shown(p),
    }
}

/// The check at its beginning.
pub open spec fn default_config_check(cli_bin: Seq<char>, config_dir: Seq<u8>) -> DefaultConfigModel {
    DefaultConfigModel { cli_bin, config_dir, phase: DefaultConfigPhaseModel::CheckExists }
}

/// The action that the check waits for.
pub open spec fn default_config_action(m: DefaultConfigModel) -> ActionModel {
    match m.phase {
        DefaultConfigPhaseModel::CheckExists => ActionModel::Exists(
            jobs::default_config(m.config_dir),
        ),
        DefaultConfigPhaseModel::Generate => ActionModel::Run(
            m.cli_bin,
            seq![encode_utf8("--autotagger-config"@)],
        ),
        DefaultConfigPhaseModel::Write(data) => ActionModel::WriteFile(
            jobs::default_config(m.config_dir),
            data,
        ),
        DefaultConfigPhaseModel::Finished(_) => ActionModel::Nothing,
    }
}

/// The phase that follows. An event that does not answer the pending action changes
/// nothing.
pub open spec fn default_config_next(m: DefaultConfigModel, e: EventModel) -> DefaultConfigPhaseModel {
    match (m.phase, e) {
        (DefaultConfigPhaseModel::CheckExists, EventModel::Flag(true)) =>
        DefaultConfigPhaseModel::Finished(Ok(())),
        (DefaultConfigPhaseModel::CheckExists, EventModel::Flag(false)) =>
        DefaultConfigPhaseModel::Generate,
        (DefaultConfigPhaseModel::Generate, EventModel::Failed) =>
        DefaultConfigPhaseModel::Finished(Err(DefaultConfigErrorModel::Launch)),
        (DefaultConfigPhaseModel::Generate, EventModel::Exited(output)) => if output.success {
            DefaultConfigPhaseModel::Write(output.stdout)
        } else {
            DefaultConfigPhaseModel::Finished(Err(DefaultConfigErrorModel::Exit(output)))
        },
        (DefaultConfigPhaseModel::Write(_), EventModel::Done) => DefaultConfigPhaseModel::Finished(
            Ok(()),
        ),
        (DefaultConfigPhaseModel::Write(_), EventModel::Failed) =>
        DefaultConfigPhaseModel::Finished(
            Err(DefaultConfigErrorModel::Write(jobs::default_config(m.config_dir))),
        ),
        _ => m.phase,
    }
}

impl DefaultConfigError {
    /// The text of the error.
    pub fn message(&self) -> (r: String)
        ensures
            r@ == default_config_error_text(self@),
    {
        match self {
            DefaultConfigError::Launch => "failed to run onetagger-cli --autotagger-config".to_string(),
            DefaultConfigError::Exit(output) => {
                let mut s: String = "failed to generate default config, status=".to_string();
                s.append(output.status.as_str());
                s.append(" stderr=");
                s.append(text::show(output.stderr.as_slice()).as_str());
                s.append(" stdout=");
                s.append(text::show(output.stdout.as_slice()).as_str());
                s
            },
            DefaultConfigError::Write(p) => "failed writing default config to ".to_string().concat(
                p.display().as_str(),
            ),
        }
    }
}

/// Begins the check that there is a default configuration.
pub fn ensure_default_config(cli: &Cli) -> (r: DefaultConfigCheck)
    ensures
        r@ == default_config_check(cli.cli_bin@, cli.config_dir@),
{
    DefaultConfigCheck {
        cli_bin: cli.cli_bin.clone(),
        config_dir: cli.config_dir.clone(),
        phase: DefaultConfigPhase::CheckExists,
    }
}

impl DefaultConfigCheck {
    /// The action that the check waits for.
    pub fn action(&self) -> (r: Action)
        ensures
            r@ == default_config_action(self@),
    {
        match &self.phase {
            DefaultConfigPhase::CheckExists => Action::Exists(
                jobs::default_config_path(&self.config_dir),
            ),
            DefaultConfigPhase::Generate => {
                let args: Vec<Vec<u8>> = vec![text::bytes_of("--autotagger-config")];
                assert(effects::byte_strings(args@) =~= seq![encode_utf8("--autotagger-config"@)]);
                Action::Run(self.cli_bin.clone(), args)
            },
            DefaultConfigPhase::Write(data) => Action::WriteFile(
                jobs::default_config_path(&self.config_dir),
                text::copy_bytes(data),
            ),
            DefaultConfigPhase::Finished(_) => Action::Nothing,
        }
    }

    /// Goes on with what came of the pending action.
    pub fn step(self, event: Event) -> (r: DefaultConfigCheck)
        ensures
            r@ == (DefaultConfigModel { phase: default_config_next(self@, event@), ..self@ }),
    {
        let phase: DefaultConfigPhase = match (self.phase, event) {
            (DefaultConfigPhase::CheckExists, Event::Flag(true)) => DefaultConfigPhase::Finished(
                Ok(()),
            ),
            (DefaultConfigPhase::CheckExists, Event::Flag(false)) => DefaultConfigPhase::Generate,
            (DefaultConfigPhase::Generate, Event::Failed) => DefaultConfigPhase::Finished(
                Err(DefaultConfigError::Launch),
            ),
            (DefaultConfigPhase::Generate, Event::Exited(output)) => if output.success {
                DefaultConfigPhase::Write(output.stdout)
            } else {
                DefaultConfigPhase::Finished(Err(DefaultConfigError::Exit(output)))
            },
            (DefaultConfigPhase::Write(_), Event::Done) => DefaultConfigPhase::Finished(Ok(())),
            (DefaultConfigPhase::Write(_), Event::Failed) => DefaultConfigPhase::Finished(
                Err(DefaultConfigError::Write(jobs::default_config_path(&self.config_dir))),
            ),
            (phase, _) => phase,
        };
        DefaultConfigCheck { cli_bin: self.cli_bin, config_dir: self.config_dir, phase }
    }
}

/// What the runtime finds and achieves during the check.
pub struct DefaultConfigWorld {
    pub exists: bool,
    /// How the tagger ended, unless it could not be run.
    pub output: Option<OutputModel>,
    pub written: bool,
}

/// What the runtime answers to the pending action.
pub open spec fn default_config_answer(m: DefaultConfigModel, w: DefaultConfigWorld) -> EventModel {
    match m.phase {
        DefaultConfigPhaseModel::CheckExists => EventModel::Flag(w.exists),
        DefaultConfigPhaseModel::Generate => match w.output {
            Some(output) => EventModel::Exited(output),
            None => EventModel::Failed,
        },
        DefaultConfigPhaseModel::Write(_) => effects::done(w.written),
        DefaultConfigPhaseModel::Finished(_) => EventModel::Done,
    }
}

/// An upper bound on the actions that are left.
pub open spec fn default_config_rank(m: DefaultConfigModel) -> nat {
    match m.phase {
        DefaultConfigPhaseModel::CheckExists => 3,
        DefaultConfigPhaseModel::Generate => 2,
        DefaultConfigPhaseModel::Write(_) => 1,
        DefaultConfigPhaseModel::Finished(_) => 0,
    }
}

/// The result of a check that is carried to its end.
pub open spec fn default_config_run(m: DefaultConfigModel, w: DefaultConfigWorld) -> Result<
    (),
    DefaultConfigErrorModel,
>
    decreases default_config_rank(m),
{
    match m.phase {
        DefaultConfigPhaseModel::Finished(result) => result,
        _ => default_config_run(
            DefaultConfigModel { phase: default_config_next(m, default_config_answer(m, w)), ..m },
            w,
        ),
    }
}

/// What becomes of the check.
pub open spec fn default_config_verdict(config_dir: Seq<u8>, w: DefaultConfigWorld) -> Result<
    (),
    DefaultConfigErrorModel,
> {
    if w.exists {
        Ok(())
    } else {
        match w.output {
            None => Err(DefaultConfigErrorModel::Launch),
            Some(output) => if !output.success {
                Err(DefaultConfigErrorModel::Exit(output))
            } else if !w.written {
                Err(DefaultConfigErrorModel::Write(jobs::default_config(config_dir)))
            } else {
                Ok(())
            },
        }
    }
}

/// The check succeeds exactly where the configuration exists, or else the tagger has given one
/// and it was written.
pub proof fn default_config_result(
    cli_bin: Seq<char>,
    config_dir: Seq<u8>,
    w: DefaultConfigWorld,
)
    ensures
        default_config_run(default_config_check(cli_bin, config_dir), w) == default_config_verdict(
            config_dir,
            w,
        ),
{
    reveal_with_fuel(default_config_run, 4);
}

/// A configuration that exists is never written over, and what is written is what the tagger
/// gave, to the place where a request without a configuration looks for one.
pub proof fn existing_config_is_kept(m: DefaultConfigModel, e: EventModel)
    ensures
        m.phase is CheckExists && e == EventModel::Flag(true) ==> default_config_next(m, e)
            == DefaultConfigPhaseModel::Finished(Ok(())),
        !(m.phase is Write) ==> (default_config_next(m, e) matches DefaultConfigPhaseModel::Write(
            data,
        ) ==> m.phase is Generate && (e matches EventModel::Exited(output) && output.success
            && output.stdout == data)),
        default_config_action(m) matches ActionModel::WriteFile(p, _) ==> p == jobs::config_for(
            None,
            m.config_dir,
        ),
{
}

/// The check after an event.
pub open spec fn default_config_step(m: DefaultConfigModel, e: EventModel) -> DefaultConfigModel {
    DefaultConfigModel { phase: default_config_next(m, e), ..m }
}

/// The course of the check, question by question: a file `autotagger.json` in the configuration
/// directory is left as it is. Where there is none, the tagger is run with
/// `--autotagger-config` alone, and what it writes to its standard output, and nothing else,
/// becomes that file; but only where it ended successfully.
pub proof fn default_config_course(cli_bin: Seq<char>, config_dir: Seq<u8>, output: OutputModel)
    ensures
        ({
            let config = path::joined(config_dir, encode_utf8("autotagger.json"@));
            let there = DefaultConfigPhaseModel::Finished(Ok::<(), DefaultConfigErrorModel>(()));
            let asked = default_config_check(cli_bin, config_dir);
            let missing = default_config_step(asked, EventModel::Flag(false));
            let ended = default_config_step(missing, EventModel::Exited(output));
            &&& default_config_action(asked) == ActionModel::Exists(config)
            &&& default_config_next(asked, EventModel::Flag(true)) == there
            &&& default_config_action(missing) == ActionModel::Run(
                cli_bin,
                seq![encode_utf8("--autotagger-config"@)],
            )
            &&& default_config_next(missing, EventModel::Failed)
                == DefaultConfigPhaseModel::Finished(
                Err::<(), DefaultConfigErrorModel>(DefaultConfigErrorModel::Launch),
            )
            &&& if output.success {
                &&& default_config_action(ended) == ActionModel::WriteFile(config, output.stdout)
                &&& default_config_next(ended, EventModel::Done) == there
                &&& default_config_next(ended, EventModel::Failed)
                    == DefaultConfigPhaseModel::Finished(
                    Err::<(), DefaultConfigErrorModel>(DefaultConfigErrorModel::Write(config)),
                )
            } else {
                ended.phase == DefaultConfigPhaseModel::Finished(
                    Err::<(), DefaultConfigErrorModel>(DefaultConfigErrorModel::Exit(output)),
                )
            }
        }),
{
}

/// What the errors say.
pub proof fn default_config_error_texts(output: OutputModel, p: Seq<u8>)
    ensures
        default_config_error_text(DefaultConfigErrorModel::Launch)
            == "failed to run onetagger-cli --autotagger-config"@,
        default_config_error_text(DefaultConfigErrorModel::Exit(output))
            == "failed to generate default config, status="@ + output.status + " stderr="@
            + text::shown(output.stderr) + " stdout="@ + text::shown(output.stdout),
        default_config_error_text(DefaultConfigErrorModel::Write(p))
            == "failed writing default config to "@ + text::shown(p),
{
}

/// An event that answers what the check waits for brings it nearer to its end; any other event changes
/// nothing.
pub proof fn default_config_check_goes_on(m: DefaultConfigModel, e: EventModel)
    ensures
        effects::answers(default_config_action(m), e) ==> default_config_rank(
            DefaultConfigModel { phase: default_config_next(m, e), ..m },
        ) < default_config_rank(m),
        !effects::answers(default_config_action(m), e) ==> default_config_next(m, e) == m.phase,
{
}

/// The model of a check says what the check says: which program and directory it is about, and
/// what it ended with.
pub proof fn default_config_model(check: DefaultConfigCheck)
    ensures
        check@.cli_bin == check.cli_bin@,
        check@.config_dir == check.config_dir.bytes@,
        match check.phase {
            DefaultConfigPhase::Finished(Ok(_)) => check@.phase
                == DefaultConfigPhaseModel::Finished(Ok::<(), DefaultConfigErrorModel>(())),
            DefaultConfigPhase::Finished(Err(DefaultConfigError::Launch)) => check@.phase
                == DefaultConfigPhaseModel::Finished(
                Err::<(), DefaultConfigErrorModel>(DefaultConfigErrorModel::Launch),
            ),
            DefaultConfigPhase::Finished(Err(DefaultConfigError::Exit(output))) => check@.phase
                == DefaultConfigPhaseModel::Finished(
                Err::<(), DefaultConfigErrorModel>(DefaultConfigErrorModel::Exit(output@)),
            ),
            DefaultConfigPhase::Finished(Err(DefaultConfigError::Write(p))) => check@.phase
                == DefaultConfigPhaseModel::Finished(
                Err::<(), DefaultConfigErrorModel>(DefaultConfigErrorModel::Write(p.bytes@)),
            ),
            _ => !(check@.phase is Finished),
        },
{
}

} // verus!
