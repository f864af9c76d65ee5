//! The part of the autotagger configuration that says where tagged files go.
use crate::json;
use crate::json::Json;
use crate::path::UnixPath;
use crate::text;
use vstd::prelude::*;
use vstd::string::*;
use vstd::utf8::*;

verus! {

/// The move settings of an autotagger configuration.
#[derive(Debug, PartialEq, Eq)]
pub struct AutotaggerMoveConfig {
    pub move_success: bool,
    pub move_success_path: Option<UnixPath>,
}

/// The model of [`AutotaggerMoveConfig`].
#[verifier::ext_equal]
pub struct MoveConfigModel {
    pub move_success: bool,
    pub move_success_path: Option<Seq<u8>>,
}

impl View for AutotaggerMoveConfig {
    type V = MoveConfigModel;

    open spec fn view(&self) -> MoveConfigModel {
        MoveConfigModel {
            move_success: self.move_success,
            move_success_path: match self.move_success_path {
                Some(path) => Some(path@),
                None => None,
            },
        }
    }
}

/// The member of an object under a key.
pub open spec fn member_of(json: Json, key: Seq<char>) -> Option<Json> {
    match json {
        Json::Object(members) => if members.dom().contains(key) {
            Some(members[key])
        } else {
            None
        },
        _ => None,
    }
}

/// The switch that a configuration sets: the boolean under `moveSuccess`.
pub open spec fn switch_in(json: Json) -> Option<bool> {
    match member_of(json, "moveSuccess"@) {
        Some(Json::Bool(b)) => Some(b),
        _ => None,
    }
}

/// The destination that a configuration gives: the string under `moveSuccessPath`.
pub open spec fn destination_in(json: Json) -> Option<Seq<char>> {
    match member_of(json, "moveSuccessPath"@) {
        Some(Json::Text(s)) => Some(s),
        _ => None,
    }
}

/// The settings for a switch and a destination: without a switch nothing is moved, and a
/// blank destination is none.
pub open spec fn settings(switch: Option<bool>, destination: Option<Seq<char>>) -> MoveConfigModel {
    MoveConfigModel {
        move_success: switch == Some(true),
        move_success_path: match destination {
            Some(s) => if text::blank(s) {
                None
            } else {
                Some(encode_utf8(s))
            },
            None => None,
        },
    }
}

/// The settings that a configuration file holds, or `None` where it cannot be parsed.
pub open spec fn settings_in(bytes: Seq<u8>) -> Option<MoveConfigModel> {
    match json::json_text(bytes) {
        Some(json) => Some(settings(switch_in(json), destination_in(json))),
        None => None,
    }
}

/// Why a configuration could not be taken in.
#[derive(Debug, PartialEq, Eq)]
pub enum MoveConfigError {
    /// It could not be read.
    Read(UnixPath),
    /// It could not be parsed as JSON.
    Parse(UnixPath),
}

/// The model of [`MoveConfigError`].
#[verifier::ext_equal]
pub enum MoveConfigErrorModel {
    Read(Seq<u8>),
    Parse(Seq<u8>),
}

impl View for MoveConfigError {
    type V = MoveConfigErrorModel;

    open spec fn view(&self) -> MoveConfigErrorModel {
        match *self {
            MoveConfigError::Read(p) => MoveConfigErrorModel::Read(p@),
            MoveConfigError::Parse(p) => MoveConfigErrorModel::Parse(p@),
        }
    }
}

/// The text of an error.
pub open spec fn move_config_error_text(e: MoveConfigErrorModel) -> Seq<char> {
    match e {
        MoveConfigErrorModel::Read(p) => "failed reading config "@ + text::shown(p),
        MoveConfigErrorModel::Parse(p) => "failed parsing config "@ + text::shown(p),
    }
}

/// The settings in the configuration at a path, of which the contents are given unless it could
/// not be read.
pub open spec fn loaded_config(config_path: Seq<u8>, contents: Option<Seq<u8>>) -> Result<
    MoveConfigModel,
    MoveConfigErrorModel,
> {
    match contents {
        None => Err(MoveConfigErrorModel::Read(config_path)),
        Some(bytes) => match settings_in(bytes) {
            None => Err(MoveConfigErrorModel::Parse(config_path)),
            Some(config) => Ok(config),
        },
    }
}

impl MoveConfigError {
    /// The text of the error.
    pub fn message(&self) -> (r: String)
        ensures
            r@ == move_config_error_text(self@),
    {
        match self {
            MoveConfigError::Read(p) => "failed reading config ".to_string().concat(
                p.display().as_str(),
            ),
            MoveConfigError::Parse(p) => "failed parsing config ".to_string().concat(
                p.display().as_str(),
            ),
        }
    }
}

/// The settings for the switch and the destination that a configuration gives.
pub fn move_settings(switch: Option<bool>, destination: Option<&str>) -> (r: AutotaggerMoveConfig)
    ensures
        r@ == settings(
            switch,
            match destination {
                Some(s) => Some(s@),
                None => None,
            },
        ),
{
    let move_success: bool = match switch {
        Some(b) => b,
        None => false,
    };
    let move_success_path: Option<UnixPath> = match destination {
        Some(s) => if text::is_blank(s) {
            None
        } else {
            Some(UnixPath::from_text(s))
        },
        None => None,
    };
    AutotaggerMoveConfig { move_success, move_success_path }
}

fn settings_of(bytes: &[u8]) -> (r: Option<AutotaggerMoveConfig>)
    ensures
        match r {
            Some(config) => settings_in(bytes@) == Some(config@),
            None => settings_in(bytes@) is None,
        },
{
    let document: serde_json::Value = match json::parse(bytes) {
        Ok(value) => value,
        Err(_) => {
            return None;
        },
    };
    let switch: Option<bool> = match json::member(&document, "moveSuccess") {
        Some(value) => json::as_bool(value),
        None => None,
    };
    let destination: Option<&str> = match json::member(&document, "moveSuccessPath") {
        Some(value) => json::as_text(value),
        None => None,
    };
    Some(move_settings(switch, destination))
}

/// The settings in the configuration at a path, of which the contents are given unless it could
/// not be read.
pub fn load_move_config(config_path: UnixPath, contents: Option<Vec<u8>>) -> (r: Result<
    AutotaggerMoveConfig,
    MoveConfigError,
>)
    ensures
        loaded_config(
            config_path@,
            match contents {
                Some(bytes) => Some(bytes@),
                None => None,
            },
        ) == match r {
            Ok(config) => Ok::<MoveConfigModel, MoveConfigErrorModel>(config@),
            Err(e) => Err(e@),
        },
{
    match contents {
        None => Err(MoveConfigError::Read(config_path)),
        Some(bytes) => match settings_of(bytes.as_slice()) {
            None => Err(MoveConfigError::Parse(config_path)),
            Some(config) => Ok(config),
        },
    }
}

impl AutotaggerMoveConfig {
    /// Where a successful job's files go: the destination, if moving is switched on.
    pub fn success_destination(self) -> (r: Option<UnixPath>)
        ensures
            match r {
                Some(path) => destination_of(self@) == Some(path@),
                None => destination_of(self@) is None,
            },
    {
        if self.move_success {
            self.move_success_path
        } else {
            None
        }
    }
}

/// The destination of a successful job's files under the given settings.
pub open spec fn destination_of(config: MoveConfigModel) -> Option<Seq<u8>> {
    if config.move_success {
        config.move_success_path
    } else {
        None
    }
}

/// A job has a destination exactly where the configuration switches moving on and gives a path
/// that is not blank; then it is that path.
pub proof fn destination_needs_switch_and_path(switch: Option<bool>, destination: Option<Seq<char>>)
    ensures
        destination_of(settings(switch, destination)) == match (switch, destination) {
            (Some(true), Some(s)) => if text::blank(s) {
                None
            } else {
                Some(encode_utf8(s))
            },
            _ => None,
        },
{
}

/// The settings come from the members of the object in the configuration: moving is switched on
/// exactly where the member `moveSuccess` is the boolean `true`, and the destination is the
/// member `moveSuccessPath` where that is a string in which something else than white space
/// stands.
pub proof fn settings_are_the_members(
    config_path: Seq<u8>,
    bytes: Seq<u8>,
    members: Map<Seq<char>, Json>,
)
    requires
        json::json_text(bytes) == Some(Json::Object(members)),
    ensures
        loaded_config(config_path, Some(bytes)) matches Ok(config) && {
            &&& members.dom().contains("moveSuccess"@) ==> (members["moveSuccess"@] matches
                Json::Bool(b) ==> config.move_success == b)
            &&& !(members.dom().contains("moveSuccess"@) && members["moveSuccess"@] is Bool)
                ==> !config.move_success
            &&& members.dom().contains("moveSuccessPath"@) ==> (members["moveSuccessPath"@] matches
                Json::Text(s) ==> config.move_success_path == if forall|i: int|
                0 <= i < s.len() ==> #[trigger] text::white_space(s[i]) {
                None
            } else {
                Some(encode_utf8(s))
            })
            &&& !(members.dom().contains("moveSuccessPath"@)
                && members["moveSuccessPath"@] is Text) ==> config.move_success_path is None
        },
{
}

/// A configuration that is JSON but no object switches nothing on; one that is no JSON, or that
/// could not be read, is an error that names it.
pub proof fn other_configurations(config_path: Seq<u8>, bytes: Seq<u8>)
    ensures
        json::json_text(bytes) matches Some(json) && !(json is Object) ==> loaded_config(
            config_path,
            Some(bytes),
        ) == Ok::<MoveConfigModel, MoveConfigErrorModel>(
            MoveConfigModel { move_success: false, move_success_path: None },
        ),
        json::json_text(bytes) is None ==> loaded_config(config_path, Some(bytes)) == Err::<
            MoveConfigModel,
            MoveConfigErrorModel,
        >(MoveConfigErrorModel::Parse(config_path)),
        loaded_config(config_path, None) == Err::<MoveConfigModel, MoveConfigErrorModel>(
            MoveConfigErrorModel::Read(config_path),
        ),
{
}

/// A job has the configured destination exactly where moving is switched on.
pub proof fn destination_of_a_job(config: MoveConfigModel)
    ensures
        config.move_success ==> destination_of(config) == config.move_success_path,
        !config.move_success ==> destination_of(config) is None,
{
}

/// What the errors say.
pub proof fn move_config_error_texts(config_path: Seq<u8>)
    ensures
        move_config_error_text(MoveConfigErrorModel::Read(config_path)) == "failed reading config "@
            + text::shown(config_path),
        move_config_error_text(MoveConfigErrorModel::Parse(config_path))
            == "failed parsing config "@ + text::shown(config_path),
{
}

/// The model of the settings leaves nothing out.
pub proof fn move_config_model(config: AutotaggerMoveConfig)
    ensures
        config@.move_success == config.move_success,
        match config.move_success_path {
            Some(p) => config@.move_success_path == Some(p.bytes@),
            None => config@.move_success_path is None,
        },
{
}

} // verus!
