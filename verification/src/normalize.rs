//! Turning a requested path into one that the tagger takes.
//!
//! `onetagger-cli autotagger` takes a directory or a playlist. For a single audio file the
//! worker writes a playlist of one entry, and hands that to the tagger.
use crate::effects;
use crate::effects::{Action, ActionModel, Event, EventModel};
use crate::ident;
use crate::jobs;
use crate::path;
use crate::path::UnixPath;
use crate::text;
use vstd::prelude::*;
use vstd::string::*;
use vstd::utf8::*;

verus! {

/// What the tagger is given, and the playlist that was written for it, if one was.
#[derive(Debug, PartialEq, Eq)]
pub struct NormalizedInput {
    pub cli_path: UnixPath,
    pub temp_playlist: Option<UnixPath>,
}

/// Why a path cannot be given to the tagger.
#[derive(Debug, PartialEq, Eq)]
pub enum InputError {
    /// Neither a directory nor a file lies there.
    NeitherDirectoryNorFile,
    /// The directory for playlists could not be created.
    QueueDir(UnixPath),
    /// The playlist could not be written.
    Playlist(UnixPath),
}

/// How far the normalization of a path has come.
#[derive(Debug, PartialEq, Eq)]
pub enum NormalizePhase {
    CheckDir,
    CheckFile,
    MakeQueueDir,
    WritePlaylist,
    Finished(Result<NormalizedInput, InputError>),
}

/// The normalization of one requested path.
#[derive(Debug, PartialEq, Eq)]
pub struct Normalization {
    pub config_dir: UnixPath,
    pub job_id: u128,
    pub requested: UnixPath,
    pub phase: NormalizePhase,
}

/// The model of [`NormalizedInput`].
#[verifier::ext_equal]
pub struct NormalizedModel {
    pub cli_path: Seq<u8>,
    pub temp_playlist: Option<Seq<u8>>,
}

/// The model of [`InputError`].
#[verifier::ext_equal]
pub enum InputErrorModel {
    NeitherDirectoryNorFile,
    QueueDir(Seq<u8>),
    Playlist(Seq<u8>),
}

/// The model of [`NormalizePhase`].
#[verifier::ext_equal]
pub enum NormalizePhaseModel {
    CheckDir,
    CheckFile,
    MakeQueueDir,
    WritePlaylist,
    Finished(Result<NormalizedModel, InputErrorModel>),
}

/// The model of [`Normalization`].
#[verifier::ext_equal]
pub struct NormalizationModel {
    pub config_dir: Seq<u8>,
    pub job_id: u128,
    pub requested: Seq<u8>,
    pub phase: NormalizePhaseModel,
}

impl View for NormalizedInput {
    type V = NormalizedModel;

    open spec fn view(&self) -> NormalizedModel {
        NormalizedModel {
            cli_path: self.cli_path@,
            temp_playlist: jobs::path_option(self.temp_playlist),
        }
    }
}

impl View for InputError {
    type V = InputErrorModel;

    open spec fn view(&self) -> InputErrorModel {
        match *self {
            InputError::NeitherDirectoryNorFile => InputErrorModel::NeitherDirectoryNorFile,
            InputError::QueueDir(p) => InputErrorModel::QueueDir(p@),
            InputError::Playlist(p) => InputErrorModel::Playlist(p@),
        }
    }
}

impl View for NormalizePhase {
    type V = NormalizePhaseModel;

    open spec fn view(&self) -> NormalizePhaseModel {
        match *self {
            NormalizePhase::CheckDir => NormalizePhaseModel::CheckDir,
            NormalizePhase::CheckFile => NormalizePhaseModel::CheckFile,
            NormalizePhase::MakeQueueDir => NormalizePhaseModel::MakeQueueDir,
            NormalizePhase::WritePlaylist => NormalizePhaseModel::WritePlaylist,
            NormalizePhase::Finished(result) => NormalizePhaseModel::Finished(
                match result {
                    Ok(input) => Ok(input@),
                    Err(e) => Err(e@),
                },
            ),
        }
    }
}

impl View for Normalization {
    type V = NormalizationModel;

    open spec fn view(&self) -> NormalizationModel {
        NormalizationModel {
            config_dir: self.config_dir@,
            job_id: self.job_id,
            requested: self.requested@,
            phase: self.phase@,
        }
    }
}

/// `b`, or the lower-case letter for an upper-case ASCII one.
pub open spec fn lower(b: u8) -> u8 {
    if 65 <= b <= 90 {
        (b + 32) as u8
    } else {
        b
    }
}

/// The extension says that the file is a playlist: `m3u` or `m3u8`, in any case. (Among
/// the characters outside ASCII none has a lower-case form that is one of these letters
/// or digits.)
pub open spec fn playlist_extension(ext: Seq<u8>) -> bool {
    let low = ext.map_values(|b: u8| lower(b));
    low == encode_utf8("m3u"@) || low == encode_utf8("m3u8"@)
}

/// The path has the extension of a playlist.
pub open spec fn is_playlist(requested: Seq<u8>) -> bool {
    match path::extension(requested) {
        Some(ext) => playlist_extension(ext),
        None => false,
    }
}

/// The directory for playlists of single files.
pub open spec fn queue_dir(config_dir: Seq<u8>) -> Seq<u8> {
    path::joined(config_dir, encode_utf8("queue"@))
}

/// The name of the playlist for a job.
pub open spec fn playlist_name(job_id: u128) -> Seq<char> {
    "job-"@ + ident::id_text(job_id) + ".m3u8"@
}

/// The path of the playlist for a job.
pub open spec fn playlist_path(config_dir: Seq<u8>, job_id: u128) -> Seq<u8> {
    path::joined(queue_dir(config_dir), encode_utf8(playlist_name(job_id)))
}

/// The playlist whose only entry is the requested file.
pub open spec fn playlist_data(requested: Seq<u8>) -> Seq<u8> {
    encode_utf8("#EXTM3U\n"@ + text::shown(requested) + "\n"@)
}

/// The text of an error.
pub open spec fn input_error_text(e: InputErrorModel) -> Seq<char> {
    match e {
        InputErrorModel::NeitherDirectoryNorFile => "path is neither existing directory nor file"@,
        InputErrorModel::QueueDir(p) => "failed creating queue dir "@ + text::shown(p),
        InputErrorModel::Playlist(p) => "failed writing temp playlist "@ + text::shown(p),
    }
}

/// The action that a normalization waits for.
pub open spec fn normalize_action(m: NormalizationModel) -> ActionModel {
    match m.phase {
        NormalizePhaseModel::CheckDir => ActionModel::IsDir(m.requested),
        NormalizePhaseModel::CheckFile => ActionModel::IsFile(m.requested),
        NormalizePhaseModel::MakeQueueDir => ActionModel::CreateDirAll(queue_dir(m.config_dir)),
        NormalizePhaseModel::WritePlaylist => ActionModel::WriteFile(
            playlist_path(m.config_dir, m.job_id),
            playlist_data(m.requested),
        ),
        NormalizePhaseModel::Finished(_) => ActionModel::Nothing,
    }
}

/// The result that hands the requested path to the tagger as it is.
pub open spec fn unchanged_input(requested: Seq<u8>) -> NormalizedModel {
    NormalizedModel { cli_path: requested, temp_playlist: None }
}

/// The result that hands a playlist to the tagger.
pub open spec fn wrapped_input(config_dir: Seq<u8>, job_id: u128) -> NormalizedModel {
    NormalizedModel {
        cli_path: playlist_path(config_dir, job_id),
        temp_playlist: Some(playlist_path(config_dir, job_id)),
    }
}

/// The phase that follows. An event that does not answer the pending action changes
/// nothing.
pub open spec fn normalize_next(m: NormalizationModel, e: EventModel) -> NormalizePhaseModel {
    match (m.phase, e) {
        (NormalizePhaseModel::CheckDir, EventModel::Flag(true)) => NormalizePhaseModel::Finished(
            Ok(unchanged_input(m.requested)),
        ),
        (NormalizePhaseModel::CheckDir, EventModel::Flag(false)) => NormalizePhaseModel::CheckFile,
        (NormalizePhaseModel::CheckFile, EventModel::Flag(false)) => NormalizePhaseModel::Finished(
            Err(InputErrorModel::NeitherDirectoryNorFile),
        ),
        (NormalizePhaseModel::CheckFile, EventModel::Flag(true)) => if is_playlist(m.requested) {
            NormalizePhaseModel::Finished(Ok(unchanged_input(m.requested)))
        } else {
            NormalizePhaseModel::MakeQueueDir
        },
        (NormalizePhaseModel::MakeQueueDir, EventModel::Done) => NormalizePhaseModel::WritePlaylist,
        (NormalizePhaseModel::MakeQueueDir, EventModel::Failed) => NormalizePhaseModel::Finished(
            Err(InputErrorModel::QueueDir(queue_dir(m.config_dir))),
        ),
        (NormalizePhaseModel::WritePlaylist, EventModel::Done) => NormalizePhaseModel::Finished(
            Ok(wrapped_input(m.config_dir, m.job_id)),
        ),
        (NormalizePhaseModel::WritePlaylist, EventModel::Failed) => NormalizePhaseModel::Finished(
            Err(InputErrorModel::Playlist(playlist_path(m.config_dir, m.job_id))),
        ),
        _ => m.phase,
    }
}

fn same_bytes(a: &[u8], b: &[u8]) -> (r: bool)
    ensures
        r == (a@ == b@),
{
    if a.len() != b.len() {
        return false;
    }
    let mut i: usize = 0;
    while i < a.len()
        invariant
            a@.len() == b@.len(),
            i <= a@.len(),
            forall|j: int| 0 <= j < i ==> a@[j] == b@[j],
        decreases a@.len() - i,
    {
        if a[i] != b[i] {
            return false;
        }
        i = i + 1;
    }
    assert(a@ =~= b@);
    true
}

/// Whether an extension is that of a playlist.
pub fn is_playlist_extension(ext: &[u8]) -> (r: bool)
    ensures
        r == playlist_extension(ext@),
{
    let mut low: Vec<u8> = Vec::new();
    let mut i: usize = 0;
    while i < ext.len()
        invariant
            i <= ext@.len(),
            low@ == ext@.take(i as int).map_values(|b: u8| lower(b)),
        decreases ext@.len() - i,
    {
        let b: u8 = ext[i];
        let c: u8 = if 65 <= b && b <= 90 {
            b + 32
        } else {
            b
        };
        low.push(c);
        i = i + 1;
        assert(low@ =~= ext@.take(i as int).map_values(|b: u8| lower(b)));
    }
    assert(ext@.take(ext@.len() as int) =~= ext@);
    same_bytes(low.as_slice(), "m3u".as_bytes()) || same_bytes(low.as_slice(), "m3u8".as_bytes())
}

fn queue_dir_path(config_dir: &UnixPath) -> (r: UnixPath)
    ensures
        r@ == queue_dir(config_dir@),
{
    config_dir.join_text("queue")
}

fn temp_playlist_path(config_dir: &UnixPath, job_id: u128) -> (r: UnixPath)
    ensures
        r@ == playlist_path(config_dir@, job_id),
{
    let mut name: String = "job-".to_string();
    name.append(ident::show_id(job_id).as_str());
    name.append(".m3u8");
    queue_dir_path(config_dir).join_text(name.as_str())
}

fn single_entry_playlist(requested: &UnixPath) -> (r: Vec<u8>)
    ensures
        r@ == playlist_data(requested@),
{
    let mut data: String = "#EXTM3U\n".to_string();
    data.append(requested.display().as_str());
    data.append("\n");
    text::bytes_of(data.as_str())
}

impl InputError {
    /// The text of the error.
    pub fn message(&self) -> (r: String)
        ensures
            r@ == input_error_text(self@),
    {
        match self {
            InputError::NeitherDirectoryNorFile => "path is neither existing directory nor file".to_string(),
            InputError::QueueDir(p) => "failed creating queue dir ".to_string().concat(
                p.display().as_str(),
            ),
            InputError::Playlist(p) => "failed writing temp playlist ".to_string().concat(
                p.display().as_str(),
            ),
        }
    }
}

/// Begins the normalization of a requested path for a job.
pub fn normalize_cli_input_path(config_dir: UnixPath, job_id: u128, requested: UnixPath) -> (r:
    Normalization)
    ensures
        r@ == normalization(config_dir@, job_id, requested@),
{
    Normalization { config_dir, job_id, requested, phase: NormalizePhase::CheckDir }
}

/// A normalization at its beginning.
pub open spec fn normalization(
    config_dir: Seq<u8>,
    job_id: u128,
    requested: Seq<u8>,
) -> NormalizationModel {
    NormalizationModel { config_dir, job_id, requested, phase: NormalizePhaseModel::CheckDir }
}

impl Normalization {
    /// The action that the normalization waits for.
    pub fn action(&self) -> (r: Action)
        ensures
            r@ == normalize_action(self@),
    {
        match self.phase {
            NormalizePhase::CheckDir => Action::IsDir(self.requested.clone()),
            NormalizePhase::CheckFile => Action::IsFile(self.requested.clone()),
            NormalizePhase::MakeQueueDir => Action::CreateDirAll(queue_dir_path(&self.config_dir)),
            NormalizePhase::WritePlaylist => Action::WriteFile(
                temp_playlist_path(&self.config_dir, self.job_id),
                single_entry_playlist(&self.requested),
            ),
            NormalizePhase::Finished(_) => Action::Nothing,
        }
    }

    /// Goes on with what came of the pending action.
    pub fn step(self, event: Event) -> (r: Normalization)
        ensures
            r@ == (NormalizationModel { phase: normalize_next(self@, event@), ..self@ }),
    {
        let phase: NormalizePhase = match (self.phase, event) {
            (NormalizePhase::CheckDir, Event::Flag(true)) => NormalizePhase::Finished(
                Ok(NormalizedInput { cli_path: self.requested.clone(), temp_playlist: None }),
            ),
            (NormalizePhase::CheckDir, Event::Flag(false)) => NormalizePhase::CheckFile,
            (NormalizePhase::CheckFile, Event::Flag(false)) => NormalizePhase::Finished(
                Err(InputError::NeitherDirectoryNorFile),
            ),
            (NormalizePhase::CheckFile, Event::Flag(true)) => {
                let playlist: bool = match self.requested.extension() {
                    Some(ext) => is_playlist_extension(ext.as_slice()),
                    None => false,
                };
                if playlist {
                    NormalizePhase::Finished(
                        Ok(
                            NormalizedInput {
                                cli_path: self.requested.clone(),
                                temp_playlist: None,
                            },
                        ),
                    )
                } else {
                    NormalizePhase::MakeQueueDir
                }
            },
            (NormalizePhase::MakeQueueDir, Event::Done) => NormalizePhase::WritePlaylist,
            (NormalizePhase::MakeQueueDir, Event::Failed) => NormalizePhase::Finished(
                Err(InputError::QueueDir(queue_dir_path(&self.config_dir))),
            ),
            (NormalizePhase::WritePlaylist, Event::Done) => {
                let playlist: UnixPath = temp_playlist_path(&self.config_dir, self.job_id);
                NormalizePhase::Finished(
                    Ok(
                        NormalizedInput {
                            cli_path: playlist.clone(),
                            temp_playlist: Some(playlist),
                        },
                    ),
                )
            },
            (NormalizePhase::WritePlaylist, Event::Failed) => NormalizePhase::Finished(
                Err(InputError::Playlist(temp_playlist_path(&self.config_dir, self.job_id))),
            ),
            (phase, _) => phase,
        };
        Normalization {
            config_dir: self.config_dir,
            job_id: self.job_id,
            requested: self.requested,
            phase,
        }
    }
}

/// What the runtime finds while a path is normalized.
pub struct InputWorld {
    pub is_dir: bool,
    pub is_file: bool,
    pub queue_dir_created: bool,
    pub playlist_written: bool,
}

/// What the runtime answers to the pending action.
pub open spec fn normalize_answer(m: NormalizationModel, w: InputWorld) -> EventModel {
    match m.phase {
        NormalizePhaseModel::CheckDir => EventModel::Flag(w.is_dir),
        NormalizePhaseModel::CheckFile => EventModel::Flag(w.is_file),
        NormalizePhaseModel::MakeQueueDir => effects::done(w.queue_dir_created),
        NormalizePhaseModel::WritePlaylist => effects::done(w.playlist_written),
        NormalizePhaseModel::Finished(_) => EventModel::Done,
    }
}

/// An upper bound on the actions that are left.
pub open spec fn normalize_rank(m: NormalizationModel) -> nat {
    match m.phase {
        NormalizePhaseModel::CheckDir => 4,
        NormalizePhaseModel::CheckFile => 3,
        NormalizePhaseModel::MakeQueueDir => 2,
        NormalizePhaseModel::WritePlaylist => 1,
        NormalizePhaseModel::Finished(_) => 0,
    }
}

/// The result of a normalization that is carried to its end.
pub open spec fn normalize_run(m: NormalizationModel, w: InputWorld) -> Result<
    NormalizedModel,
    InputErrorModel,
>
    decreases normalize_rank(m),
{
    match m.phase {
        NormalizePhaseModel::Finished(result) => result,
        _ => normalize_run(
            NormalizationModel { phase: normalize_next(m, normalize_answer(m, w)), ..m },
            w,
        ),
    }
}

/// The path that the tagger is to be given for a requested path.
pub open spec fn normalized(
    config_dir: Seq<u8>,
    job_id: u128,
    requested: Seq<u8>,
    w: InputWorld,
) -> Result<NormalizedModel, InputErrorModel> {
    if w.is_dir || (w.is_file && is_playlist(requested)) {
        Ok(unchanged_input(requested))
    } else if !w.is_file {
        Err(InputErrorModel::NeitherDirectoryNorFile)
    } else if !w.queue_dir_created {
        Err(InputErrorModel::QueueDir(queue_dir(config_dir)))
    } else if !w.playlist_written {
        Err(InputErrorModel::Playlist(playlist_path(config_dir, job_id)))
    } else {
        Ok(wrapped_input(config_dir, job_id))
    }
}

/// Directories and playlists are handed to the tagger as they are, any other file by way
/// of a playlist, and nothing else at all.
pub proof fn normalization_result(
    config_dir: Seq<u8>,
    job_id: u128,
    requested: Seq<u8>,
    w: InputWorld,
)
    ensures
        normalize_run(normalization(config_dir, job_id, requested), w) == normalized(
            config_dir,
            job_id,
            requested,
            w,
        ),
{
    reveal_with_fuel(normalize_run, 5);
}

proof fn lemma_playlist_name(job_id: u128)
    ensures
        path::plain_name(encode_utf8(playlist_name(job_id))),
        path::extension_of(encode_utf8(playlist_name(job_id))) == Some(encode_utf8("m3u8"@)),
        playlist_extension(encode_utf8("m3u8"@)),
{
    reveal_strlit("job-");
    reveal_strlit(".m3u8");
    reveal_strlit("m3u8");
    ident::id_text_is_plain(job_id);
    let name = playlist_name(job_id);
    let id = ident::id_text(job_id);
    assert(name.len() == 45);
    assert forall|i: int| 0 <= i < 45 implies '\0' <= #[trigger] name[i] <= '\u{7f}' && name[i]
        != '/' && (name[i] == '.' <==> i == 40) by {
        if 4 <= i < 40 {
            assert(name[i] == id[i - 4]);
        }
    }
    is_ascii_chars_encode_utf8(name);
    is_ascii_chars_encode_utf8("m3u8"@);
    let bytes = encode_utf8(name);
    assert forall|i: int| 0 <= i < 45 implies #[trigger] bytes[i] != path::SLASH && (bytes[i]
        == path::DOT <==> i == 40) by {
        assert(bytes[i] == name[i] as u8);
    }
    path::lemma_last_at_is(bytes, path::DOT, 40);
    assert(bytes.skip(41) =~= encode_utf8("m3u8"@)) by {
        assert forall|i: int| 0 <= i < 4 implies #[trigger] bytes.skip(41)[i] == encode_utf8(
            "m3u8"@,
        )[i] by {
            assert(bytes[i + 41] == name[i + 41] as u8);
            assert(encode_utf8("m3u8"@)[i] == "m3u8"@[i] as u8);
        }
    }
    assert(encode_utf8("m3u8"@).map_values(|b: u8| lower(b)) =~= encode_utf8("m3u8"@)) by {
        assert forall|i: int| 0 <= i < 4 implies lower(#[trigger] encode_utf8("m3u8"@)[i])
            == encode_utf8("m3u8"@)[i] by {
            assert(encode_utf8("m3u8"@)[i] == "m3u8"@[i] as u8);
        }
    }
}

/// The playlist that is written for a job is one that the tagger takes as it is; so it is
/// never the file that it was written for.
pub proof fn temp_playlist_is_playlist(config_dir: Seq<u8>, job_id: u128, requested: Seq<u8>)
    ensures
        is_playlist(playlist_path(config_dir, job_id)),
        !is_playlist(requested) ==> playlist_path(config_dir, job_id) != requested,
{
    lemma_playlist_name(job_id);
    path::joined_file_name(queue_dir(config_dir), encode_utf8(playlist_name(job_id)));
}

/// Different jobs have different playlists.
pub proof fn temp_playlists_differ(config_dir: Seq<u8>, a: u128, b: u128)
    ensures
        playlist_path(config_dir, a) == playlist_path(config_dir, b) ==> a == b,
{
    if playlist_path(config_dir, a) == playlist_path(config_dir, b) {
        lemma_playlist_name(a);
        lemma_playlist_name(b);
        let dir = queue_dir(config_dir);
        path::joined_file_name(dir, encode_utf8(playlist_name(a)));
        path::joined_file_name(dir, encode_utf8(playlist_name(b)));
        encode_utf8_decode_utf8(playlist_name(a));
        encode_utf8_decode_utf8(playlist_name(b));
        assert(playlist_name(a) == playlist_name(b));
        reveal_strlit("job-");
        reveal_strlit(".m3u8");
        assert(ident::id_text(a) =~= playlist_name(a).subrange(4, 40));
        assert(ident::id_text(b) =~= playlist_name(b).subrange(4, 40));
        ident::id_text_injective(a, b);
    }
}

/// The playlist for a file whose path is UTF-8 is a header line and that very path.
pub proof fn playlist_names_the_file(requested: Seq<u8>)
    requires
        valid_utf8(requested),
    ensures
        playlist_data(requested) == encode_utf8("#EXTM3U\n"@) + requested + encode_utf8("\n"@),
{
    let shown = decode_utf8(requested);
    text::encode_concat("#EXTM3U\n"@ + shown, "\n"@);
    text::encode_concat("#EXTM3U\n"@, shown);
    decode_utf8_encode_utf8(requested);
}

/// An extension is that of a playlist exactly where it is `m3u` or `m3u8`, byte by byte, with
/// each letter in either case.
pub proof fn playlist_extensions(ext: Seq<u8>)
    ensures
        playlist_extension(ext) <==> {
            &&& ext.len() == 3 || (ext.len() == 4 && ext[3] == 56)
            &&& ext[0] == 109 || ext[0] == 77
            &&& ext[1] == 51
            &&& ext[2] == 117 || ext[2] == 85
        },
{
    reveal_strlit("m3u");
    reveal_strlit("m3u8");
    is_ascii_chars_encode_utf8("m3u"@);
    is_ascii_chars_encode_utf8("m3u8"@);
    let short = encode_utf8("m3u"@);
    let long = encode_utf8("m3u8"@);
    assert(short =~= seq![109u8, 51u8, 117u8]) by {
        assert("m3u"@[0] as u8 == 109u8 && "m3u"@[1] as u8 == 51u8 && "m3u"@[2] as u8 == 117u8);
    }
    assert(long =~= seq![109u8, 51u8, 117u8, 56u8]) by {
        assert("m3u8"@[0] as u8 == 109u8 && "m3u8"@[1] as u8 == 51u8 && "m3u8"@[2] as u8 == 117u8
            && "m3u8"@[3] as u8 == 56u8);
    }
    let low = ext.map_values(|b: u8| lower(b));
    assert(forall|i: int| 0 <= i < ext.len() ==> #[trigger] low[i] == lower(ext[i]));
    if ext.len() == 3 {
        assert(low == short <==> low[0] == 109 && low[1] == 51 && low[2] == 117) by {
            if low[0] == 109 && low[1] == 51 && low[2] == 117 {
                assert(low =~= short);
            }
        }
    } else if ext.len() == 4 {
        assert(low == long <==> low[0] == 109 && low[1] == 51 && low[2] == 117 && low[3] == 56) by {
            if low[0] == 109 && low[1] == 51 && low[2] == 117 && low[3] == 56 {
                assert(low =~= long);
            }
        }
    }
}

/// The normalization after an event.
pub open spec fn normalize_step(m: NormalizationModel, e: EventModel) -> NormalizationModel {
    NormalizationModel { phase: normalize_next(m, e), ..m }
}

/// The course of a normalization, question by question. A directory is handed to the tagger as
/// it is, and so is a file with the extension `m3u` or `m3u8` in either case. For every other
/// file a playlist `job-<id>.m3u8` is written in the directory `queue` of the configuration
/// directory, with a header line and the path of the file, and that playlist is what the tagger
/// gets. Each failure on the way is told with the path in question.
pub proof fn normalization_course(config_dir: Seq<u8>, job_id: u128, requested: Seq<u8>)
    ensures
        ({
            let unchanged = NormalizePhaseModel::Finished(
                Ok::<NormalizedModel, InputErrorModel>(
                    NormalizedModel { cli_path: requested, temp_playlist: None },
                ),
            );
            let asked = normalization(config_dir, job_id, requested);
            let no_dir = normalize_step(asked, EventModel::Flag(false));
            let file = normalize_step(no_dir, EventModel::Flag(true));
            &&& normalize_action(asked) == ActionModel::IsDir(requested)
            &&& normalize_step(asked, EventModel::Flag(true)).phase == unchanged
            &&& normalize_action(no_dir) == ActionModel::IsFile(requested)
            &&& normalize_step(no_dir, EventModel::Flag(false)).phase
                == NormalizePhaseModel::Finished(
                Err::<NormalizedModel, InputErrorModel>(InputErrorModel::NeitherDirectoryNorFile),
            )
            &&& match path::extension(requested) {
                Some(ext) if {
                    &&& ext.len() == 3 || (ext.len() == 4 && ext[3] == 56)
                    &&& ext[0] == 109 || ext[0] == 77
                    &&& ext[1] == 51
                    &&& ext[2] == 117 || ext[2] == 85
                } => file.phase == unchanged,
                _ => {
                    let dir = path::joined(config_dir, encode_utf8("queue"@));
                    let playlist = path::joined(
                        dir,
                        encode_utf8("job-"@ + ident::id_text(job_id) + ".m3u8"@),
                    );
                    let made = normalize_step(file, EventModel::Done);
                    &&& normalize_action(file) == ActionModel::CreateDirAll(dir)
                    &&& normalize_step(file, EventModel::Failed).phase
                        == NormalizePhaseModel::Finished(
                        Err::<NormalizedModel, InputErrorModel>(InputErrorModel::QueueDir(dir)),
                    )
                    &&& normalize_action(made) == ActionModel::WriteFile(
                        playlist,
                        encode_utf8("#EXTM3U\n"@ + text::shown(requested) + "\n"@),
                    )
                    &&& normalize_step(made, EventModel::Failed).phase
                        == NormalizePhaseModel::Finished(
                        Err::<NormalizedModel, InputErrorModel>(InputErrorModel::Playlist(playlist)),
                    )
                    &&& normalize_step(made, EventModel::Done).phase
                        == NormalizePhaseModel::Finished(
                        Ok::<NormalizedModel, InputErrorModel>(
                            NormalizedModel { cli_path: playlist, temp_playlist: Some(playlist) },
                        ),
                    )
                },
            }
        }),
{
    match path::extension(requested) {
        Some(ext) => {
            playlist_extensions(ext);
        },
        None => {},
    }
}

/// An existing file becomes the job's temporary playlist exactly where its extension is not that
/// of a playlist, byte by byte, and the playlist could be written.
pub proof fn other_files_are_wrapped(
    config_dir: Seq<u8>,
    job_id: u128,
    requested: Seq<u8>,
    w: InputWorld,
)
    requires
        !w.is_dir,
        w.is_file,
    ensures
        ({
            let result = normalize_run(normalization(config_dir, job_id, requested), w);
            match path::extension(requested) {
                Some(ext) if {
                    &&& ext.len() == 3 || (ext.len() == 4 && ext[3] == 56)
                    &&& ext[0] == 109 || ext[0] == 77
                    &&& ext[1] == 51
                    &&& ext[2] == 117 || ext[2] == 85
                } => result matches Ok(input) && input.cli_path == requested
                    && input.temp_playlist is None,
                _ => w.queue_dir_created && w.playlist_written ==> (result matches Ok(input)
                    && input.temp_playlist == Some(input.cli_path) && path::file_name(
                    input.cli_path,
                ) == Some(encode_utf8("job-"@ + ident::id_text(job_id) + ".m3u8"@))),
            }
        }),
{
    normalization_result(config_dir, job_id, requested, w);
    match path::extension(requested) {
        Some(ext) => {
            playlist_extensions(ext);
        },
        None => {},
    }
    lemma_playlist_name(job_id);
    path::joined_file_name(queue_dir(config_dir), encode_utf8(playlist_name(job_id)));
}

/// What the errors say.
pub proof fn input_error_texts(p: Seq<u8>)
    ensures
        input_error_text(InputErrorModel::NeitherDirectoryNorFile)
            == "path is neither existing directory nor file"@,
        input_error_text(InputErrorModel::QueueDir(p)) == "failed creating queue dir "@
            + text::shown(p),
        input_error_text(InputErrorModel::Playlist(p)) == "failed writing temp playlist "@
            + text::shown(p),
{
}

/// The model of a normalized input leaves nothing out.
pub proof fn normalized_model(input: NormalizedInput)
    ensures
        input@.cli_path == input.cli_path.bytes@,
        match input.temp_playlist {
            Some(p) => input@.temp_playlist == Some(p.bytes@),
            None => input@.temp_playlist is None,
        },
{
}

/// An event that answers what the normalization waits for brings it nearer to its end; any other event changes
/// nothing.
pub proof fn normalization_goes_on(m: NormalizationModel, e: EventModel)
    ensures
        effects::answers(normalize_action(m), e) ==> normalize_rank(
            NormalizationModel { phase: normalize_next(m, e), ..m },
        ) < normalize_rank(m),
        !effects::answers(normalize_action(m), e) ==> normalize_next(m, e) == m.phase,
{
}

/// The model of a normalization says what the normalization says: which path it is about, for
/// which job, and what it ended with.
pub proof fn normalization_model(n: Normalization)
    ensures
        n@.config_dir == n.config_dir.bytes@,
        n@.job_id == n.job_id,
        n@.requested == n.requested.bytes@,
        match n.phase {
            NormalizePhase::Finished(Ok(input)) => n@.phase == NormalizePhaseModel::Finished(
                Ok::<NormalizedModel, InputErrorModel>(input@),
            ),
            NormalizePhase::Finished(Err(InputError::NeitherDirectoryNorFile)) => n@.phase
                == NormalizePhaseModel::Finished(
                Err::<NormalizedModel, InputErrorModel>(InputErrorModel::NeitherDirectoryNorFile),
            ),
            NormalizePhase::Finished(Err(InputError::QueueDir(p))) => n@.phase
                == NormalizePhaseModel::Finished(
                Err::<NormalizedModel, InputErrorModel>(InputErrorModel::QueueDir(p.bytes@)),
            ),
            NormalizePhase::Finished(Err(InputError::Playlist(p))) => n@.phase
                == NormalizePhaseModel::Finished(
                Err::<NormalizedModel, InputErrorModel>(InputErrorModel::Playlist(p.bytes@)),
            ),
            _ => !(n@.phase is Finished),
        },
{
}

} // verus!
