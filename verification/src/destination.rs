//! Finding a free name for a tagged file in the directory that it is moved to.
use crate::effects;
use crate::effects::{Action, ActionModel, Event, EventModel};
use crate::path;
use crate::path::UnixPath;
use crate::text;
use vstd::prelude::*;
use vstd::string::*;
use vstd::utf8::*;

verus! {

/// How many names are tried: the file's own name and the numbers below this one.
pub const NAME_LIMIT: u32 = 10000;

/// Why no name was found.
#[derive(Debug, PartialEq, Eq)]
pub enum DestinationError {
    /// The source path has no file name.
    NoFileName(UnixPath),
    /// The stem of the source's file name is not UTF-8.
    NoStem(UnixPath),
    /// All names in the directory are taken, for the source.
    NoneFree(UnixPath, UnixPath),
}

/// How far the search has come.
#[derive(Debug, PartialEq, Eq)]
pub enum SearchPhase {
    /// For this file name, the name with this number is tried.
    Probe(Vec<u8>, u32),
    Finished(Result<UnixPath, DestinationError>),
}

/// The search for a free name.
#[derive(Debug, PartialEq, Eq)]
pub struct DestinationSearch {
    pub destination_dir: UnixPath,
    pub source: UnixPath,
    pub phase: SearchPhase,
}

/// The model of [`DestinationError`].
#[verifier::ext_equal]
pub enum DestinationErrorModel {
    NoFileName(Seq<u8>),
    NoStem(Seq<u8>),
    NoneFree(Seq<u8>, Seq<u8>),
}

/// The model of [`SearchPhase`].
#[verifier::ext_equal]
pub enum SearchPhaseModel {
    Probe(Seq<u8>, nat),
    Finished(Result<Seq<u8>, DestinationErrorModel>),
}

/// The model of [`DestinationSearch`].
#[verifier::ext_equal]
pub struct SearchModel {
    pub destination_dir: Seq<u8>,
    pub source: Seq<u8>,
    pub phase: SearchPhaseModel,
}

impl View for DestinationError {
    type V = DestinationErrorModel;

    open spec fn view(&self) -> DestinationErrorModel {
        match *self {
            DestinationError::NoFileName(p) => DestinationErrorModel::NoFileName(p@),
            DestinationError::NoStem(p) => DestinationErrorModel::NoStem(p@),
            DestinationError::NoneFree(d, p) => DestinationErrorModel::NoneFree(d@, p@),
        }
    }
}

impl View for SearchPhase {
    type V = SearchPhaseModel;

    open spec fn view(&self) -> SearchPhaseModel {
        match *self {
            SearchPhase::Probe(name, index) => SearchPhaseModel::Probe(name@, index as nat),
            SearchPhase::Finished(result) => SearchPhaseModel::Finished(
                match result {
                    Ok(p) => Ok(p@),
                    Err(e) => Err(e@),
                },
            ),
        }
    }
}

impl View for DestinationSearch {
    type V = SearchModel;

    open spec fn view(&self) -> SearchModel {
        SearchModel {
            destination_dir: self.destination_dir@,
            source: self.source@,
            phase: self.phase@,
        }
    }
}

/// The extension that a numbered name keeps: one that is UTF-8 and not empty.
pub open spec fn kept_extension(name: Seq<u8>) -> Option<Seq<u8>> {
    match path::extension_of(name) {
        Some(ext) => if ext.len() > 0 && valid_utf8(ext) {
            Some(ext)
        } else {
            None
        },
        None => None,
    }
}

/// The name with a number between its stem and its extension: `stem (number).extension`.
pub open spec fn numbered_name(name: Seq<u8>, number: nat) -> Seq<u8> {
    let front = path::stem_of(name) + encode_utf8(" ("@) + text::decimal(number) + encode_utf8(")"@);
    match kept_extension(name) {
        Some(ext) => front + encode_utf8("."@) + ext,
        None => front,
    }
}

/// The name that is tried with a number: with 0, the name itself.
pub open spec fn name_to_try(name: Seq<u8>, number: nat) -> Seq<u8> {
    if number == 0 {
        name
    } else {
        numbered_name(name, number)
    }
}

/// The path that is tried with a number.
pub open spec fn candidate(destination_dir: Seq<u8>, name: Seq<u8>, number: nat) -> Seq<u8> {
    path::joined(destination_dir, name_to_try(name, number))
}

/// The text of an error.
pub open spec fn destination_error_text(e: DestinationErrorModel) -> Seq<char> {
    match e {
        DestinationErrorModel::NoFileName(source) => "source path has no filename: "@ + text::shown(
            source,
        ),
        DestinationErrorModel::NoStem(source) => "source path has no valid file stem: "@
            + text::shown(source),
        DestinationErrorModel::NoneFree(dir, source) =>
        "failed finding available destination filename in "@ + text::shown(dir) + " for "@
            + text::shown(source),
    }
}

/// A search at its beginning.
pub open spec fn search(destination_dir: Seq<u8>, source: Seq<u8>) -> SearchModel {
    SearchModel {
        destination_dir,
        source,
        phase: match path::file_name(source) {
            Some(name) => SearchPhaseModel::Probe(name, 0),
            None => SearchPhaseModel::Finished(Err(DestinationErrorModel::NoFileName(source))),
        },
    }
}

/// The action that a search waits for.
pub open spec fn search_action(m: SearchModel) -> ActionModel {
    match m.phase {
        SearchPhaseModel::Probe(name, index) => ActionModel::Exists(
            candidate(m.destination_dir, name, index),
        ),
        SearchPhaseModel::Finished(_) => ActionModel::Nothing,
    }
}

/// The phase that follows. An event that does not answer the pending action changes
/// nothing.
pub open spec fn search_next(m: SearchModel, e: EventModel) -> SearchPhaseModel {
    match (m.phase, e) {
        (SearchPhaseModel::Probe(name, index), EventModel::Flag(exists)) => if !exists {
            SearchPhaseModel::Finished(Ok(candidate(m.destination_dir, name, index)))
        } else if index == 0 && !valid_utf8(path::stem_of(name)) {
            SearchPhaseModel::Finished(Err(DestinationErrorModel::NoStem(m.source)))
        } else if index + 1 < NAME_LIMIT {
            SearchPhaseModel::Probe(name, index + 1)
        } else {
            SearchPhaseModel::Finished(
                Err(DestinationErrorModel::NoneFree(m.destination_dir, m.source)),
            )
        },
        _ => m.phase,
    }
}

fn extend(bytes: &mut Vec<u8>, more: &[u8])
    ensures
        final(bytes)@ == old(bytes)@ + more@,
{
    bytes.extend_from_slice(more);
    assert(bytes@ =~= old(bytes)@ + more@);
}

fn candidate_path(destination_dir: &UnixPath, name: &Vec<u8>, number: u32) -> (r: UnixPath)
    ensures
        r@ == candidate(destination_dir@, name@, number as nat),
{
    if number == 0 {
        return destination_dir.join(name.as_slice());
    }
    let (stem, ext): (Vec<u8>, Option<Vec<u8>>) = path::split_extension(name);
    let mut tried: Vec<u8> = stem;
    extend(&mut tried, " (".as_bytes());
    extend(&mut tried, text::decimal_bytes(number).as_slice());
    extend(&mut tried, ")".as_bytes());
    match ext {
        Some(ext) => {
            if ext.len() > 0 && text::is_utf8(ext.as_slice()) {
                extend(&mut tried, ".".as_bytes());
                extend(&mut tried, ext.as_slice());
            }
        },
        None => {},
    }
    destination_dir.join(tried.as_slice())
}

impl DestinationError {
    /// The text of the error.
    pub fn message(&self) -> (r: String)
        ensures
            r@ == destination_error_text(self@),
    {
        match self {
            DestinationError::NoFileName(source) => "source path has no filename: ".to_string().concat(
                source.display().as_str(),
            ),
            DestinationError::NoStem(source) => "source path has no valid file stem: ".to_string().concat(
                source.display().as_str(),
            ),
            DestinationError::NoneFree(dir, source) => {
                let mut s: String = "failed finding available destination filename in ".to_string();
                s.append(dir.display().as_str());
                s.append(" for ");
                s.append(source.display().as_str());
                s
            },
        }
    }
}

/// Begins the search for a free name in a directory for a file.
pub fn unique_destination_path(destination_dir: UnixPath, source: UnixPath) -> (r:
    DestinationSearch)
    ensures
        r@ == search(destination_dir@, source@),
{
    let phase: SearchPhase = match source.file_name() {
        Some(name) => SearchPhase::Probe(name, 0),
        None => SearchPhase::Finished(Err(DestinationError::NoFileName(source.clone()))),
    };
    DestinationSearch { destination_dir, source, phase }
}

impl DestinationSearch {
    /// The action that the search waits for.
    pub fn action(&self) -> (r: Action)
        ensures
            r@ == search_action(self@),
    {
        match &self.phase {
            SearchPhase::Probe(name, index) => Action::Exists(
                candidate_path(&self.destination_dir, name, *index),
            ),
            SearchPhase::Finished(_) => Action::Nothing,
        }
    }

    /// Goes on with what came of the pending action.
    pub fn step(self, event: Event) -> (r: DestinationSearch)
        ensures
            r@ == (SearchModel { phase: search_next(self@, event@), ..self@ }),
    {
        let phase: SearchPhase = match (self.phase, event) {
            (SearchPhase::Probe(name, index), Event::Flag(exists)) => if !exists {
                SearchPhase::Finished(Ok(candidate_path(&self.destination_dir, &name, index)))
            } else if index == 0 && !text::is_utf8(path::split_extension(&name).0.as_slice()) {
                SearchPhase::Finished(Err(DestinationError::NoStem(self.source.clone())))
            } else if index < NAME_LIMIT - 1 {
                SearchPhase::Probe(name, index + 1)
            } else {
                SearchPhase::Finished(
                    Err(
                        DestinationError::NoneFree(
                            self.destination_dir.clone(),
                            self.source.clone(),
                        ),
                    ),
                )
            },
            (phase, _) => phase,
        };
        DestinationSearch { destination_dir: self.destination_dir, source: self.source, phase }
    }
}

/// An upper bound on the actions that are left.
pub open spec fn search_rank(m: SearchModel) -> nat {
    match m.phase {
        SearchPhaseModel::Probe(_, index) => if index < NAME_LIMIT {
            (NAME_LIMIT - index + 1) as nat
        } else {
            1
        },
        SearchPhaseModel::Finished(_) => 0,
    }
}

/// The result of a search that is carried to its end, where `taken` says which paths exist.
pub open spec fn search_run(m: SearchModel, taken: spec_fn(Seq<u8>) -> bool) -> Result<
    Seq<u8>,
    DestinationErrorModel,
>
    decreases search_rank(m),
{
    match m.phase {
        SearchPhaseModel::Finished(result) => result,
        SearchPhaseModel::Probe(name, index) => search_run(
            SearchModel {
                phase: search_next(
                    m,
                    EventModel::Flag(taken(candidate(m.destination_dir, name, index))),
                ),
                ..m
            },
            taken,
        ),
    }
}

/// The first `n` paths to try are all taken.
pub open spec fn taken_below(
    destination_dir: Seq<u8>,
    name: Seq<u8>,
    taken: spec_fn(Seq<u8>) -> bool,
    n: nat,
) -> bool {
    forall|k: nat| k < n ==> taken(#[trigger] candidate(destination_dir, name, k))
}

/// The path with the number `n` is the one to take: it is free and those before it are not.
pub open spec fn first_free(
    destination_dir: Seq<u8>,
    name: Seq<u8>,
    taken: spec_fn(Seq<u8>) -> bool,
    n: nat,
) -> bool {
    &&& n < NAME_LIMIT
    &&& n == 0 || valid_utf8(path::stem_of(name))
    &&& taken_below(destination_dir, name, taken, n)
    &&& !taken(candidate(destination_dir, name, n))
}

proof fn lemma_search_from(
    destination_dir: Seq<u8>,
    source: Seq<u8>,
    name: Seq<u8>,
    index: nat,
    taken: spec_fn(Seq<u8>) -> bool,
)
    requires
        index < NAME_LIMIT,
        taken_below(destination_dir, name, taken, index),
        index == 0 || valid_utf8(path::stem_of(name)),
    ensures
        ({
            let m = SearchModel {
                destination_dir,
                source,
                phase: SearchPhaseModel::Probe(name, index),
            };
            match search_run(m, taken) {
                Ok(p) => exists|n: nat|
                    #[trigger] first_free(destination_dir, name, taken, n) && p == candidate(
                        destination_dir,
                        name,
                        n,
                    ),
                Err(DestinationErrorModel::NoFileName(_)) => false,
                Err(DestinationErrorModel::NoStem(s)) => s == source && taken(
                    candidate(destination_dir, name, 0),
                ) && !valid_utf8(path::stem_of(name)),
                Err(DestinationErrorModel::NoneFree(d, s)) => d == destination_dir && s == source
                    && valid_utf8(path::stem_of(name)) && taken_below(
                    destination_dir,
                    name,
                    taken,
                    NAME_LIMIT as nat,
                ),
            }
        }),
    decreases NAME_LIMIT - index,
{
    let m = SearchModel { destination_dir, source, phase: SearchPhaseModel::Probe(name, index) };
    let exists = taken(candidate(destination_dir, name, index));
    let next = SearchModel { phase: search_next(m, EventModel::Flag(exists)), ..m };
    assert(search_run(m, taken) == search_run(next, taken));
    if !exists {
        assert(first_free(destination_dir, name, taken, index));
        assert(search_run(next, taken) == Ok::<Seq<u8>, DestinationErrorModel>(
            candidate(destination_dir, name, index),
        ));
    } else if next.phase is Probe {
        lemma_search_from(destination_dir, source, name, index + 1, taken);
    }
}

/// The search ends with the first free path among the file's own name and the numbered names
/// in order. It fails exactly where the source has no file name; where the file's own name is
/// taken and its stem is not UTF-8; and where all names are taken.
pub proof fn search_finds_first_free(
    destination_dir: Seq<u8>,
    source: Seq<u8>,
    taken: spec_fn(Seq<u8>) -> bool,
)
    ensures
        match (search_run(search(destination_dir, source), taken), path::file_name(source)) {
            (Ok(p), Some(name)) => exists|n: nat|
                #[trigger] first_free(destination_dir, name, taken, n) && p == candidate(
                    destination_dir,
                    name,
                    n,
                ),
            (Err(DestinationErrorModel::NoFileName(s)), None) => s == source,
            (Err(DestinationErrorModel::NoStem(s)), Some(name)) => s == source && taken(
                candidate(destination_dir, name, 0),
            ) && !valid_utf8(path::stem_of(name)),
            (Err(DestinationErrorModel::NoneFree(d, s)), Some(name)) => d == destination_dir && s
                == source && valid_utf8(path::stem_of(name)) && taken_below(
                destination_dir,
                name,
                taken,
                NAME_LIMIT as nat,
            ),
            _ => false,
        },
{
    match path::file_name(source) {
        Some(name) => {
            lemma_search_from(destination_dir, source, name, 0, taken);
        },
        None => {},
    }
}

/// Where there is a free path to take, the search succeeds, with the first one.
pub proof fn search_succeeds_where_a_name_is_free(
    destination_dir: Seq<u8>,
    source: Seq<u8>,
    taken: spec_fn(Seq<u8>) -> bool,
    n: nat,
)
    ensures
        path::file_name(source) matches Some(name) ==> (first_free(destination_dir, name, taken, n)
            ==> search_run(search(destination_dir, source), taken) == Ok::<
            Seq<u8>,
            DestinationErrorModel,
        >(candidate(destination_dir, name, n))),
{
    search_finds_first_free(destination_dir, source, taken);
    match (search_run(search(destination_dir, source), taken), path::file_name(source)) {
        (Ok(p), Some(name)) => {
            if first_free(destination_dir, name, taken, n) {
                let k = choose|k: nat|
                    #[trigger] first_free(destination_dir, name, taken, k) && p == candidate(
                        destination_dir,
                        name,
                        k,
                    );
                if k < n {
                    assert(taken(candidate(destination_dir, name, k)));
                } else if n < k {
                    assert(taken(candidate(destination_dir, name, n)));
                }
            }
        },
        (Err(_), Some(name)) => {
            if first_free(destination_dir, name, taken, n) && n > 0 {
                assert(taken(candidate(destination_dir, name, 0)));
            }
        },
        _ => {},
    }
}

/// A search never ends with a path at which something lies.
pub proof fn search_result_is_free(
    destination_dir: Seq<u8>,
    source: Seq<u8>,
    taken: spec_fn(Seq<u8>) -> bool,
)
    ensures
        search_run(search(destination_dir, source), taken) matches Ok(p) ==> !taken(p),
{
    search_finds_first_free(destination_dir, source, taken);
}

proof fn lemma_stem_parts(name: Seq<u8>)
    ensures
        path::stem_of(name).len() <= name.len(),
        path::stem_of(name).len() < name.len() ==> name[path::stem_of(name).len() as int]
            == path::DOT,
        path::stem_of(name) == name.take(path::stem_of(name).len() as int),
        name.len() > 0 ==> path::stem_of(name).len() > 0,
        path::extension_of(name) matches Some(ext) ==> !ext.contains(path::DOT)
            && path::stem_of(name).len() < name.len() && ext == name.skip(
            path::stem_of(name).len() as int + 1,
        ),
{
    path::lemma_last_at(name, path::DOT);
    let cut = path::last_at(name, path::DOT);
    assert(name.take(name.len() as int) =~= name);
    if cut > 0 {
        let ext = name.skip(cut + 1);
        assert(!ext.contains(path::DOT)) by {
            if ext.contains(path::DOT) {
                let i = ext.index_of(path::DOT);
                assert(name[i + cut + 1] == path::DOT);
            }
        }
    }
}

proof fn lemma_brackets()
    ensures
        encode_utf8(" ("@) == seq![32u8, 40u8],
        encode_utf8(")"@) == seq![41u8],
        encode_utf8("."@) == seq![path::DOT],
{
    reveal_strlit(" (");
    reveal_strlit(")");
    reveal_strlit(".");
    is_ascii_chars_encode_utf8(" ("@);
    is_ascii_chars_encode_utf8(")"@);
    is_ascii_chars_encode_utf8("."@);
    assert(" ("@[0] as u8 == 32u8 && " ("@[1] as u8 == 40u8);
    assert(encode_utf8(" ("@) =~= seq![32u8, 40u8]);
    assert(")"@[0] as u8 == 41u8);
    assert(encode_utf8(")"@) =~= seq![41u8]);
    assert("."@[0] as u8 == path::DOT);
    assert(encode_utf8("."@) =~= seq![path::DOT]);
}

/// Every name that is tried for a file name is a plain name, so that the file comes to lie in
/// the destination directory itself.
pub proof fn tried_names_are_plain(name: Seq<u8>, number: nat)
    requires
        path::plain_name(name),
    ensures
        path::plain_name(name_to_try(name, number)),
{
    if number > 0 {
        lemma_brackets();
        lemma_stem_parts(name);
        text::decimal_is_digits(number);
        let stem = path::stem_of(name);
        let digits = text::decimal(number);
        let tried = numbered_name(name, number);
        let front = stem + seq![32u8, 40u8] + digits + seq![41u8];
        assert forall|i: int| 0 <= i < front.len() implies #[trigger] front[i] != path::SLASH by {
            if i < stem.len() {
                assert(front[i] == name[i]);
            } else if i < stem.len() + 2 {
            } else if i < stem.len() + 2 + digits.len() {
                assert(front[i] == digits[i - stem.len() - 2]);
            }
        }
        assert(tried.len() > 2);
        match kept_extension(name) {
            Some(ext) => {
                assert forall|i: int| 0 <= i < tried.len() implies #[trigger] tried[i]
                    != path::SLASH by {
                    if i < front.len() {
                        assert(tried[i] == front[i]);
                    } else if i > front.len() {
                        assert(tried[i] == ext[i - front.len() - 1]);
                        assert(ext[i - front.len() - 1] == name[i - front.len() - 1 + stem.len()
                            + 1]);
                    }
                }
            },
            None => {
                assert(tried =~= front);
            },
        }
    }
}

/// The name under which a candidate lies is the name that is tried.
pub proof fn candidate_name(destination_dir: Seq<u8>, source: Seq<u8>, number: nat)
    ensures
        path::file_name(source) matches Some(name) ==> path::file_name(
            candidate(destination_dir, name, number),
        ) == Some(name_to_try(name, number)),
{
    match path::file_name(source) {
        Some(name) => {
            path::file_name_is_plain(source);
            tried_names_are_plain(name, number);
            path::joined_file_name(destination_dir, name_to_try(name, number));
        },
        None => {},
    }
}

/// A file keeps its extension, where that is UTF-8 and not empty.
pub proof fn candidates_keep_extension(destination_dir: Seq<u8>, source: Seq<u8>, number: nat)
    ensures
        path::file_name(source) matches Some(name) ==> (kept_extension(name) is Some
            ==> path::extension(candidate(destination_dir, name, number)) == path::extension(
            source,
        )),
{
    match path::file_name(source) {
        Some(name) => {
            if kept_extension(name) is Some && number > 0 {
                candidate_name(destination_dir, source, number);
                lemma_brackets();
                lemma_stem_parts(name);
                let ext = path::extension_of(name)->0;
                let tried = numbered_name(name, number);
                let at = tried.len() - ext.len() - 1;
                assert forall|i: int| at < i < tried.len() implies #[trigger] tried[i]
                    != path::DOT by {
                    assert(tried[i] == ext[i - at - 1]);
                    assert(ext.contains(ext[i - at - 1]));
                }
                path::lemma_last_at_is(tried, path::DOT, at);
                assert(tried.skip(at + 1) =~= ext);
            } else if kept_extension(name) is Some {
                candidate_name(destination_dir, source, number);
            }
        },
        None => {},
    }
}

/// No name is tried twice.
pub proof fn tried_names_differ(name: Seq<u8>, a: nat, b: nat)
    requires
        a != b,
    ensures
        name_to_try(name, a) != name_to_try(name, b),
{
    if a == 0 {
        lemma_number_changes_name(name, b);
    } else if b == 0 {
        lemma_number_changes_name(name, a);
    } else if numbered_name(name, a) == numbered_name(name, b) {
        lemma_brackets();
        let stem = path::stem_of(name);
        let tail = match kept_extension(name) {
            Some(ext) => seq![41u8, path::DOT] + ext,
            None => seq![41u8],
        };
        let da = text::decimal(a);
        let db = text::decimal(b);
        let start = (stem.len() + 2) as int;
        let na = numbered_name(name, a);
        let nb = numbered_name(name, b);
        assert(na =~= stem + seq![32u8, 40u8] + da + tail);
        assert(nb =~= stem + seq![32u8, 40u8] + db + tail);
        assert(da.len() == db.len());
        assert(da =~= na.subrange(start, start + da.len()));
        assert(db =~= nb.subrange(start, start + db.len()));
        text::decimal_injective(a, b);
    }
}

/// No path is tried twice.
pub proof fn candidates_differ(destination_dir: Seq<u8>, source: Seq<u8>, a: nat, b: nat)
    requires
        a != b,
    ensures
        path::file_name(source) matches Some(name) ==> candidate(destination_dir, name, a)
            != candidate(destination_dir, name, b),
{
    match path::file_name(source) {
        Some(name) => {
            candidate_name(destination_dir, source, a);
            candidate_name(destination_dir, source, b);
            tried_names_differ(name, a, b);
        },
        None => {},
    }
}

proof fn lemma_number_changes_name(name: Seq<u8>, number: nat)
    ensures
        number > 0 ==> numbered_name(name, number) != name,
{
    if number > 0 {
        lemma_brackets();
        lemma_stem_parts(name);
        let at = path::stem_of(name).len() as int;
        let tried = numbered_name(name, number);
        assert(tried[at] == 32u8);
        assert(tried.len() > at);
        if tried == name {
            assert(name[at] == path::DOT);
        }
    }
}

/// With a number, a file is tried under its stem, a space, the number in round brackets, and its
/// extension, whatever the extension is, as long as it is UTF-8 and not empty. So each numbered
/// candidate has the extension of the source, and the stem of the source with the number behind
/// it. A file without such an extension is tried under its stem and the number alone.
pub proof fn numbered_candidates(
    destination_dir: Seq<u8>,
    source: Seq<u8>,
    name: Seq<u8>,
    number: nat,
)
    requires
        path::file_name(source) == Some(name),
        number > 0,
    ensures
        ({
            let tried = candidate(destination_dir, name, number);
            let stem = path::stem_of(name) + seq![32u8, 40u8] + text::decimal(number) + seq![41u8];
            match path::extension(source) {
                Some(ext) if ext.len() > 0 && valid_utf8(ext) => {
                    &&& tried == path::joined(destination_dir, stem + seq![46u8] + ext)
                    &&& path::file_name(tried) == Some(stem + seq![46u8] + ext)
                    &&& path::stem_of(stem + seq![46u8] + ext) == stem
                    &&& path::extension(tried) == Some(ext)
                },
                _ => {
                    &&& tried == path::joined(destination_dir, stem)
                    &&& path::file_name(tried) == Some(stem)
                },
            }
        }),
{
    lemma_brackets();
    candidate_name(destination_dir, source, number);
    lemma_stem_parts(name);
    let stem = path::stem_of(name) + seq![32u8, 40u8] + text::decimal(number) + seq![41u8];
    match path::extension(source) {
        Some(ext) if ext.len() > 0 && valid_utf8(ext) => {
            let tried = stem + seq![46u8] + ext;
            let at = stem.len() as int;
            assert forall|i: int| at < i < tried.len() implies #[trigger] tried[i] != 46 by {
                assert(tried[i] == ext[i - at - 1]);
                assert(ext.contains(ext[i - at - 1]));
            }
            path::last_dot_parts_stem_and_extension(tried, at);
            assert(tried.subrange(0, at) =~= stem);
            assert(tried.subrange(at + 1, tried.len() as int) =~= ext);
        },
        _ => {},
    }
}

/// The search after it was told `n` times that something lies at the path in question.
pub open spec fn after_taken(m: SearchModel, n: nat) -> SearchModel
    decreases n,
{
    if n == 0 {
        m
    } else {
        let before = after_taken(m, (n - 1) as nat);
        SearchModel { phase: search_next(before, EventModel::Flag(true)), ..before }
    }
}

proof fn lemma_after_taken(destination_dir: Seq<u8>, source: Seq<u8>, name: Seq<u8>, n: nat)
    requires
        path::file_name(source) == Some(name),
        n < 10000,
        n == 0 || valid_utf8(path::stem_of(name)),
    ensures
        after_taken(search(destination_dir, source), n) == (SearchModel {
            destination_dir,
            source,
            phase: SearchPhaseModel::Probe(name, n),
        }),
    decreases n,
{
    if n > 0 {
        lemma_after_taken(destination_dir, source, name, (n - 1) as nat);
    }
}

/// The search asks first for the file's own name in the directory, and each time that something
/// lies there for the next numbered candidate, up to the number 9999. The first path at which
/// nothing lies is the result.
pub proof fn names_are_tried_in_order(
    destination_dir: Seq<u8>,
    source: Seq<u8>,
    name: Seq<u8>,
    n: nat,
)
    requires
        path::file_name(source) == Some(name),
        n < 10000,
        n == 0 || valid_utf8(path::stem_of(name)),
    ensures
        ({
            let m = after_taken(search(destination_dir, source), n);
            let tried = candidate(destination_dir, name, n);
            &&& n == 0 ==> tried == path::joined(destination_dir, name)
            &&& search_action(m) == ActionModel::Exists(tried)
            &&& search_next(m, EventModel::Flag(false)) == SearchPhaseModel::Finished(
                Ok::<Seq<u8>, DestinationErrorModel>(tried),
            )
            &&& n == 9999 ==> search_next(m, EventModel::Flag(true)) == SearchPhaseModel::Finished(
                Err::<Seq<u8>, DestinationErrorModel>(
                    DestinationErrorModel::NoneFree(destination_dir, source),
                ),
            )
            &&& !valid_utf8(path::stem_of(name)) ==> search_next(m, EventModel::Flag(true))
                == SearchPhaseModel::Finished(
                Err::<Seq<u8>, DestinationErrorModel>(DestinationErrorModel::NoStem(source)),
            )
        }),
{
    lemma_after_taken(destination_dir, source, name, n);
}

/// For a source without a file name the search fails at once.
pub proof fn sources_without_a_name(destination_dir: Seq<u8>, source: Seq<u8>)
    ensures
        path::file_name(source) is None ==> search(destination_dir, source).phase
            == SearchPhaseModel::Finished(
            Err::<Seq<u8>, DestinationErrorModel>(DestinationErrorModel::NoFileName(source)),
        ),
{
}

/// What the errors say.
pub proof fn destination_error_texts(destination_dir: Seq<u8>, source: Seq<u8>)
    ensures
        destination_error_text(DestinationErrorModel::NoFileName(source))
            == "source path has no filename: "@ + text::shown(source),
        destination_error_text(DestinationErrorModel::NoStem(source))
            == "source path has no valid file stem: "@ + text::shown(source),
        destination_error_text(DestinationErrorModel::NoneFree(destination_dir, source))
            == "failed finding available destination filename in "@ + text::shown(destination_dir)
            + " for "@ + text::shown(source),
{
}

/// An event that answers what the search waits for brings it nearer to its end; any other event changes
/// nothing.
pub proof fn search_goes_on(m: SearchModel, e: EventModel)
    ensures
        effects::answers(search_action(m), e) ==> search_rank(
            SearchModel { phase: search_next(m, e), ..m },
        ) < search_rank(m),
        !effects::answers(search_action(m), e) ==> search_next(m, e) == m.phase,
{
}

/// The model of a search says what the search says: which paths it is about, which number is
/// tried for which name, and what it ended with.
pub proof fn search_model(s: DestinationSearch)
    ensures
        s@.destination_dir == s.destination_dir.bytes@,
        s@.source == s.source.bytes@,
        match s.phase {
            SearchPhase::Probe(name, number) => s@.phase == SearchPhaseModel::Probe(
                name@,
                number as nat,
            ),
            SearchPhase::Finished(Ok(p)) => s@.phase == SearchPhaseModel::Finished(
                Ok::<Seq<u8>, DestinationErrorModel>(p.bytes@),
            ),
            SearchPhase::Finished(Err(DestinationError::NoFileName(p))) => s@.phase
                == SearchPhaseModel::Finished(
                Err::<Seq<u8>, DestinationErrorModel>(DestinationErrorModel::NoFileName(p.bytes@)),
            ),
            SearchPhase::Finished(Err(DestinationError::NoStem(p))) => s@.phase
                == SearchPhaseModel::Finished(
                Err::<Seq<u8>, DestinationErrorModel>(DestinationErrorModel::NoStem(p.bytes@)),
            ),
            SearchPhase::Finished(Err(DestinationError::NoneFree(dir, p))) => s@.phase
                == SearchPhaseModel::Finished(
                Err::<Seq<u8>, DestinationErrorModel>(
                    DestinationErrorModel::NoneFree(dir.bytes@, p.bytes@),
                ),
            ),
        },
{
}

} // verus!
