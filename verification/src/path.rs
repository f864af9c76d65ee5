//! Paths of the worker's file system: byte strings with `/` between the components, read
//! by the rules that `std::path` has on Unix. The worker is made for Linux containers; it neither
//! makes nor takes a path of a system with other rules.
use crate::text;
use vstd::prelude::*;
use vstd::slice::*;
use vstd::utf8::*;

verus! {

/// The separator, `/`.
pub const SLASH: u8 = 47;

/// The byte `.`.
pub const DOT: u8 = 46;

/// The last index at which `b` stands in `s`, or -1 where it stands nowhere.
pub open spec fn last_at(s: Seq<u8>, b: u8) -> int
    decreases s.len(),
{
    if s.len() == 0 {
        -1
    } else if s.last() == b {
        s.len() - 1
    } else {
        last_at(s.drop_last(), b)
    }
}

/// The pieces of a path between its separators.
pub open spec fn segments(path: Seq<u8>) -> Seq<Seq<u8>>
    decreases path.len(),
    via segments_decreases
{
    let cut = last_at(path, SLASH);
    if cut < 0 {
        seq![path]
    } else {
        segments(path.take(cut)).push(path.skip(cut + 1))
    }
}

#[via_fn]
proof fn segments_decreases(path: Seq<u8>) {
    lemma_last_at(path, SLASH);
}

/// A piece that names something: neither empty nor `.`.
pub open spec fn is_component(segment: Seq<u8>) -> bool {
    segment.len() > 0 && segment != seq![DOT]
}

/// The pieces of a path that count: empty ones and `.` are passed over.
pub open spec fn components(path: Seq<u8>) -> Seq<Seq<u8>> {
    segments(path).filter(|s: Seq<u8>| is_component(s))
}

/// The last component of a path, unless there is none or it is `..`.
pub open spec fn file_name(path: Seq<u8>) -> Option<Seq<u8>> {
    let parts = components(path);
    if parts.len() == 0 || parts.last() == seq![DOT, DOT] {
        None
    } else {
        Some(parts.last())
    }
}

/// What stands before the last dot of a file name; the whole name where there is no dot
/// or it only starts with one.
pub open spec fn stem_of(name: Seq<u8>) -> Seq<u8> {
    let cut = last_at(name, DOT);
    if cut > 0 {
        name.take(cut)
    } else {
        name
    }
}

/// What stands behind the last dot of a file name, unless there is no dot or it only
/// starts with one.
pub open spec fn extension_of(name: Seq<u8>) -> Option<Seq<u8>> {
    let cut = last_at(name, DOT);
    if cut > 0 {
        Some(name.skip(cut + 1))
    } else {
        None
    }
}

/// The extension of the last component of a path.
pub open spec fn extension(path: Seq<u8>) -> Option<Seq<u8>> {
    match file_name(path) {
        Some(name) => extension_of(name),
        None => None,
    }
}

/// `path` taken relative to `base`: an absolute `path` stands for itself.
pub open spec fn joined(base: Seq<u8>, path: Seq<u8>) -> Seq<u8> {
    if path.len() > 0 && path[0] == SLASH {
        path
    } else if base.len() == 0 || base.last() == SLASH {
        base + path
    } else {
        base.push(SLASH) + path
    }
}

/// A name that is a single component of its own.
pub open spec fn plain_name(name: Seq<u8>) -> bool {
    &&& is_component(name)
    &&& name != seq![DOT, DOT]
    &&& forall|i: int| 0 <= i < name.len() ==> #[trigger] name[i] != SLASH
}

/// At `last_at` stands the byte, and behind it the byte stands nowhere.
pub proof fn lemma_last_at(s: Seq<u8>, b: u8)
    ensures
        -1 <= last_at(s, b) < s.len(),
        last_at(s, b) >= 0 ==> s[last_at(s, b)] == b,
        forall|i: int| last_at(s, b) < i < s.len() ==> #[trigger] s[i] != b,
    decreases s.len(),
{
    if s.len() > 0 && s.last() != b {
        let front = s.drop_last();
        lemma_last_at(front, b);
        assert forall|i: int| last_at(s, b) < i < s.len() implies #[trigger] s[i] != b by {
            if i < front.len() {
                assert(front[i] == s[i]);
            }
        }
    }
}

/// `last_at` is the only index with the properties that it has.
pub proof fn lemma_last_at_is(s: Seq<u8>, b: u8, at: int)
    requires
        -1 <= at < s.len(),
        at >= 0 ==> s[at] == b,
        forall|i: int| at < i < s.len() ==> #[trigger] s[i] != b,
    ensures
        last_at(s, b) == at,
{
    lemma_last_at(s, b);
    let found = last_at(s, b);
    if found > at {
        assert(s[found] != b);
    } else if found < at {
        assert(s[at] != b);
    }
}

/// Only the last piece and the pieces before it make up the components of a path.
proof fn lemma_components_step(path: Seq<u8>)
    ensures
        ({
            let cut = last_at(path, SLASH);
            let last = path.skip(cut + 1);
            let before = if cut < 0 {
                seq![]
            } else {
                components(path.take(cut))
            };
            components(path) == if is_component(last) {
                before.push(last)
            } else {
                before
            }
        }),
{
    let pred = |s: Seq<u8>| is_component(s);
    let cut = last_at(path, SLASH);
    lemma_last_at(path, SLASH);
    let last = path.skip(cut + 1);
    reveal_with_fuel(Seq::filter, 2);
    if cut < 0 {
        assert(last =~= path);
        assert(segments(path) =~= seq![path]);
        assert(segments(path).drop_last() =~= Seq::<Seq<u8>>::empty());
    } else {
        assert(segments(path).drop_last() =~= segments(path.take(cut)));
    }
}

/// The name under which something lies in a directory is its file name.
pub proof fn joined_file_name(base: Seq<u8>, name: Seq<u8>)
    requires
        plain_name(name),
    ensures
        file_name(joined(base, name)) == Some(name),
        extension(joined(base, name)) == extension_of(name),
{
    let path = joined(base, name);
    let cut = path.len() - name.len() - 1;
    assert(name[0] != SLASH);
    assert forall|i: int| cut < i < path.len() implies #[trigger] path[i] != SLASH by {
        assert(path[i] == name[i - cut - 1]);
    }
    lemma_last_at_is(path, SLASH, cut);
    assert(path.skip(cut + 1) =~= name);
    lemma_components_step(path);
}

/// A file name is a plain name.
pub proof fn file_name_is_plain(path: Seq<u8>)
    ensures
        file_name(path) matches Some(name) ==> plain_name(name),
    decreases path.len(),
{
    let cut = last_at(path, SLASH);
    lemma_last_at(path, SLASH);
    lemma_components_step(path);
    let last = path.skip(cut + 1);
    if is_component(last) {
        assert forall|i: int| 0 <= i < last.len() implies #[trigger] last[i] != SLASH by {
            assert(last[i] == path[i + cut + 1]);
        }
    } else if cut >= 0 {
        file_name_is_plain(path.take(cut));
    }
}

/// A path of the worker's file system.
#[derive(Debug, PartialEq, Eq)]
pub struct UnixPath {
    pub bytes: Vec<u8>,
}

impl View for UnixPath {
    type V = Seq<u8>;

    open spec fn view(&self) -> Seq<u8> {
        self.bytes@
    }
}

impl Clone for UnixPath {
    fn clone(&self) -> (r: Self)
        ensures
            r@ == self@,
    {
        UnixPath { bytes: text::copy_bytes(&self.bytes) }
    }
}

/// The last index at which `b` stands among the first `end` bytes.
fn find_last(bytes: &[u8], end: usize, b: u8) -> (r: Option<usize>)
    requires
        end <= bytes@.len(),
    ensures
        match r {
            Some(at) => at == last_at(bytes@.take(end as int), b),
            None => last_at(bytes@.take(end as int), b) == -1,
        },
{
    let mut i: usize = end;
    while i > 0
        invariant
            i <= end <= bytes@.len(),
            last_at(bytes@.take(end as int), b) == last_at(bytes@.take(i as int), b),
        decreases i,
    {
        assert(bytes@.take(i as int).drop_last() =~= bytes@.take(i - 1));
        if bytes[i - 1] == b {
            return Some(i - 1);
        }
        i = i - 1;
    }
    None
}

impl UnixPath {
    /// The path that a text spells.
    pub fn from_text(s: &str) -> (r: UnixPath)
        ensures
            r@ == encode_utf8(s@),
    {
        UnixPath { bytes: text::bytes_of(s) }
    }

    /// `path` relative to this directory.
    pub fn join(&self, path: &[u8]) -> (r: UnixPath)
        ensures
            r@ == joined(self@, path@),
    {
        let mut bytes: Vec<u8> = Vec::new();
        if !(path.len() > 0 && path[0] == SLASH) {
            bytes.extend_from_slice(self.bytes.as_slice());
            assert(bytes@ =~= self@);
            if bytes.len() > 0 && bytes[bytes.len() - 1] != SLASH {
                bytes.push(SLASH);
            }
        }
        let ghost front = bytes@;
        bytes.extend_from_slice(path);
        assert(bytes@ =~= front + path@);
        assert(bytes@ =~= joined(self@, path@));
        UnixPath { bytes }
    }

    /// A text relative to this directory.
    pub fn join_text(&self, path: &str) -> (r: UnixPath)
        ensures
            r@ == joined(self@, encode_utf8(path@)),
    {
        self.join(path.as_bytes())
    }

    /// The last component, unless there is none or it is `..`.
    pub fn file_name(&self) -> (r: Option<Vec<u8>>)
        ensures
            match r {
                Some(name) => file_name(self@) == Some(name@),
                None => file_name(self@) is None,
            },
    {
        let bytes: &[u8] = self.bytes.as_slice();
        let mut end: usize = bytes.len();
        assert(self@.take(end as int) =~= self@);
        loop
            invariant
                bytes@ == self@,
                end <= bytes@.len(),
                file_name(self@) == file_name(self@.take(end as int)),
            decreases end,
        {
            let ghost path = self@.take(end as int);
            proof {
                lemma_last_at(path, SLASH);
                lemma_components_step(path);
            }
            let cut: Option<usize> = find_last(bytes, end, SLASH);
            let start: usize = match cut {
                Some(at) => at + 1,
                None => 0,
            };
            let segment: &[u8] = slice_subrange(bytes, start, end);
            assert(segment@ =~= path.skip(last_at(path, SLASH) + 1));
            let dot: bool = segment.len() == 1 && segment[0] == DOT;
            assert(dot <==> segment@ =~= seq![DOT]);
            if segment.len() > 0 && !dot {
                let up: bool = segment.len() == 2 && segment[0] == DOT && segment[1] == DOT;
                assert(up <==> segment@ =~= seq![DOT, DOT]);
                if up {
                    return None;
                }
                return Some(slice_to_vec(segment));
            }
            match cut {
                Some(at) => {
                    assert(path.take(at as int) =~= self@.take(at as int));
                    end = at;
                },
                None => {
                    return None;
                },
            }
        }
    }

    /// The extension of the last component.
    pub fn extension(&self) -> (r: Option<Vec<u8>>)
        ensures
            match r {
                Some(ext) => extension(self@) == Some(ext@),
                None => extension(self@) is None,
            },
    {
        match self.file_name() {
            Some(name) => split_extension(&name).1,
            None => None,
        }
    }

    /// The path as text, with U+FFFD where its bytes are not UTF-8.
    pub fn display(&self) -> (r: String)
        ensures
            r@ == text::shown(self@),
    {
        text::show(self.bytes.as_slice())
    }
}

/// The stem and the extension of a file name.
pub fn split_extension(name: &Vec<u8>) -> (r: (Vec<u8>, Option<Vec<u8>>))
    ensures
        r.0@ == stem_of(name@),
        match r.1 {
            Some(ext) => extension_of(name@) == Some(ext@),
            None => extension_of(name@) is None,
        },
{
    let bytes: &[u8] = name.as_slice();
    assert(name@.take(name@.len() as int) =~= name@);
    proof {
        lemma_last_at(name@, DOT);
    }
    match find_last(bytes, bytes.len(), DOT) {
        Some(at) if at > 0 => {
            let stem: &[u8] = slice_subrange(bytes, 0, at);
            let ext: &[u8] = slice_subrange(bytes, at + 1, bytes.len());
            assert(stem@ =~= name@.take(at as int));
            assert(ext@ =~= name@.skip(at + 1));
            (slice_to_vec(stem), Some(slice_to_vec(ext)))
        },
        _ => (text::copy_bytes(name), None),
    }
}

/// A dot inside a name, with no dot behind it, parts the stem from the extension.
pub proof fn last_dot_parts_stem_and_extension(name: Seq<u8>, at: int)
    requires
        0 < at < name.len(),
        name[at] == 46,
        forall|i: int| at < i < name.len() ==> #[trigger] name[i] != 46,
    ensures
        stem_of(name) == name.subrange(0, at),
        extension_of(name) == Some(name.subrange(at + 1, name.len() as int)),
{
    lemma_last_at_is(name, 46, at);
    assert(name.take(at) =~= name.subrange(0, at));
    assert(name.skip(at + 1) =~= name.subrange(at + 1, name.len() as int));
}

/// A name with no dot behind its first byte is its own stem and has no extension.
pub proof fn names_without_extension(name: Seq<u8>)
    requires
        forall|i: int| 0 < i < name.len() ==> #[trigger] name[i] != 46,
    ensures
        stem_of(name) == name,
        extension_of(name) is None,
{
    lemma_last_at(name, 46);
}

/// What stands behind the last separator of a path is its file name, unless it is empty, `.` or
/// `..`; and the extension of a path is that of its file name.
pub proof fn file_name_is_the_last_component(front: Seq<u8>, name: Seq<u8>)
    requires
        front.len() == 0 || front.last() == 47,
        name.len() > 0,
        forall|i: int| 0 <= i < name.len() ==> #[trigger] name[i] != 47,
        name != seq![46u8],
        name != seq![46u8, 46u8],
    ensures
        file_name(front + name) == Some(name),
        extension(front + name) == extension_of(name),
{
    let path = front + name;
    lemma_cut_behind_front(front, name);
    lemma_components_step(path);
}

proof fn lemma_cut_behind_front(front: Seq<u8>, last: Seq<u8>)
    requires
        front.len() == 0 || front.last() == 47,
        forall|i: int| 0 <= i < last.len() ==> #[trigger] last[i] != 47,
    ensures
        last_at(front + last, 47) == front.len() - 1,
        (front + last).skip(front.len() as int) == last,
        front.len() > 0 ==> (front + last).take(front.len() - 1) == front.drop_last(),
{
    let path = front + last;
    assert forall|i: int| front.len() - 1 < i < path.len() implies #[trigger] path[i] != 47 by {
        assert(path[i] == last[i - front.len()]);
    }
    if front.len() > 0 {
        assert(path[front.len() - 1] == front.last());
    }
    lemma_last_at_is(path, 47, front.len() - 1);
    assert(path.skip(front.len() as int) =~= last);
    if front.len() > 0 {
        assert(path.take(front.len() - 1) =~= front.drop_last());
    }
}

/// Separators and the component `.` at the end of a path make no difference to its file name.
pub proof fn trailing_separators_are_passed_over(path: Seq<u8>)
    ensures
        file_name(path + seq![47u8]) == file_name(path),
        file_name(path + seq![47u8, 46u8]) == file_name(path),
{
    let front = path + seq![47u8];
    lemma_cut_behind_front(front, seq![]);
    lemma_cut_behind_front(front, seq![46u8]);
    assert(front + Seq::<u8>::empty() =~= front);
    assert(front.drop_last() =~= path);
    lemma_components_step(front);
    assert(front + seq![46u8] =~= path + seq![47u8, 46u8]);
    lemma_components_step(path + seq![47u8, 46u8]);
}

/// The empty path, a lone `.` and a path that ends with the component `..` have no file name; a
/// path without a file name has no extension.
pub proof fn paths_without_a_name(front: Seq<u8>, path: Seq<u8>)
    requires
        front.len() == 0 || front.last() == 47,
    ensures
        file_name(seq![]) is None,
        file_name(seq![46u8]) is None,
        file_name(front + seq![46u8, 46u8]) is None,
        file_name(path) is None ==> extension(path) is None,
{
    let none = Seq::<u8>::empty();
    lemma_cut_behind_front(none, none);
    assert(none + none =~= none);
    lemma_components_step(none);
    lemma_cut_behind_front(none, seq![46u8]);
    assert(none + seq![46u8] =~= seq![46u8]);
    lemma_components_step(seq![46u8]);
    lemma_cut_behind_front(front, seq![46u8, 46u8]);
    lemma_components_step(front + seq![46u8, 46u8]);
}

/// A relative path is put behind the base, with one separator between them where the base does
/// not end with one; an absolute path, and any path behind an empty base, stands for itself.
pub proof fn joined_paths(base: Seq<u8>, path: Seq<u8>)
    ensures
        ({
            let j = joined(base, path);
            if base.len() == 0 || (path.len() > 0 && path[0] == 47) {
                j == path
            } else {
                &&& j.subrange(0, base.len() as int) == base
                &&& j.subrange(j.len() - path.len(), j.len() as int) == path
                &&& j.len() == base.len() + path.len() + if base.last() == 47 {
                    0int
                } else {
                    1int
                }
                &&& base.last() != 47 ==> j[base.len() as int] == 47
            }
        }),
{
    let j = joined(base, path);
    if base.len() == 0 || (path.len() > 0 && path[0] == 47) {
        assert(j =~= path);
    } else {
        assert(j.subrange(0, base.len() as int) =~= base);
        assert(j.subrange(j.len() - path.len(), j.len() as int) =~= path);
    }
}

/// The model of a path is its bytes.
pub proof fn path_model(p: UnixPath)
    ensures
        p@ == p.bytes@,
{
}

} // verus!
