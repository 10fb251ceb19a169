//! File system paths: their components, their names and which of them are music.
use crate::order;
use crate::text;
use std::path::Component;
use std::path::PathBuf;
use std::path::Prefix;
use vstd::prelude::*;

verus! {

/// `std::path::PathBuf`, of which nothing is known but what the functions here
/// read from it.
#[verifier::external_type_specification]
#[verifier::external_body]
pub struct ExPathBuf(std::path::PathBuf);

/// The file extensions of music.
pub const FILE_EXTENSIONS: [&'static str; 5] = ["flac", "mp3", "mp4", "m4a", "opus"];

/// What a path may begin with on Windows, its names as encoded bytes. A drive is the
/// letter that it was parsed to.
pub enum PathPrefix<'a> {
    Verbatim(&'a [u8]),
    VerbatimUnc(&'a [u8], &'a [u8]),
    VerbatimDisk(u8),
    DeviceNs(&'a [u8]),
    Unc(&'a [u8], &'a [u8]),
    Disk(u8),
}

/// What a [`PathPrefix`] stands for.
#[verifier::ext_equal]
pub enum PrefixView {
    Verbatim(Seq<u8>),
    VerbatimUnc(Seq<u8>, Seq<u8>),
    VerbatimDisk(u8),
    DeviceNs(Seq<u8>),
    Unc(Seq<u8>, Seq<u8>),
    Disk(u8),
}

impl<'a> View for PathPrefix<'a> {
    type V = PrefixView;

    open spec fn view(&self) -> PrefixView {
        match self {
            PathPrefix::Verbatim(name) => PrefixView::Verbatim(name@),
            PathPrefix::VerbatimUnc(server, share) => PrefixView::VerbatimUnc(server@, share@),
            PathPrefix::VerbatimDisk(drive) => PrefixView::VerbatimDisk(*drive),
            PathPrefix::DeviceNs(name) => PrefixView::DeviceNs(name@),
            PathPrefix::Unc(server, share) => PrefixView::Unc(server@, share@),
            PathPrefix::Disk(drive) => PrefixView::Disk(*drive),
        }
    }
}

/// One component of a path, its name as encoded bytes.
pub enum PathPart<'a> {
    Prefix(PathPrefix<'a>),
    RootDir,
    CurDir,
    ParentDir,
    Normal(&'a [u8]),
}

/// What a [`PathPart`] stands for.
#[verifier::ext_equal]
pub enum PartView {
    Prefix(PrefixView),
    RootDir,
    CurDir,
    ParentDir,
    Normal(Seq<u8>),
}

impl<'a> View for PathPart<'a> {
    type V = PartView;

    open spec fn view(&self) -> PartView {
        match self {
            PathPart::Prefix(prefix) => PartView::Prefix(prefix@),
            PathPart::RootDir => PartView::RootDir,
            PathPart::CurDir => PartView::CurDir,
            PathPart::ParentDir => PartView::ParentDir,
            PathPart::Normal(name) => PartView::Normal(name@),
        }
    }
}

/// The place of a component's kind among the kinds.
pub open spec fn part_rank(part: PartView) -> int {
    match part {
        PartView::Prefix(PrefixView::Verbatim(_)) => 0,
        PartView::Prefix(PrefixView::VerbatimUnc(_, _)) => 1,
        PartView::Prefix(PrefixView::VerbatimDisk(_)) => 2,
        PartView::Prefix(PrefixView::DeviceNs(_)) => 3,
        PartView::Prefix(PrefixView::Unc(_, _)) => 4,
        PartView::Prefix(PrefixView::Disk(_)) => 5,
        PartView::RootDir => 6,
        PartView::CurDir => 7,
        PartView::ParentDir => 8,
        PartView::Normal(_) => 9,
    }
}

/// The names in a component, none for the kinds without one.
pub open spec fn part_names(part: PartView) -> Seq<Seq<u8>> {
    match part {
        PartView::Prefix(PrefixView::Verbatim(name)) => seq![name],
        PartView::Prefix(PrefixView::VerbatimUnc(server, share)) => seq![server, share],
        PartView::Prefix(PrefixView::VerbatimDisk(drive)) => seq![seq![drive]],
        PartView::Prefix(PrefixView::DeviceNs(name)) => seq![name],
        PartView::Prefix(PrefixView::Unc(server, share)) => seq![server, share],
        PartView::Prefix(PrefixView::Disk(drive)) => seq![seq![drive]],
        PartView::Normal(name) => seq![name],
        _ => Seq::empty(),
    }
}

/// Components of one kind with the same names are the same.
proof fn lemma_part_is_rank_and_names(a: PartView, b: PartView)
    requires
        part_rank(a) == part_rank(b),
        part_names(a) == part_names(b),
    ensures
        a == b,
{
    let m = part_names(a);
    let n = part_names(b);
    if m.len() > 0 {
        assert(m[0] == n[0]);
        if a is Prefix && (a->Prefix_0 is Disk || a->Prefix_0 is VerbatimDisk) {
            assert(m[0][0] == n[0][0]);
        }
    }
    if m.len() > 1 {
        assert(m[1] == n[1]);
    }
}

fn copy_name(name: &[u8]) -> (r: Vec<u8>)
    ensures
        r@ == name@,
{
    let mut r: Vec<u8> = Vec::new();
    let mut i: usize = 0;
    while i < name.len()
        invariant
            i <= name@.len(),
            r@ == name@.take(i as int),
        decreases name@.len() - i,
    {
        r.push(name[i]);
        proof {
            assert(name@.take(i + 1) =~= name@.take(i as int).push(name@[i as int]));
        }
        i = i + 1;
    }
    proof {
        assert(name@.take(i as int) =~= name@);
    }
    r
}

impl order::Ranked for Vec<u8> {
    type Key = Seq<u8>;

    open spec fn key(&self) -> Seq<u8> {
        self@
    }

    /// Names are ordered by their bytes.
    open spec fn key_le(a: Seq<u8>, b: Seq<u8>) -> bool {
        order::keys_le::<u8>(a, b)
    }

    proof fn keys_are_ordered() {
        order::keys_le_is_total_order::<u8>();
        let le = |a: Seq<u8>, b: Seq<u8>| Self::key_le(a, b);
        let by_bytes = |a: Seq<u8>, b: Seq<u8>| order::keys_le::<u8>(a, b);
        assert(le =~= by_bytes);
    }

    fn not_after(&self, other: &Self) -> (r: bool) {
        proof {
            assert(order::keys(self@) =~= self@);
            assert(order::keys(other@) =~= other@);
        }
        order::list_not_after(self, other)
    }
}

impl<'a> PathPart<'a> {
    fn rank(&self) -> (r: u8)
        ensures
            r == part_rank(self@),
    {
        match self {
            PathPart::Prefix(PathPrefix::Verbatim(_)) => 0,
            PathPart::Prefix(PathPrefix::VerbatimUnc(_, _)) => 1,
            PathPart::Prefix(PathPrefix::VerbatimDisk(_)) => 2,
            PathPart::Prefix(PathPrefix::DeviceNs(_)) => 3,
            PathPart::Prefix(PathPrefix::Unc(_, _)) => 4,
            PathPart::Prefix(PathPrefix::Disk(_)) => 5,
            PathPart::RootDir => 6,
            PathPart::CurDir => 7,
            PathPart::ParentDir => 8,
            PathPart::Normal(_) => 9,
        }
    }

    fn names(&self) -> (names: Vec<Vec<u8>>)
        ensures
            order::keys(names@) == part_names(self@),
    {
        let names: Vec<Vec<u8>> = match self {
            PathPart::Prefix(PathPrefix::Verbatim(name)) => vec![copy_name(name)],
            PathPart::Prefix(PathPrefix::VerbatimUnc(server, share)) => vec![
                copy_name(server),
                copy_name(share),
            ],
            PathPart::Prefix(PathPrefix::VerbatimDisk(drive)) => vec![vec![*drive]],
            PathPart::Prefix(PathPrefix::DeviceNs(name)) => vec![copy_name(name)],
            PathPart::Prefix(PathPrefix::Unc(server, share)) => vec![
                copy_name(server),
                copy_name(share),
            ],
            PathPart::Prefix(PathPrefix::Disk(drive)) => vec![vec![*drive]],
            PathPart::Normal(name) => vec![copy_name(name)],
            _ => Vec::new(),
        };
        proof {
            assert(order::keys(names@) =~~= part_names(self@));
        }
        names
    }
}

impl<'a> order::Ranked for PathPart<'a> {
    type Key = PartView;

    open spec fn key(&self) -> PartView {
        self@
    }

    /// Components are ordered by their kinds, and those of one kind by their names.
    open spec fn key_le(a: PartView, b: PartView) -> bool {
        ||| part_rank(a) < part_rank(b)
        ||| part_rank(a) == part_rank(b) && order::keys_le::<Vec<u8>>(part_names(a), part_names(b))
    }

    proof fn keys_are_ordered() {
        order::keys_le_is_total_order::<Vec<u8>>();
        let names = |a: Seq<Seq<u8>>, b: Seq<Seq<u8>>| order::keys_le::<Vec<u8>>(a, b);
        let le = |a: PartView, b: PartView| Self::key_le(a, b);
        assert forall|a: PartView| #[trigger] le(a, a) by {
            assert(names(part_names(a), part_names(a)));
        }
        assert forall|a: PartView, b: PartView| le(a, b) || #[trigger] le(b, a) by {
            assert(names(part_names(a), part_names(b)) || names(part_names(b), part_names(a)));
        }
        assert forall|a: PartView, b: PartView| le(a, b) && #[trigger] le(b, a) implies a == b by {
            assert(names(part_names(a), part_names(b)) && names(part_names(b), part_names(a)));
            lemma_part_is_rank_and_names(a, b);
        }
        assert forall|a: PartView, b: PartView, c: PartView|
            #[trigger] le(a, b) && #[trigger] le(b, c) implies le(a, c) by {
            if part_rank(a) == part_rank(b) && part_rank(b) == part_rank(c) {
                assert(names(part_names(a), part_names(b)) && names(part_names(b), part_names(c)));
                assert(names(part_names(a), part_names(c)));
            }
        }
    }

    fn not_after(&self, other: &Self) -> (r: bool) {
        let mine: u8 = self.rank();
        let theirs: u8 = other.rank();
        if mine != theirs {
            return mine < theirs;
        }
        order::list_not_after(&self.names(), &other.names())
    }
}

/// The components of a path, as `Path::components` yields them.
pub uninterp spec fn path_components(path: PathBuf) -> Seq<PartView>;

/// `Path::components` yields the components of the path in order, each with its
/// kind and, where it has one, its name, here as the name's encoded bytes. A prefix
/// is given as what `PrefixComponent::kind` parsed it to, not as it was written.
/// How a path is parsed into components is left to the name.
#[verifier::external_body]
fn components_of<'a>(path: &'a PathBuf) -> (parts: Vec<PathPart<'a>>)
    ensures
        order::keys(parts@) == path_components(*path),
{
    path.components().map(|c| match c {
        Component::Prefix(p) => PathPart::Prefix(match p.kind() {
            Prefix::Verbatim(n) => PathPrefix::Verbatim(n.as_encoded_bytes()),
            Prefix::VerbatimUNC(n, s) => PathPrefix::VerbatimUnc(n.as_encoded_bytes(), s.as_encoded_bytes()),
            Prefix::VerbatimDisk(d) => PathPrefix::VerbatimDisk(d),
            Prefix::DeviceNS(n) => PathPrefix::DeviceNs(n.as_encoded_bytes()),
            Prefix::UNC(n, s) => PathPrefix::Unc(n.as_encoded_bytes(), s.as_encoded_bytes()),
            Prefix::Disk(d) => PathPrefix::Disk(d),
        }),
        Component::RootDir => PathPart::RootDir,
        Component::CurDir => PathPart::CurDir,
        Component::ParentDir => PathPart::ParentDir,
        Component::Normal(n) => PathPart::Normal(n.as_encoded_bytes()),
    }).collect()
}

/// The text of a path, where it is valid Unicode.
pub uninterp spec fn path_text(path: PathBuf) -> Option<Seq<char>>;

/// `Path::to_str` gives the path as text if it is valid Unicode; the result
/// depends on the path alone.
#[verifier::external_body]
pub(crate) fn to_text(path: &PathBuf) -> (s: Option<String>)
    ensures
        s is Some == path_text(*path) is Some,
        s matches Some(s) ==> path_text(*path) == Some(s@),
{
    path.to_str().map(|s| s.to_owned())
}

/// The clone of a path is the same path.
pub assume_specification[ <std::path::PathBuf as Clone>::clone ](p: &std::path::PathBuf) -> (r:
    std::path::PathBuf)
    ensures
        r == *p,
;

/// A path without the components of another, as `Path::strip_prefix` gives it.
pub uninterp spec fn stripped(path: PathBuf, base: PathBuf) -> Option<PathBuf>;

/// The path begins with a prefix, such as the letter of a drive.
pub open spec fn has_prefix(path: PathBuf) -> bool {
    path_components(path).len() > 0 && path_components(path)[0] is Prefix
}

/// The path begins with a verbatim prefix. What stands behind one is parsed in
/// another way than elsewhere.
pub open spec fn is_verbatim(path: PathBuf) -> bool {
    path_components(path).len() > 0 && match path_components(path)[0] {
        PartView::Prefix(PrefixView::Verbatim(_)) => true,
        PartView::Prefix(PrefixView::VerbatimUnc(_, _)) => true,
        PartView::Prefix(PrefixView::VerbatimDisk(_)) => true,
        _ => false,
    }
}

/// `Path::strip_prefix` succeeds if and only if the components of `base` are the
/// first components of `path`, and then gives the path made of the others.
/// The components of that path are not said in two cases. Behind a verbatim prefix
/// a path is parsed in another way than without it, and what is left may, taken for
/// itself, begin with a prefix, as `C:` does in `x\C:\y`. Then it is only said that
/// the result depends on the two paths alone.
#[verifier::external_body]
pub(crate) fn strip_prefix(path: &PathBuf, base: &PathBuf) -> (rest: Option<PathBuf>)
    ensures
        rest == stripped(*path, *base),
        rest is Some <==> path_components(*base).is_prefix_of(path_components(*path)),
        rest matches Some(rest) ==> !is_verbatim(*path) && !has_prefix(rest)
            ==> path_components(rest) == path_components(*path).skip(
            path_components(*base).len() as int,
        ),
{
    path.strip_prefix(base).ok().map(|rest| rest.to_path_buf())
}

/// Whether a path begins with the components of another.
pub fn lies_below(path: &PathBuf, base: &PathBuf) -> (r: bool)
    ensures
        r == path_components(*base).is_prefix_of(path_components(*path)),
{
    strip_prefix(path, base).is_some()
}

impl order::Ranked for PathBuf {
    type Key = Seq<PartView>;

    open spec fn key(&self) -> Seq<PartView> {
        path_components(*self)
    }

    /// Paths are ordered component by component.
    open spec fn key_le(a: Seq<PartView>, b: Seq<PartView>) -> bool {
        order::keys_le::<PathPart>(a, b)
    }

    proof fn keys_are_ordered() {
        order::keys_le_is_total_order::<PathPart>();
        let le = |a: Seq<PartView>, b: Seq<PartView>| Self::key_le(a, b);
        let by_parts = |a: Seq<PartView>, b: Seq<PartView>| order::keys_le::<PathPart>(a, b);
        assert(le =~= by_parts);
    }

    fn not_after(&self, other: &Self) -> (r: bool) {
        let a = components_of(self);
        let b = components_of(other);
        order::list_not_after(&a, &b)
    }
}

/// Two paths are the same if their components are: how often a separator is
/// repeated makes no difference.
pub open spec fn same_path(a: PathBuf, b: PathBuf) -> bool {
    path_components(a) == path_components(b)
}

/// Whether two paths are the same.
pub fn is_same_path(a: &PathBuf, b: &PathBuf) -> (r: bool)
    ensures
        r == same_path(*a, *b),
{
    proof {
        <PathBuf as order::Ranked>::keys_are_ordered();
        let le = |x: Seq<PartView>, y: Seq<PartView>| <PathBuf as order::Ranked>::key_le(x, y);
        assert(le(path_components(*a), path_components(*a)));
        assert(le(path_components(*a), path_components(*b)) && le(
            path_components(*b),
            path_components(*a),
        ) ==> path_components(*a) == path_components(*b));
    }
    order::Ranked::not_after(a, b) && order::Ranked::not_after(b, a)
}

/// The file name of a path: its last component, if that is a plain name.
pub open spec fn file_name_of(path: PathBuf) -> Option<Seq<u8>> {
    let parts = path_components(path);
    if parts.len() == 0 {
        None
    } else {
        match parts.last() {
            PartView::Normal(name) => Some(name),
            _ => None,
        }
    }
}

/// The file name of a path.
pub fn file_name(path: &PathBuf) -> (name: Option<Vec<u8>>)
    ensures
        name is Some == file_name_of(*path) is Some,
        name matches Some(name) ==> file_name_of(*path) == Some(name@),
{
    let mut parts = components_of(path);
    proof {
        assert(parts@.len() == order::keys(parts@).len());
        if parts@.len() > 0 {
            assert(order::keys(parts@).last() == parts@.last()@);
        }
    }
    match parts.pop() {
        Some(PathPart::Normal(name)) => Some(copy_name(name)),
        _ => None,
    }
}

/// The place behind the last dot in a name, or 0 if there is no dot.
pub open spec fn behind_last_dot(name: Seq<u8>) -> int
    decreases name.len(),
{
    if name.len() == 0 {
        0
    } else if name.last() == 46 {
        name.len() as int
    } else {
        behind_last_dot(name.drop_last())
    }
}

/// The extension of a file name: what stands behind its last dot. A name without
/// a dot, or whose only dot comes first, has none.
pub open spec fn extension_of(name: Seq<u8>) -> Option<Seq<u8>> {
    if behind_last_dot(name) <= 1 {
        None
    } else {
        Some(name.skip(behind_last_dot(name)))
    }
}

/// The extension of a file name.
pub fn extension(name: &Vec<u8>) -> (ext: Option<Vec<u8>>)
    ensures
        ext is Some == extension_of(name@) is Some,
        ext matches Some(ext) ==> extension_of(name@) == Some(ext@),
{
    let mut i: usize = name.len();
    proof {
        assert(name@.take(i as int) =~= name@);
    }
    while i > 0 && name[i - 1] != 46
        invariant
            i <= name@.len(),
            behind_last_dot(name@) == behind_last_dot(name@.take(i as int)),
        decreases i,
    {
        proof {
            assert(name@.take(i as int).drop_last() =~= name@.take(i - 1));
        }
        i = i - 1;
    }
    if i <= 1 {
        return None;
    }
    let mut ext: Vec<u8> = Vec::new();
    let mut j: usize = i;
    while j < name.len()
        invariant
            i <= j <= name@.len(),
            ext@ == name@.subrange(i as int, j as int),
        decreases name@.len() - j,
    {
        ext.push(name[j]);
        j = j + 1;
        proof {
            assert(name@.subrange(i as int, j as int) =~= name@.subrange(i as int, j - 1).push(
                name@[j - 1],
            ));
        }
    }
    proof {
        assert(ext@ =~= name@.skip(i as int));
    }
    Some(ext)
}

/// `String::from_utf8` succeeds if and only if the bytes are valid UTF-8, and
/// then gives the text that they encode.
#[verifier::external_body]
fn decode(bytes: Vec<u8>) -> (s: Option<String>)
    ensures
        s is Some == vstd::utf8::valid_utf8(bytes@),
        s matches Some(s) ==> s@ == vstd::utf8::decode_utf8(bytes@),
{
    String::from_utf8(bytes).ok()
}

/// The text that bytes encode, or the empty text if they are not valid UTF-8.
pub open spec fn decoded(bytes: Seq<u8>) -> Seq<char> {
    if vstd::utf8::valid_utf8(bytes) {
        vstd::utf8::decode_utf8(bytes)
    } else {
        Seq::empty()
    }
}

/// The text that bytes encode, or the empty text if they are not valid UTF-8.
pub fn decode_or_empty(bytes: Vec<u8>) -> (s: String)
    ensures
        s@ == decoded(bytes@),
{
    match decode(bytes) {
        Some(s) => s,
        None => String::new(),
    }
}

/// The text is one of the extensions of music.
pub open spec fn is_music_extension(ext: Seq<char>) -> bool {
    exists|i: int| 0 <= i < FILE_EXTENSIONS@.len() && ext == (#[trigger] FILE_EXTENSIONS@[i])@
}

/// Whether a text is one of the extensions of music.
pub fn has_music_extension(ext: &str) -> (r: bool)
    ensures
        r == is_music_extension(ext@),
{
    let mut i: usize = 0;
    while i < FILE_EXTENSIONS.len()
        invariant
            i <= FILE_EXTENSIONS@.len(),
            forall|j: int| 0 <= j < i ==> ext@ != (#[trigger] FILE_EXTENSIONS@[j])@,
        decreases FILE_EXTENSIONS@.len() - i,
    {
        if text::same_text(ext, FILE_EXTENSIONS[i]) {
            proof {
                assert(ext@ == FILE_EXTENSIONS@[i as int]@);
            }
            return true;
        }
        i = i + 1;
    }
    false
}

/// The path names a music file: its file name has one of the extensions.
pub open spec fn is_music(path: PathBuf) -> bool {
    match file_name_of(path) {
        Some(name) => match extension_of(name) {
            Some(ext) => vstd::utf8::valid_utf8(ext) && is_music_extension(
                vstd::utf8::decode_utf8(ext),
            ),
            None => false,
        },
        None => false,
    }
}

/// Whether a path has one of the extensions of music.
pub fn matches_file_extensions(path: &PathBuf) -> (r: bool)
    ensures
        r == is_music(*path),
{
    let name = match file_name(path) {
        Some(name) => name,
        None => return false,
    };
    let ext = match extension(&name) {
        Some(ext) => ext,
        None => return false,
    };
    match decode(ext) {
        Some(ext) => has_music_extension(ext.as_str()),
        None => false,
    }
}

} // verus!
