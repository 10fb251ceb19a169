//! What is read from paths, and how they are ordered.
use crate::directory::DirItem;
use crate::laws::lists;
use crate::order::Ranked;
use crate::path;
use crate::path::PartView;
use crate::path::PathPart;
use crate::path::PrefixView;
use std::path::PathBuf;
use vstd::prelude::*;

verus! {

/// The file name is the last component, and there is none if that is not a plain name.
pub proof fn the_file_name_is_the_last_component(p: PathBuf, name: Seq<u8>)
    ensures
        path::file_name_of(p) == Some(name) <==> path::path_components(p).len() > 0
            && path::path_components(p)[path::path_components(p).len() - 1] == PartView::Normal(
            name,
        ),
{
}

/// There is no dot in it.
pub open spec fn dotless(s: Seq<u8>) -> bool {
    forall|i: int| 0 <= i < s.len() ==> #[trigger] s[i] != 46
}

proof fn lemma_behind_last_dot(stem: Seq<u8>, ext: Seq<u8>)
    requires
        dotless(ext),
    ensures
        path::behind_last_dot(stem.push(46) + ext) == stem.len() + 1,
    decreases ext.len(),
{
    let name = stem.push(46) + ext;
    if ext.len() == 0 {
        assert(name =~= stem.push(46));
    } else {
        assert(name.last() == ext.last());
        assert(ext[ext.len() - 1] == ext.last());
        assert(name.drop_last() =~= stem.push(46) + ext.drop_last());
        assert forall|i: int| 0 <= i < ext.drop_last().len() implies #[trigger] ext.drop_last()[i]
            != 46 by {
            assert(ext[i] != 46);
        }
        lemma_behind_last_dot(stem, ext.drop_last());
    }
}

proof fn lemma_no_dot(name: Seq<u8>)
    requires
        dotless(name),
    ensures
        path::behind_last_dot(name) == 0,
    decreases name.len(),
{
    if name.len() > 0 {
        assert(name[name.len() - 1] == name.last());
        assert forall|i: int| 0 <= i < name.drop_last().len() implies #[trigger] name.drop_last()[i]
            != 46 by {
            assert(name[i] != 46);
        }
        lemma_no_dot(name.drop_last());
    }
}

/// The extension is what stands behind the last dot, unless that dot comes first.
pub proof fn the_extension_stands_behind_the_last_dot(stem: Seq<u8>, ext: Seq<u8>)
    requires
        dotless(ext),
    ensures
        stem.len() > 0 ==> path::extension_of(stem.push(46) + ext) == Some(ext),
        stem.len() == 0 ==> path::extension_of(stem.push(46) + ext) is None,
        path::extension_of(ext) is None,
{
    lemma_behind_last_dot(stem, ext);
    lemma_no_dot(ext);
    assert((stem.push(46) + ext).skip((stem.len() + 1) as int) =~= ext);
}

/// The text is flac, mp3, mp4, m4a or opus.
pub open spec fn names_music(ext: Seq<char>) -> bool {
    ext == "flac"@ || ext == "mp3"@ || ext == "mp4"@ || ext == "m4a"@ || ext == "opus"@
}

/// A path is music if and only if its last component is a name with something before its
/// last dot and one of the five extensions behind it. The rest of the path does not matter.
pub proof fn music_is_known_by_its_extension(
    p: PathBuf,
    stem: Seq<u8>,
    ext: Seq<u8>,
)
    requires
        dotless(ext),
        path::path_components(p).len() > 0,
        path::path_components(p).last() == PartView::Normal(stem.push(46) + ext),
    ensures
        path::is_music(p) <==> stem.len() > 0 && vstd::utf8::valid_utf8(ext) && names_music(
            vstd::utf8::decode_utf8(ext),
        ),
{
    the_extension_stands_behind_the_last_dot(stem, ext);
    music_extensions_are_five(vstd::utf8::decode_utf8(ext));
}

/// The extensions of music are just those five.
pub proof fn music_extensions_are_five(ext: Seq<char>)
    ensures
        path::is_music_extension(ext) <==> names_music(ext),
{
    let all = path::FILE_EXTENSIONS;
    assert(all@.len() == 5);
    assert(all@[0]@ == "flac"@);
    assert(all@[1]@ == "mp3"@);
    assert(all@[2]@ == "mp4"@);
    assert(all@[3]@ == "m4a"@);
    assert(all@[4]@ == "opus"@);
}

/// A path without a file name, or whose name has no dot, is no music.
pub proof fn without_a_dot_there_is_no_music(p: PathBuf)
    ensures
        path::path_components(p).len() == 0 ==> !path::is_music(p),
        path::path_components(p).len() > 0 && !(path::path_components(p).last() is Normal)
            ==> !path::is_music(p),
        path::path_components(p).len() > 0 && (path::path_components(p).last() matches
            PartView::Normal(name) && dotless(name)) ==> !path::is_music(p),
{
    if path::path_components(p).len() > 0 {
        if let PartView::Normal(name) = path::path_components(p).last() {
            if dotless(name) {
                lemma_no_dot(name);
            }
        }
    }
}

/// Bytes are shown as the text that they encode, and as nothing if they encode none.
pub proof fn names_are_decoded(bytes: Seq<u8>)
    ensures
        vstd::utf8::valid_utf8(bytes) ==> path::decoded(bytes) == vstd::utf8::decode_utf8(bytes),
        !vstd::utf8::valid_utf8(bytes) ==> path::decoded(bytes).len() == 0,
{
}

/// Two paths are the same if and only if they have the same components.
pub proof fn paths_are_the_same_by_components(a: PathBuf, b: PathBuf)
    ensures
        path::same_path(a, b) <==> path::path_components(a) == path::path_components(b),
        <PathBuf as Ranked>::key(&a) == path::path_components(a),
{
}

/// Paths are ordered by the first component in which they differ, and a folder comes before
/// all that is in it.
pub proof fn paths_are_ordered_by_the_first_difference(a: PathBuf, b: PathBuf, i: int)
    requires
        0 <= i <= path::path_components(a).len(),
        i <= path::path_components(b).len(),
        forall|j: int|
            0 <= j < i ==> path::path_components(a)[j] == #[trigger] path::path_components(b)[j],
    ensures
        ({
            let x = path::path_components(a);
            let y = path::path_components(b);
            &&& i == x.len() ==> <PathBuf as Ranked>::key_le(a.key(), b.key())
            &&& i < x.len() && i == y.len() ==> !<PathBuf as Ranked>::key_le(a.key(), b.key())
            &&& i < x.len() && i < y.len() && x[i] != y[i] ==> (<PathBuf as Ranked>::key_le(
                a.key(),
                b.key(),
            ) <==> PathPart::key_le(x[i], y[i]))
        }),
{
    lists::dictionary_order_is_by_the_first_difference(
        |x: PartView, y: PartView| PathPart::key_le(x, y),
        path::path_components(a),
        path::path_components(b),
        i,
    );
}

/// Names in a path are ordered by the first byte in which they differ, and a beginning
/// comes before the whole.
pub proof fn names_are_ordered_by_the_first_difference(a: Seq<u8>, b: Seq<u8>, i: int)
    requires
        0 <= i <= a.len(),
        i <= b.len(),
        forall|j: int| 0 <= j < i ==> a[j] == #[trigger] b[j],
    ensures
        i == a.len() ==> PathPart::key_le(PartView::Normal(a), PartView::Normal(b)),
        i < a.len() && i == b.len() ==> !PathPart::key_le(PartView::Normal(a), PartView::Normal(b)),
        i < a.len() && i < b.len() && a[i] != b[i] ==> (PathPart::key_le(
            PartView::Normal(a),
            PartView::Normal(b),
        ) <==> a[i] <= b[i]),
{
    let by_byte = |x: u8, y: u8| <u8 as Ranked>::key_le(x, y);
    lists::dictionary_order_is_by_the_first_difference(by_byte, a, b, i);
    let m = seq![a];
    let n = seq![b];
    let by_name = |x: Seq<u8>, y: Seq<u8>| <Vec<u8> as Ranked>::key_le(x, y);
    if a == b {
        assert(m =~= n);
        crate::order::lemma_lex_reflexive(by_name, m);
    } else {
        lists::dictionary_order_is_by_the_first_difference(by_name, m, n, 0);
    }
}

/// The kinds of components come in this order: prefixes, the root, here, the parent, names.
pub proof fn kinds_of_components_are_in_order(prefix: PrefixView, name: Seq<u8>)
    ensures
        PathPart::key_le(PartView::Prefix(prefix), PartView::RootDir),
        !PathPart::key_le(PartView::RootDir, PartView::Prefix(prefix)),
        PathPart::key_le(PartView::RootDir, PartView::CurDir),
        !PathPart::key_le(PartView::CurDir, PartView::RootDir),
        PathPart::key_le(PartView::CurDir, PartView::ParentDir),
        !PathPart::key_le(PartView::ParentDir, PartView::CurDir),
        PathPart::key_le(PartView::ParentDir, PartView::Normal(name)),
        !PathPart::key_le(PartView::Normal(name), PartView::ParentDir),
{
}

/// The kinds of prefixes come in this order: verbatim ones, verbatim shares, verbatim
/// drives, devices, shares, drives.
pub proof fn kinds_of_prefixes_are_in_order(
    a: Seq<u8>,
    b: Seq<u8>,
    c: Seq<u8>,
    d: u8,
    e: Seq<u8>,
    f: Seq<u8>,
    g: Seq<u8>,
    h: u8,
)
    ensures
        PathPart::key_le(
            PartView::Prefix(PrefixView::Verbatim(a)),
            PartView::Prefix(PrefixView::VerbatimUnc(b, c)),
        ),
        PathPart::key_le(
            PartView::Prefix(PrefixView::VerbatimUnc(b, c)),
            PartView::Prefix(PrefixView::VerbatimDisk(d)),
        ),
        PathPart::key_le(
            PartView::Prefix(PrefixView::VerbatimDisk(d)),
            PartView::Prefix(PrefixView::DeviceNs(e)),
        ),
        PathPart::key_le(
            PartView::Prefix(PrefixView::DeviceNs(e)),
            PartView::Prefix(PrefixView::Unc(f, g)),
        ),
        PathPart::key_le(
            PartView::Prefix(PrefixView::Unc(f, g)),
            PartView::Prefix(PrefixView::Disk(h)),
        ),
{
}

/// Drives are ordered by their letters, and shares by their servers first and then by
/// themselves.
pub proof fn drives_and_shares_are_ordered_by_name(
    c: u8,
    d: u8,
    server: Seq<u8>,
    share: Seq<u8>,
    other_server: Seq<u8>,
    other_share: Seq<u8>,
)
    ensures
        PathPart::key_le(
            PartView::Prefix(PrefixView::Disk(c)),
            PartView::Prefix(PrefixView::Disk(d)),
        ) <==> c <= d,
        PathPart::key_le(
            PartView::Prefix(PrefixView::VerbatimDisk(c)),
            PartView::Prefix(PrefixView::VerbatimDisk(d)),
        ) <==> c <= d,
        PathPart::key_le(
            PartView::Prefix(PrefixView::Unc(server, share)),
            PartView::Prefix(PrefixView::Unc(other_server, other_share)),
        ) <==> (if server == other_server {
            PathPart::key_le(PartView::Normal(share), PartView::Normal(other_share))
        } else {
            PathPart::key_le(PartView::Normal(server), PartView::Normal(other_server))
        }),
        PathPart::key_le(
            PartView::Prefix(PrefixView::VerbatimUnc(server, share)),
            PartView::Prefix(PrefixView::VerbatimUnc(other_server, other_share)),
        ) <==> (if server == other_server {
            PathPart::key_le(PartView::Normal(share), PartView::Normal(other_share))
        } else {
            PathPart::key_le(PartView::Normal(server), PartView::Normal(other_server))
        }),
        PathPart::key_le(
            PartView::Prefix(PrefixView::Verbatim(share)),
            PartView::Prefix(PrefixView::Verbatim(other_share)),
        ) <==> PathPart::key_le(PartView::Normal(share), PartView::Normal(other_share)),
        PathPart::key_le(
            PartView::Prefix(PrefixView::DeviceNs(share)),
            PartView::Prefix(PrefixView::DeviceNs(other_share)),
        ) <==> PathPart::key_le(PartView::Normal(share), PartView::Normal(other_share)),
{
    lemma_one_name(seq![c], seq![d]);
    lemma_one_name(share, other_share);
    lemma_one_name(server, other_server);
    let by_byte = |x: u8, y: u8| <u8 as Ranked>::key_le(x, y);
    if c == d {
        assert(seq![c] =~= seq![d]);
        lists::dictionary_order_is_by_the_first_difference(by_byte, seq![c], seq![d], 1);
    } else {
        assert(seq![c][0] != seq![d][0]);
        lists::dictionary_order_is_by_the_first_difference(by_byte, seq![c], seq![d], 0);
    }
    let by_name = |x: Seq<u8>, y: Seq<u8>| <Vec<u8> as Ranked>::key_le(x, y);
    let m = seq![server, share];
    let n = seq![other_server, other_share];
    if server != other_server {
        lists::dictionary_order_is_by_the_first_difference(by_name, m, n, 0);
    } else if share != other_share {
        lists::dictionary_order_is_by_the_first_difference(by_name, m, n, 1);
    } else {
        lists::dictionary_order_is_by_the_first_difference(by_name, m, n, 2);
        crate::order::lemma_lex_reflexive(by_byte, share);
    }
}

/// Single names are ordered as the names are.
proof fn lemma_one_name(a: Seq<u8>, b: Seq<u8>)
    ensures
        crate::order::keys_le::<Vec<u8>>(seq![a], seq![b]) <==> crate::order::keys_le::<u8>(a, b),
{
    let by_name = |x: Seq<u8>, y: Seq<u8>| <Vec<u8> as Ranked>::key_le(x, y);
    if a == b {
        crate::order::lemma_lex_reflexive(by_name, seq![a]);
        crate::order::lemma_lex_reflexive(|x: u8, y: u8| <u8 as Ranked>::key_le(x, y), a);
    } else {
        assert(seq![a][0] != seq![b][0]);
        lists::dictionary_order_is_by_the_first_difference(by_name, seq![a], seq![b], 0);
    }
}

/// A path has a prefix if and only if its first component is one, and is verbatim if and
/// only if that prefix is of one of the three verbatim kinds.
pub proof fn a_prefix_comes_first(p: PathBuf)
    ensures
        path::has_prefix(p) <==> path::path_components(p).len() > 0 && path::path_components(p)[0]
            is Prefix,
        path::is_verbatim(p) <==> path::has_prefix(p) && {
            let prefix = path::path_components(p)[0]->Prefix_0;
            prefix is Verbatim || prefix is VerbatimUnc || prefix is VerbatimDisk
        },
{
}

/// A folder below the root is the root and the rest, component by component, and is shown
/// by the text of the rest, or by none if that is no text.
pub proof fn a_folder_is_shown_without_the_root(item: DirItem, root: PathBuf)
    requires
        item.is_below(root),
    ensures
        path::stripped(item.full_dir, root) == Some(item.dir_without_root),
        path::path_text(item.dir_without_root) matches Some(s) ==> item.dir_without_root_string@
            == s,
        path::path_text(item.dir_without_root) is None ==> item.dir_without_root_string@.len() == 0,
        !path::is_verbatim(item.full_dir) && !path::has_prefix(item.dir_without_root)
            ==> path::path_components(item.full_dir) == path::path_components(root)
            + path::path_components(item.dir_without_root),
{
}

} // verus!
