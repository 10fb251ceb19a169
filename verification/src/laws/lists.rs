//! What is listed: sorted lists, the songs of folders, and devices.
use crate::device;
use crate::device::AvailableDevices;
use crate::device::Device;
use crate::device::ListedDevice;
use crate::directory;
use crate::directory::DirItem;
use crate::directory::DirectoryState;
use crate::directory::FolderContents;
use crate::list_state::ListState;
use crate::media;
use crate::media::MediaSource;
use crate::order;
use crate::order::Ranked;
use crate::path;
use crate::scan;
use crate::scan::Entry;
use crate::text;
use std::path::PathBuf;
use vstd::prelude::*;

verus! {

/// The sequence comes first in the order of a dictionary if and only if it is a prefix of
/// the other, or is smaller at the first place where they differ.
pub proof fn dictionary_order_is_by_the_first_difference<A>(
    le: spec_fn(A, A) -> bool,
    a: Seq<A>,
    b: Seq<A>,
    i: int,
)
    requires
        0 <= i <= a.len(),
        i <= b.len(),
        forall|j: int| 0 <= j < i ==> a[j] == #[trigger] b[j],
    ensures
        i == a.len() ==> order::lex_le(le, a, b),
        i < a.len() && i == b.len() ==> !order::lex_le(le, a, b),
        i < a.len() && i < b.len() && a[i] != b[i] ==> (order::lex_le(le, a, b) <==> le(a[i], b[i])),
    decreases i,
{
    if i > 0 {
        let x = a.drop_first();
        let y = b.drop_first();
        assert(a[0] == b[0]);
        assert forall|j: int| 0 <= j < i - 1 implies x[j] == #[trigger] y[j] by {
            assert(a[j + 1] == b[j + 1]);
        }
        dictionary_order_is_by_the_first_difference(le, x, y, i - 1);
        if i < a.len() && i < b.len() {
            assert(x[i - 1] == a[i] && y[i - 1] == b[i]);
        }
    }
}

/// A sorted list has as many values as the list it was made of, and the same ones as often;
/// none stands before one with a smaller key, and those with one key stand as they stood.
pub proof fn sorting_only_reorders<T: Ranked>(r: Seq<T>, s: Seq<T>)
    requires
        order::stable_sort_of(r, s),
    ensures
        r.len() == s.len(),
        r.to_multiset() == s.to_multiset(),
        forall|i: int, j: int|
            0 <= i < j < r.len() ==> T::key_le(
                (#[trigger] r[i]).key(),
                (#[trigger] r[j]).key(),
            ),
        forall|k: T::Key| #[trigger] order::with_key(r, k) == s.filter(|x: T| x.key() == k),
{
    broadcast use vstd::seq_lib::group_to_multiset_ensures;

    assert(r.len() == r.to_multiset().len());
    assert(s.len() == s.to_multiset().len());
}

/// Keys that differ are in order one way only, so that a list is sorted in one way.
pub proof fn keys_are_in_one_order<T: Ranked>(a: T::Key, b: T::Key)
    ensures
        T::key_le(a, b) || T::key_le(b, a),
        T::key_le(a, b) && T::key_le(b, a) ==> a == b,
{
    T::keys_are_ordered();
    let le = |x: T::Key, y: T::Key| T::key_le(x, y);
    assert(le(a, b) || le(b, a));
    assert(le(a, b) && le(b, a) ==> a == b);
}

/// Bytes are ordered as numbers, and characters by their code points.
pub proof fn bytes_and_characters_are_ordered_by_number(a: u8, b: u8, c: char, d: char)
    ensures
        <u8 as Ranked>::key_le(a, b) <==> a <= b,
        <char as Ranked>::key_le(c, d) <==> c as u32 <= d as u32,
        <u8 as Ranked>::key(&a) == a,
        <char as Ranked>::key(&c) == c,
{
}

/// Texts are ordered by the first character in which they differ, and a beginning comes
/// before the whole.
pub proof fn texts_are_ordered_by_the_first_difference(a: String, b: String, i: int)
    requires
        0 <= i <= a@.len(),
        i <= b@.len(),
        forall|j: int| 0 <= j < i ==> a@[j] == #[trigger] b@[j],
    ensures
        i == a@.len() ==> String::key_le(a.key(), b.key()),
        i < a@.len() && i == b@.len() ==> !String::key_le(a.key(), b.key()),
        i < a@.len() && i < b@.len() && a@[i] != b@[i] ==> (String::key_le(a.key(), b.key())
            <==> a@[i] as u32 <= b@[i] as u32),
{
    dictionary_order_is_by_the_first_difference(
        |x: char, y: char| <char as Ranked>::key_le(x, y),
        a@,
        b@,
        i,
    );
}

/// The music among the paths, by the paths of the songs: each of them is music from the
/// list, each music file of the list is one of them, and there are as many as in the list.
pub proof fn songs_are_the_music_of_the_folder(listing: Seq<PathBuf>, songs: Seq<MediaSource>)
    requires
        order::stable_sort_of(media::paths(songs), listing.filter(|p: PathBuf| path::is_music(p))),
    ensures
        forall|i: int|
            0 <= i < songs.len() ==> path::is_music((#[trigger] songs[i]).path) && listing.contains(
                songs[i].path,
            ),
        forall|p: PathBuf| #[trigger]
            listing.contains(p) && path::is_music(p) ==> exists|i: int|
                0 <= i < songs.len() && (#[trigger] songs[i]).path == p,
        forall|i: int, j: int|
            0 <= i < j < songs.len() ==> <PathBuf as Ranked>::key_le(
                path::path_components((#[trigger] songs[i]).path),
                path::path_components((#[trigger] songs[j]).path),
            ),
{
    broadcast use vstd::seq_lib::group_to_multiset_ensures;
    broadcast use vstd::seq_lib::group_filter_ensures;

    let music = |p: PathBuf| path::is_music(p);
    let found = listing.filter(music);
    let all = media::paths(songs);
    assert forall|i: int| 0 <= i < songs.len() implies path::is_music((#[trigger] songs[i]).path)
        && listing.contains(songs[i].path) by {
        assert(all[i] == songs[i].path);
        assert(all.contains(all[i]));
        assert(all.to_multiset().count(all[i]) > 0);
        assert(found.contains(all[i]));
        let j = choose|j: int| 0 <= j < found.len() && found[j] == all[i];
        assert(music(found[j]));
        listing.lemma_filter_contains_rev(music, all[i]);
    }
    assert forall|p: PathBuf| #[trigger] listing.contains(p) && path::is_music(p) implies exists|
        i: int,
    | 0 <= i < songs.len() && (#[trigger] songs[i]).path == p by {
        assert(music(p));
        assert(found.contains(p));
        assert(found.to_multiset().count(p) > 0);
        assert(all.contains(p));
        let i = choose|i: int| 0 <= i < all.len() && all[i] == p;
        assert(songs[i].path == p);
    }
    assert forall|i: int, j: int| 0 <= i < j < songs.len() implies <PathBuf as Ranked>::key_le(
        path::path_components((#[trigger] songs[i]).path),
        path::path_components((#[trigger] songs[j]).path),
    ) by {
        assert(all[i] == songs[i].path && all[j] == songs[j].path);
        assert(<PathBuf as Ranked>::key_le(all[i].key(), all[j].key()));
    }
}

/// Music is missing from a list if and only if none of its paths is music.
pub proof fn no_music_means_none(listing: Seq<PathBuf>, i: int)
    ensures
        media::no_music(listing) && 0 <= i < listing.len() ==> !path::is_music(listing[i]),
        (forall|j: int| 0 <= j < listing.len() ==> !path::is_music(#[trigger] listing[j]))
            ==> media::no_music(listing),
{
}

/// The folders with music are found part by part: for each music file its own folder, for
/// each folder those within it, for all else none.
pub proof fn the_search_goes_part_by_part(folder: PathBuf, a: Seq<Entry>, b: Seq<Entry>)
    ensures
        scan::music_folders(folder, Seq::<Entry>::empty()).len() == 0,
        scan::music_folders(folder, a + b) == scan::music_folders(folder, a) + scan::music_folders(
            folder,
            b,
        ),
    decreases b.len(),
{
    if b.len() == 0 {
        assert(a + b =~= a);
        assert(scan::music_folders(folder, a) + scan::music_folders(folder, b)
            =~= scan::music_folders(folder, a));
    } else {
        the_search_goes_part_by_part(folder, a, b.drop_last());
        assert((a + b).drop_last() =~= a + b.drop_last());
        assert((a + b).last() == b.last());
        assert(scan::music_folders(folder, a + b) =~= scan::music_folders(folder, a)
            + scan::music_folders(folder, b));
    }
}

/// What the search finds for a single entry.
pub proof fn the_search_looks_at_each_entry(folder: PathBuf, p: PathBuf, f: scan::Folder)
    ensures
        path::is_music(p) ==> scan::music_folders(folder, seq![Entry::File(p)]) == seq![folder],
        !path::is_music(p) ==> scan::music_folders(folder, seq![Entry::File(p)]).len() == 0,
        scan::music_folders(folder, seq![Entry::Folder(f)]) == scan::music_folders(
            f.path,
            f.entries@,
        ),
        scan::music_folders(folder, seq![Entry::Other(p)]).len() == 0,
{
    let none = Seq::<Entry>::empty();
    assert(scan::music_folders(folder, none).len() == 0);
    assert(seq![Entry::File(p)].drop_last() =~= none);
    assert(seq![Entry::Folder(f)].drop_last() =~= none);
    assert(seq![Entry::Other(p)].drop_last() =~= none);
    assert(scan::music_folders(folder, none) =~= Seq::empty());
    assert(scan::music_folders(folder, seq![Entry::File(p)]) =~= (if path::is_music(p) {
        seq![folder]
    } else {
        Seq::empty()
    }));
    assert(scan::music_folders(folder, seq![Entry::Folder(f)]) =~= scan::music_folders(
        f.path,
        f.entries@,
    ));
    assert(scan::music_folders(folder, seq![Entry::Other(p)]) =~= Seq::empty());
}

/// A folder is added to the end of the list if no folder with the same components is in it,
/// and otherwise the list stays; folders are added one after the other.
pub proof fn folders_are_added_once(v: Seq<PathBuf>, new: Seq<PathBuf>, p: PathBuf)
    ensures
        scan::with_paths(v, Seq::empty()) == v,
        ({
            let w = scan::with_paths(v, new);
            let known = exists|i: int|
                0 <= i < w.len() && path::path_components(#[trigger] w[i])
                    == path::path_components(p);
            &&& known ==> scan::with_paths(v, new.push(p)) == w
            &&& !known ==> scan::with_paths(v, new.push(p)) == w.push(p)
        }),
{
    assert(new.push(p).drop_last() =~= new);
    let w = scan::with_paths(v, new);
    if exists|i: int|
        0 <= i < w.len() && path::path_components(#[trigger] w[i]) == path::path_components(p) {
        let i = choose|i: int|
            0 <= i < w.len() && path::path_components(#[trigger] w[i]) == path::path_components(p);
        assert(path::same_path(w[i], p));
    }
}

/// The songs of a folder are named part by part: each music file by its name, nothing else.
pub proof fn songs_are_named_part_by_part(a: Seq<Entry>, b: Seq<Entry>)
    ensures
        directory::music_names(a + b) == directory::music_names(a) + directory::music_names(b),
    decreases b.len(),
{
    if b.len() == 0 {
        assert(a + b =~= a);
        assert(directory::music_names(a) + directory::music_names(b) =~= directory::music_names(a));
    } else {
        songs_are_named_part_by_part(a, b.drop_last());
        assert((a + b).drop_last() =~= a + b.drop_last());
        assert((a + b).last() == b.last());
        assert(directory::music_names(a + b) =~= directory::music_names(a)
            + directory::music_names(b));
    }
}

/// What a single entry of a folder adds to its songs.
pub proof fn each_music_file_is_named(p: PathBuf, f: scan::Folder)
    ensures
        !path::is_music(p) ==> directory::music_names(seq![Entry::File(p)]).len() == 0,
        path::is_music(p) ==> directory::music_names(seq![Entry::File(p)]) == seq![
            path::decoded(path::file_name_of(p)->0),
        ],
        directory::music_names(seq![Entry::Folder(f)]).len() == 0,
        directory::music_names(seq![Entry::Other(p)]).len() == 0,
{
    let none = Seq::<Entry>::empty();
    assert(directory::music_names(none) =~= Seq::empty());
    assert(seq![Entry::File(p)].drop_last() =~= none);
    assert(seq![Entry::Folder(f)].drop_last() =~= none);
    assert(seq![Entry::Other(p)].drop_last() =~= none);
    if path::is_music(p) {
        assert(directory::music_names(seq![Entry::File(p)]) =~= seq![
            path::decoded(path::file_name_of(p)->0),
        ]);
    }
}

/// The songs of a folder are found by its path, however that is written.
pub proof fn songs_are_found_by_path(contents: Seq<FolderContents>, dir: PathBuf, i: int)
    requires
        directory::distinct_dirs(contents),
    ensures
        0 <= i < contents.len() && path::path_components(contents[i].dir) == path::path_components(
            dir,
        ) ==> directory::songs_of(contents, dir) == Some(contents[i].songs),
        directory::songs_of(contents, dir) is Some ==> exists|j: int|
            0 <= j < contents.len() && path::path_components((#[trigger] contents[j]).dir)
                == path::path_components(dir),
{
    if directory::songs_of(contents, dir) is Some {
        let j = choose|j: int| directory::is_place(contents, dir, j);
        assert(directory::is_place(contents, dir, j));
        if 0 <= i < contents.len() && path::path_components(contents[i].dir)
            == path::path_components(dir) {
            if i < j {
                assert(!path::same_path(contents[i].dir, contents[j].dir));
            } else if j < i {
                assert(!path::same_path(contents[j].dir, contents[i].dir));
            }
        }
    } else if 0 <= i < contents.len() && path::path_components(contents[i].dir)
        == path::path_components(dir) {
        assert(directory::is_place(contents, dir, i));
    }
}

/// After the folders that were found are listed, each of them is on the list and no other,
/// in order, and each has for songs those it had and those just read, in order. What is
/// selected, searched for or filtered stays.
pub proof fn found_folders_are_listed_with_their_songs(
    pre: DirectoryState,
    found: Seq<PathBuf>,
    listings: Seq<Vec<Entry>>,
    post: DirectoryState,
    i: int,
)
    requires
        DirectoryState::lists(pre, found, listings, post),
        0 <= i < found.len(),
    ensures
        post.items.dirs@[i].is_below(pre.root_dir),
        post.items.dirs@.len() == found.len(),
        exists|j: int| 0 <= j < post.items.dirs@.len() && (#[trigger] post.items.dirs@[j]).full_dir
            == found[i],
        found.contains(post.items.dirs@[i].full_dir),
        forall|j: int|
            i < j < post.items.dirs@.len() ==> <PathBuf as Ranked>::key_le(
                path::path_components(post.items.dirs@[i].full_dir),
                path::path_components((#[trigger] post.items.dirs@[j]).full_dir),
            ),
        directory::songs_of(post.contents@, found[i]) matches Some(songs) && {
            &&& forall|m: int, n: int|
                0 <= m < n < songs@.len() ==> <String as Ranked>::key_le(
                    (#[trigger] songs@[m])@,
                    (#[trigger] songs@[n])@,
                )
            &&& directory::texts(songs@).to_multiset() == ((match directory::songs_of(
                pre.contents@,
                found[i],
            ) {
                Some(known) => directory::texts(known@),
                None => Seq::empty(),
            }) + directory::music_names(listings[i]@)).to_multiset()
        },
        post.items.state == pre.items.state,
        post.filtered_items == pre.filtered_items,
        post.textedit == pre.textedit,
        post.focus == pre.focus,
        post.debounce == pre.debounce,
        post.exit_reason == pre.exit_reason,
        post.root_dir == pre.root_dir,
{
    broadcast use vstd::seq_lib::group_to_multiset_ensures;

    let dirs = directory::full_dirs(post.items.dirs@);
    sorting_only_reorders(dirs, found);
    assert(dirs.len() == post.items.dirs@.len());
    assert(found.contains(found[i]));
    assert(found.to_multiset().count(found[i]) > 0);
    assert(dirs.contains(found[i]));
    let j = choose|j: int| 0 <= j < dirs.len() && dirs[j] == found[i];
    assert(post.items.dirs@[j].full_dir == found[i]);
    assert(dirs.contains(dirs[i]));
    assert(dirs.to_multiset().count(dirs[i]) > 0);
    assert(found.contains(dirs[i]));
    assert(dirs[i] == post.items.dirs@[i].full_dir);
    assert forall|j: int| i < j < post.items.dirs@.len() implies <PathBuf as Ranked>::key_le(
        path::path_components(post.items.dirs@[i].full_dir),
        path::path_components((#[trigger] post.items.dirs@[j]).full_dir),
    ) by {
        assert(dirs[j] == post.items.dirs@[j].full_dir);
        assert(<PathBuf as Ranked>::key_le(dirs[i].key(), dirs[j].key()));
    }
    assert(directory::has_songs(pre.contents@, found[i], listings[i]@, post.contents@));
    let songs = directory::songs_of(post.contents@, found[i])->0;
    assert forall|m: int, n: int| 0 <= m < n < songs@.len() implies <String as Ranked>::key_le(
        (#[trigger] songs@[m])@,
        (#[trigger] songs@[n])@,
    ) by {
        assert(<String as Ranked>::key_le(songs@[m].key(), songs@[n].key()));
    }
}

/// Listing folders leaves the songs of all others, and lists none if none is found.
pub proof fn other_folders_keep_their_songs(
    pre: DirectoryState,
    found: Seq<PathBuf>,
    listings: Seq<Vec<Entry>>,
    post: DirectoryState,
    dir: PathBuf,
)
    requires
        DirectoryState::lists(pre, found, listings, post),
        forall|i: int|
            0 <= i < found.len() ==> path::path_components(#[trigger] found[i])
                != path::path_components(dir),
    ensures
        directory::songs_of(post.contents@, dir) == directory::songs_of(pre.contents@, dir),
        post.items.dirs@.len() == found.len(),
{
    sorting_only_reorders(directory::full_dirs(post.items.dirs@), found);
    assert(!scan::listed(found, dir));
}

/// One of the entries is a file that is music.
pub open spec fn has_a_song(entries: Seq<Entry>) -> bool {
    exists|k: int|
        0 <= k < entries.len() && (#[trigger] entries[k] matches Entry::File(p) && path::is_music(p))
}

/// Folders can be listed at the start if and only if each was read again, no two have the
/// same components, each begins with those of the root, and each has a music file.
pub proof fn folders_with_music_below_the_root_can_be_listed(
    root: PathBuf,
    found: Seq<PathBuf>,
    listings: Seq<Vec<Entry>>,
)
    ensures
        DirectoryState::can_start(root, found, listings) <==> {
            &&& listings.len() == found.len()
            &&& forall|i: int, j: int|
                0 <= i < j < found.len() ==> path::path_components(#[trigger] found[i])
                    != path::path_components(#[trigger] found[j])
            &&& forall|i: int|
                0 <= i < found.len() ==> path::path_components(root).is_prefix_of(
                    path::path_components(#[trigger] found[i]),
                )
            &&& forall|i: int|
                0 <= i < listings.len() ==> has_a_song((#[trigger] listings[i])@)
        },
{
    if DirectoryState::can_start(root, found, listings) {
        assert forall|i: int, j: int| 0 <= i < j < found.len() implies path::path_components(
            #[trigger] found[i],
        ) != path::path_components(#[trigger] found[j]) by {
            assert(!path::same_path(found[i], found[j]));
        }
        assert forall|i: int| 0 <= i < listings.len() implies has_a_song(
            (#[trigger] listings[i])@,
        ) by {
            assert(scan::holds_music(listings[i]@));
        }
    }
}

/// Later on a folder without a music file can be listed too, if its songs are known.
pub proof fn known_folders_can_be_listed_again(
    s: DirectoryState,
    found: Seq<PathBuf>,
    listings: Seq<Vec<Entry>>,
)
    ensures
        s.can_list(found, listings) <==> {
            &&& listings.len() == found.len()
            &&& forall|i: int, j: int|
                0 <= i < j < found.len() ==> path::path_components(#[trigger] found[i])
                    != path::path_components(#[trigger] found[j])
            &&& forall|i: int|
                0 <= i < found.len() ==> path::path_components(s.root_dir).is_prefix_of(
                    path::path_components(#[trigger] found[i]),
                )
            &&& forall|i: int|
                0 <= i < listings.len() ==> has_a_song((#[trigger] listings[i])@)
                    || directory::songs_of(s.contents@, found[i]) is Some
        },
{
    if s.can_list(found, listings) {
        assert forall|i: int, j: int| 0 <= i < j < found.len() implies path::path_components(
            #[trigger] found[i],
        ) != path::path_components(#[trigger] found[j]) by {
            assert(!path::same_path(found[i], found[j]));
        }
        assert forall|i: int| 0 <= i < listings.len() implies has_a_song((#[trigger] listings[i])@)
            || directory::songs_of(s.contents@, found[i]) is Some by {
            assert(scan::holds_music(listings[i]@) || directory::songs_of(s.contents@, found[i])
                is Some);
        }
    }
}

/// The texts of a list are those of its strings, one by one.
pub proof fn texts_are_those_of_the_strings(s: Seq<String>, i: int)
    requires
        0 <= i < s.len(),
    ensures
        directory::texts(s).len() == s.len(),
        directory::texts(s)[i] == s[i]@,
{
}

/// Folders are searched part by part, so that those found stand in their order.
pub proof fn the_search_keeps_the_order(a: Seq<DirItem>, b: Seq<DirItem>, wanted: Seq<char>)
    ensures
        DirectoryState::matching(a + b, wanted) == DirectoryState::matching(a, wanted)
            + DirectoryState::matching(b, wanted),
{
    Seq::filter_distributes_over_add(
        a,
        b,
        |d: DirItem| text::occurs_in(wanted, d.dir_without_root_string@),
    );
}

/// A folder is found if and only if the wanted text stands in its own.
pub proof fn a_folder_is_found_by_its_text(
    item: DirItem,
    wanted: Seq<char>,
    before: Seq<char>,
    behind: Seq<char>,
)
    ensures
        item.dir_without_root_string@ == before + wanted + behind ==> DirectoryState::matching(
            seq![item],
            wanted,
        ) == seq![item],
        DirectoryState::matching(seq![item], wanted).len() > 0 ==> exists|a: Seq<char>, b: Seq<char>|
            #[trigger] (a + wanted + b) == item.dir_without_root_string@,
{
    reveal(Seq::filter);
    let one = seq![item];
    let pred = |d: DirItem| text::occurs_in(wanted, d.dir_without_root_string@);
    assert(one.drop_last() =~= Seq::empty());
    assert(one.drop_last().filter(pred) =~= Seq::empty());
    assert(one.last() == item);
    crate::laws::texts::a_text_occurs_where_it_stands(wanted, before, behind);
    if pred(item) {
        assert(one.filter(pred) =~= one);
        crate::laws::texts::what_occurs_stands_somewhere(wanted, item.dir_without_root_string@);
    } else {
        assert(one.filter(pred) =~= Seq::empty());
    }
}

/// The devices to choose from are found part by part: those that can play, in their order,
/// behind the default device.
pub proof fn devices_that_play_come_behind_the_default(
    default_device: Option<Device>,
    a: Seq<ListedDevice>,
    b: Seq<ListedDevice>,
    one: ListedDevice,
)
    ensures
        device::able_to_play(a + b) == device::able_to_play(a) + device::able_to_play(b),
        one.supports_output ==> device::able_to_play(seq![one]) == seq![one.device],
        !one.supports_output ==> device::able_to_play(seq![one]).len() == 0,
        default_device is None ==> device::choices(default_device, a) == device::able_to_play(a),
        default_device matches Some(first) ==> device::choices(default_device, a)[0] == first
            && device::choices(default_device, a).skip(1) == device::able_to_play(a),
{
    reveal(Seq::filter);
    let able = |l: ListedDevice| l.supports_output;
    Seq::filter_distributes_over_add(a, b, able);
    assert(device::able_to_play(a + b) =~= device::able_to_play(a) + device::able_to_play(b));
    let s = seq![one];
    assert(s.drop_last() =~= Seq::empty());
    assert(s.drop_last().filter(able) =~= Seq::empty());
    assert(s.last() == one);
    if one.supports_output {
        assert(s.filter(able) =~= s);
        assert(device::able_to_play(s) =~= seq![one.device]);
    } else {
        assert(s.filter(able) =~= Seq::empty());
    }
    if default_device is Some {
        assert(device::choices(default_device, a).skip(1) =~= device::able_to_play(a));
    }
}

/// A device is shown by its own name, the first one as the default, and one that cannot
/// say its name as unknown.
pub proof fn devices_are_named(devices: AvailableDevices, i: int)
    requires
        devices.well_formed(),
        0 <= i < devices.output_devices@.len(),
    ensures
        devices.names@.len() == devices.output_devices@.len(),
        devices.output_devices@[i].description is Err ==> devices.names@[i]@ == "Unknown"@,
        devices.output_devices@[i].description matches Ok(said) ==> devices.names@[i]@ == (if i
            == 0 {
            "Default Device"@
        } else {
            said.name@
        }),
{
    assert(devices.names@[i]@ == device::shown_name(i, devices.output_devices@[i]));
}

/// A list is first shown from its start, with nothing selected.
pub proof fn lists_start_unselected()
    ensures
        ListState::initial().selected is None,
        ListState::initial().offset == 0,
{
}

/// The folder screen starts with the list of folders in use, nothing selected, searched for
/// or found, and a tenth of a second to wait before a search.
pub proof fn the_folder_screen_starts_empty(s: DirectoryState, root: PathBuf)
    requires
        s.is_initial(root),
    ensures
        s.root_dir == root,
        s.focus is View,
        s.textedit@.len() == 0,
        s.items.dirs@.len() == 0,
        s.filtered_items.dirs@.len() == 0,
        s.contents@.len() == 0,
        s.items.state.selected is None,
        s.filtered_items.state.selected is None,
        s.debounce.last_trigger is None,
        s.debounce.delay == 100_000_000,
        s.exit_reason is None,
{
}

} // verus!
