//! The screen with the music folders.
use crate::clock::Clock;
use crate::clock::Nanos;
use crate::debounce::Debounce;
use crate::key;
use crate::key::KeyCode;
use crate::key::KeyEvent;
use crate::list_state;
use crate::list_state::ListState;
use crate::message::Msg2Sub;
use crate::message::ReasonStopped;
use crate::order;
use crate::path;
use crate::scan;
use crate::scan::Entry;
use crate::scan::Folder;
use crate::text;
use std::path::PathBuf;
use vstd::prelude::*;
use vstd::string::*;

verus! {

/// What the keys are for: the list of folders, or the text to search for.
#[derive(Clone, Copy, Debug, PartialEq, Eq, Structural)]
pub enum DirectoryFocus {
    View,
    Textedit,
}

impl Default for DirectoryFocus {
    fn default() -> (r: Self)
        ensures
            r is View,
    {
        DirectoryFocus::View
    }
}

/// A music folder: its whole path, its path from the root of all music on, and
/// that as text to show and to search.
#[derive(Debug)]
pub struct DirItem {
    pub full_dir: PathBuf,
    pub dir_without_root: PathBuf,
    pub dir_without_root_string: String,
}

/// The text of a path, empty where it is not valid text.
pub open spec fn text_or_empty(p: PathBuf) -> Seq<char> {
    match path::path_text(p) {
        Some(s) => s,
        None => Seq::empty(),
    }
}

impl DirItem {
    /// The item is made of its folder, which lies below the root.
    pub open spec fn is_below(self, root: PathBuf) -> bool {
        &&& path::stripped(self.full_dir, root) == Some(self.dir_without_root)
        &&& self.dir_without_root_string@ == text_or_empty(self.dir_without_root)
        &&& !path::is_verbatim(self.full_dir) && !path::has_prefix(self.dir_without_root)
            ==> path::path_components(root) + path::path_components(self.dir_without_root)
            == path::path_components(self.full_dir)
    }

    /// The folder at `dir`, which must lie below `root`.
    pub fn new(dir: PathBuf, root: &PathBuf) -> (item: DirItem)
        requires
            path::path_components(*root).is_prefix_of(path::path_components(dir)),
        ensures
            item.full_dir == dir,
            item.is_below(*root),
    {
        let dir_without_root = match path::strip_prefix(&dir, root) {
            Some(rest) => rest,
            None => dir.clone(),
        };
        let dir_without_root_string = match path::to_text(&dir_without_root) {
            Some(s) => s,
            None => String::new(),
        };
        proof {
            let whole = path::path_components(dir);
            let base = path::path_components(*root);
            assert(base + whole.skip(base.len() as int) =~= whole);
        }
        DirItem { full_dir: dir, dir_without_root, dir_without_root_string }
    }

    /// The folder at `dir`, if it lies below `root`.
    pub fn checked_new(dir: PathBuf, root: &PathBuf) -> (r: Option<DirItem>)
        ensures
            r is Some <==> path::path_components(*root).is_prefix_of(path::path_components(dir)),
            r matches Some(item) ==> item.full_dir == dir && item.is_below(*root),
    {
        if path::lies_below(&dir, root) {
            Some(DirItem::new(dir, root))
        } else {
            None
        }
    }
}

impl Clone for DirItem {
    fn clone(&self) -> (r: Self)
        ensures
            r == *self,
    {
        DirItem {
            full_dir: self.full_dir.clone(),
            dir_without_root: self.dir_without_root.clone(),
            dir_without_root_string: self.dir_without_root_string.clone(),
        }
    }
}

/// A list of folders on the screen.
#[derive(Debug)]
pub struct DirItems {
    pub dirs: Vec<DirItem>,
    pub state: ListState,
}

/// The whole paths of folders.
pub open spec fn full_dirs(items: Seq<DirItem>) -> Seq<PathBuf> {
    items.map_values(|d: DirItem| d.full_dir)
}

/// The songs in a folder.
#[derive(Debug)]
pub struct FolderContents {
    pub dir: PathBuf,
    pub songs: Vec<String>,
}

/// No folder has its songs listed twice.
pub open spec fn distinct_dirs(contents: Seq<FolderContents>) -> bool {
    forall|i: int, j: int|
        0 <= i < j < contents.len() ==> !path::same_path(
            #[trigger] contents[i].dir,
            #[trigger] contents[j].dir,
        )
}

/// Place `i` has the songs of the folder at `dir`.
pub open spec fn is_place(contents: Seq<FolderContents>, dir: PathBuf, i: int) -> bool {
    0 <= i < contents.len() && path::same_path(contents[i].dir, dir)
}

/// The songs of the folder at `dir`, if they are known.
pub open spec fn songs_of(contents: Seq<FolderContents>, dir: PathBuf) -> Option<Vec<String>> {
    if exists|i: int| is_place(contents, dir, i) {
        Some(contents[choose|i: int| is_place(contents, dir, i)].songs)
    } else {
        None
    }
}

/// The texts of a list.
pub open spec fn texts(s: Seq<String>) -> Seq<Seq<char>> {
    order::keys(s)
}

/// The texts of the songs of the folder at `dir`, none if they are not known.
pub open spec fn song_texts(contents: Seq<FolderContents>, dir: PathBuf) -> Seq<Seq<char>> {
    match songs_of(contents, dir) {
        Some(songs) => texts(songs@),
        None => Seq::empty(),
    }
}

/// The names of the music files among the entries of a folder.
pub open spec fn music_names(entries: Seq<Entry>) -> Seq<Seq<char>>
    decreases entries.len(),
{
    if entries.len() == 0 {
        Seq::empty()
    } else {
        let names = music_names(entries.drop_last());
        match entries.last() {
            Entry::File(p) => if path::is_music(p) {
                names.push(path::decoded(path::file_name_of(p)->0))
            } else {
                names
            },
            _ => names,
        }
    }
}

/// There are names if and only if there is a music file.
proof fn lemma_music_names(entries: Seq<Entry>)
    ensures
        music_names(entries).len() > 0 <==> scan::holds_music(entries),
    decreases entries.len(),
{
    if entries.len() > 0 {
        let front = entries.drop_last();
        lemma_music_names(front);
        assert(entries[entries.len() - 1] == entries.last());
        assert(forall|i: int| 0 <= i < front.len() ==> #[trigger] front[i] == entries[i]);
        assert(forall|i: int| 0 <= i < entries.len() - 1 ==> #[trigger] entries[i] == front[i]);
        if scan::holds_music(front) {
            let i = choose|i: int|
                0 <= i < front.len() && (#[trigger] front[i] matches Entry::File(p)
                    && path::is_music(p));
            assert(entries[i] == front[i]);
        }
    }
}

/// The songs in the place of a folder are found by its path.
proof fn lemma_songs_of(contents: Seq<FolderContents>, dir: PathBuf, i: int)
    requires
        distinct_dirs(contents),
        is_place(contents, dir, i),
    ensures
        songs_of(contents, dir) == Some(contents[i].songs),
{
    let j = choose|j: int| is_place(contents, dir, j);
    assert(is_place(contents, dir, j));
    if i < j {
        assert(!path::same_path(contents[i].dir, contents[j].dir));
    } else if j < i {
        assert(!path::same_path(contents[j].dir, contents[i].dir));
    }
}

/// The songs of a folder do not depend on how its path is written.
proof fn lemma_songs_of_same(contents: Seq<FolderContents>, a: PathBuf, b: PathBuf)
    requires
        distinct_dirs(contents),
        path::same_path(a, b),
    ensures
        songs_of(contents, a) == songs_of(contents, b),
{
    if exists|i: int| is_place(contents, a, i) {
        let i = choose|i: int| is_place(contents, a, i);
        assert(is_place(contents, b, i));
        lemma_songs_of(contents, a, i);
        lemma_songs_of(contents, b, i);
    } else if exists|i: int| is_place(contents, b, i) {
        let i = choose|i: int| is_place(contents, b, i);
        assert(is_place(contents, a, i));
    }
}

/// A text is in a list as often as the list of texts says.
proof fn lemma_text_count(s: Seq<String>, t: Seq<char>)
    ensures
        order::with_key(s, t).len() == texts(s).to_multiset().count(t),
    decreases s.len(),
{
    broadcast use vstd::seq_lib::group_to_multiset_ensures;

    reveal(Seq::filter);
    if s.len() == 0 {
        assert(texts(s) =~= Seq::empty());
    } else {
        lemma_text_count(s.drop_last(), t);
        assert(texts(s) =~= texts(s.drop_last()).push(s.last()@));
    }
}

/// Sorting keeps the texts.
proof fn lemma_sort_keeps_texts(sorted: Seq<String>, s: Seq<String>)
    requires
        order::stable_sort_of(sorted, s),
    ensures
        texts(sorted).to_multiset() == texts(s).to_multiset(),
{
    assert forall|t: Seq<char>|
        texts(sorted).to_multiset().count(t) == texts(s).to_multiset().count(t) by {
        lemma_text_count(sorted, t);
        lemma_text_count(s, t);
        assert(order::with_key(sorted, t) == order::with_key(s, t));
    }
    assert(texts(sorted).to_multiset() =~= texts(s).to_multiset());
}

/// The place of the songs of the folder at `dir`.
fn place_of(contents: &Vec<FolderContents>, dir: &PathBuf) -> (r: Option<usize>)
    ensures
        match r {
            Some(i) => is_place(contents@, *dir, i as int),
            None => forall|i: int| !is_place(contents@, *dir, i),
        },
{
    let mut i: usize = 0;
    while i < contents.len()
        invariant
            i <= contents@.len(),
            forall|j: int| 0 <= j < i ==> !is_place(contents@, *dir, j),
        decreases contents@.len() - i,
    {
        if path::is_same_path(&contents[i].dir, dir) {
            return Some(i);
        }
        i = i + 1;
    }
    None
}

/// Adds the names of the music files among the entries to a list.
fn add_music_names(songs: &mut Vec<String>, entries: &Vec<Entry>)
    ensures
        texts(final(songs)@) == texts(old(songs)@) + music_names(entries@),
{
    let ghost before = texts(songs@);
    let mut i: usize = 0;
    proof {
        assert(entries@.take(0) =~= Seq::empty());
        assert(before + music_names(entries@.take(0)) =~= before);
    }
    while i < entries.len()
        invariant
            i <= entries@.len(),
            texts(songs@) == before + music_names(entries@.take(i as int)),
        decreases entries@.len() - i,
    {
        let ghost so_far = songs@;
        let ghost names = music_names(entries@.take(i as int));
        proof {
            assert(entries@.take(i + 1).drop_last() =~= entries@.take(i as int));
            assert(entries@.take(i + 1).last() == entries@[i as int]);
        }
        match &entries[i] {
            Entry::File(p) => {
                if path::matches_file_extensions(p) {
                    let name = match path::file_name(p) {
                        Some(name) => path::decode_or_empty(name),
                        None => String::new(),
                    };
                    songs.push(name);
                    proof {
                        assert(texts(songs@) =~= texts(so_far).push(name@));
                        assert(before + names.push(name@) =~= (before + names).push(name@));
                    }
                }
            },
            _ => {},
        }
        i = i + 1;
    }
    proof {
        assert(entries@.take(i as int) =~= entries@);
    }
}

/// The songs of a folder after the entries of the folder were added to those of
/// them that were known before: all of these, in order.
pub open spec fn has_songs(
    before: Seq<FolderContents>,
    dir: PathBuf,
    entries: Seq<Entry>,
    after: Seq<FolderContents>,
) -> bool {
    songs_of(after, dir) matches Some(songs) && order::sorted(songs@) && texts(
        songs@,
    ).to_multiset() == (song_texts(before, dir) + music_names(entries)).to_multiset()
}

/// Adds the music files among the entries of the folder at `dir` to its songs.
fn add_contents(contents: &mut Vec<FolderContents>, dir: &PathBuf, entries: &Vec<Entry>)
    requires
        distinct_dirs(old(contents)@),
    ensures
        distinct_dirs(final(contents)@),
        has_songs(old(contents)@, *dir, entries@, final(contents)@),
        forall|d: PathBuf|
            !path::same_path(*dir, d) ==> #[trigger] songs_of(final(contents)@, d) == songs_of(
                old(contents)@,
                d,
            ),
{
    let ghost before = contents@;
    match place_of(contents, dir) {
        Some(i) => {
            let ghost known = contents@[i as int].songs@;
            proof {
                lemma_songs_of(before, *dir, i as int);
            }
            add_music_names(&mut contents[i].songs, entries);
            let ghost unsorted = contents@[i as int].songs@;
            order::sort(&mut contents[i].songs);
            proof {
                let after = contents@;
                lemma_sort_keeps_texts(after[i as int].songs@, unsorted);
                assert(forall|j: int|
                    0 <= j < after.len() ==> (#[trigger] after[j]).dir == before[j].dir);
                assert(distinct_dirs(after));
                assert(is_place(after, *dir, i as int));
                lemma_songs_of(after, *dir, i as int);
                assert forall|d: PathBuf| !path::same_path(*dir, d) implies #[trigger] songs_of(
                    after,
                    d,
                ) == songs_of(before, d) by {
                    if exists|j: int| is_place(before, d, j) {
                        let j = choose|j: int| is_place(before, d, j);
                        assert(is_place(after, d, j));
                        lemma_songs_of(before, d, j);
                        lemma_songs_of(after, d, j);
                    } else if exists|j: int| is_place(after, d, j) {
                        let j = choose|j: int| is_place(after, d, j);
                        assert(is_place(before, d, j));
                    }
                }
            }
        },
        None => {
            let mut songs: Vec<String> = Vec::new();
            add_music_names(&mut songs, entries);
            let ghost unsorted = songs@;
            order::sort(&mut songs);
            proof {
                lemma_sort_keeps_texts(songs@, unsorted);
                assert(texts(Seq::<String>::empty()) =~= Seq::empty());
            }
            contents.push(FolderContents { dir: dir.clone(), songs });
            proof {
                let after = contents@;
                assert(distinct_dirs(after)) by {
                    assert forall|a: int, b: int| 0 <= a < b < after.len() implies !path::same_path(
                        #[trigger] after[a].dir,
                        #[trigger] after[b].dir,
                    ) by {
                        assert(after[a] == before[a]);
                        assert(!is_place(before, *dir, a));
                    }
                }
                assert(is_place(after, *dir, before.len() as int));
                lemma_songs_of(after, *dir, before.len() as int);
                assert forall|d: PathBuf| !path::same_path(*dir, d) implies #[trigger] songs_of(
                    after,
                    d,
                ) == songs_of(before, d) by {
                    if exists|j: int| is_place(before, d, j) {
                        let j = choose|j: int| is_place(before, d, j);
                        assert(is_place(after, d, j));
                        lemma_songs_of(before, d, j);
                        lemma_songs_of(after, d, j);
                    } else if exists|j: int| is_place(after, d, j) {
                        let j = choose|j: int| is_place(after, d, j);
                        assert(is_place(before, d, j));
                    }
                }
            }
        },
    }
}

/// The state of the screen.
#[derive(Debug)]
pub struct DirectoryState {
    /// Where all music is.
    pub root_dir: PathBuf,
    /// The text to search for.
    pub textedit: String,
    pub items: DirItems,
    /// The items in whose texts the text to search for stood.
    pub filtered_items: DirItems,
    /// The songs of the folders.
    pub contents: Vec<FolderContents>,
    pub focus: DirectoryFocus,
    pub debounce: Debounce,
    pub exit_reason: Option<ReasonStopped>,
}

/// The songs of each of the folders are known.
pub open spec fn all_known(items: Seq<DirItem>, contents: Seq<FolderContents>) -> bool {
    forall|i: int|
        0 <= i < items.len() ==> songs_of(contents, (#[trigger] items[i]).full_dir) is Some
}

/// There is no folder whose songs are known and are none.
pub open spec fn none_without_songs(contents: Seq<FolderContents>) -> bool {
    forall|d: PathBuf|
        #[trigger] songs_of(contents, d) matches Some(songs) ==> songs@.len() > 0
}

/// Listing folders leaves none of those on the screen without songs.
proof fn lemma_lists_keeps_well_formed(
    pre: DirectoryState,
    found: Seq<PathBuf>,
    listings: Seq<Vec<Entry>>,
    post: DirectoryState,
)
    requires
        pre.well_formed(),
        pre.can_list(found, listings),
        DirectoryState::lists(pre, found, listings, post),
        distinct_dirs(post.contents@),
    ensures
        post.well_formed(),
{
    broadcast use vstd::seq_lib::group_to_multiset_ensures;

    assert forall|j: int| 0 <= j < found.len() implies (songs_of(
        post.contents@,
        #[trigger] found[j],
    ) matches Some(songs) && songs@.len() > 0) by {
        let songs = songs_of(post.contents@, found[j])->0;
        let known = song_texts(pre.contents@, found[j]);
        let names = music_names(listings[j]@);
        lemma_music_names(listings[j]@);
        assert(has_songs(pre.contents@, found[j], listings[j]@, post.contents@));
        assert(texts(songs@).len() == texts(songs@).to_multiset().len());
        assert((known + names).len() == (known + names).to_multiset().len());
        assert(texts(songs@).len() == songs@.len());
        if names.len() == 0 {
            let old_songs = songs_of(pre.contents@, found[j])->0;
            assert(texts(old_songs@).len() == old_songs@.len());
        }
    }
    assert forall|d: PathBuf| #[trigger] songs_of(post.contents@, d) matches Some(
        songs,
    ) implies songs_of(post.contents@, d)->0@.len() > 0 by {
        if scan::listed(found, d) {
            let j = choose|j: int| 0 <= j < found.len() && path::same_path(#[trigger] found[j], d);
            lemma_songs_of_same(post.contents@, found[j], d);
        } else {
            assert(songs_of(post.contents@, d) == songs_of(pre.contents@, d));
        }
    }
    assert forall|i: int| 0 <= i < post.items.dirs@.len() implies songs_of(
        post.contents@,
        (#[trigger] post.items.dirs@[i]).full_dir,
    ) is Some by {
        let dirs = full_dirs(post.items.dirs@);
        assert(dirs[i] == post.items.dirs@[i].full_dir);
        assert(dirs.contains(dirs[i]));
        assert(dirs.to_multiset().count(dirs[i]) > 0);
        assert(found.contains(dirs[i]));
    }
    assert forall|i: int| 0 <= i < post.filtered_items.dirs@.len() implies songs_of(
        post.contents@,
        (#[trigger] post.filtered_items.dirs@[i]).full_dir,
    ) is Some by {
        let d = pre.filtered_items.dirs@[i].full_dir;
        assert(songs_of(pre.contents@, d) is Some);
        if scan::listed(found, d) {
            let j = choose|j: int| 0 <= j < found.len() && path::same_path(#[trigger] found[j], d);
            lemma_songs_of_same(post.contents@, found[j], d);
        } else {
            assert(songs_of(post.contents@, d) == songs_of(pre.contents@, d));
        }
    }
}

impl DirectoryState {
    /// There are songs to show for each folder.
    pub open spec fn well_formed(self) -> bool {
        &&& distinct_dirs(self.contents@)
        &&& none_without_songs(self.contents@)
        &&& all_known(self.items.dirs@, self.contents@)
        &&& all_known(self.filtered_items.dirs@, self.contents@)
    }

    /// The folders that were found can be listed: they are different ones below
    /// the root, each was read again, and each has songs.
    pub open spec fn can_list(self, found: Seq<PathBuf>, listings: Seq<Vec<Entry>>) -> bool {
        &&& listings.len() == found.len()
        &&& scan::distinct(found)
        &&& forall|i: int|
            0 <= i < found.len() ==> path::path_components(self.root_dir).is_prefix_of(
                path::path_components(#[trigger] found[i]),
            )
        &&& forall|i: int|
            0 <= i < found.len() ==> scan::holds_music((#[trigger] listings[i])@)
                || songs_of(self.contents@, found[i]) is Some
    }

    /// The folders that were found are listed in order, and the songs of each are
    /// known; `listings` has what is in each of them.
    pub open spec fn lists(
        pre: DirectoryState,
        found: Seq<PathBuf>,
        listings: Seq<Vec<Entry>>,
        post: DirectoryState,
    ) -> bool {
        &&& order::stable_sort_of(full_dirs(post.items.dirs@), found)
        &&& forall|i: int|
            0 <= i < post.items.dirs@.len() ==> (#[trigger] post.items.dirs@[i]).is_below(
                pre.root_dir,
            )
        &&& forall|i: int|
            #![trigger found[i]]
            #![trigger listings[i]]
            0 <= i < found.len() ==> has_songs(
                pre.contents@,
                found[i],
                listings[i]@,
                post.contents@,
            )
        &&& forall|d: PathBuf|
            !scan::listed(found, d) ==> #[trigger] songs_of(post.contents@, d) == songs_of(
                pre.contents@,
                d,
            )
        &&& post == (DirectoryState {
            items: DirItems { dirs: post.items.dirs, ..pre.items },
            contents: post.contents,
            ..pre
        })
    }

    /// Lists the folders that were found, with their songs.
    pub fn update_candidates(&mut self, found: Vec<PathBuf>, listings: &Vec<Vec<Entry>>)
        requires
            distinct_dirs(old(self).contents@),
            old(self).can_list(found@, listings@),
        ensures
            DirectoryState::lists(*old(self), found@, listings@, *final(self)),
            distinct_dirs(final(self).contents@),
            old(self).well_formed() ==> final(self).well_formed(),
    {
        let ghost before = self.contents@;
        let ghost root = self.root_dir;
        let n: usize = found.len();
        let mut i: usize = 0;
        while i < n
            invariant
                i <= n,
                n == found@.len(),
                n == listings@.len(),
                scan::distinct(found@),
                distinct_dirs(self.contents@),
                *self == (DirectoryState { contents: self.contents, ..*old(self) }),
                before == old(self).contents@,
                forall|j: int|
                    #![trigger found@[j]]
                    0 <= j < i ==> has_songs(before, found@[j], listings@[j]@, self.contents@),
                forall|d: PathBuf|
                    !scan::listed(found@.take(i as int), d) ==> #[trigger] songs_of(
                        self.contents@,
                        d,
                    ) == songs_of(before, d),
            decreases n - i,
        {
            let ghost so_far = self.contents@;
            add_contents(&mut self.contents, &found[i], &listings[i]);
            proof {
                let d0 = found@[i as int];
                assert(!scan::listed(found@.take(i as int), d0)) by {
                    if scan::listed(found@.take(i as int), d0) {
                        let j = choose|j: int|
                            0 <= j < i && path::same_path(
                                #[trigger] found@.take(i as int)[j],
                                d0,
                            );
                        assert(found@.take(i as int)[j] == found@[j]);
                        assert(!path::same_path(found@[j], found@[i as int]));
                    }
                }
                assert(songs_of(so_far, d0) == songs_of(before, d0));
                assert forall|j: int|
                    #![trigger found@[j]]
                    0 <= j < i + 1 implies has_songs(
                    before,
                    found@[j],
                    listings@[j]@,
                    self.contents@,
                ) by {
                    if j < i {
                        assert(!path::same_path(found@[j], found@[i as int]));
                        assert(songs_of(self.contents@, found@[j]) == songs_of(so_far, found@[j]));
                    }
                }
                assert forall|d: PathBuf|
                    !scan::listed(found@.take(i + 1), d) implies #[trigger] songs_of(
                    self.contents@,
                    d,
                ) == songs_of(before, d) by {
                    let longer = found@.take(i + 1);
                    assert(longer[i as int] == d0);
                    assert(!path::same_path(d0, d));
                    assert(!scan::listed(found@.take(i as int), d)) by {
                        if scan::listed(found@.take(i as int), d) {
                            let j = choose|j: int|
                                0 <= j < i && path::same_path(
                                    #[trigger] found@.take(i as int)[j],
                                    d,
                                );
                            assert(longer[j] == found@.take(i as int)[j]);
                        }
                    }
                }
            }
            i = i + 1;
        }
        let ghost all = found@;
        proof {
            assert(all.take(n as int) =~= all);
        }
        let mut sorted = found;
        order::sort(&mut sorted);
        let ghost in_order = sorted@;
        proof {
            broadcast use vstd::seq_lib::group_to_multiset_ensures;

            assert(in_order.len() == all.len()) by {
                assert(in_order.len() == in_order.to_multiset().len());
                assert(all.len() == all.to_multiset().len());
            }
            assert forall|k: int| 0 <= k < in_order.len() implies path::path_components(
                root,
            ).is_prefix_of(path::path_components(#[trigger] in_order[k])) by {
                assert(in_order.to_multiset().count(in_order[k]) > 0) by {
                    assert(in_order.contains(in_order[k]));
                }
                assert(all.contains(in_order[k]));
            }
        }
        let mut dirs: Vec<DirItem> = Vec::new();
        let mut k: usize = 0;
        while k < sorted.len()
            invariant
                k <= sorted@.len(),
                sorted@ == in_order,
                root == self.root_dir,
                dirs@.len() == k,
                full_dirs(dirs@) == in_order.take(k as int),
                forall|j: int| 0 <= j < k ==> (#[trigger] dirs@[j]).is_below(root),
                forall|j: int|
                    0 <= j < in_order.len() ==> path::path_components(root).is_prefix_of(
                        path::path_components(#[trigger] in_order[j]),
                    ),
            decreases sorted@.len() - k,
        {
            let ghost so_far = dirs@;
            dirs.push(DirItem::new(sorted[k].clone(), &self.root_dir));
            proof {
                assert(full_dirs(dirs@) =~= full_dirs(so_far).push(in_order[k as int]));
                assert(in_order.take(k + 1) =~= in_order.take(k as int).push(in_order[k as int]));
            }
            k = k + 1;
        }
        proof {
            assert(in_order.take(k as int) =~= in_order);
        }
        self.items.dirs = dirs;
        proof {
            if old(self).well_formed() {
                lemma_lists_keeps_well_formed(*old(self), all, listings@, *self);
            }
        }
    }

    /// Whether the folders that were found can be listed.
    fn are_listable(&self, found: &Vec<PathBuf>, listings: &Vec<Vec<Entry>>) -> (r: bool)
        ensures
            r == self.can_list(found@, listings@),
    {
        if listings.len() != found.len() || !scan::are_distinct(found) {
            return false;
        }
        let mut i: usize = 0;
        while i < found.len()
            invariant
                i <= found@.len(),
                listings@.len() == found@.len(),
                forall|j: int|
                    0 <= j < i ==> path::path_components(self.root_dir).is_prefix_of(
                        path::path_components(#[trigger] found@[j]),
                    ),
                forall|j: int|
                    0 <= j < i ==> scan::holds_music((#[trigger] listings@[j])@) || songs_of(
                        self.contents@,
                        found@[j],
                    ) is Some,
            decreases found@.len() - i,
        {
            if !path::lies_below(&found[i], &self.root_dir) {
                return false;
            }
            if !scan::contains_music(&listings[i]) && place_of(&self.contents, &found[i]).is_none() {
                proof {
                    assert(!scan::holds_music(listings@[i as int]@));
                }
                return false;
            }
            i = i + 1;
        }
        true
    }

    /// Lists the folders that were found, with their songs, if they can be listed.
    /// Otherwise nothing changes.
    pub fn checked_update_candidates(&mut self, found: Vec<PathBuf>, listings: &Vec<Vec<Entry>>) -> (r:
        bool)
        requires
            distinct_dirs(old(self).contents@),
        ensures
            r == old(self).can_list(found@, listings@),
            r ==> DirectoryState::lists(*old(self), found@, listings@, *final(self)),
            !r ==> *final(self) == *old(self),
            distinct_dirs(final(self).contents@),
            old(self).well_formed() ==> final(self).well_formed(),
    {
        if !self.are_listable(&found, listings) {
            return false;
        }
        self.update_candidates(found, listings);
        true
    }

    /// The screen at the start, before any folder is listed.
    pub open spec fn is_initial(self, root_dir: PathBuf) -> bool {
        &&& self.root_dir == root_dir
        &&& self.textedit@ == Seq::<char>::empty()
        &&& self.items.dirs@ == Seq::<DirItem>::empty()
        &&& self.items.state == ListState::initial()
        &&& self.filtered_items.dirs@ == Seq::<DirItem>::empty()
        &&& self.filtered_items.state == ListState::initial()
        &&& self.contents@ == Seq::<FolderContents>::empty()
        &&& self.focus is View
        &&& self.debounce == (Debounce {
            last_trigger: None,
            delay: (100 * crate::clock::MILLISECOND) as Nanos,
        })
        &&& self.exit_reason is None
    }

    /// The screen before any folder is listed.
    fn empty(root_dir: PathBuf) -> (r: DirectoryState)
        ensures
            r.is_initial(root_dir),
            r.well_formed(),
            forall|d: PathBuf| #[trigger] songs_of(r.contents@, d) is None,
    {
        let state = DirectoryState {
            root_dir,
            textedit: String::new(),
            items: DirItems { dirs: Vec::new(), state: ListState::default() },
            filtered_items: DirItems { dirs: Vec::new(), state: ListState::default() },
            contents: Vec::new(),
            focus: DirectoryFocus::default(),
            debounce: Debounce::default(),
            exit_reason: None,
        };
        proof {
            assert forall|d: PathBuf| #[trigger] songs_of(state.contents@, d) is None by {
                assert(forall|i: int| !is_place(state.contents@, d, i));
            }
        }
        state
    }

    /// The folders that were found can be listed at the start: they are different
    /// ones below the root, each was read again, and each has songs.
    pub open spec fn can_start(
        root_dir: PathBuf,
        found: Seq<PathBuf>,
        listings: Seq<Vec<Entry>>,
    ) -> bool {
        &&& listings.len() == found.len()
        &&& scan::distinct(found)
        &&& forall|i: int|
            0 <= i < found.len() ==> path::path_components(root_dir).is_prefix_of(
                path::path_components(#[trigger] found[i]),
            )
        &&& forall|i: int|
            0 <= i < found.len() ==> scan::holds_music((#[trigger] listings[i])@)
    }

    /// The screen at the start, with the folders that were found.
    pub open spec fn starts_with(
        self,
        root_dir: PathBuf,
        found: Seq<PathBuf>,
        listings: Seq<Vec<Entry>>,
    ) -> bool {
        exists|initial: DirectoryState| #[trigger]
            initial.is_initial(root_dir) && DirectoryState::lists(initial, found, listings, self)
    }

    /// The screen with the folders that were found; `listings` has what is in
    /// each of them.
    pub fn new(root_dir: PathBuf, found: Vec<PathBuf>, listings: &Vec<Vec<Entry>>) -> (r:
        DirectoryState)
        requires
            DirectoryState::can_start(root_dir, found@, listings@),
        ensures
            r.starts_with(root_dir, found@, listings@),
            r.well_formed(),
    {
        let mut state = DirectoryState::empty(root_dir);
        state.update_candidates(found, listings);
        state
    }

    /// The screen with the folders that were found, if they can be listed.
    pub fn checked_new(root_dir: PathBuf, found: Vec<PathBuf>, listings: &Vec<Vec<Entry>>) -> (r:
        Option<DirectoryState>)
        ensures
            r is Some <==> DirectoryState::can_start(root_dir, found@, listings@),
            r matches Some(state) ==> state.starts_with(root_dir, found@, listings@)
                && state.well_formed(),
    {
        let mut state = DirectoryState::empty(root_dir);
        if state.checked_update_candidates(found, listings) {
            Some(state)
        } else {
            None
        }
    }

    /// The items in whose texts `wanted` stands.
    pub open spec fn matching(items: Seq<DirItem>, wanted: Seq<char>) -> Seq<DirItem> {
        items.filter(|d: DirItem| text::occurs_in(wanted, d.dir_without_root_string@))
    }

    /// Searches the folders for the text.
    pub fn filter_choices(&mut self)
        ensures
            final(self).filtered_items.dirs@ == DirectoryState::matching(
                old(self).items.dirs@,
                old(self).textedit@,
            ),
            *final(self) == (DirectoryState {
                filtered_items: DirItems {
                    dirs: final(self).filtered_items.dirs,
                    ..old(self).filtered_items
                },
                ..*old(self)
            }),
            old(self).well_formed() ==> final(self).well_formed(),
    {
        let ghost all = self.items.dirs@;
        let ghost wanted = self.textedit@;
        let ghost pred = |d: DirItem| text::occurs_in(wanted, d.dir_without_root_string@);
        let mut filtered: Vec<DirItem> = Vec::new();
        let mut i: usize = 0;
        proof {
            reveal(Seq::filter);
            assert(all.take(0).filter(pred) =~= Seq::empty());
        }
        while i < self.items.dirs.len()
            invariant
                *self == *old(self),
                all == self.items.dirs@,
                wanted == self.textedit@,
                pred == (|d: DirItem| text::occurs_in(wanted, d.dir_without_root_string@)),
                i <= all.len(),
                filtered@ == all.take(i as int).filter(pred),
                forall|j: int| 0 <= j < filtered@.len() ==> all.contains(#[trigger] filtered@[j]),
            decreases all.len() - i,
        {
            let item = &self.items.dirs[i];
            if text::contains(item.dir_without_root_string.as_str(), self.textedit.as_str()) {
                filtered.push(item.clone());
            }
            proof {
                reveal(Seq::filter);
                assert(all.take(i + 1).drop_last() =~= all.take(i as int));
                assert(all.take(i + 1).last() == all[i as int]);
            }
            i = i + 1;
        }
        proof {
            assert(all.take(i as int) =~= all);
        }
        self.filtered_items.dirs = filtered;
    }

    /// The screen gives up the keyboard.
    pub open spec fn leaving(self, reason: ReasonStopped) -> DirectoryState {
        DirectoryState { exit_reason: Some(reason), ..self }
    }

    /// Another folder is selected in the list of all.
    pub open spec fn item_selected(self, entry: usize) -> DirectoryState {
        DirectoryState {
            items: DirItems {
                state: ListState { selected: Some(entry), ..self.items.state },
                ..self.items
            },
            ..self
        }
    }

    /// Another folder is selected in the list of those that were searched for.
    pub open spec fn filtered_item_selected(self, entry: usize) -> DirectoryState {
        DirectoryState {
            filtered_items: DirItems {
                state: ListState { selected: Some(entry), ..self.filtered_items.state },
                ..self.filtered_items
            },
            ..self
        }
    }

    /// What a key does while the keys are for the list of folders.
    pub open spec fn key_for_view(self, code: KeyCode) -> (DirectoryState, Option<Msg2Sub>) {
        if code is Esc {
            (self.leaving(ReasonStopped::Quit), None)
        } else if code is Tab {
            (self.leaving(ReasonStopped::ChangeScreen), None)
        } else if code is Enter {
            (self.leaving(ReasonStopped::NewSources), None)
        } else if code == KeyCode::Char('/') {
            (DirectoryState { focus: DirectoryFocus::Textedit, ..self }, None)
        } else if key::goes_up(code) {
            (self.item_selected(list_state::entry_above(self.items.state.selected)), None)
        } else if key::goes_down(code) {
            (self.item_selected(list_state::entry_below(self.items.state.selected)), None)
        } else if code == KeyCode::Char('g') || code is Home {
            (self.item_selected(0), None)
        } else if code == KeyCode::Char('G') || code is End {
            (self.item_selected(usize::MAX), None)
        } else if code == KeyCode::Char('r') {
            (self, Some(Msg2Sub::Randomize))
        } else {
            (self, key::playback_message(code))
        }
    }

    /// The text was changed.
    pub open spec fn typed(
        pre: DirectoryState,
        text: Seq<char>,
        now: Nanos,
        post: DirectoryState,
    ) -> bool {
        &&& post.textedit@ == text
        &&& post == (DirectoryState {
            textedit: post.textedit,
            debounce: pre.debounce.triggered_when(now),
            ..pre
        })
    }

    /// What a key does while the keys are for the text.
    pub open spec fn key_for_text(
        pre: DirectoryState,
        event: KeyEvent,
        now: Nanos,
        post: DirectoryState,
    ) -> bool {
        let below = list_state::entry_below(pre.filtered_items.state.selected);
        let above = list_state::entry_above(pre.filtered_items.state.selected);
        match event.code {
            KeyCode::Esc => post == pre.leaving(ReasonStopped::Quit),
            KeyCode::Tab => post == (DirectoryState { focus: DirectoryFocus::View, ..pre }),
            KeyCode::Backspace => DirectoryState::typed(
                pre,
                if pre.textedit@.len() > 0 {
                    pre.textedit@.drop_last()
                } else {
                    pre.textedit@
                },
                now,
                post,
            ),
            KeyCode::Up => post == pre.filtered_item_selected(above),
            KeyCode::Down => post == pre.filtered_item_selected(below),
            KeyCode::Enter => {
                &&& post.textedit@ == Seq::<char>::empty()
                &&& post == (DirectoryState {
                    textedit: post.textedit,
                    ..pre.leaving(ReasonStopped::NewSources)
                })
            },
            KeyCode::Char(c) => if event.modifiers.bits == key::NO_MODIFIER {
                DirectoryState::typed(pre, pre.textedit@.push(c), now, post)
            } else if event.modifiers.bits == key::CONTROL {
                post == (if c == 'j' {
                    pre.filtered_item_selected(below)
                } else if c == 'k' {
                    pre.filtered_item_selected(above)
                } else if c == 'f' {
                    pre.filtered_item_selected(0)
                } else if c == 'l' {
                    pre.filtered_item_selected(usize::MAX)
                } else {
                    pre
                })
            } else {
                post == pre
            },
            _ => post == pre,
        }
    }

    /// What a key does, at the time `now`.
    pub open spec fn key_pressed(
        pre: DirectoryState,
        event: KeyEvent,
        now: Nanos,
        post: DirectoryState,
        msg: Option<Msg2Sub>,
    ) -> bool {
        match pre.focus {
            DirectoryFocus::View => (post, msg) == pre.key_for_view(event.code),
            DirectoryFocus::Textedit => DirectoryState::key_for_text(pre, event, now, post) && msg
                is None,
        }
    }

    /// Follows a key at the present moment. What is returned is for the playback.
    pub fn handle_key(&mut self, event: KeyEvent, clock: &Clock) -> (msg: Option<Msg2Sub>)
        ensures
            exists|now: Nanos| #[trigger]
                DirectoryState::key_pressed(*old(self), event, now, *final(self), msg),
            old(self).well_formed() ==> final(self).well_formed(),
    {
        let now: Nanos = clock.now();
        self.handle_key_at(event, now)
    }

    /// Follows a key. What is returned is for the playback.
    pub fn handle_key_at(&mut self, event: KeyEvent, now: Nanos) -> (msg: Option<Msg2Sub>)
        ensures
            DirectoryState::key_pressed(*old(self), event, now, *final(self), msg),
            old(self).well_formed() ==> final(self).well_formed(),
    {
        match self.focus {
            DirectoryFocus::View => match event.code {
                KeyCode::Esc => {
                    self.exit_reason = Some(ReasonStopped::Quit);
                    None
                },
                KeyCode::Tab => {
                    self.exit_reason = Some(ReasonStopped::ChangeScreen);
                    None
                },
                KeyCode::Char('/') => {
                    self.focus = DirectoryFocus::Textedit;
                    None
                },
                KeyCode::Up | KeyCode::Char('k') => {
                    self.items.state.select_previous();
                    None
                },
                KeyCode::Down | KeyCode::Char('j') => {
                    self.items.state.select_next();
                    None
                },
                KeyCode::Char('g') | KeyCode::Home => {
                    self.items.state.select_first();
                    None
                },
                KeyCode::Char('G') | KeyCode::End => {
                    self.items.state.select_last();
                    None
                },
                KeyCode::Enter => {
                    self.exit_reason = Some(ReasonStopped::NewSources);
                    None
                },
                KeyCode::Char('p') | KeyCode::F(8) | KeyCode::Pause | KeyCode::Char(
                    ' ',
                ) => Some(Msg2Sub::PauseUnpause),
                KeyCode::Char('r') => Some(Msg2Sub::Randomize),
                KeyCode::Char('s') | KeyCode::F(9) => Some(Msg2Sub::Skip),
                KeyCode::Char('m') | KeyCode::F(10) => Some(Msg2Sub::Mute),
                KeyCode::Char('v') | KeyCode::F(11) => Some(Msg2Sub::DecreaseVolume),
                KeyCode::Char('V') | KeyCode::F(12) => Some(Msg2Sub::IncreaseVolume),
                KeyCode::Left => Some(Msg2Sub::MoveBackward),
                KeyCode::Right => Some(Msg2Sub::MoveForward),
                KeyCode::Char('L') => Some(Msg2Sub::ToggleLoop),
                _ => None,
            },
            DirectoryFocus::Textedit => {
                match event.code {
                    KeyCode::Esc => {
                        self.exit_reason = Some(ReasonStopped::Quit);
                    },
                    KeyCode::Tab => {
                        self.focus = DirectoryFocus::View;
                    },
                    KeyCode::Char(c) => {
                        if event.modifiers.bits == key::NO_MODIFIER {
                            self.textedit.push(c);
                            self.debounce.trigger_at(now);
                        } else if event.modifiers.bits == key::CONTROL {
                            match c {
                                'j' => self.filtered_items.state.select_next(),
                                'k' => self.filtered_items.state.select_previous(),
                                'f' => self.filtered_items.state.select_first(),
                                'l' => self.filtered_items.state.select_last(),
                                _ => {},
                            }
                        }
                    },
                    KeyCode::Backspace => {
                        let _ = self.textedit.pop();
                        self.debounce.trigger_at(now);
                    },
                    KeyCode::Up => self.filtered_items.state.select_previous(),
                    KeyCode::Down => self.filtered_items.state.select_next(),
                    KeyCode::Enter => {
                        self.exit_reason = Some(ReasonStopped::NewSources);
                        self.textedit.clear();
                    },
                    _ => {},
                }
                None
            },
        }
    }

    /// The list on the screen.
    pub open spec fn shown(self) -> DirItems {
        match self.focus {
            DirectoryFocus::View => self.items,
            DirectoryFocus::Textedit => self.filtered_items,
        }
    }

    /// If a folder is selected, it is one of those on the screen.
    pub open spec fn selection_in_range(self) -> bool {
        self.shown().state.selected matches Some(i) ==> i < self.shown().dirs@.len()
    }

    /// The list on the screen.
    pub fn current_items(&self) -> (items: &DirItems)
        ensures
            *items == self.shown(),
    {
        match self.focus {
            DirectoryFocus::View => &self.items,
            DirectoryFocus::Textedit => &self.filtered_items,
        }
    }

    /// The lines of the list on the screen.
    pub open spec fn shown_lines(self) -> Seq<String> {
        self.shown().dirs@.map_values(|d: DirItem| d.dir_without_root_string)
    }

    /// The lines of the list on the screen.
    pub fn shown_dirs(&self) -> (lines: Vec<String>)
        ensures
            lines@ == self.shown_lines(),
    {
        let items = self.current_items();
        let mut lines: Vec<String> = Vec::new();
        let mut i: usize = 0;
        while i < items.dirs.len()
            invariant
                i <= items.dirs@.len(),
                lines@.len() == i,
                forall|j: int|
                    0 <= j < i ==> #[trigger] lines@[j] == items.dirs@[j].dir_without_root_string,
            decreases items.dirs@.len() - i,
        {
            lines.push(items.dirs[i].dir_without_root_string.clone());
            i = i + 1;
        }
        proof {
            assert(lines@ =~= items.dirs@.map_values(|d: DirItem| d.dir_without_root_string));
        }
        lines
    }

    /// A prompt and the text.
    pub open spec fn prompted(self) -> Seq<char> {
        "> "@ + self.textedit@
    }

    /// The line above the folders that were searched for: a prompt and the text.
    pub fn prompt_text(&self) -> (s: String)
        ensures
            s@ == self.prompted(),
    {
        let mut s = "> ".to_owned();
        s.append(self.textedit.as_str());
        s
    }

    /// The selected folder.
    pub open spec fn chosen(self) -> Option<PathBuf> {
        match self.shown().state.selected {
            Some(i) => Some(self.shown().dirs@[i as int].full_dir),
            None => None,
        }
    }

    /// The selected folder.
    pub fn selected_dir(&self) -> (dir: Option<PathBuf>)
        requires
            self.selection_in_range(),
        ensures
            dir == self.chosen(),
    {
        let items = self.current_items();
        match items.state.selected {
            Some(i) => Some(items.dirs[i].full_dir.clone()),
            None => None,
        }
    }

    /// The songs of the selected folder, if they are known.
    pub open spec fn chosen_songs(self) -> Option<Vec<String>> {
        match self.chosen() {
            Some(dir) => songs_of(self.contents@, dir),
            None => None,
        }
    }

    /// The songs of the selected folder.
    pub fn shown_contents(&self) -> (songs: Option<&Vec<String>>)
        requires
            distinct_dirs(self.contents@),
            self.selection_in_range(),
        ensures
            match self.chosen_songs() {
                Some(known) => songs is Some && *songs->0 == known,
                None => songs is None,
            },
    {
        match self.selected_dir() {
            Some(dir) => match place_of(&self.contents, &dir) {
                Some(i) => {
                    proof {
                        lemma_songs_of(self.contents@, dir, i as int);
                    }
                    Some(&self.contents[i].songs)
                },
                None => None,
            },
            None => None,
        }
    }

    /// The folders were searched for the text, if typing had paused for a while.
    pub open spec fn searched(pre: DirectoryState, now: Nanos, post: DirectoryState) -> bool {
        &&& post == (DirectoryState {
            filtered_items: DirItems { dirs: post.filtered_items.dirs, ..pre.filtered_items },
            ..pre
        })
        &&& if pre.debounce.ready_when(now) {
            post.filtered_items.dirs@ == DirectoryState::matching(pre.items.dirs@, pre.textedit@)
        } else {
            post == pre
        }
    }

    /// Searches the folders for the text once typing has paused for a while.
    pub fn filter_when_ready(&mut self, now: Nanos)
        ensures
            DirectoryState::searched(*old(self), now, *final(self)),
            old(self).well_formed() ==> final(self).well_formed(),
    {
        if self.debounce.ready_at(now) {
            self.filter_choices();
        }
    }
}

/// What the search finds can be listed at the start, as long as each folder that was
/// found is read again and still holds music.
pub proof fn found_folders_can_be_listed(start: Folder, listings: Seq<Vec<Entry>>)
    requires
        scan::nested(start.path, start.entries@),
        listings.len() == scan::with_paths(
            Seq::empty(),
            scan::music_folders(start.path, start.entries@),
        ).len(),
        forall|i: int| 0 <= i < listings.len() ==> scan::holds_music((#[trigger] listings[i])@),
    ensures
        DirectoryState::can_start(
            start.path,
            scan::with_paths(Seq::empty(), scan::music_folders(start.path, start.entries@)),
            listings,
        ),
{
    scan::search_keeps_distinct(Seq::empty(), scan::music_folders(start.path, start.entries@));
    scan::search_stays_below_start(start);
}

/// Nothing is left of a folder without the root if and only if it is the root.
pub proof fn only_the_root_leaves_nothing(item: DirItem, root: PathBuf)
    requires
        item.is_below(root),
        !path::is_verbatim(item.full_dir),
        !path::has_prefix(item.dir_without_root),
    ensures
        path::path_components(item.dir_without_root).len() == 0 <==> path::same_path(
            item.full_dir,
            root,
        ),
{
    let base = path::path_components(root);
    let rest = path::path_components(item.dir_without_root);
    if rest.len() == 0 {
        assert(base + rest =~= base);
    }
}

/// Nothing to search for is found everywhere.
pub proof fn empty_text_matches_all(items: Seq<DirItem>)
    ensures
        DirectoryState::matching(items, Seq::empty()) == items,
    decreases items.len(),
{
    reveal(Seq::filter);
    if items.len() > 0 {
        empty_text_matches_all(items.drop_last());
        let shown = items.last().dir_without_root_string@;
        assert(text::occurs_at(Seq::empty(), shown, 0)) by {
            assert(shown.subrange(0, 0) =~= Seq::<char>::empty());
        }
        assert(items.drop_last().push(items.last()) =~= items);
    } else {
        assert(items.filter(
            |d: DirItem| text::occurs_in(Seq::empty(), d.dir_without_root_string@),
        ) =~= items);
    }
}

/// Only folders in whose text the wanted text stands are found, and all of them.
pub proof fn search_is_exact(items: Seq<DirItem>, wanted: Seq<char>, item: DirItem)
    ensures
        DirectoryState::matching(items, wanted).contains(item) <==> items.contains(item)
            && text::occurs_in(wanted, item.dir_without_root_string@),
    decreases items.len(),
{
    reveal(Seq::filter);
    if items.len() > 0 {
        let front = items.drop_last();
        search_is_exact(front, wanted, item);
        let found = DirectoryState::matching(front, wanted);
        assert(items =~= front.push(items.last()));
        assert(items.contains(item) <==> front.contains(item) || items.last() == item) by {
            if front.contains(item) {
                let i = choose|i: int| 0 <= i < front.len() && front[i] == item;
                assert(items[i] == item);
            }
            assert(items[items.len() - 1] == items.last());
            if items.contains(item) {
                let i = choose|i: int| 0 <= i < items.len() && items[i] == item;
                if i < front.len() {
                    assert(front[i] == item);
                }
            }
        }
        assert(found.push(items.last()).contains(item) <==> found.contains(item) || items.last()
            == item) by {
            let longer = found.push(items.last());
            if found.contains(item) {
                let i = choose|i: int| 0 <= i < found.len() && found[i] == item;
                assert(longer[i] == item);
            }
            assert(longer[found.len() as int] == items.last());
            if longer.contains(item) {
                let i = choose|i: int| 0 <= i < longer.len() && longer[i] == item;
                if i < found.len() {
                    assert(found[i] == item);
                }
            }
        }
    }
}

/// Typing on narrows the search: what is found with a character more was found
/// without it.
pub proof fn typing_narrows(items: Seq<DirItem>, wanted: Seq<char>, c: char, item: DirItem)
    requires
        DirectoryState::matching(items, wanted.push(c)).contains(item),
    ensures
        DirectoryState::matching(items, wanted).contains(item),
{
    search_is_exact(items, wanted.push(c), item);
    search_is_exact(items, wanted, item);
    let hay = item.dir_without_root_string@;
    let i = choose|i: int| text::occurs_at(wanted.push(c), hay, i);
    assert(text::occurs_at(wanted, hay, i)) by {
        let longer = hay.subrange(i, i + wanted.len() + 1);
        assert(longer == wanted.push(c));
        assert(hay.subrange(i, i + wanted.len()) =~= longer.drop_last());
        assert(longer.drop_last() =~= wanted);
    }
}

} // verus!
