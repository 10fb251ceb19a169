//! Finding the folders that hold music.
use crate::path;
use std::path::PathBuf;
use vstd::prelude::*;

verus! {

/// What was read in a folder.
#[derive(Debug)]
pub enum Entry {
    File(PathBuf),
    Folder(Folder),
    /// Neither a file nor a folder.
    Other(PathBuf),
}

/// A folder as it was read. One that could not be read has no entries.
#[derive(Debug)]
pub struct Folder {
    pub path: PathBuf,
    pub entries: Vec<Entry>,
}

/// The path is in the list.
pub open spec fn listed(v: Seq<PathBuf>, p: PathBuf) -> bool {
    exists|i: int| 0 <= i < v.len() && path::same_path(#[trigger] v[i], p)
}

/// No path is in the list twice.
pub open spec fn distinct(v: Seq<PathBuf>) -> bool {
    forall|i: int, j: int|
        0 <= i < j < v.len() ==> !path::same_path(#[trigger] v[i], #[trigger] v[j])
}

/// A list with a path at its end, unless it is in the list already.
pub open spec fn with_path(v: Seq<PathBuf>, p: PathBuf) -> Seq<PathBuf> {
    if listed(v, p) {
        v
    } else {
        v.push(p)
    }
}

/// A list with further paths at its end, each only once.
pub open spec fn with_paths(v: Seq<PathBuf>, new: Seq<PathBuf>) -> Seq<PathBuf>
    decreases new.len(),
{
    if new.len() == 0 {
        v
    } else {
        with_path(with_paths(v, new.drop_last()), new.last())
    }
}

/// For each music file at any depth, in the order in which they were read, the
/// folder that holds it. `folder` is where the entries are.
pub open spec fn music_folders(folder: PathBuf, entries: Seq<Entry>) -> Seq<PathBuf>
    decreases entries,
{
    if entries.len() == 0 {
        Seq::empty()
    } else {
        music_folders(folder, entries.drop_last()) + (match entries.last() {
            Entry::File(p) => if path::is_music(p) {
                seq![folder]
            } else {
                Seq::empty()
            },
            Entry::Folder(f) => music_folders(f.path, f.entries@),
            Entry::Other(_) => Seq::empty(),
        })
    }
}

proof fn lemma_with_paths_add(v: Seq<PathBuf>, a: Seq<PathBuf>, b: Seq<PathBuf>)
    ensures
        with_paths(v, a + b) == with_paths(with_paths(v, a), b),
    decreases b.len(),
{
    if b.len() == 0 {
        assert(a + b =~= a);
    } else {
        lemma_with_paths_add(v, a, b.drop_last());
        assert((a + b).drop_last() =~= a + b.drop_last());
        assert((a + b).last() == b.last());
    }
}

/// Whether the path is in the list.
pub fn is_listed(v: &Vec<PathBuf>, p: &PathBuf) -> (r: bool)
    ensures
        r == listed(v@, *p),
{
    let mut i: usize = 0;
    while i < v.len()
        invariant
            i <= v@.len(),
            forall|j: int| 0 <= j < i ==> !path::same_path(#[trigger] v@[j], *p),
        decreases v@.len() - i,
    {
        if path::is_same_path(&v[i], p) {
            return true;
        }
        i = i + 1;
    }
    false
}

/// Whether no path is in the list twice.
pub fn are_distinct(v: &Vec<PathBuf>) -> (r: bool)
    ensures
        r == distinct(v@),
{
    let mut i: usize = 0;
    while i < v.len()
        invariant
            i <= v@.len(),
            forall|a: int, b: int|
                0 <= a < b < i ==> !path::same_path(#[trigger] v@[a], #[trigger] v@[b]),
        decreases v@.len() - i,
    {
        let mut j: usize = 0;
        while j < i
            invariant
                j <= i < v@.len(),
                forall|a: int| 0 <= a < j ==> !path::same_path(#[trigger] v@[a], v@[i as int]),
            decreases i - j,
        {
            if path::is_same_path(&v[j], &v[i]) {
                return false;
            }
            j = j + 1;
        }
        i = i + 1;
    }
    true
}

fn add_path(v: &mut Vec<PathBuf>, p: &PathBuf)
    ensures
        final(v)@ == with_path(old(v)@, *p),
{
    if !is_listed(v, p) {
        v.push(p.clone());
    }
}

/// Adds to the list the folders, from `start` on down, that hold music files
/// themselves, each one once.
pub fn find_dirs_with_music(start: &Folder, v: &mut Vec<PathBuf>)
    ensures
        final(v)@ == with_paths(old(v)@, music_folders(start.path, start.entries@)),
    decreases *start,
{
    let ghost all = start.entries@;
    let ghost before = v@;
    let mut i: usize = 0;
    while i < start.entries.len()
        invariant
            i <= all.len(),
            all == start.entries@,
            v@ == with_paths(before, music_folders(start.path, all.take(i as int))),
        decreases all.len() - i,
    {
        let ghost so_far = v@;
        let ghost found = music_folders(start.path, all.take(i as int));
        match &start.entries[i] {
            Entry::File(p) => {
                if path::matches_file_extensions(p) {
                    add_path(v, &start.path);
                    proof {
                        let one = seq![start.path];
                        assert(one.drop_last() =~= Seq::empty());
                        assert(with_paths(so_far, one.drop_last()) == so_far);
                        assert(with_paths(so_far, one) == with_path(so_far, start.path));
                        lemma_with_paths_add(before, found, one);
                    }
                } else {
                    proof {
                        assert(found + Seq::empty() =~= found);
                    }
                }
            },
            Entry::Folder(f) => {
                proof {
                    assert(decreases_to!(*start => start.entries@[i as int]));
                }
                find_dirs_with_music(f, v);
                proof {
                    lemma_with_paths_add(before, found, music_folders(f.path, f.entries@));
                }
            },
            Entry::Other(_) => {
                proof {
                    assert(found + Seq::empty() =~= found);
                }
            },
        }
        proof {
            assert(all.take(i + 1).drop_last() =~= all.take(i as int));
            assert(all.take(i + 1).last() == all[i as int]);
        }
        i = i + 1;
    }
    proof {
        assert(all.take(i as int) =~= all);
    }
}

/// There is a music file among the entries.
pub open spec fn holds_music(entries: Seq<Entry>) -> bool {
    exists|i: int|
        0 <= i < entries.len() && (#[trigger] entries[i] matches Entry::File(p) && path::is_music(p))
}

/// Whether there is a music file among the entries.
pub fn contains_music(entries: &Vec<Entry>) -> (r: bool)
    ensures
        r == holds_music(entries@),
{
    let mut i: usize = 0;
    while i < entries.len()
        invariant
            i <= entries@.len(),
            forall|j: int|
                0 <= j < i ==> !(#[trigger] entries@[j] matches Entry::File(p) && path::is_music(p)),
        decreases entries@.len() - i,
    {
        if let Entry::File(p) = &entries[i] {
            if path::matches_file_extensions(p) {
                return true;
            }
        }
        i = i + 1;
    }
    false
}

/// `p` is a folder that holds a music file itself: the one at `folder`, with these
/// entries, or one within it.
pub open spec fn is_music_folder(folder: PathBuf, entries: Seq<Entry>, p: PathBuf) -> bool
    decreases entries,
{
    ||| holds_music(entries) && path::same_path(folder, p)
    ||| exists|i: int|
        0 <= i < entries.len() && (#[trigger] entries[i] matches Entry::Folder(f)
            && is_music_folder(f.path, f.entries@, p))
}

proof fn lemma_listed_with_path(v: Seq<PathBuf>, q: PathBuf, p: PathBuf)
    ensures
        listed(with_path(v, q), p) <==> listed(v, p) || path::same_path(q, p),
{
    let w = with_path(v, q);
    if listed(v, q) {
        if path::same_path(q, p) {
            let i = choose|i: int| 0 <= i < v.len() && path::same_path(#[trigger] v[i], q);
            assert(path::same_path(v[i], p));
        }
    } else {
        if listed(v, p) {
            let i = choose|i: int| 0 <= i < v.len() && path::same_path(#[trigger] v[i], p);
            assert(w[i] == v[i]);
        }
        if path::same_path(q, p) {
            assert(w[v.len() as int] == q);
        }
        if listed(w, p) {
            let i = choose|i: int| 0 <= i < w.len() && path::same_path(#[trigger] w[i], p);
            if i < v.len() {
                assert(v[i] == w[i]);
            }
        }
    }
}

proof fn lemma_listed_with_paths(v: Seq<PathBuf>, new: Seq<PathBuf>, p: PathBuf)
    ensures
        listed(with_paths(v, new), p) <==> listed(v, p) || listed(new, p),
    decreases new.len(),
{
    if new.len() == 0 {
    } else {
        let front = new.drop_last();
        lemma_listed_with_paths(v, front, p);
        lemma_listed_with_path(with_paths(v, front), new.last(), p);
        if listed(front, p) {
            let i = choose|i: int| 0 <= i < front.len() && path::same_path(#[trigger] front[i], p);
            assert(new[i] == front[i]);
        }
        if listed(new, p) {
            let i = choose|i: int| 0 <= i < new.len() && path::same_path(#[trigger] new[i], p);
            if i < front.len() {
                assert(front[i] == new[i]);
            }
        }
    }
}

proof fn lemma_listed_add(a: Seq<PathBuf>, b: Seq<PathBuf>, p: PathBuf)
    ensures
        listed(a + b, p) <==> listed(a, p) || listed(b, p),
{
    let c = a + b;
    if listed(a, p) {
        let i = choose|i: int| 0 <= i < a.len() && path::same_path(#[trigger] a[i], p);
        assert(c[i] == a[i]);
    }
    if listed(b, p) {
        let i = choose|i: int| 0 <= i < b.len() && path::same_path(#[trigger] b[i], p);
        assert(c[a.len() + i] == b[i]);
    }
    if listed(c, p) {
        let i = choose|i: int| 0 <= i < c.len() && path::same_path(#[trigger] c[i], p);
        if i < a.len() {
            assert(a[i] == c[i]);
        } else {
            assert(b[i - a.len()] == c[i]);
        }
    }
}

proof fn lemma_music_folders(folder: PathBuf, entries: Seq<Entry>, p: PathBuf)
    ensures
        listed(music_folders(folder, entries), p) <==> is_music_folder(folder, entries, p),
    decreases entries,
{
    if entries.len() > 0 {
        let front = entries.drop_last();
        let last = entries.last();
        lemma_music_folders(folder, front, p);
        let more = match last {
            Entry::File(q) => if path::is_music(q) {
                seq![folder]
            } else {
                Seq::empty()
            },
            Entry::Folder(f) => music_folders(f.path, f.entries@),
            Entry::Other(_) => Seq::empty(),
        };
        lemma_listed_add(music_folders(folder, front), more, p);
        match last {
            Entry::File(q) => {
                if path::is_music(q) {
                    assert(more[0] == folder);
                    assert(entries[entries.len() - 1] == last);
                }
            },
            Entry::Folder(f) => {
                lemma_music_folders(f.path, f.entries@, p);
                assert(entries[entries.len() - 1] == last);
            },
            Entry::Other(_) => {},
        }
        assert(forall|i: int| 0 <= i < front.len() ==> #[trigger] front[i] == entries[i]);
        assert(forall|i: int|
            0 <= i < entries.len() - 1 ==> #[trigger] entries[i] == front[i]);
        if holds_music(front) {
            let i = choose|i: int|
                0 <= i < front.len() && (#[trigger] front[i] matches Entry::File(q)
                    && path::is_music(q));
            assert(entries[i] == front[i]);
        }
        if is_music_folder(folder, front, p) && !(holds_music(front) && path::same_path(folder, p)) {
            let i = choose|i: int|
                0 <= i < front.len() && (#[trigger] front[i] matches Entry::Folder(f)
                    && is_music_folder(f.path, f.entries@, p));
            assert(entries[i] == front[i]);
        }
    }
}

/// A folder is in the list after the search if and only if it was in it before
/// or holds a music file itself.
pub proof fn search_lists_music_folders(start: Folder, v: Seq<PathBuf>, p: PathBuf)
    ensures
        listed(with_paths(v, music_folders(start.path, start.entries@)), p) <==> listed(v, p)
            || is_music_folder(start.path, start.entries@, p),
{
    let new = music_folders(start.path, start.entries@);
    lemma_listed_with_paths(v, new, p);
    lemma_music_folders(start.path, start.entries@, p);
}

/// The search puts no folder into the list twice.
pub proof fn search_keeps_distinct(v: Seq<PathBuf>, new: Seq<PathBuf>)
    requires
        distinct(v),
    ensures
        distinct(with_paths(v, new)),
    decreases new.len(),
{
    if new.len() > 0 {
        search_keeps_distinct(v, new.drop_last());
    }
}

/// What was in the list before the search stays in its place.
pub proof fn search_keeps_prefix(v: Seq<PathBuf>, new: Seq<PathBuf>)
    ensures
        v.is_prefix_of(with_paths(v, new)),
    decreases new.len(),
{
    if new.len() > 0 {
        search_keeps_prefix(v, new.drop_last());
    }
}

/// Each folder among the entries lies in the folder at `folder`, and so on down.
pub open spec fn nested(folder: PathBuf, entries: Seq<Entry>) -> bool
    decreases entries,
{
    forall|i: int|
        0 <= i < entries.len() ==> (#[trigger] entries[i] matches Entry::Folder(f)
            ==> path::path_components(folder).is_prefix_of(path::path_components(f.path)) && nested(
            f.path,
            f.entries@,
        ))
}

proof fn lemma_music_folders_below(root: PathBuf, folder: PathBuf, entries: Seq<Entry>)
    requires
        nested(folder, entries),
        path::path_components(root).is_prefix_of(path::path_components(folder)),
    ensures
        forall|i: int|
            0 <= i < music_folders(folder, entries).len() ==> path::path_components(
                root,
            ).is_prefix_of(path::path_components(#[trigger] music_folders(folder, entries)[i])),
    decreases entries,
{
    if entries.len() > 0 {
        let front = entries.drop_last();
        assert(nested(folder, front)) by {
            assert(forall|i: int| 0 <= i < front.len() ==> #[trigger] front[i] == entries[i]);
        }
        lemma_music_folders_below(root, folder, front);
        assert(entries[entries.len() - 1] == entries.last());
        if let Entry::Folder(f) = entries.last() {
            lemma_music_folders_below(root, f.path, f.entries@);
        }
        let whole = music_folders(folder, entries);
        let first = music_folders(folder, front);
        assert forall|i: int| 0 <= i < whole.len() implies path::path_components(
            root,
        ).is_prefix_of(path::path_components(#[trigger] whole[i])) by {
            if i < first.len() {
                assert(whole[i] == first[i]);
            } else if let Entry::Folder(f) = entries.last() {
                assert(whole[i] == music_folders(f.path, f.entries@)[i - first.len()]);
            } else {
                assert(whole[i] == folder);
            }
        }
    }
}

/// The search finds only folders below the one where it starts.
pub proof fn search_stays_below_start(start: Folder)
    requires
        nested(start.path, start.entries@),
    ensures
        forall|i: int|
            0 <= i < with_paths(Seq::empty(), music_folders(start.path, start.entries@)).len()
                ==> path::path_components(start.path).is_prefix_of(
                path::path_components(
                    #[trigger] with_paths(
                        Seq::empty(),
                        music_folders(start.path, start.entries@),
                    )[i],
                ),
            ),
{
    let new = music_folders(start.path, start.entries@);
    let found = with_paths(Seq::empty(), new);
    lemma_music_folders_below(start.path, start.path, start.entries@);
    assert forall|i: int| 0 <= i < found.len() implies path::path_components(
        start.path,
    ).is_prefix_of(path::path_components(#[trigger] found[i])) by {
        assert(listed(found, found[i]));
        lemma_listed_with_paths(Seq::empty(), new, found[i]);
        let j = choose|j: int| 0 <= j < new.len() && path::same_path(#[trigger] new[j], found[i]);
    }
}

} // verus!
