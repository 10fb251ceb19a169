//! The songs to play.
use crate::list_state::ListState;
use crate::order;
use crate::path;
use std::path::PathBuf;
use vstd::prelude::*;

verus! {

/// A song, and whether it is the one that plays.
#[derive(Debug)]
pub struct MediaSource {
    pub path: PathBuf,
    pub is_playing: bool,
}

/// The list of songs on the screen.
#[derive(Debug)]
pub struct MediaSources {
    pub sources: Vec<MediaSource>,
    pub state: ListState,
}

/// The paths of songs.
pub open spec fn paths(sources: Seq<MediaSource>) -> Seq<PathBuf> {
    sources.map_values(|s: MediaSource| s.path)
}

/// Song `playing` is marked as the one that plays, and no other.
pub open spec fn marked(sources: Seq<MediaSource>, playing: Option<usize>) -> bool {
    forall|i: int|
        0 <= i < sources.len() ==> (#[trigger] sources[i]).is_playing == (playing is Some
            && playing->0 == i)
}

/// At most one song is marked as the one that plays.
pub open spec fn at_most_one_marked(sources: Seq<MediaSource>) -> bool {
    forall|i: int, j: int|
        0 <= i < sources.len() && 0 <= j < sources.len() && (#[trigger] sources[i]).is_playing && (
        #[trigger] sources[j]).is_playing ==> i == j
}

/// Marking the song that plays leaves no other one marked.
pub proof fn marked_is_unique(sources: Seq<MediaSource>, playing: Option<usize>)
    requires
        marked(sources, playing),
    ensures
        at_most_one_marked(sources),
{
}

impl MediaSource {
    /// The file name of the song, empty where it is not valid text.
    pub fn file_name(&self) -> (name: String)
        requires
            path::file_name_of(self.path) is Some,
        ensures
            name@ == path::decoded(path::file_name_of(self.path)->0),
    {
        match path::file_name(&self.path) {
            Some(name) => path::decode_or_empty(name),
            None => String::new(),
        }
    }

    /// The file name of the song, if its path ends in one.
    pub fn checked_file_name(&self) -> (r: Option<String>)
        ensures
            r is Some <==> path::file_name_of(self.path) is Some,
            r matches Some(name) ==> name@ == path::decoded(path::file_name_of(self.path)->0),
    {
        match path::file_name(&self.path) {
            Some(_) => Some(self.file_name()),
            None => None,
        }
    }
}

/// The paths of songs.
pub fn source_paths(sources: &Vec<MediaSource>) -> (r: Vec<PathBuf>)
    ensures
        r@ == paths(sources@),
{
    let mut r: Vec<PathBuf> = Vec::new();
    let mut i: usize = 0;
    while i < sources.len()
        invariant
            i <= sources@.len(),
            r@ == paths(sources@).take(i as int),
        decreases sources@.len() - i,
    {
        r.push(sources[i].path.clone());
        proof {
            assert(paths(sources@).take(i + 1) =~= paths(sources@).take(i as int).push(
                sources@[i as int].path,
            ));
        }
        i = i + 1;
    }
    proof {
        assert(paths(sources@).take(i as int) =~= paths(sources@));
    }
    r
}

/// A copy of a list of paths.
pub fn copy_paths(v: &Vec<PathBuf>) -> (r: Vec<PathBuf>)
    ensures
        r@ == v@,
{
    let mut r: Vec<PathBuf> = Vec::new();
    let mut i: usize = 0;
    while i < v.len()
        invariant
            i <= v@.len(),
            r@ == v@.take(i as int),
        decreases v@.len() - i,
    {
        r.push(v[i].clone());
        proof {
            assert(v@.take(i + 1) =~= v@.take(i as int).push(v@[i as int]));
        }
        i = i + 1;
    }
    proof {
        assert(v@.take(i as int) =~= v@);
    }
    r
}

/// The songs at the given paths, the first one marked as the one that plays.
pub fn first_marked(v: &Vec<PathBuf>) -> (r: Vec<MediaSource>)
    ensures
        paths(r@) == v@,
        marked(r@, Some(0)),
{
    let mut r: Vec<MediaSource> = Vec::new();
    let mut i: usize = 0;
    while i < v.len()
        invariant
            i <= v@.len(),
            r@.len() == i,
            forall|j: int| 0 <= j < i ==> (#[trigger] r@[j]).path == v@[j],
            forall|j: int| 0 <= j < i ==> (#[trigger] r@[j]).is_playing == (j == 0),
        decreases v@.len() - i,
    {
        r.push(MediaSource { path: v[i].clone(), is_playing: i == 0 });
        i = i + 1;
    }
    proof {
        assert(paths(r@) =~= v@);
    }
    r
}

/// Marks song `playing` as the one that plays, and no other.
pub fn mark(sources: &mut Vec<MediaSource>, playing: Option<usize>)
    ensures
        paths(final(sources)@) == paths(old(sources)@),
        marked(final(sources)@, playing),
{
    let ghost before = paths(sources@);
    let n: usize = sources.len();
    let mut i: usize = 0;
    while i < n
        invariant
            i <= n,
            n == sources@.len(),
            paths(sources@) == before,
            forall|j: int|
                0 <= j < i ==> (#[trigger] sources@[j]).is_playing == (playing is Some
                    && playing->0 == j),
        decreases n - i,
    {
        let is_playing = match playing {
            Some(p) => p == i,
            None => false,
        };
        let path = sources[i].path.clone();
        let ghost unchanged = sources@;
        sources[i] = MediaSource { path, is_playing };
        proof {
            assert(paths(sources@) =~= paths(unchanged));
        }
        i = i + 1;
    }
}

/// No music is among the paths.
pub open spec fn no_music(listing: Seq<PathBuf>) -> bool {
    forall|i: int| 0 <= i < listing.len() ==> !path::is_music(#[trigger] listing[i])
}

/// Whether music is among the paths.
pub fn has_music(listing: &Vec<PathBuf>) -> (r: bool)
    ensures
        r == !no_music(listing@),
{
    let mut i: usize = 0;
    while i < listing.len()
        invariant
            i <= listing@.len(),
            forall|j: int| 0 <= j < i ==> !path::is_music(#[trigger] listing@[j]),
        decreases listing@.len() - i,
    {
        if path::matches_file_extensions(&listing[i]) {
            return true;
        }
        i = i + 1;
    }
    false
}

/// The songs of a folder, from all that is in it: the music files, in the order
/// of their paths, the first one marked. There is none where there is no music.
pub fn playlist(listing: &Vec<PathBuf>) -> (r: Option<Vec<MediaSource>>)
    ensures
        r is None <==> no_music(listing@),
        r matches Some(songs) ==> {
            &&& songs@.len() > 0
            &&& order::stable_sort_of(
                paths(songs@),
                listing@.filter(|p: PathBuf| path::is_music(p)),
            )
            &&& marked(songs@, Some(0))
        },
{
    let mut found: Vec<PathBuf> = Vec::new();
    let ghost music = |p: PathBuf| path::is_music(p);
    let mut i: usize = 0;
    proof {
        reveal(Seq::filter);
        assert(listing@.take(0).filter(music) =~= Seq::empty());
    }
    while i < listing.len()
        invariant
            i <= listing@.len(),
            music == (|p: PathBuf| path::is_music(p)),
            found@ == listing@.take(i as int).filter(music),
            found@.len() == 0 ==> forall|j: int|
                0 <= j < i ==> !path::is_music(#[trigger] listing@[j]),
            found@.len() > 0 ==> exists|j: int|
                0 <= j < i && path::is_music(#[trigger] listing@[j]),
        decreases listing@.len() - i,
    {
        let is_music = path::matches_file_extensions(&listing[i]);
        if is_music {
            found.push(listing[i].clone());
        }
        proof {
            reveal(Seq::filter);
            assert(listing@.take(i + 1).drop_last() =~= listing@.take(i as int));
            assert(listing@[i as int] == listing@.take(i + 1).last());
        }
        i = i + 1;
    }
    proof {
        assert(listing@.take(i as int) =~= listing@);
    }
    if found.len() == 0 {
        return None;
    }
    let ghost unsorted = found@;
    order::sort(&mut found);
    proof {
        broadcast use vstd::seq_lib::group_to_multiset_ensures;
        assert(found@.len() == found@.to_multiset().len());
        assert(unsorted.len() == unsorted.to_multiset().len());
    }
    let songs = first_marked(&found);
    proof {
        assert(paths(songs@).len() == songs@.len());
    }
    Some(songs)
}

/// The songs of a folder are music, and so each has a file name.
pub proof fn songs_of_folder_are_music(listing: Seq<PathBuf>, songs: Seq<MediaSource>)
    requires
        order::stable_sort_of(paths(songs), listing.filter(|p: PathBuf| path::is_music(p))),
    ensures
        forall|i: int|
            0 <= i < songs.len() ==> path::is_music((#[trigger] songs[i]).path)
                && path::file_name_of(songs[i].path) is Some,
{
    broadcast use vstd::seq_lib::group_to_multiset_ensures;
    broadcast use vstd::seq_lib::group_filter_ensures;

    let music = |p: PathBuf| path::is_music(p);
    let found = listing.filter(music);
    assert(forall|j: int| 0 <= j < found.len() ==> music(#[trigger] found[j]));
    assert forall|i: int| 0 <= i < songs.len() implies path::is_music((#[trigger] songs[i]).path) by {
        let p = paths(songs)[i];
        assert(p == songs[i].path);
        assert(paths(songs).contains(p));
        assert(paths(songs).to_multiset().count(p) > 0);
        assert(found.contains(p));
        let j = choose|j: int| 0 <= j < found.len() && found[j] == p;
        assert(music(found[j]));
    }
}

} // verus!
