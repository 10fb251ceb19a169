use aup::clock::Clock;
use aup::debounce::Debounce;
use aup::directory::{DirItem, DirectoryFocus, DirectoryState};
use aup::key::{KeyCode, KeyEvent, KeyModifiers, CONTROL, NO_MODIFIER};
use aup::list_state::ListState;
use aup::media::{playlist, MediaSource};
use aup::message::{Msg2Sub, ReasonStopped};
use aup::order;
use aup::path;
use aup::scan::{find_dirs_with_music, Entry, Folder};
use aup::text;
use std::path::PathBuf;

const MILLISECOND: u128 = 1_000_000;

fn p(s: &str) -> PathBuf {
    PathBuf::from(s)
}

fn file(s: &str) -> Entry {
    Entry::File(p(s))
}

fn folder(s: &str, entries: Vec<Entry>) -> Folder {
    Folder { path: p(s), entries }
}

fn key(code: KeyCode) -> KeyEvent {
    KeyEvent { code, modifiers: KeyModifiers { bits: NO_MODIFIER } }
}

fn control(c: char) -> KeyEvent {
    KeyEvent { code: KeyCode::Char(c), modifiers: KeyModifiers { bits: CONTROL } }
}

fn shown_dirs(names: &[&str]) -> DirectoryState {
    let found: Vec<PathBuf> = names.iter().map(|n| p("/music").join(n)).collect();
    let listings: Vec<Vec<Entry>> = found
        .iter()
        .map(|d| vec![Entry::File(d.join("b.mp3")), Entry::File(d.join("a.flac")), Entry::File(d.join("x.txt"))])
        .collect();
    DirectoryState::new(p("/music"), found, &listings)
}

#[test]
fn sort_stuff() {
    let v = vec![
        "celeste",
        "dk_country/restored",
        "psyqui",
        "psyqui/your_voice_so",
    ];
    assert!(v.is_sorted());

    let mut mixed: Vec<String> = vec![v[2].to_owned(), v[0].to_owned(), v[3].to_owned(), v[1].to_owned()];
    order::sort(&mut mixed);
    assert_eq!(mixed, v);
    let state = shown_dirs(&[v[3], v[1], v[0], v[2]]);
    assert_eq!(state.shown_dirs(), v);
}

#[test]
fn paths_sort_like_std() {
    let names = [
        "/m/b/c", "/m/b", "/m/b.d", "/m/B", "/m/ä", "m", "./m", "../m", "/m/b//c/d", "/", "", "m/!", "m/..", "m/b",
    ];
    let mut ours: Vec<PathBuf> = names.iter().map(PathBuf::from).collect();
    let mut std = ours.clone();
    order::sort(&mut ours);
    std.sort();
    assert_eq!(ours, std);
    for a in &std {
        for b in &std {
            assert_eq!(path::is_same_path(a, b), a == b);
        }
    }
    assert!(path::is_same_path(&p("/m//a/"), &p("/m/a")));
}

#[test]
fn texts_sort_like_std() {
    let mut ours: Vec<String> = ["b", "a", "", "ab", "aä", "a😀", "A", "aa"].iter().map(|s| s.to_string()).collect();
    let mut std = ours.clone();
    order::sort(&mut ours);
    std.sort();
    assert_eq!(ours, std);
}

#[test]
fn sorting_keeps_equal_paths_in_order() {
    let mut v = vec![p("/b"), p("/a//c"), p("/a/c")];
    order::sort(&mut v);
    assert_eq!(v[0].to_str(), Some("/a//c"));
    assert_eq!(v[1].to_str(), Some("/a/c"));
}

#[test]
fn music_is_known_by_its_extension() {
    for name in ["a.flac", "/x/b.mp3", "c.mp4", "d.m4a", "e.x.opus", "..mp3"] {
        assert!(path::matches_file_extensions(&p(name)), "{}", name);
    }
    for name in ["a", ".mp3", "a.MP3", "a.mp3/..", "a.mp3.txt", "a.", "", "/", "mp3"] {
        assert!(!path::matches_file_extensions(&p(name)), "{}", name);
    }
    assert!(path::matches_file_extensions(&p("a.mp3/")));
}

#[test]
fn extensions_are_those_of_std() {
    for name in ["a", ".a", "a.b", "a.b.c", "a.", "..a", ".a.b", "ä.ö", "...", "a..b"] {
        let expected = p(name).extension().map(|e| e.as_encoded_bytes().to_vec());
        let file_name = path::file_name(&p(name)).unwrap();
        assert_eq!(path::extension(&file_name), expected, "{}", name);
    }
}

#[test]
fn file_names_are_those_of_std() {
    for name in ["/m/a b.mp3", "a", "x/ä.opus", "dir/"] {
        let song = MediaSource { path: p(name), is_playing: false };
        assert_eq!(Some(song.file_name().as_str()), p(name).file_name().and_then(|n| n.to_str()));
    }
    assert!(path::file_name(&p("a/..")).is_none());
    assert!(path::file_name(&p("/")).is_none());
    assert_eq!(path::decode_or_empty(vec![0xff, 0x61]), "");
    assert_eq!(path::decode_or_empty(vec![0xc3, 0xa4]), "ä");
}

#[test]
fn dir_items_are_stripped_of_the_root() {
    let item = DirItem::new(p("/music/psyqui//your_voice_so"), &p("/music/"));
    assert_eq!(item.full_dir, p("/music/psyqui/your_voice_so"));
    assert_eq!(item.dir_without_root, p("psyqui/your_voice_so"));
    assert_eq!(item.dir_without_root_string, "psyqui//your_voice_so");
    assert_eq!(p("/music/").join(&item.dir_without_root), item.full_dir);
    let root = DirItem::new(p("/music"), &p("/music"));
    assert_eq!(root.dir_without_root_string, "");
}

#[test]
fn music_folders_are_found_once_each() {
    let tree = folder(
        "/m",
        vec![
            Entry::Folder(folder(
                "/m/a",
                vec![
                    file("/m/a/1.mp3"),
                    Entry::Folder(folder("/m/a/deep", vec![file("/m/a/deep/x.opus"), file("/m/a/deep/y.opus")])),
                    file("/m/a/2.mp3"),
                ],
            )),
            file("/m/notes.txt"),
            Entry::Folder(folder("/m/empty", vec![])),
            Entry::Other(p("/m/link.mp3")),
            Entry::Folder(folder("/m/pictures", vec![file("/m/pictures/p.png")])),
            file("/m/top.flac"),
        ],
    );
    let mut v: Vec<PathBuf> = Vec::new();
    find_dirs_with_music(&tree, &mut v);
    assert_eq!(v, vec![p("/m/a"), p("/m/a/deep"), p("/m")]);
    find_dirs_with_music(&tree, &mut v);
    assert_eq!(v.len(), 3);
    let mut known = vec![p("/m//a/")];
    find_dirs_with_music(&tree, &mut known);
    assert_eq!(known, vec![p("/m/a"), p("/m/a/deep"), p("/m")]);
}

#[test]
fn playlist_is_sorted_music_with_the_first_marked() {
    let songs = playlist(&vec![p("/m/c.mp3"), p("/m/cover.png"), p("/m/a.opus"), p("/m/b.flac")]).unwrap();
    let paths: Vec<PathBuf> = songs.iter().map(|s| s.path.clone()).collect();
    assert_eq!(paths, vec![p("/m/a.opus"), p("/m/b.flac"), p("/m/c.mp3")]);
    let marks: Vec<bool> = songs.iter().map(|s| s.is_playing).collect();
    assert_eq!(marks, vec![true, false, false]);
    assert!(playlist(&vec![p("/m/cover.png")]).is_none());
    assert!(playlist(&vec![]).is_none());
}

#[test]
fn list_selection_moves() {
    let mut list = ListState { offset: 4, selected: None };
    list.select_next();
    assert_eq!(list, ListState { offset: 4, selected: Some(0) });
    list.select_next();
    assert_eq!(list.selected, Some(1));
    list.select_previous();
    list.select_previous();
    assert_eq!(list.selected, Some(0));
    list.select_last();
    assert_eq!(list.selected, Some(usize::MAX));
    list.select_next();
    assert_eq!(list.selected, Some(usize::MAX));
    list.select_previous();
    assert_eq!(list.selected, Some(usize::MAX - 1));
    list.select_first();
    assert_eq!(list, ListState { offset: 4, selected: Some(0) });
    let mut list = ListState::default();
    list.select_previous();
    assert_eq!(list, ListState { offset: 0, selected: Some(usize::MAX) });
}

#[test]
fn debounce_waits_for_the_delay() {
    let mut d = Debounce::default();
    assert_eq!(d.delay, 100 * MILLISECOND);
    assert!(!d.ready_at(1_000 * MILLISECOND));
    d.trigger_at(50 * MILLISECOND);
    assert!(!d.ready_at(150 * MILLISECOND));
    assert!(d.ready_at(150 * MILLISECOND + 1));
    assert!(d.ready_at(9_000 * MILLISECOND));
    assert!(!d.ready_at(0));
    d.trigger_at(150 * MILLISECOND);
    assert!(!d.ready_at(200 * MILLISECOND));
}

#[test]
fn debounce_follows_the_clock() {
    let clock = Clock::new();
    let mut d = Debounce { last_trigger: None, delay: 0 };
    assert!(!d.ready(&clock));
    let before = clock.now();
    d.trigger(&clock);
    let at = d.last_trigger.unwrap();
    assert!(before <= at && at <= clock.now());
    while clock.now() == at {}
    assert!(d.ready(&clock));
    d.delay = u128::MAX;
    assert!(!d.ready(&clock));
}

#[test]
fn text_helpers() {
    assert!(text::contains("psyqui/your", "qui/"));
    assert!(text::contains("abc", ""));
    assert!(text::contains("", ""));
    assert!(text::contains("aab", "ab"));
    assert!(!text::contains("abc", "abcd"));
    assert!(!text::contains("abc", "ac"));
    assert_eq!(text::trim(" \t/music dir\n\n"), "/music dir");
    assert_eq!(text::trim(" \n"), "");
    assert_eq!(text::trim("\u{3000}ä\u{a0}"), "ä");
    for n in 0..=0x3001u32 {
        if let Some(c) = char::from_u32(n) {
            let around = format!("{}x{}", c, c);
            assert_eq!(text::trim(&around), around.trim());
        }
    }
    for n in [0u8, 7, 10, 42, 100, 255] {
        assert_eq!(text::to_decimal(n), n.to_string());
    }
}

#[test]
fn folders_show_their_songs_in_order() {
    let mut s = shown_dirs(&["b", "a"]);
    assert_eq!(s.shown_dirs(), vec!["a", "b"]);
    assert!(s.shown_contents().is_none());
    s.items.state.selected = Some(1);
    assert_eq!(s.shown_contents().unwrap(), &vec!["a.flac".to_owned(), "b.mp3".to_owned()]);
    assert_eq!(s.selected_dir(), Some(p("/music/b")));
    s.update_candidates(vec![p("/music//b")], &vec![vec![file("/music/b/aa.mp3")]]);
    assert_eq!(s.shown_dirs(), vec!["b"]);
    s.items.state.selected = Some(0);
    assert_eq!(
        s.shown_contents().unwrap(),
        &vec!["a.flac".to_owned(), "aa.mp3".to_owned(), "b.mp3".to_owned()]
    );
}

#[test]
fn search_filters_the_folders() {
    let mut s = shown_dirs(&["celeste", "psyqui", "psyqui/your_voice_so"]);
    assert!(s.handle_key_at(key(KeyCode::Char('/')), 0).is_none());
    assert_eq!(s.focus, DirectoryFocus::Textedit);
    assert!(s.shown_dirs().is_empty());
    for c in "psy".chars() {
        s.handle_key_at(key(KeyCode::Char(c)), 10);
    }
    s.handle_key_at(key(KeyCode::Char('x')), 20);
    s.handle_key_at(key(KeyCode::Backspace), 30);
    assert_eq!(s.textedit, "psy");
    assert_eq!(s.prompt_text(), "> psy");
    s.filter_when_ready(30 + 100 * MILLISECOND);
    assert!(s.shown_dirs().is_empty());
    s.filter_when_ready(31 + 100 * MILLISECOND);
    assert_eq!(s.shown_dirs(), vec!["psyqui", "psyqui/your_voice_so"]);
    s.handle_key_at(control('l'), 40);
    assert_eq!(s.filtered_items.state.selected, Some(usize::MAX));
    s.handle_key_at(control('f'), 40);
    s.handle_key_at(control('j'), 40);
    assert_eq!(s.selected_dir(), Some(p("/music/psyqui/your_voice_so")));
    s.handle_key_at(control('k'), 40);
    s.handle_key_at(key(KeyCode::Down), 40);
    s.handle_key_at(key(KeyCode::Up), 40);
    assert_eq!(s.selected_dir(), Some(p("/music/psyqui")));
    let shifted = KeyEvent { code: KeyCode::Char('A'), modifiers: KeyModifiers { bits: 1 } };
    s.handle_key_at(shifted, 50);
    assert_eq!(s.textedit, "psy");
    assert_eq!(s.debounce.last_trigger, Some(30));
    assert!(s.handle_key_at(key(KeyCode::Enter), 60).is_none());
    assert_eq!(s.exit_reason, Some(ReasonStopped::NewSources));
    assert_eq!(s.textedit, "");
    s.filter_choices();
    assert_eq!(s.shown_dirs().len(), 3);
    s.handle_key_at(key(KeyCode::Backspace), 70);
    assert_eq!(s.textedit, "");
    s.handle_key_at(key(KeyCode::Tab), 80);
    assert_eq!(s.focus, DirectoryFocus::View);
}

#[test]
fn keys_on_the_folder_list() {
    let clock = Clock::new();
    let mut s = shown_dirs(&["a", "b"]);
    assert!(matches!(s.handle_key(key(KeyCode::Char('r')), &clock), Some(Msg2Sub::Randomize)));
    assert!(matches!(s.handle_key(key(KeyCode::F(8)), &clock), Some(Msg2Sub::PauseUnpause)));
    assert!(matches!(s.handle_key(key(KeyCode::Char('V')), &clock), Some(Msg2Sub::IncreaseVolume)));
    assert!(s.handle_key(key(KeyCode::Char('j')), &clock).is_none());
    assert_eq!(s.items.state.selected, Some(0));
    s.handle_key(key(KeyCode::End), &clock);
    assert_eq!(s.items.state.selected, Some(usize::MAX));
    s.handle_key(key(KeyCode::Home), &clock);
    assert_eq!(s.items.state.selected, Some(0));
    assert!(s.handle_key(key(KeyCode::Char('z')), &clock).is_none());
    s.handle_key(key(KeyCode::Tab), &clock);
    assert_eq!(s.exit_reason, Some(ReasonStopped::ChangeScreen));
    s.handle_key(key(KeyCode::Esc), &clock);
    assert_eq!(s.exit_reason, Some(ReasonStopped::Quit));
    s.handle_key(key(KeyCode::Enter), &clock);
    assert_eq!(s.exit_reason, Some(ReasonStopped::NewSources));
    assert_eq!(s.debounce.last_trigger, None);
    s.handle_key(key(KeyCode::Char('/')), &clock);
    s.handle_key(key(KeyCode::Char('q')), &clock);
    assert!(s.debounce.last_trigger.is_some());
}

#[test]
fn folders_that_cannot_be_listed() {
    let song = || vec![file("/music/a/1.mp3")];
    let start = |found: Vec<PathBuf>, listings: Vec<Vec<Entry>>| {
        DirectoryState::checked_new(p("/music"), found, &listings)
    };
    assert!(start(vec![p("/music/a")], vec![song()]).is_some());
    assert!(start(vec![], vec![]).is_some());
    assert!(start(vec![p("/music/a")], vec![]).is_none());
    assert!(start(vec![p("/other/a")], vec![song()]).is_none());
    assert!(start(vec![p("/music/a"), p("/music//a")], vec![song(), song()]).is_none());
    assert!(start(vec![p("/music/a")], vec![vec![file("/music/a/1.txt")]]).is_none());
    let mut s = start(vec![p("/music/a")], vec![song()]).unwrap();
    assert!(s.checked_update_candidates(vec![p("/music/a")], &vec![vec![]]));
    assert!(!s.checked_update_candidates(vec![p("/music/b")], &vec![vec![]]));
    assert_eq!(s.shown_dirs(), vec!["a"]);
    assert!(DirItem::checked_new(p("/music"), &p("/music/a")).is_none());
    assert_eq!(DirItem::checked_new(p("/music/a"), &p("/")).unwrap().dir_without_root, p("music/a"));
}

#[test]
fn music_among_paths() {
    assert!(aup::media::has_music(&vec![p("a.txt"), p("b.opus")]));
    assert!(!aup::media::has_music(&vec![p("a.txt")]));
    assert!(path::lies_below(&p("/a/b"), &p("/a")));
    assert!(!path::lies_below(&p("/ab"), &p("/a")));
}

#[test]
fn typing_on_narrows_the_search() {
    let mut s = shown_dirs(&["celeste", "psyqui", "psyqui/your_voice_so", "pop"]);
    let mut counts: Vec<usize> = Vec::new();
    for text in ["", "p", "ps", "psyqui/", "psyqui/x"] {
        s.textedit = text.to_owned();
        s.filter_choices();
        counts.push(s.filtered_items.dirs.len());
        for item in &s.filtered_items.dirs {
            assert!(item.dir_without_root_string.contains(text));
        }
    }
    assert_eq!(counts, vec![4, 3, 2, 1, 0]);
}

#[test]
fn only_the_root_is_left_with_nothing() {
    for (dir, rest) in [("/music", ""), ("/music/", ""), ("/music/a/./b", "a/b"), ("/music//a", "a")] {
        let item = DirItem::checked_new(p(dir), &p("/music")).unwrap();
        assert_eq!(item.dir_without_root, p(rest));
        assert_eq!(p("/music").join(&item.dir_without_root), p(dir));
    }
    assert!(DirItem::checked_new(p("/music2/a"), &p("/music")).is_none());
}

#[test]
fn what_the_search_finds_can_be_listed() {
    let tree = folder(
        "/m",
        vec![
            file("/m/top.mp3"),
            Entry::Folder(folder("/m/a", vec![file("/m/a/1.opus"), file("/m/a/2.opus")])),
            Entry::Folder(folder("/m/none", vec![file("/m/none/x.txt")])),
        ],
    );
    let mut found: Vec<PathBuf> = Vec::new();
    find_dirs_with_music(&tree, &mut found);
    let listings = vec![vec![file("/m/top.mp3")], vec![file("/m/a/1.opus")]];
    let s = DirectoryState::checked_new(p("/m"), found, &listings).unwrap();
    assert_eq!(s.shown_dirs(), vec!["", "a"]);
}
