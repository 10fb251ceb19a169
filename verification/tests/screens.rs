use aup::device::{
    AvailableDevices, Device, DeviceDescription, DeviceDirection, DeviceType, InterfaceType, ListedDevice,
};
use aup::directory::DirectoryState;
use aup::key::{KeyCode, KeyEvent, KeyModifiers, NO_MODIFIER};
use aup::list_state::ListState;
use aup::media::{source_paths, MediaSource};
use aup::message::{stream_error, AppError, CurrentState, Msg2Main, Msg2Sub, ReasonStopped, Status};
use aup::root::{Args, RootAction, RootState, Start, StartError};
use aup::scan::Entry;
use aup::playback::{Action, LoadedSource, Next, PlaybackState};
use aup::songs::{playback_info, Focus, SongsEffect, SongsState};
use aup::turn::{stop_step, LoopEvent, LoopStep, StopStep, STOP_ATTEMPTS};
use std::path::PathBuf;

const SECOND: u128 = 1_000_000_000;

fn p(s: &str) -> PathBuf {
    PathBuf::from(s)
}

fn device(id: usize, name: &str) -> Device {
    Device {
        id,
        description: Ok(DeviceDescription {
            name: name.to_owned(),
            manufacturer: Some("maker".to_owned()),
            driver: None,
            device_type: DeviceType::Speaker,
            interface_type: InterfaceType::Usb,
            direction: DeviceDirection::Output,
            address: None,
            extended: "line\n".to_owned(),
        }),
    }
}

fn broken(id: usize, error: &str) -> Device {
    Device { id, description: Err(error.to_owned()) }
}

fn devices() -> AvailableDevices {
    AvailableDevices::new(vec![device(0, "one"), device(1, "two"), broken(2, "gone")])
}

fn songs() -> SongsState {
    let sources = ["/m/a.mp3", "/m/b.mp3", "/m/c.mp3"]
        .iter()
        .enumerate()
        .map(|(i, s)| MediaSource { path: p(s), is_playing: i == 0 })
        .collect();
    SongsState::new(sources, devices())
}

fn press(s: &mut SongsState, code: KeyCode) -> SongsEffect {
    s.handle_key(KeyEvent { code, modifiers: KeyModifiers { bits: NO_MODIFIER } })
}

fn marks(s: &SongsState) -> Vec<bool> {
    s.media.sources.iter().map(|m| m.is_playing).collect()
}

fn root() -> RootState {
    let found = vec![p("/m/a"), p("/m/b")];
    let listings = vec![
        vec![Entry::File(p("/m/a/1.mp3"))],
        vec![Entry::File(p("/m/b/2.mp3"))],
    ];
    RootState::new(songs(), DirectoryState::new(p("/m"), found, &listings), CurrentState::Search)
}

#[test]
fn device_names() {
    let d = devices();
    assert_eq!(d.names, vec!["Default Device", "two", "Unknown"]);
    assert_eq!(d.current_device, 0);
    assert!(!d.is_empty());
    assert!(AvailableDevices::new(vec![]).is_empty());
    assert_eq!(AvailableDevices::names(&vec![broken(0, "e")]), vec!["Unknown"]);
}

#[test]
fn devices_that_can_play_come_after_the_default() {
    let listed = || {
        vec![
            ListedDevice { device: device(1, "mic"), supports_output: false },
            ListedDevice { device: device(2, "out"), supports_output: true },
            ListedDevice { device: device(3, "other"), supports_output: true },
        ]
    };
    let d = AvailableDevices::get_devices(Some(device(9, "default")), listed());
    let ids: Vec<usize> = d.output_devices.iter().map(|d| d.id).collect();
    assert_eq!(ids, vec![9, 2, 3]);
    assert_eq!(d.names, vec!["Default Device", "out", "other"]);
    let d = AvailableDevices::get_devices(None, listed());
    assert_eq!(d.output_devices.len(), 2);
    assert!(AvailableDevices::get_devices(None, vec![]).is_empty());
}

#[test]
fn switched_device_is_found_by_its_description() {
    let mut s = songs();
    s.read_channel(Msg2Main::DeviceSwitched(device(77, "two")), 0);
    assert_eq!(s.devices.current_device, 1);
    s.read_channel(Msg2Main::DeviceSwitched(broken(78, "gone")), 0);
    assert_eq!(s.devices.current_device, 2);
    s.read_channel(Msg2Main::DeviceSwitched(broken(78, "else")), 0);
    assert_eq!(s.devices.current_device, 0);
    let mut other = device(79, "two");
    other.description.as_mut().unwrap().manufacturer = None;
    s.devices.current_device = 2;
    s.read_channel(Msg2Main::DeviceSwitched(other), 0);
    assert_eq!(s.devices.current_device, 0);
}

#[test]
fn messages_from_the_playback_are_shown() {
    let mut s = songs();
    assert_eq!(s.playback_position.volume, 8);
    s.read_channel(Msg2Main::VolumeChanged(3), 0);
    s.read_channel(Msg2Main::LoopStatus(true), 0);
    s.read_channel(Msg2Main::TotalDuration(Some(9)), 0);
    s.read_channel(Msg2Main::UpdatePosition(Some(4)), 0);
    assert_eq!(s.playback_position.volume, 3);
    assert!(s.playback_position.is_looping);
    assert_eq!(s.playback_position.total_duration, Some(9));
    assert_eq!(s.playback_position.current_pos, Some(4));
    s.read_channel(Msg2Main::SongChanged(Some(2)), 0);
    assert_eq!(marks(&s), vec![false, false, true]);
    s.read_channel(Msg2Main::SongChanged(Some(9)), 0);
    assert_eq!(marks(&s), vec![false, false, false]);
    s.read_channel(Msg2Main::SongChanged(Some(1)), 0);
    s.read_channel(Msg2Main::SongChanged(None), 0);
    assert_eq!(marks(&s), vec![false, false, false]);
    s.media.state.selected = Some(1);
    s.read_channel(Msg2Main::Randomized(vec![p("/m/c.mp3"), p("/m/a.mp3")]), 0);
    assert_eq!(source_paths(&s.media.sources), vec![p("/m/c.mp3"), p("/m/a.mp3")]);
    assert_eq!(marks(&s), vec![true, false]);
    assert_eq!(s.media.state.selected, Some(1));
}

#[test]
fn lost_devices_are_looked_for() {
    let mut s = songs();
    assert!(matches!(s.read_channel(Msg2Main::DeviceLost, 0), SongsEffect::SendDevices(true)));
    assert!(matches!(s.read_channel(Msg2Main::DeviceLostWait, 0), SongsEffect::SendDevices(false)));
    assert!(matches!(s.devices_found(devices(), false), Some(Msg2Sub::Devices(_, false))));
    assert_eq!(s.exit_reason, None);
    assert!(s.devices_found(AvailableDevices::new(vec![]), true).is_none());
    assert_eq!(s.exit_reason, Some(ReasonStopped::NoOutputDevices));
    assert!(matches!(
        SongsState::send_devices(AvailableDevices::new(vec![]), true),
        Err(AppError::NoOutputDevices)
    ));
}

#[test]
fn failures_end_the_player() {
    let mut s = songs();
    match s.read_channel(Msg2Main::Panic("bad"), 0) {
        SongsEffect::Fail(text) => assert_eq!(text, "bad"),
        _ => panic!("no failure"),
    }
    match s.read_channel(Msg2Main::PanicS("worse".to_owned()), 0) {
        SongsEffect::Fail(text) => assert_eq!(text, "worse"),
        _ => panic!("no failure"),
    }
    assert!(matches!(stream_error(true, "x".to_owned()), Msg2Main::DeviceLost));
    assert!(matches!(stream_error(false, "x".to_owned()), Msg2Main::PanicS(_)));
}

#[test]
fn messages_are_shown_for_three_seconds() {
    let mut s = songs();
    assert_eq!(s.shown_message(0), None);
    s.read_channel(Msg2Main::OutputStreamInitializationFailed, 5 * SECOND);
    assert_eq!(s.shown_message(8 * SECOND - 1), Some("failed to switch devices"));
    assert_eq!(s.shown_message(8 * SECOND), None);
    assert!(s.message.is_none());
}

#[test]
fn keys_for_the_songs() {
    let mut s = songs();
    assert!(matches!(press(&mut s, KeyCode::Enter), SongsEffect::Nothing));
    press(&mut s, KeyCode::Down);
    press(&mut s, KeyCode::Char('j'));
    assert!(matches!(press(&mut s, KeyCode::Enter), SongsEffect::Send(Msg2Sub::Select(1))));
    press(&mut s, KeyCode::Char('k'));
    assert_eq!(s.media.state.selected, Some(0));
    press(&mut s, KeyCode::Home);
    assert_eq!(s.media.state.selected, Some(usize::MAX));
    press(&mut s, KeyCode::End);
    assert_eq!(s.media.state.selected, Some(0));
    press(&mut s, KeyCode::Char('G'));
    assert_eq!(s.media.state.selected, Some(usize::MAX));
    press(&mut s, KeyCode::Char('g'));
    assert_eq!(s.media.state.selected, Some(0));
    assert!(matches!(press(&mut s, KeyCode::Char('r')), SongsEffect::Send(Msg2Sub::Randomize)));
    assert!(matches!(press(&mut s, KeyCode::Char('f')), SongsEffect::SendDevices(true)));
    assert!(matches!(press(&mut s, KeyCode::Other), SongsEffect::Nothing));
    press(&mut s, KeyCode::Tab);
    assert_eq!(s.exit_reason, Some(ReasonStopped::ChangeScreen));
    press(&mut s, KeyCode::Esc);
    assert_eq!(s.exit_reason, Some(ReasonStopped::Quit));
}

#[test]
fn keys_for_the_playback_work_in_both_lists() {
    for focus in [Focus::Songs, Focus::Devices] {
        let mut s = songs();
        s.focus = focus;
        for code in [KeyCode::Char('p'), KeyCode::F(8), KeyCode::Pause, KeyCode::Char(' ')] {
            assert!(matches!(press(&mut s, code), SongsEffect::Send(Msg2Sub::PauseUnpause)));
        }
        for code in [KeyCode::Char('s'), KeyCode::F(9)] {
            assert!(matches!(press(&mut s, code), SongsEffect::Send(Msg2Sub::Skip)));
        }
        for code in [KeyCode::Char('m'), KeyCode::F(10)] {
            assert!(matches!(press(&mut s, code), SongsEffect::Send(Msg2Sub::Mute)));
        }
        for code in [KeyCode::Char('v'), KeyCode::F(11)] {
            assert!(matches!(press(&mut s, code), SongsEffect::Send(Msg2Sub::DecreaseVolume)));
        }
        for code in [KeyCode::Char('V'), KeyCode::F(12)] {
            assert!(matches!(press(&mut s, code), SongsEffect::Send(Msg2Sub::IncreaseVolume)));
        }
        assert!(matches!(press(&mut s, KeyCode::Left), SongsEffect::Send(Msg2Sub::MoveBackward)));
        assert!(matches!(press(&mut s, KeyCode::Right), SongsEffect::Send(Msg2Sub::MoveForward)));
        assert!(matches!(press(&mut s, KeyCode::Char('L')), SongsEffect::Send(Msg2Sub::ToggleLoop)));
        assert!(matches!(press(&mut s, KeyCode::F(7)), SongsEffect::Nothing));
    }
}

#[test]
fn keys_for_the_devices() {
    let mut s = songs();
    press(&mut s, KeyCode::Char('l'));
    assert_eq!(s.focus, Focus::Devices);
    assert!(matches!(press(&mut s, KeyCode::Enter), SongsEffect::Nothing));
    press(&mut s, KeyCode::Char('j'));
    press(&mut s, KeyCode::Down);
    match press(&mut s, KeyCode::Enter) {
        SongsEffect::Send(Msg2Sub::SwitchDevice(d)) => {
            assert_eq!(d.id, 1);
            assert_eq!(d.description.unwrap().name, "two");
        }
        _ => panic!("no switch"),
    }
    press(&mut s, KeyCode::End);
    assert_eq!(s.device_list_state.selected, Some(usize::MAX));
    assert!(s.switch_device().is_none());
    press(&mut s, KeyCode::Home);
    assert_eq!(s.device_list_state.selected, Some(0));
    press(&mut s, KeyCode::Up);
    assert!(matches!(press(&mut s, KeyCode::Char('r')), SongsEffect::RefreshDevices));
    s.refresh_devices(AvailableDevices::new(vec![device(5, "new")]));
    assert_eq!(s.device_list_state, ListState::default());
    assert_eq!(s.devices.output_devices.len(), 1);
    press(&mut s, KeyCode::Char('h'));
    assert_eq!(s.focus, Focus::Songs);
    assert_eq!(s.media.state.selected, None);
}

#[test]
fn lists_are_shown_with_highlights() {
    let mut s = songs();
    s.devices.current_device = 1;
    let lines: Vec<(String, bool)> = s.shown_songs().into_iter().map(|e| (e.text, e.highlighted)).collect();
    assert_eq!(
        lines,
        vec![("a.mp3".to_owned(), true), ("b.mp3".to_owned(), false), ("c.mp3".to_owned(), false)]
    );
    let lines: Vec<(String, bool)> = s.shown_devices().into_iter().map(|e| (e.text, e.highlighted)).collect();
    assert_eq!(
        lines,
        vec![("Default Device".to_owned(), false), ("two".to_owned(), true), ("Unknown".to_owned(), false)]
    );
}

#[test]
fn playback_is_described() {
    let text = |s: &str| Some(s.to_owned());
    assert_eq!(playback_info(text("1.500"), text("90.000")), "1.500/90.000");
    assert_eq!(playback_info(text("1.500"), None), "1.500/?");
    assert_eq!(playback_info(None, text("90.000")), "?/90.000");
    assert_eq!(playback_info(None, None), "Unknown Playback Position");
    let mut s = songs();
    assert_eq!(s.playback_text(text("1"), text("2")), "Volume: 8\nLooping: false\n1/2");
    s.playback_position.volume = 10;
    s.playback_position.is_looping = true;
    assert_eq!(s.playback_text(None, None), "Volume: 10\nLooping: true\nUnknown Playback Position");
}

#[test]
fn errors_have_texts() {
    assert_eq!(AppError::DrawFrame.to_text(), "failed to draw frame");
    assert_eq!(AppError::NoOutputDevices.to_text(), "no output devices");
    assert_eq!(AppError::Io("io".to_owned()).to_text(), "io");
    assert_eq!(AppError::Sink("sink".to_owned()).to_text(), "sink");
    assert_eq!(AppError::Decoder("dec".to_owned()).to_text(), "dec");
    assert_eq!(AppError::Seek("seek".to_owned()).to_text(), "seek");
    assert_eq!(AppError::BuildStream("bs".to_owned()).to_text(), "bs");
    assert_eq!(AppError::OutputConfig("oc".to_owned()).to_text(), "oc");
    assert_eq!(StartError::NoOutputDevices.to_text(), "there are no output devices");
    assert_eq!(StartError::NothingToPlay.to_text(), "there's nothing to play");
}

#[test]
fn arguments_are_trimmed() {
    let args = Args::parse("  /home/me/music \n", Some("dir".to_owned()));
    assert_eq!(args.root_dir, "/home/me/music");
    assert_eq!(args.dir.as_deref(), Some("dir"));
    assert!(Args::parse("", None).dir.is_none());
}

#[test]
fn the_player_starts_with_a_folder_or_without() {
    let none = AvailableDevices::new(vec![]);
    assert!(matches!(Start::new(&none, Some(vec![p("a.mp3")])), Err(StartError::NoOutputDevices)));
    assert!(matches!(Start::new(&devices(), Some(vec![p("a.txt")])), Err(StartError::NothingToPlay)));
    assert!(matches!(Start::new(&devices(), Some(vec![])), Err(StartError::NothingToPlay)));
    let start = Start::new(&devices(), Some(vec![p("b.mp3"), p("a.mp3")])).unwrap();
    assert_eq!(source_paths(&start.sources), vec![p("a.mp3"), p("b.mp3")]);
    assert!(start.sources[0].is_playing && !start.sources[1].is_playing);
    assert_eq!((start.status, start.current_state), (Status::Startup, CurrentState::Songs));
    let start = Start::new(&devices(), None).unwrap();
    assert!(start.sources.is_empty());
    assert_eq!((start.status, start.current_state), (Status::Waiting, CurrentState::Search));
}

#[test]
fn screens_are_left_for_a_reason() {
    let mut r = root();
    assert_eq!(r.take_exit_reason(), None);
    r.directory_state.exit_reason = Some(ReasonStopped::ChangeScreen);
    assert_eq!(r.take_exit_reason(), Some(ReasonStopped::ChangeScreen));
    assert_eq!(r.directory_state.exit_reason, None);
    assert!(matches!(r.run(ReasonStopped::ChangeScreen), Ok(None)));
    assert_eq!(r.current_state, CurrentState::Songs);
    r.songs_state.exit_reason = Some(ReasonStopped::Quit);
    assert_eq!(r.take_exit_reason(), Some(ReasonStopped::Quit));
    assert!(matches!(r.run(ReasonStopped::ChangeScreen), Ok(None)));
    assert_eq!(r.current_state, CurrentState::Search);
    assert!(matches!(r.run(ReasonStopped::NoOutputDevices), Err(AppError::NoOutputDevices)));
    assert!(!r.should_quit);
    assert!(matches!(r.run(ReasonStopped::Quit), Ok(None)));
    assert!(r.should_quit);
}

#[test]
fn a_selected_folder_is_played() {
    let mut r = root();
    assert!(matches!(r.run(ReasonStopped::NewSources), Ok(None)));
    r.directory_state.items.state.selected = Some(1);
    match r.run(ReasonStopped::NewSources) {
        Ok(Some(dir)) => assert_eq!(dir, p("/m/b")),
        _ => panic!("no folder"),
    }
    r.songs_state.media.state.selected = Some(2);
    match r.play_folder(&vec![p("/m/b/z.mp3"), p("/m/b/cover.jpg"), p("/m/b/2.mp3")]) {
        Msg2Sub::NewSources(paths) => {
            assert_eq!(paths, vec![p("/m/b/2.mp3"), p("/m/b/z.mp3")]);
            assert_eq!(source_paths(&r.songs_state.media.sources), paths);
        }
        _ => panic!("no songs"),
    }
    assert_eq!(r.songs_state.media.state, ListState::default());
    assert_eq!(marks(&r.songs_state), vec![true, false]);
    assert_eq!(r.current_state, CurrentState::Songs);
}

#[test]
fn screen_and_playback_agree() {
    let mut s = songs();
    let mut playback =
        PlaybackState::new(source_paths(&s.media.sources), device(0, "one"), Status::Startup, 0);
    playback.status = Status::Playing;
    for msg in [Msg2Sub::IncreaseVolume, Msg2Sub::ToggleLoop, Msg2Sub::Randomize] {
        for action in playback.follow(msg, false, &mut rand::rng()) {
            if let Action::Tell(told) = action {
                s.read_channel(told, 0);
            }
        }
    }
    assert_eq!(s.playback_position.volume, playback.volume);
    assert_eq!(s.playback_position.is_looping, playback.should_loop);
    assert_eq!(source_paths(&s.media.sources), playback.sources);
    assert_eq!(marks(&s).iter().position(|m| *m), Some(playback.index));
}

#[test]
fn a_folder_without_music_is_not_played() {
    let mut r = root();
    assert!(r.checked_play_folder(&vec![p("/m/b/cover.jpg")]).is_none());
    assert_eq!(r.current_state, CurrentState::Search);
    assert_eq!(marks(&r.songs_state).len(), 3);
    assert!(matches!(
        r.checked_play_folder(&vec![p("/m/b/z.mp3")]),
        Some(Msg2Sub::NewSources(_))
    ));
    assert_eq!(r.songs_state.checked_shown_songs().unwrap()[0].text, "z.mp3");
}

#[test]
fn screens_that_cannot_be_left() {
    let mut r = root();
    assert!(r.may_leave(ReasonStopped::NoOutputDevices));
    assert!(r.may_leave(ReasonStopped::NewSources));
    r.directory_state.items.state.selected = Some(2);
    assert!(!r.may_leave(ReasonStopped::NewSources));
    r.directory_state.items.state.selected = Some(1);
    assert!(r.may_leave(ReasonStopped::NewSources));
    r.current_state = CurrentState::Songs;
    assert!(!r.may_leave(ReasonStopped::NewSources));
    assert!(!r.may_leave(ReasonStopped::NoOutputDevices));
    assert!(r.may_leave(ReasonStopped::ChangeScreen));
}

#[test]
fn songs_without_a_name_are_not_shown() {
    let mut s = songs();
    s.media.sources[1].path = p("/m/..");
    assert!(s.checked_shown_songs().is_none());
    assert!(s.media.sources[1].checked_file_name().is_none());
    assert_eq!(s.media.sources[0].checked_file_name().unwrap(), "a.mp3");
}

fn tell_all(s: &mut SongsState, actions: Vec<Action>) {
    for action in actions {
        if let Action::Tell(msg) = action {
            s.read_channel(msg, 0);
        }
    }
}

fn assert_agree(s: &SongsState, playback: &PlaybackState) {
    assert_eq!(s.playback_position.volume, playback.volume);
    assert_eq!(s.playback_position.is_looping, playback.should_loop);
    assert_eq!(source_paths(&s.media.sources), playback.sources);
    let marked = marks(s).iter().position(|m| *m);
    match playback.status {
        Status::Playing | Status::Paused | Status::NextSong => assert_eq!(marked, Some(playback.index)),
        Status::Waiting => assert_eq!(marked, None),
        _ => (),
    }
}

#[test]
fn screen_and_playback_agree_through_all_songs() {
    let mut s = songs();
    let mut playback =
        PlaybackState::new(source_paths(&s.media.sources), device(0, "one"), Status::Startup, 0);
    assert_agree(&s, &playback);
    let loaded = LoadedSource { total_duration: Some(7) };
    for song in 0..3 {
        match playback.run(true) {
            Next::AddSource(Some(msg)) => s.read_channel(msg, 0),
            _ => panic!("no song"),
        };
        tell_all(&mut s, playback.play_next_source(loaded));
        assert_eq!(playback.index, song);
        assert_agree(&s, &playback);

        let told = playback.keep_playing(false, 5, SECOND);
        if let Some(msg) = told {
            s.read_channel(msg, 0);
        }
        tell_all(&mut s, playback.switch_device(device(1, "two"), Some(loaded)));
        assert_eq!(s.devices.current_device, 1);
        tell_all(&mut s, playback.switch_device(device(2, "three"), None));
        assert_eq!(s.devices.current_device, 1);
        let all = AvailableDevices::new(vec![device(0, "one"), device(1, "two")]);
        tell_all(
            &mut s,
            playback.rebuild_player_from_new_devices(all, &vec![true, false], loaded, true),
        );
        assert_eq!(s.devices.current_device, 0);
        assert_agree(&s, &playback);
        assert!(matches!(playback.run(true), Next::Again));
        assert_agree(&s, &playback);
    }
    match playback.run(true) {
        Next::Announce(msg) => s.read_channel(msg, 0),
        _ => panic!("no end"),
    };
    assert_agree(&s, &playback);
    tell_all(&mut s, playback.rebuild_player_from_current_device(true, loaded, 0));
    tell_all(&mut s, playback.rebuild_player_from_current_device(false, loaded, 0));
    assert_agree(&s, &playback);
    assert_eq!(s.playback_position.total_duration, Some(7));
    assert_eq!(s.playback_position.current_pos, Some(5));
}

#[test]
fn screen_and_playback_agree_on_a_new_folder() {
    let mut r = root();
    let mut playback = PlaybackState::new(
        source_paths(&r.songs_state.media.sources),
        device(0, "one"),
        Status::Startup,
        0,
    );
    playback.play_next_source(LoadedSource { total_duration: None });
    assert_agree(&r.songs_state, &playback);
    let msg = r.checked_play_folder(&vec![p("/m/b/z.mp3"), p("/m/b/y.mp3")]).unwrap();
    playback.follow(msg, false, &mut rand::rng());
    assert_agree(&r.songs_state, &playback);
}

fn key(code: KeyCode) -> LoopEvent {
    LoopEvent::KeyRead(Ok(Some(KeyEvent { code, modifiers: KeyModifiers { bits: NO_MODIFIER } })))
}

fn step(r: &mut RootState, event: LoopEvent) -> LoopStep {
    assert!(r.may_step(&event));
    r.step(event, 0)
}

#[test]
fn the_loop_draws_polls_and_reads() {
    let mut r = root();
    assert!(matches!(step(&mut r, LoopEvent::Turn), LoopStep::Draw));
    assert!(matches!(step(&mut r, LoopEvent::Drawn(true)), LoopStep::Poll));
    assert!(matches!(step(&mut r, LoopEvent::Polled(Ok(false))), LoopStep::Again));
    assert!(matches!(step(&mut r, LoopEvent::Polled(Ok(true))), LoopStep::ReadKey));
    assert!(matches!(step(&mut r, LoopEvent::KeyRead(Ok(None))), LoopStep::Again));
    assert!(matches!(step(&mut r, key(KeyCode::Char('j'))), LoopStep::Again));
    assert_eq!(r.directory_state.items.state.selected, Some(0));
    assert!(matches!(step(&mut r, key(KeyCode::Char('m'))), LoopStep::Tell(Msg2Sub::Mute)));
    step(&mut r, key(KeyCode::Tab));
    assert!(matches!(step(&mut r, LoopEvent::Turn), LoopStep::Again));
    assert_eq!(r.current_state, CurrentState::Songs);
    assert!(matches!(step(&mut r, LoopEvent::Turn), LoopStep::ReadAndDraw));
    assert!(matches!(
        step(&mut r, key(KeyCode::Char('f'))),
        LoopStep::Follow(SongsEffect::SendDevices(true))
    ));
    step(&mut r, key(KeyCode::Esc));
    assert!(matches!(step(&mut r, LoopEvent::Turn), LoopStep::Again));
    assert!(matches!(step(&mut r, LoopEvent::Turn), LoopStep::Done(Ok(()))));
}

#[test]
fn the_loop_ends_with_errors() {
    let mut r = root();
    assert!(matches!(
        step(&mut r, LoopEvent::Drawn(false)),
        LoopStep::Done(Err(AppError::DrawFrame))
    ));
    match step(&mut r, LoopEvent::Polled(Err("poll".to_owned()))) {
        LoopStep::Done(Err(AppError::Io(e))) => assert_eq!(e, "poll"),
        _ => panic!("no end"),
    }
    match step(&mut r, LoopEvent::KeyRead(Err("read".to_owned()))) {
        LoopStep::Done(Err(AppError::Io(e))) => assert_eq!(e, "read"),
        _ => panic!("no end"),
    }
    r.directory_state.exit_reason = Some(ReasonStopped::NoOutputDevices);
    assert!(matches!(
        step(&mut r, LoopEvent::Turn),
        LoopStep::Done(Err(AppError::NoOutputDevices))
    ));
    r.current_state = CurrentState::Songs;
    r.songs_state.exit_reason = Some(ReasonStopped::NoOutputDevices);
    assert!(!r.may_step(&LoopEvent::Turn));
    r.should_quit = true;
    assert!(matches!(step(&mut r, LoopEvent::Turn), LoopStep::Done(Ok(()))));
}

#[test]
fn folders_are_searched_only_on_their_screen() {
    let mut r = root();
    r.directory_state.debounce.trigger_at(0);
    r.current_state = CurrentState::Songs;
    r.step(LoopEvent::Turn, SECOND);
    assert!(r.directory_state.filtered_items.dirs.is_empty());
    r.current_state = CurrentState::Search;
    r.step(LoopEvent::Turn, SECOND);
    assert_eq!(r.directory_state.filtered_items.dirs.len(), 2);
}

#[test]
fn opening_a_folder_drops_old_messages() {
    let mut r = root();
    assert!(r.open_folder(&vec![p("/m/b/cover.jpg")]).is_none());
    assert!(!r.may_step(&LoopEvent::Listed(vec![p("/m/b/cover.jpg")])));
    r.directory_state.items.state.selected = Some(1);
    step(&mut r, key(KeyCode::Enter));
    match step(&mut r, LoopEvent::Turn) {
        LoopStep::ListFolder(dir) => assert_eq!(dir, p("/m/b")),
        _ => panic!("no folder"),
    }
    let mut unread = vec![Msg2Main::SongChanged(Some(1)), Msg2Main::VolumeChanged(2)];
    match step(&mut r, LoopEvent::Listed(vec![p("/m/b/z.mp3"), p("/m/b/y.mp3")])) {
        LoopStep::Perform(actions) => {
            assert!(matches!(
                actions.as_slice(),
                [RootAction::Send(Msg2Sub::NewSources(_)), RootAction::DropMessages]
            ));
            for action in actions {
                if let RootAction::DropMessages = action {
                    unread.clear();
                }
            }
        }
        _ => panic!("not opened"),
    }
    for msg in unread {
        r.songs_state.read_channel(msg, 0);
    }
    assert_eq!(marks(&r.songs_state), vec![true, false]);
    assert_eq!(r.songs_state.playback_position.volume, 8);
}

#[test]
fn the_audio_thread_is_not_waited_for_forever() {
    assert_eq!(STOP_ATTEMPTS, 4);
    assert_eq!(stop_step(4, true), StopStep::Join);
    assert_eq!(stop_step(4, false), StopStep::Wait(3));
    assert_eq!(stop_step(1, false), StopStep::Wait(0));
    assert_eq!(stop_step(0, true), StopStep::GiveUp);
}

#[test]
fn the_playback_starts_with_the_first_device() {
    let s = songs();
    let first = SongsState::starting_device(&s.devices);
    assert_eq!(first.id, 0);
    let playback =
        SongsState::start_playback(first, &s.media.sources, Status::Startup, Ok(()), 9).unwrap();
    assert_eq!(playback.sources, vec![p("/m/a.mp3"), p("/m/b.mp3"), p("/m/c.mp3")]);
    assert_eq!((playback.current_device.id, playback.index, playback.volume), (0, 0, 8));
    assert_eq!((playback.last_position_update, playback.last_device_healthcheck), (9, 9));
    assert_eq!(playback.status, Status::Startup);
    match SongsState::start_playback(first, &s.media.sources, Status::Waiting, Err("busy".to_owned()), 0) {
        Err(AppError::Sink(e)) => assert_eq!(e, "busy"),
        _ => panic!("started"),
    }
}

#[test]
fn the_playback_stays_in_order() {
    let mut playback = PlaybackState::new(vec![], device(0, "one"), Status::Waiting, 0);
    let mut rng = rand::rng();
    let loaded = LoadedSource { total_duration: None };
    let messages = vec![
        Msg2Sub::Skip,
        Msg2Sub::PauseUnpause,
        Msg2Sub::NewSources(vec![p("/m/a.mp3"), p("/m/b.mp3")]),
        Msg2Sub::Select(1),
        Msg2Sub::Randomize,
        Msg2Sub::IncreaseVolume,
        Msg2Sub::IncreaseVolume,
        Msg2Sub::IncreaseVolume,
        Msg2Sub::PauseUnpause,
        Msg2Sub::Skip,
        Msg2Sub::ShouldExit,
    ];
    for msg in messages {
        loop {
            match playback.run(false) {
                Next::AddSource(_) => {
                    assert!(playback.index < playback.sources.len());
                    playback.play_next_source(loaded);
                }
                Next::KeepPlaying | Next::Idle => break,
                Next::Exit => panic!("too early"),
                _ => (),
            }
        }
        assert!(playback.accepts(&msg));
        playback.follow(msg, false, &mut rng);
        assert!(playback.volume <= 10);
    }
    assert!(matches!(playback.run(false), Next::Exit));
}
