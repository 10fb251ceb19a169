use aup::device::{AvailableDevices, Device, DeviceDescription, DeviceDirection, DeviceType, InterfaceType};
use aup::message::{Msg2Main, Msg2Sub, Status};
use aup::playback::{Action, LoadedSource, Next, PlaybackState, Received};
use std::path::PathBuf;

const SECOND: u128 = 1_000_000_000;

fn device(id: usize, name: &str) -> Device {
    Device {
        id,
        description: Ok(DeviceDescription {
            name: name.to_owned(),
            manufacturer: None,
            driver: None,
            device_type: DeviceType::Speaker,
            interface_type: InterfaceType::Usb,
            direction: DeviceDirection::Output,
            address: None,
            extended: String::new(),
        }),
    }
}

fn songs(names: &[&str]) -> Vec<PathBuf> {
    names.iter().map(PathBuf::from).collect()
}

fn state(status: Status) -> PlaybackState {
    let mut s = PlaybackState::new(songs(&["/m/a.mp3", "/m/b.mp3", "/m/c.mp3"]), device(0, "one"), Status::Startup, 0);
    s.status = status;
    s
}

fn as_float(tenths: u8) -> f32 {
    tenths as f32 / 10.0
}

fn follow(s: &mut PlaybackState, msg: Msg2Sub, paused: bool) -> Vec<Action> {
    assert!(s.accepts(&msg));
    s.follow(msg, paused, &mut rand::rng())
}

#[test]
fn increase_vol() {
    let mut s = state(Status::Playing);
    s.volume = 5;
    assert_eq!(as_float(s.volume), 0.5);
    s.increase_volume();
    s.increase_volume();
    s.increase_volume();
    s.increase_volume();
    s.increase_volume();
    assert_eq!(as_float(s.volume), 1.0);
}

#[test]
fn decrease_vol() {
    let mut s = state(Status::Playing);
    s.volume = 5;
    s.decrease_volume();
    assert_eq!(as_float(s.volume), 0.4);
}

#[test]
fn tenths_stand_for_the_float_volumes() {
    for tenths in 0..=10u8 {
        let volume = as_float(tenths);
        assert_eq!((volume * 10.0) as u8, tenths);
        let mut s = state(Status::Playing);
        s.volume = tenths;
        s.increase_volume();
        assert_eq!(as_float(s.volume), (((volume * 10.0) as u8 + 1) as f32 / 10.0).clamp(0.0, 1.0));
        s.volume = tenths;
        s.decrease_volume();
        assert_eq!(
            as_float(s.volume),
            (((volume * 10.0) as u8).saturating_sub(1) as f32 / 10.0).clamp(0.0, 1.0)
        );
    }
    assert_eq!(as_float(state(Status::Playing).volume), 0.8);
}

#[test]
fn volume_is_set_and_told() {
    let mut s = state(Status::Playing);
    let actions = s.increase_volume();
    assert!(matches!(
        actions.as_slice(),
        [Action::SetVolume(9), Action::Tell(Msg2Main::VolumeChanged(9))]
    ));
    let actions = s.mute();
    assert!(matches!(
        actions.as_slice(),
        [Action::SetVolume(0), Action::Tell(Msg2Main::VolumeChanged(0))]
    ));
    s.decrease_volume();
    assert_eq!(s.volume, 0);
    s.increase_volume();
    assert_eq!(s.volume, 1);
}

#[test]
fn louder_then_quieter_restores() {
    let mut s = state(Status::Playing);
    s.increase_volume();
    s.decrease_volume();
    assert_eq!(s.volume, 8);
}

#[test]
fn startup_announces_the_current_song() {
    let mut s = state(Status::Startup);
    s.index = 1;
    let next = s.run(true);
    assert!(matches!(next, Next::AddSource(Some(Msg2Main::SongChanged(Some(1))))));
    assert_eq!(s.status, Status::Startup);
    assert_eq!(s.source_from_file(), &PathBuf::from("/m/b.mp3"));
    let actions = s.play_next_source(LoadedSource { total_duration: Some(90 * SECOND) });
    assert!(matches!(
        actions.as_slice(),
        [Action::Append, Action::Tell(Msg2Main::TotalDuration(Some(_))), Action::Play]
    ));
    assert_eq!(s.total_duration, Some(90 * SECOND));
    assert_eq!(s.status, Status::Playing);
}

#[test]
fn songs_follow_each_other_and_then_it_waits() {
    let mut s = state(Status::Playing);
    s.total_duration = Some(1);
    assert!(matches!(s.run(true), Next::Again));
    assert_eq!(s.status, Status::NextSong);
    assert_eq!(s.total_duration, None);
    assert!(matches!(s.run(true), Next::AddSource(Some(Msg2Main::SongChanged(Some(1))))));
    s.play_next_source(LoadedSource { total_duration: None });
    s.run(true);
    assert!(matches!(s.run(true), Next::AddSource(Some(Msg2Main::SongChanged(Some(2))))));
    s.play_next_source(LoadedSource { total_duration: None });
    s.run(true);
    assert!(matches!(s.run(true), Next::Announce(Msg2Main::SongChanged(None))));
    assert_eq!(s.status, Status::Waiting);
    assert_eq!(s.index, 0);
    assert!(matches!(s.run(true), Next::Idle));
}

#[test]
fn looping_plays_the_song_again() {
    let mut s = state(Status::Playing);
    let actions = follow(&mut s, Msg2Sub::ToggleLoop, false);
    assert!(matches!(actions.as_slice(), [Action::Tell(Msg2Main::LoopStatus(true))]));
    s.run(true);
    assert!(matches!(s.run(true), Next::AddSource(None)));
    assert_eq!(s.index, 0);
    s.status = Status::Playing;
    follow(&mut s, Msg2Sub::ToggleLoop, false);
    assert!(!s.should_loop);
}

#[test]
fn exit_ends_the_playback() {
    let mut s = state(Status::Paused);
    assert!(matches!(s.run(false), Next::Idle));
    assert!(follow(&mut s, Msg2Sub::ShouldExit, true).is_empty());
    assert!(matches!(s.run(false), Next::Exit));
    let mut s = state(Status::Playing);
    assert!(matches!(s.run(false), Next::KeepPlaying));
    assert!(s.receive(Received::Disconnected, false, &mut rand::rng()).is_none());
    assert!(s.receive(Received::Empty, false, &mut rand::rng()).unwrap().is_empty());
    let told = s.receive(Received::Message(Msg2Sub::Skip), false, &mut rand::rng());
    assert!(matches!(told.unwrap().as_slice(), [Action::Clear]));
    assert_eq!(s.status, Status::NextSong);
}

#[test]
fn pause_and_go_on() {
    let mut s = state(Status::Playing);
    assert!(matches!(follow(&mut s, Msg2Sub::PauseUnpause, false).as_slice(), [Action::Pause]));
    assert_eq!(s.status, Status::Paused);
    assert!(matches!(follow(&mut s, Msg2Sub::PauseUnpause, true).as_slice(), [Action::Play]));
    assert_eq!(s.status, Status::Playing);
}

#[test]
fn nothing_to_pause_or_skip_while_waiting() {
    let mut s = state(Status::Waiting);
    assert!(follow(&mut s, Msg2Sub::PauseUnpause, false).is_empty());
    assert!(follow(&mut s, Msg2Sub::Skip, false).is_empty());
    assert_eq!(s.status, Status::Waiting);
}

#[test]
fn seeking_moves_by_a_second_while_playing() {
    let mut s = state(Status::Playing);
    assert!(follow(&mut s, Msg2Sub::MoveForward, false).is_empty());
    s.position = Some(5 * SECOND);
    match follow(&mut s, Msg2Sub::MoveForward, false).as_slice() {
        [Action::Seek(to)] => assert_eq!(*to, 6 * SECOND),
        _ => panic!("no seek"),
    }
    match follow(&mut s, Msg2Sub::MoveBackward, false).as_slice() {
        [Action::Seek(to)] => assert_eq!(*to, 4 * SECOND),
        _ => panic!("no seek"),
    }
    s.status = Status::Paused;
    assert!(follow(&mut s, Msg2Sub::MoveForward, true).is_empty());
    s.status = Status::Playing;
    s.position = Some(SECOND - 1);
    assert!(!s.accepts(&Msg2Sub::MoveBackward));
    s.position = Some(SECOND);
    assert!(s.accepts(&Msg2Sub::MoveBackward));
    s.position = Some(18_446_744_073_709_551_615_999_999_999);
    assert!(!s.accepts(&Msg2Sub::MoveForward));
}

#[test]
fn selecting_and_new_songs_start_anew() {
    let mut s = state(Status::Waiting);
    assert!(matches!(follow(&mut s, Msg2Sub::Select(2), false).as_slice(), [Action::Clear]));
    assert_eq!((s.index, s.status), (2, Status::Startup));
    s.status = Status::Paused;
    let new = songs(&["/n/x.flac"]);
    assert!(matches!(follow(&mut s, Msg2Sub::NewSources(new.clone()), false).as_slice(), [Action::Clear]));
    assert_eq!(s.sources, new);
    assert_eq!((s.index, s.status), (0, Status::Startup));
}

#[test]
fn shuffling_keeps_the_songs() {
    let names: Vec<String> = (0..200).map(|i| format!("/m/{}.mp3", i)).collect();
    let paths: Vec<PathBuf> = names.iter().map(PathBuf::from).collect();
    let mut s = PlaybackState::new(paths.clone(), device(0, "one"), Status::Waiting, 0);
    s.index = 7;
    let actions = follow(&mut s, Msg2Sub::Randomize, false);
    match actions.as_slice() {
        [Action::Clear, Action::Tell(Msg2Main::Randomized(told))] => assert_eq!(told, &s.sources),
        _ => panic!("not told"),
    }
    assert_eq!((s.index, s.status), (0, Status::Startup));
    assert_ne!(s.sources, paths);
    let mut sorted = s.sources.clone();
    sorted.sort();
    let mut expected = paths;
    expected.sort();
    assert_eq!(sorted, expected);
}

#[test]
fn a_given_order_is_played_and_told() {
    let mut s = state(Status::Playing);
    let order = songs(&["/m/c.mp3", "/m/a.mp3", "/m/b.mp3"]);
    let actions = s.sources_shuffled(order.clone());
    assert_eq!(s.sources, order);
    match actions.as_slice() {
        [Action::Clear, Action::Tell(Msg2Main::Randomized(told))] => assert_eq!(told, &order),
        _ => panic!("not told"),
    }
}

#[test]
fn position_is_told_once_a_second() {
    let mut s = state(Status::Playing);
    assert!(s.keep_playing(false, 3, SECOND - 1).is_none());
    assert_eq!(s.position, Some(3));
    assert_eq!(s.last_device_healthcheck, SECOND - 1);
    assert!(matches!(s.keep_playing(false, 4, SECOND), Some(Msg2Main::UpdatePosition(Some(4)))));
    assert_eq!(s.last_position_update, SECOND);
    assert!(s.keep_playing(true, 9, SECOND + 1).is_none());
    assert_eq!(s.position, None);
}

#[test]
fn switching_devices_restores_the_song() {
    let mut s = state(Status::Paused);
    s.position = Some(12);
    let actions = s.switch_device(device(3, "two"), Some(LoadedSource { total_duration: Some(99) }));
    assert!(matches!(
        actions.as_slice(),
        [
            Action::SetVolume(8),
            Action::Append,
            Action::Seek(12),
            Action::Play,
            Action::UsePlayer,
            Action::Tell(Msg2Main::DeviceSwitched(Device { id: 3, .. }))
        ]
    ));
    assert_eq!(s.current_device.id, 3);
    assert_eq!(s.status, Status::Playing);
    assert_eq!(s.total_duration, Some(99));
    let actions = s.switch_device(device(4, "three"), None);
    assert!(matches!(
        actions.as_slice(),
        [Action::Tell(Msg2Main::OutputStreamInitializationFailed)]
    ));
    assert_eq!(s.current_device.id, 3);
}

#[test]
fn requests_for_devices_are_passed_on() {
    let mut s = state(Status::Playing);
    let actions = follow(&mut s, Msg2Sub::SwitchDevice(device(5, "five")), false);
    assert!(matches!(actions.as_slice(), [Action::OpenDevice(Device { id: 5, .. })]));
    let devices = AvailableDevices::new(vec![device(1, "x")]);
    let actions = follow(&mut s, Msg2Sub::Devices(devices, true), false);
    assert!(matches!(actions.as_slice(), [Action::OpenDevices(_, true)]));
}

#[test]
fn the_last_device_that_opens_is_used() {
    assert_eq!(PlaybackState::last_opened(&vec![true, true, false]), Some(1));
    assert_eq!(PlaybackState::last_opened(&vec![false, false]), None);
    let devices = || AvailableDevices::new(vec![device(1, "x"), device(2, "y"), device(3, "z")]);
    let loaded = LoadedSource { total_duration: None };
    let mut s = state(Status::Paused);
    let actions = s.rebuild_player_from_new_devices(devices(), &vec![true, true, false], loaded, true);
    assert!(matches!(
        actions.as_slice(),
        [
            Action::SetVolume(8),
            Action::Append,
            Action::Play,
            Action::UsePlayer,
            Action::Tell(Msg2Main::DeviceSwitched(Device { id: 2, .. }))
        ]
    ));
    assert_eq!((s.current_device.id, s.status), (2, Status::Playing));
    let mut s = state(Status::Paused);
    let actions = s.rebuild_player_from_new_devices(devices(), &vec![true, false, false], loaded, false);
    assert_eq!(actions.len(), 4);
    assert_eq!((s.current_device.id, s.status), (1, Status::Paused));
    let actions = s.rebuild_player_from_new_devices(devices(), &vec![false, false, false], loaded, false);
    assert!(matches!(
        actions.as_slice(),
        [
            Action::Tell(Msg2Main::Panic("no output device available")),
            Action::Fail("failed to create sink for any output device")
        ]
    ));
}

#[test]
fn an_idle_device_is_tried_after_a_minute() {
    let mut s = state(Status::Waiting);
    assert!(!s.needs_healthcheck(60 * SECOND));
    assert!(!s.reopens_song(true));
    assert!(state(Status::Paused).reopens_song(true));
    assert!(!state(Status::Paused).reopens_song(false));
    assert!(s.needs_healthcheck(60 * SECOND + 1));
    let loaded = LoadedSource { total_duration: Some(1) };
    let actions = s.rebuild_player_from_current_device(false, loaded, 70 * SECOND);
    assert!(matches!(actions.as_slice(), [Action::Tell(Msg2Main::DeviceLostWait)]));
    assert!(s.needs_healthcheck(70 * SECOND));
    let actions = s.rebuild_player_from_current_device(true, loaded, 70 * SECOND);
    assert!(matches!(
        actions.as_slice(),
        [Action::SetVolume(8), Action::UsePlayer, Action::Tell(Msg2Main::DeviceSwitched(_))]
    ));
    assert!(!s.needs_healthcheck(70 * SECOND));
    assert_eq!(s.total_duration, None);
    let mut s = state(Status::Paused);
    let actions = s.rebuild_player_from_current_device(true, loaded, 70 * SECOND);
    assert!(matches!(
        actions.as_slice(),
        [Action::SetVolume(8), Action::Append, Action::Tell(Msg2Main::DeviceSwitched(_))]
    ));
    assert_eq!(s.total_duration, Some(1));
}

#[test]
fn a_song_that_cannot_be_decoded_is_told() {
    assert!(matches!(
        PlaybackState::decoder_failed(),
        Msg2Main::Panic("unsupported or invalid format")
    ));
}
