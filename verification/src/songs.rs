//! The screen with the songs and the devices.
use crate::clock;
use crate::clock::Nanos;
use crate::device::AvailableDevices;
use crate::device::Device;
use crate::key;
use crate::key::KeyCode;
use crate::key::KeyEvent;
use crate::list_state;
use crate::list_state::ListState;
use crate::media;
use crate::media::MediaSource;
use crate::media::MediaSources;
use crate::message::AppError;
use crate::message::Msg2Main;
use crate::message::Msg2Sub;
use crate::message::ReasonStopped;
use crate::message::Status;
use crate::path;
use crate::playback;
use crate::playback::PlaybackState;
use crate::text;
use vstd::prelude::*;
use vstd::string::*;

verus! {

/// How long a message stays on the screen.
pub const MESSAGE_SHOWN_FOR: Nanos = 3_000_000_000;

/// Which list the keys are for.
#[derive(Clone, Copy, Debug, PartialEq, Eq, Structural)]
pub enum Focus {
    Songs,
    Devices,
}

/// What the screen knows of the playback. The volume is in tenths.
#[derive(Clone, Copy, Debug)]
pub struct PlaybackPosition {
    pub total_duration: Option<Nanos>,
    pub current_pos: Option<Nanos>,
    pub volume: u8,
    pub is_looping: bool,
}

impl Default for PlaybackPosition {
    fn default() -> (r: Self)
        ensures
            r == (PlaybackPosition {
                total_duration: None,
                current_pos: None,
                volume: playback::INITIAL_VOLUME,
                is_looping: false,
            }),
    {
        PlaybackPosition {
            total_duration: None,
            current_pos: None,
            volume: playback::INITIAL_VOLUME,
            is_looping: false,
        }
    }
}

/// What is to be done outside for the screen.
#[derive(Debug)]
pub enum SongsEffect {
    Nothing,
    /// Send a message to the playback.
    Send(Msg2Sub),
    /// Look for devices and go on with `devices_found`.
    SendDevices(bool),
    /// Look for devices and go on with `refresh_devices`.
    RefreshDevices,
    /// Give up, with this text.
    Fail(String),
}

/// The state of the screen.
#[derive(Debug)]
pub struct SongsState {
    pub playback_position: PlaybackPosition,
    pub media: MediaSources,
    pub devices: AvailableDevices,
    pub device_list_state: ListState,
    pub focus: Focus,
    pub exit_reason: Option<ReasonStopped>,
    /// A message to show, and since when it is shown.
    pub message: Option<(Nanos, &'static str)>,
}

impl SongsState {
    /// The screen at the start.
    pub open spec fn initial(initial_sources: Vec<MediaSource>, devices: AvailableDevices) -> SongsState {
        SongsState {
            playback_position: PlaybackPosition {
                total_duration: None,
                current_pos: None,
                volume: playback::INITIAL_VOLUME,
                is_looping: false,
            },
            media: MediaSources { sources: initial_sources, state: ListState::initial() },
            devices,
            device_list_state: ListState::initial(),
            focus: Focus::Songs,
            exit_reason: None,
            message: None,
        }
    }

    /// The screen at the start: nothing is selected, and the keys are for the songs.
    pub fn new(initial_sources: Vec<MediaSource>, devices: AvailableDevices) -> (r: SongsState)
        ensures
            r == SongsState::initial(initial_sources, devices),
    {
        SongsState {
            playback_position: PlaybackPosition::default(),
            media: MediaSources { sources: initial_sources, state: ListState::default() },
            devices,
            device_list_state: ListState::default(),
            focus: Focus::Songs,
            exit_reason: None,
            message: None,
        }
    }

    /// The first of the devices.
    pub open spec fn first_device(devices: AvailableDevices) -> Device {
        devices.output_devices@[0]
    }

    /// The device that the playback starts with: the first one.
    pub fn starting_device(devices: &AvailableDevices) -> (device: &Device)
        requires
            devices.output_devices@.len() > 0,
        ensures
            *device == SongsState::first_device(*devices),
    {
        &devices.output_devices[0]
    }

    /// How the playback starts: on the device, with the songs in their order, or not at
    /// all if the device could not be opened.
    pub open spec fn playback_started(
        device: Device,
        sources: Seq<MediaSource>,
        status: Status,
        opened: Result<(), String>,
        now: Nanos,
        r: Result<PlaybackState, AppError>,
    ) -> bool {
        match opened {
            Err(e) => r == Err::<PlaybackState, AppError>(AppError::Sink(e)),
            Ok(_) => r matches Ok(playback) && playback.sources@ == media::paths(sources)
                && playback == PlaybackState::initial(playback.sources, device, status, now),
        }
    }

    /// Starts the playback of the songs in their order on a device, if the device could
    /// be opened; `opened` has the text of the error if it could not.
    pub fn start_playback(
        device: &Device,
        sources: &Vec<MediaSource>,
        status: Status,
        opened: Result<(), String>,
        now: Nanos,
    ) -> (r: Result<PlaybackState, AppError>)
        ensures
            SongsState::playback_started(*device, sources@, status, opened, now, r),
            r matches Ok(playback) ==> (status is Startup || status is Waiting
                ==> playback.well_formed()),
    {
        match opened {
            Ok(_) => Ok(
                PlaybackState::new(media::source_paths(sources), device.clone(), status, now),
            ),
            Err(e) => Err(AppError::Sink(e)),
        }
    }

    /// The screen gives up the keyboard.
    pub open spec fn leaving(self, reason: ReasonStopped) -> SongsState {
        SongsState { exit_reason: Some(reason), ..self }
    }

    /// Another song is selected.
    pub open spec fn song_selected(self, entry: usize) -> SongsState {
        SongsState {
            media: MediaSources {
                state: ListState { selected: Some(entry), ..self.media.state },
                ..self.media
            },
            ..self
        }
    }

    /// Another device is selected.
    pub open spec fn device_selected(self, entry: usize) -> SongsState {
        SongsState {
            device_list_state: ListState { selected: Some(entry), ..self.device_list_state },
            ..self
        }
    }

    /// What a key does while the keys are for the songs.
    pub open spec fn key_for_songs(self, code: KeyCode) -> (SongsState, SongsEffect) {
        if key::goes_up(code) {
            (
                self.song_selected(list_state::entry_above(self.media.state.selected)),
                SongsEffect::Nothing,
            )
        } else if key::goes_down(code) {
            (
                self.song_selected(list_state::entry_below(self.media.state.selected)),
                SongsEffect::Nothing,
            )
        } else if code == KeyCode::Char('G') || code is Home {
            (self.song_selected(usize::MAX), SongsEffect::Nothing)
        } else if code == KeyCode::Char('g') || code is End {
            (self.song_selected(0), SongsEffect::Nothing)
        } else if code == KeyCode::Char('l') {
            (SongsState { focus: Focus::Devices, ..self }, SongsEffect::Nothing)
        } else if code == KeyCode::Char('r') {
            (self, SongsEffect::Send(Msg2Sub::Randomize))
        } else if code is Enter {
            match self.media.state.selected {
                Some(index) => (self, SongsEffect::Send(Msg2Sub::Select(index))),
                None => (self, SongsEffect::Nothing),
            }
        } else {
            (self, SongsEffect::Nothing)
        }
    }

    /// The selected device, if the selection is one of the devices.
    pub open spec fn chosen_device(self) -> Option<Device> {
        match self.device_list_state.selected {
            Some(i) => if i < self.devices.output_devices@.len() {
                Some(self.devices.output_devices@[i as int])
            } else {
                None
            },
            None => None,
        }
    }

    /// What a key does while the keys are for the devices.
    pub open spec fn key_for_devices(self, code: KeyCode) -> (SongsState, SongsEffect) {
        if key::goes_up(code) {
            (
                self.device_selected(list_state::entry_above(self.device_list_state.selected)),
                SongsEffect::Nothing,
            )
        } else if key::goes_down(code) {
            (
                self.device_selected(list_state::entry_below(self.device_list_state.selected)),
                SongsEffect::Nothing,
            )
        } else if code == KeyCode::Char('g') || code is Home {
            (self.device_selected(0), SongsEffect::Nothing)
        } else if code == KeyCode::Char('G') || code is End {
            (self.device_selected(usize::MAX), SongsEffect::Nothing)
        } else if code == KeyCode::Char('h') {
            (SongsState { focus: Focus::Songs, ..self }, SongsEffect::Nothing)
        } else if code == KeyCode::Char('r') {
            (self, SongsEffect::RefreshDevices)
        } else if code is Enter {
            match self.chosen_device() {
                Some(device) => (self, SongsEffect::Send(Msg2Sub::SwitchDevice(device))),
                None => (self, SongsEffect::Nothing),
            }
        } else {
            (self, SongsEffect::Nothing)
        }
    }

    /// What a key does.
    pub open spec fn key_pressed(self, code: KeyCode) -> (SongsState, SongsEffect) {
        if code is Esc {
            (self.leaving(ReasonStopped::Quit), SongsEffect::Nothing)
        } else if code is Tab {
            (self.leaving(ReasonStopped::ChangeScreen), SongsEffect::Nothing)
        } else if code == KeyCode::Char('f') {
            (self, SongsEffect::SendDevices(true))
        } else {
            match key::playback_message(code) {
                Some(msg) => (self, SongsEffect::Send(msg)),
                None => match self.focus {
                    Focus::Songs => self.key_for_songs(code),
                    Focus::Devices => self.key_for_devices(code),
                },
            }
        }
    }

    /// Follows a key.
    pub fn handle_key(&mut self, key: KeyEvent) -> (effect: SongsEffect)
        ensures
            (*final(self), effect) == old(self).key_pressed(key.code),
    {
        match self.focus {
            Focus::Songs => match key.code {
                KeyCode::Esc => {
                    self.exit_reason = Some(ReasonStopped::Quit);
                    SongsEffect::Nothing
                },
                KeyCode::Up | KeyCode::Char('k') => {
                    self.media.state.select_previous();
                    SongsEffect::Nothing
                },
                KeyCode::Down | KeyCode::Char('j') => {
                    self.media.state.select_next();
                    SongsEffect::Nothing
                },
                KeyCode::Char('G') | KeyCode::Home => {
                    self.media.state.select_last();
                    SongsEffect::Nothing
                },
                KeyCode::Char('g') | KeyCode::End => {
                    self.media.state.select_first();
                    SongsEffect::Nothing
                },
                KeyCode::Char('l') => {
                    self.focus = Focus::Devices;
                    SongsEffect::Nothing
                },
                KeyCode::Char('p') | KeyCode::F(8) | KeyCode::Pause | KeyCode::Char(
                    ' ',
                ) => SongsEffect::Send(Msg2Sub::PauseUnpause),
                KeyCode::Tab => {
                    self.exit_reason = Some(ReasonStopped::ChangeScreen);
                    SongsEffect::Nothing
                },
                KeyCode::Char('f') => SongsEffect::SendDevices(true),
                KeyCode::Char('r') => SongsEffect::Send(Msg2Sub::Randomize),
                KeyCode::Char('s') | KeyCode::F(9) => SongsEffect::Send(Msg2Sub::Skip),
                KeyCode::Char('m') | KeyCode::F(10) => SongsEffect::Send(Msg2Sub::Mute),
                KeyCode::Char('v') | KeyCode::F(11) => SongsEffect::Send(Msg2Sub::DecreaseVolume),
                KeyCode::Char('V') | KeyCode::F(12) => SongsEffect::Send(Msg2Sub::IncreaseVolume),
                KeyCode::Left => SongsEffect::Send(Msg2Sub::MoveBackward),
                KeyCode::Right => SongsEffect::Send(Msg2Sub::MoveForward),
                KeyCode::Char('L') => SongsEffect::Send(Msg2Sub::ToggleLoop),
                KeyCode::Enter => match self.media.state.selected {
                    Some(index) => SongsEffect::Send(Msg2Sub::Select(index)),
                    None => SongsEffect::Nothing,
                },
                _ => SongsEffect::Nothing,
            },
            Focus::Devices => match key.code {
                KeyCode::Esc => {
                    self.exit_reason = Some(ReasonStopped::Quit);
                    SongsEffect::Nothing
                },
                KeyCode::Tab => {
                    self.exit_reason = Some(ReasonStopped::ChangeScreen);
                    SongsEffect::Nothing
                },
                KeyCode::Char('h') => {
                    self.focus = Focus::Songs;
                    SongsEffect::Nothing
                },
                KeyCode::Up | KeyCode::Char('k') => {
                    self.device_list_state.select_previous();
                    SongsEffect::Nothing
                },
                KeyCode::Down | KeyCode::Char('j') => {
                    self.device_list_state.select_next();
                    SongsEffect::Nothing
                },
                KeyCode::Char('g') | KeyCode::Home => {
                    self.device_list_state.select_first();
                    SongsEffect::Nothing
                },
                KeyCode::Char('G') | KeyCode::End => {
                    self.device_list_state.select_last();
                    SongsEffect::Nothing
                },
                KeyCode::Char('f') => SongsEffect::SendDevices(true),
                KeyCode::Enter => match self.switch_device() {
                    Some(msg) => SongsEffect::Send(msg),
                    None => SongsEffect::Nothing,
                },
                KeyCode::Char('p') | KeyCode::F(8) | KeyCode::Pause | KeyCode::Char(
                    ' ',
                ) => SongsEffect::Send(Msg2Sub::PauseUnpause),
                KeyCode::Char('s') | KeyCode::F(9) => SongsEffect::Send(Msg2Sub::Skip),
                KeyCode::Char('m') | KeyCode::F(10) => SongsEffect::Send(Msg2Sub::Mute),
                KeyCode::Char('v') | KeyCode::F(11) => SongsEffect::Send(Msg2Sub::DecreaseVolume),
                KeyCode::Char('V') | KeyCode::F(12) => SongsEffect::Send(Msg2Sub::IncreaseVolume),
                KeyCode::Char('r') => SongsEffect::RefreshDevices,
                KeyCode::Left => SongsEffect::Send(Msg2Sub::MoveBackward),
                KeyCode::Right => SongsEffect::Send(Msg2Sub::MoveForward),
                KeyCode::Char('L') => SongsEffect::Send(Msg2Sub::ToggleLoop),
                _ => SongsEffect::Nothing,
            },
        }
    }

    /// What asks the playback for the selected device.
    pub fn switch_device(&self) -> (msg: Option<Msg2Sub>)
        ensures
            msg == (match self.chosen_device() {
                Some(device) => Some(Msg2Sub::SwitchDevice(device)),
                None => None,
            }),
    {
        match self.device_list_state.selected {
            Some(index) => {
                if index < self.devices.output_devices.len() {
                    Some(Msg2Sub::SwitchDevice(self.devices.output_devices[index].clone()))
                } else {
                    None
                }
            },
            None => None,
        }
    }

    /// Other devices are shown, none of them selected.
    pub open spec fn refreshed(self, devices: AvailableDevices) -> SongsState {
        SongsState { devices, device_list_state: ListState::initial(), ..self }
    }

    /// Shows other devices, none of them selected.
    pub fn refresh_devices(&mut self, devices: AvailableDevices)
        ensures
            *final(self) == old(self).refreshed(devices),
    {
        self.devices = devices;
        self.device_list_state = ListState::default();
    }

    /// What hands the devices to the playback, if there are any.
    pub open spec fn handing_on(available_devices: AvailableDevices, start_playback: bool) -> Result<
        Msg2Sub,
        AppError,
    > {
        if available_devices.output_devices@.len() == 0 {
            Err(AppError::NoOutputDevices)
        } else {
            Ok(Msg2Sub::Devices(available_devices, start_playback))
        }
    }

    /// What hands the devices to the playback, if there are any.
    pub fn send_devices(available_devices: AvailableDevices, start_playback: bool) -> (r: Result<
        Msg2Sub,
        AppError,
    >)
        ensures
            r == SongsState::handing_on(available_devices, start_playback),
    {
        if available_devices.is_empty() {
            return Err(AppError::NoOutputDevices);
        }
        Ok(Msg2Sub::Devices(available_devices, start_playback))
    }

    /// What finding devices does. They are for the playback, and the screen is left if
    /// there are none.
    pub open spec fn after_finding(self, available_devices: AvailableDevices, start_playback: bool) -> (
        SongsState,
        Option<Msg2Sub>,
    ) {
        if available_devices.output_devices@.len() == 0 {
            (self.leaving(ReasonStopped::NoOutputDevices), None)
        } else {
            (self, Some(Msg2Sub::Devices(available_devices, start_playback)))
        }
    }

    /// Hands the devices that were found to the playback. The screen is left if
    /// there are none.
    pub fn devices_found(&mut self, available_devices: AvailableDevices, start_playback: bool) -> (r:
        Option<Msg2Sub>)
        ensures
            (*final(self), r) == old(self).after_finding(available_devices, start_playback),
    {
        match SongsState::send_devices(available_devices, start_playback) {
            Ok(msg) => Some(msg),
            Err(_) => {
                self.exit_reason = Some(ReasonStopped::NoOutputDevices);
                None
            },
        }
    }

    /// What a message from the playback does.
    pub open spec fn told(
        pre: SongsState,
        msg: Msg2Main,
        now: Nanos,
        post: SongsState,
        effect: SongsEffect,
    ) -> bool {
        match msg {
            Msg2Main::LoopStatus(is_looping) => {
                &&& post == (SongsState {
                    playback_position: PlaybackPosition { is_looping, ..pre.playback_position },
                    ..pre
                })
                &&& effect is Nothing
            },
            Msg2Main::Panic(msg) => {
                &&& post == pre
                &&& effect matches SongsEffect::Fail(s) && s@ == msg@
            },
            Msg2Main::PanicS(msg) => {
                &&& post == pre
                &&& effect == SongsEffect::Fail(msg)
            },
            Msg2Main::OutputStreamInitializationFailed => {
                &&& post == (SongsState { message: Some((now, "failed to switch devices")), ..pre })
                &&& effect is Nothing
            },
            Msg2Main::DeviceSwitched(device) => {
                &&& pre.devices.is_place_of(device, post.devices.current_device as int)
                &&& post == (SongsState {
                    devices: AvailableDevices {
                        current_device: post.devices.current_device,
                        ..pre.devices
                    },
                    ..pre
                })
                &&& effect is Nothing
            },
            Msg2Main::DeviceLost => post == pre && effect == SongsEffect::SendDevices(true),
            Msg2Main::DeviceLostWait => post == pre && effect == SongsEffect::SendDevices(false),
            Msg2Main::SongChanged(playing) => {
                &&& media::marked(post.media.sources@, playing)
                &&& media::paths(post.media.sources@) == media::paths(pre.media.sources@)
                &&& post == (SongsState {
                    media: MediaSources { sources: post.media.sources, ..pre.media },
                    ..pre
                })
                &&& effect is Nothing
            },
            Msg2Main::Randomized(sources) => {
                &&& media::marked(post.media.sources@, Some(0))
                &&& media::paths(post.media.sources@) == sources@
                &&& post == (SongsState {
                    media: MediaSources { sources: post.media.sources, ..pre.media },
                    ..pre
                })
                &&& effect is Nothing
            },
            Msg2Main::TotalDuration(total_duration) => {
                &&& post == (SongsState {
                    playback_position: PlaybackPosition { total_duration, ..pre.playback_position },
                    ..pre
                })
                &&& effect is Nothing
            },
            Msg2Main::UpdatePosition(current_pos) => {
                &&& post == (SongsState {
                    playback_position: PlaybackPosition { current_pos, ..pre.playback_position },
                    ..pre
                })
                &&& effect is Nothing
            },
            Msg2Main::VolumeChanged(volume) => {
                &&& post == (SongsState {
                    playback_position: PlaybackPosition { volume, ..pre.playback_position },
                    ..pre
                })
                &&& effect is Nothing
            },
        }
    }

    /// Takes note of a message from the playback.
    pub fn read_channel(&mut self, msg: Msg2Main, now: Nanos) -> (effect: SongsEffect)
        ensures
            SongsState::told(*old(self), msg, now, *final(self), effect),
            media::at_most_one_marked(old(self).media.sources@) ==> media::at_most_one_marked(
                final(self).media.sources@,
            ),
            old(self).devices.well_formed() ==> final(self).devices.well_formed(),
    {
        match msg {
            Msg2Main::LoopStatus(is_looping) => {
                self.playback_position.is_looping = is_looping;
                SongsEffect::Nothing
            },
            Msg2Main::Panic(msg) => SongsEffect::Fail(msg.to_owned()),
            Msg2Main::PanicS(msg) => SongsEffect::Fail(msg),
            Msg2Main::OutputStreamInitializationFailed => {
                self.message = Some((now, "failed to switch devices"));
                SongsEffect::Nothing
            },
            Msg2Main::DeviceSwitched(new_device) => {
                self.devices.current_device = self.devices.place_of(&new_device);
                SongsEffect::Nothing
            },
            Msg2Main::DeviceLost => SongsEffect::SendDevices(true),
            Msg2Main::DeviceLostWait => SongsEffect::SendDevices(false),
            Msg2Main::SongChanged(playing) => {
                media::mark(&mut self.media.sources, playing);
                proof {
                    media::marked_is_unique(self.media.sources@, playing);
                }
                SongsEffect::Nothing
            },
            Msg2Main::Randomized(sources) => {
                self.media.sources = media::first_marked(&sources);
                proof {
                    media::marked_is_unique(self.media.sources@, Some(0));
                }
                SongsEffect::Nothing
            },
            Msg2Main::TotalDuration(duration) => {
                self.playback_position.total_duration = duration;
                SongsEffect::Nothing
            },
            Msg2Main::UpdatePosition(pos) => {
                self.playback_position.current_pos = pos;
                SongsEffect::Nothing
            },
            Msg2Main::VolumeChanged(volume) => {
                self.playback_position.volume = volume;
                SongsEffect::Nothing
            },
        }
    }

    /// Each song has a file name.
    pub open spec fn all_named(self) -> bool {
        forall|i: int|
            0 <= i < self.media.sources@.len() ==> path::file_name_of(
                (#[trigger] self.media.sources@[i]).path,
            ) is Some
    }

    /// The entries are the songs by their file names, the one that plays highlighted.
    pub open spec fn songs_shown(self, entries: Seq<ListEntry>) -> bool {
        &&& entries.len() == self.media.sources@.len()
        &&& forall|i: int|
            0 <= i < entries.len() ==> {
                let song = self.media.sources@[i];
                &&& (#[trigger] entries[i]).text@ == path::decoded(path::file_name_of(song.path)->0)
                &&& entries[i].highlighted == song.is_playing
            }
    }

    /// The songs as they are listed, if each has a file name.
    pub fn checked_shown_songs(&self) -> (r: Option<Vec<ListEntry>>)
        ensures
            r is Some <==> self.all_named(),
            r matches Some(entries) ==> self.songs_shown(entries@),
    {
        let mut i: usize = 0;
        while i < self.media.sources.len()
            invariant
                i <= self.media.sources@.len(),
                forall|j: int|
                    0 <= j < i ==> path::file_name_of(
                        (#[trigger] self.media.sources@[j]).path,
                    ) is Some,
            decreases self.media.sources@.len() - i,
        {
            if path::file_name(&self.media.sources[i].path).is_none() {
                return None;
            }
            i = i + 1;
        }
        Some(self.shown_songs())
    }

    /// The songs as they are listed, the one that plays highlighted.
    pub fn shown_songs(&self) -> (entries: Vec<ListEntry>)
        requires
            self.all_named(),
        ensures
            self.songs_shown(entries@),
    {
        let mut entries: Vec<ListEntry> = Vec::new();
        let mut i: usize = 0;
        while i < self.media.sources.len()
            invariant
                i <= self.media.sources@.len(),
                entries@.len() == i,
                forall|j: int|
                    0 <= j < self.media.sources@.len() ==> path::file_name_of(
                        (#[trigger] self.media.sources@[j]).path,
                    ) is Some,
                forall|j: int|
                    0 <= j < i ==> {
                        let song = self.media.sources@[j];
                        &&& (#[trigger] entries@[j]).text@ == path::decoded(
                            path::file_name_of(song.path)->0,
                        )
                        &&& entries@[j].highlighted == song.is_playing
                    },
            decreases self.media.sources@.len() - i,
        {
            let song = &self.media.sources[i];
            entries.push(ListEntry { text: song.file_name(), highlighted: song.is_playing });
            i = i + 1;
        }
        entries
    }

    /// The entries are the devices by their names, the one in use highlighted.
    pub open spec fn devices_shown(self, entries: Seq<ListEntry>) -> bool {
        &&& entries.len() == self.devices.names@.len()
        &&& forall|i: int|
            0 <= i < entries.len() ==> {
                &&& (#[trigger] entries[i]).text@ == self.devices.names@[i]@
                &&& entries[i].highlighted == (i == self.devices.current_device)
            }
    }

    /// The devices as they are listed, the one in use highlighted.
    pub fn shown_devices(&self) -> (entries: Vec<ListEntry>)
        ensures
            self.devices_shown(entries@),
    {
        let mut entries: Vec<ListEntry> = Vec::new();
        let mut i: usize = 0;
        while i < self.devices.names.len()
            invariant
                i <= self.devices.names@.len(),
                entries@.len() == i,
                forall|j: int|
                    0 <= j < i ==> {
                        &&& (#[trigger] entries@[j]).text@ == self.devices.names@[j]@
                        &&& entries@[j].highlighted == (j == self.devices.current_device)
                    },
            decreases self.devices.names@.len() - i,
        {
            entries.push(
                ListEntry {
                    text: self.devices.names[i].clone(),
                    highlighted: i == self.devices.current_device,
                },
            );
            i = i + 1;
        }
        entries
    }

    /// The text on the playback.
    pub open spec fn described(self, position: Option<String>, duration: Option<String>) -> Seq<char> {
        "Volume: "@ + text::decimal(self.playback_position.volume as nat) + "\nLooping: "@ + (
        if self.playback_position.is_looping {
            "true"@
        } else {
            "false"@
        }) + "\n"@ + position_text(position, duration)
    }

    /// The text on the playback: its volume, whether it loops, and where it is.
    /// The position and the duration are given as texts, where they are known.
    pub fn playback_text(&self, position: Option<String>, duration: Option<String>) -> (s: String)
        ensures
            s@ == self.described(position, duration),
    {
        let mut s = "Volume: ".to_owned();
        s.append(text::to_decimal(self.playback_position.volume).as_str());
        s.append("\nLooping: ");
        if self.playback_position.is_looping {
            s.append("true");
        } else {
            s.append("false");
        }
        s.append("\n");
        s.append(playback_info(position, duration).as_str());
        s
    }

    /// The message that is shown, and the screen after that.
    pub open spec fn showing(self, now: Nanos) -> (SongsState, Option<&'static str>) {
        match self.message {
            Some((since, text)) => if clock::time_between(since, now) < MESSAGE_SHOWN_FOR {
                (self, Some(text))
            } else {
                (SongsState { message: None, ..self }, None)
            },
            None => (self, None),
        }
    }

    /// The message on the screen. It is gone after three seconds.
    pub fn shown_message(&mut self, now: Nanos) -> (msg: Option<&'static str>)
        ensures
            (*final(self), msg) == old(self).showing(now),
    {
        match self.message {
            Some((since, text)) => {
                if clock::time_since(since, now) < MESSAGE_SHOWN_FOR {
                    Some(text)
                } else {
                    self.message = None;
                    None
                }
            },
            None => None,
        }
    }
}

/// One line of a list on the screen.
#[derive(Debug)]
pub struct ListEntry {
    pub text: String,
    pub highlighted: bool,
}

/// Where the playback is, with a question mark for what is not known.
pub open spec fn position_text(position: Option<String>, duration: Option<String>) -> Seq<char> {
    match (position, duration) {
        (Some(position), Some(duration)) => position@ + "/"@ + duration@,
        (Some(position), None) => position@ + "/?"@,
        (None, Some(duration)) => "?/"@ + duration@,
        (None, None) => "Unknown Playback Position"@,
    }
}

/// Where the playback is, with a question mark for what is not known.
pub fn playback_info(position: Option<String>, duration: Option<String>) -> (s: String)
    ensures
        s@ == position_text(position, duration),
{
    match (position, duration) {
        (Some(position), Some(duration)) => position.concat("/").concat(duration.as_str()),
        (Some(position), None) => position.concat("/?"),
        (None, Some(duration)) => "?/".to_owned().concat(duration.as_str()),
        (None, None) => "Unknown Playback Position".to_owned(),
    }
}

} // verus!
