//! The playback: which song plays, and what the player is told to do.
use crate::clock;
use crate::clock::Nanos;
use crate::device::AvailableDevices;
use crate::device::Device;
use crate::media;
use crate::message::Msg2Main;
use crate::message::Msg2Sub;
use crate::message::Status;
use rand::rngs::ThreadRng;
use rand::seq::SliceRandom;
use std::path::PathBuf;
use vstd::prelude::*;

verus! {

/// `rand::rngs::ThreadRng`, of which nothing is known.
#[verifier::external_type_specification]
#[verifier::external_body]
pub struct ExThreadRng(rand::rngs::ThreadRng);

/// The loudest volume, in tenths.
pub const LOUDEST: u8 = 10;

/// The volume at the start, in tenths.
pub const INITIAL_VOLUME: u8 = 8;

/// How long a device may stay unused before it is tried again.
pub const HEALTHCHECK_AFTER: Nanos = 60_000_000_000;

/// How often the position is told.
pub const POSITION_EVERY: Nanos = 1_000_000_000;

/// What is to be done outside, in this order.
#[derive(Debug)]
pub enum Action {
    /// Send a message to the screens.
    Tell(Msg2Main),
    /// Add the song that was opened to the player.
    Append,
    Play,
    Pause,
    /// Take all songs off the player.
    Clear,
    /// Set the volume of the player, in tenths.
    SetVolume(u8),
    /// Seek to a position in the song; it does not matter whether that works.
    Seek(Nanos),
    /// Put the new player in the place of the old one.
    UsePlayer,
    /// Try to open the device, and go on with `switch_device`.
    OpenDevice(Device),
    /// Try to open each of the devices, and go on with
    /// `rebuild_player_from_new_devices`.
    OpenDevices(AvailableDevices, bool),
    /// Give up, with this text.
    Fail(&'static str),
}

/// What the playback does next.
#[derive(Debug)]
pub enum Next {
    /// Send the message, if there is one, open the current song, and go on with
    /// `play_next_source`.
    AddSource(Option<Msg2Main>),
    /// Send the message and look again.
    Announce(Msg2Main),
    /// Look again.
    Again,
    /// Go on with `keep_playing` and `receive`.
    KeepPlaying,
    /// Check the device if it is time, and go on with `receive`.
    Idle,
    /// Stop.
    Exit,
}

/// What came from the screens.
#[derive(Debug)]
pub enum Received {
    Message(Msg2Sub),
    Empty,
    Disconnected,
}

/// A song that was opened.
#[derive(Clone, Copy, Debug)]
pub struct LoadedSource {
    pub total_duration: Option<Nanos>,
}

/// The state of the playback.
#[derive(Debug)]
pub struct PlaybackState {
    pub current_device: Device,
    pub status: Status,
    /// The place of the current song among the sources.
    pub index: usize,
    pub sources: Vec<PathBuf>,
    /// The volume, in tenths.
    pub volume: u8,
    pub position: Option<Nanos>,
    pub last_position_update: Nanos,
    pub last_device_healthcheck: Nanos,
    pub total_duration: Option<Nanos>,
    pub should_loop: bool,
}

/// `SliceRandom::shuffle` puts the paths into another order. Which one depends
/// on chance; whichever it is, the paths are the same ones.
#[verifier::external_body]
fn shuffle(v: &mut Vec<PathBuf>, rng: &mut ThreadRng)
    ensures
        final(v)@.to_multiset() == old(v)@.to_multiset(),
{
    v.shuffle(rng);
}

/// One tenth louder, but not beyond the loudest.
pub open spec fn louder(volume: u8) -> u8 {
    if volume < LOUDEST {
        (volume + 1) as u8
    } else {
        LOUDEST
    }
}

/// One tenth quieter, but not below silence.
pub open spec fn quieter(volume: u8) -> u8 {
    if volume > LOUDEST {
        LOUDEST
    } else if volume > 0 {
        (volume - 1) as u8
    } else {
        0
    }
}

impl PlaybackState {
    /// The volume is in range, and wherever a song is in play it is one of the
    /// sources.
    pub open spec fn well_formed(self) -> bool {
        &&& self.volume <= LOUDEST
        &&& self.status is Playing || self.status is Paused || self.status is NextSong ==> self.index
            < self.sources@.len()
    }

    /// The current song is one of the sources.
    pub open spec fn has_source(self) -> bool {
        self.index < self.sources@.len()
    }

    /// The playback at its start.
    pub open spec fn initial(
        sources: Vec<PathBuf>,
        current_device: Device,
        status: Status,
        now: Nanos,
    ) -> PlaybackState {
        PlaybackState {
            current_device,
            status,
            index: 0,
            sources,
            volume: INITIAL_VOLUME,
            position: None,
            last_position_update: now,
            last_device_healthcheck: now,
            total_duration: None,
            should_loop: false,
        }
    }

    pub fn new(sources: Vec<PathBuf>, current_device: Device, status: Status, now: Nanos) -> (r:
        PlaybackState)
        ensures
            r == Self::initial(sources, current_device, status, now),
            status is Startup || status is Waiting ==> r.well_formed(),
    {
        PlaybackState {
            current_device,
            status,
            index: 0,
            sources,
            volume: INITIAL_VOLUME,
            position: None,
            last_position_update: now,
            last_device_healthcheck: now,
            total_duration: None,
            should_loop: false,
        }
    }

    /// The path of the current song.
    pub open spec fn current_song(self) -> PathBuf {
        self.sources@[self.index as int]
    }

    /// The path of the current song.
    pub fn source_from_file(&self) -> (path: &PathBuf)
        requires
            self.has_source(),
        ensures
            *path == self.current_song(),
    {
        &self.sources[self.index]
    }

    /// What is told when the current song cannot be decoded.
    pub fn decoder_failed() -> (msg: Msg2Main)
        ensures
            msg == Msg2Main::Panic("unsupported or invalid format"),
    {
        Msg2Main::Panic("unsupported or invalid format")
    }

    /// What brings a new player to where the playback is: the volume, the
    /// current song, and the position in it.
    pub open spec fn restoring(self) -> Seq<Action> {
        match self.position {
            Some(position) => seq![
                Action::SetVolume(self.volume),
                Action::Append,
                Action::Seek(position),
            ],
            None => seq![Action::SetVolume(self.volume), Action::Append],
        }
    }

    /// The current song was opened.
    pub open spec fn with_loaded(self, loaded: LoadedSource) -> PlaybackState {
        PlaybackState { total_duration: loaded.total_duration, ..self }
    }

    /// Brings a new player to where the playback is, without starting it.
    pub fn _restore_state(&mut self, loaded: LoadedSource) -> (actions: Vec<Action>)
        ensures
            *final(self) == old(self).with_loaded(loaded),
            actions@ == old(self).restoring(),
    {
        self.total_duration = loaded.total_duration;
        let mut actions = vec![Action::SetVolume(self.volume), Action::Append];
        if let Some(position) = self.position {
            actions.push(Action::Seek(position));
        }
        proof {
            assert(actions@ =~= old(self).restoring());
        }
        actions
    }

    /// What switching to another device does. If the device could be opened, the
    /// current song plays there. Otherwise nothing changes but that this is told.
    pub open spec fn switched(
        pre: PlaybackState,
        device: Device,
        loaded: Option<LoadedSource>,
        post: PlaybackState,
        actions: Seq<Action>,
    ) -> bool {
        match loaded {
            Some(loaded) => {
                &&& post == (PlaybackState {
                    current_device: device,
                    status: Status::Playing,
                    ..pre.with_loaded(loaded)
                })
                &&& actions == pre.restoring() + seq![
                    Action::Play,
                    Action::UsePlayer,
                    Action::Tell(Msg2Main::DeviceSwitched(device)),
                ]
            },
            None => {
                &&& post == pre
                &&& actions == seq![Action::Tell(Msg2Main::OutputStreamInitializationFailed)]
            },
        }
    }

    /// Goes on with another device; `loaded` is the current song, opened for the
    /// new player, if the device could be opened.
    pub fn switch_device(&mut self, device: Device, loaded: Option<LoadedSource>) -> (actions: Vec<
        Action,
    >)
        ensures
            Self::switched(*old(self), device, loaded, *final(self), actions@),
            old(self).well_formed() && (loaded is Some ==> old(self).has_source())
                ==> final(self).well_formed(),
    {
        match loaded {
            Some(loaded) => {
                self.current_device = device.clone();
                let mut actions = self._restore_state(loaded);
                actions.push(Action::Play);
                actions.push(Action::UsePlayer);
                self.status = Status::Playing;
                actions.push(Action::Tell(Msg2Main::DeviceSwitched(device)));
                proof {
                    assert(actions@ =~= old(self).restoring() + seq![
                        Action::Play,
                        Action::UsePlayer,
                        Action::Tell(Msg2Main::DeviceSwitched(device)),
                    ]);
                }
                actions
            },
            None => {
                let actions = vec![Action::Tell(Msg2Main::OutputStreamInitializationFailed)];
                proof {
                    assert(actions@ =~= seq![
                        Action::Tell(Msg2Main::OutputStreamInitializationFailed),
                    ]);
                }
                actions
            },
        }
    }

    /// The last place that holds `true`.
    pub open spec fn last_true(opened: Seq<bool>) -> Option<int>
        decreases opened.len(),
    {
        if opened.len() == 0 {
            None
        } else if opened.last() {
            Some(opened.len() - 1)
        } else {
            Self::last_true(opened.drop_last())
        }
    }

    /// The last device that could be opened.
    pub fn last_opened(opened: &Vec<bool>) -> (r: Option<usize>)
        ensures
            match Self::last_true(opened@) {
                Some(i) => r is Some && r->0 == i && i < opened@.len() && opened@[i],
                None => r is None,
            },
    {
        let mut i: usize = opened.len();
        proof {
            assert(opened@.take(i as int) =~= opened@);
        }
        while i > 0
            invariant
                i <= opened@.len(),
                Self::last_true(opened@) == Self::last_true(opened@.take(i as int)),
            decreases i,
        {
            proof {
                assert(opened@.take(i as int).drop_last() =~= opened@.take(i - 1));
            }
            if opened[i - 1] {
                return Some(i - 1);
            }
            i = i - 1;
        }
        None
    }

    /// What going on with new devices does. The last of them that could be opened
    /// is used, and where none could the playback fails.
    pub open spec fn rebuilt(
        pre: PlaybackState,
        devices: AvailableDevices,
        opened: Seq<bool>,
        loaded: LoadedSource,
        start_playback: bool,
        post: PlaybackState,
        actions: Seq<Action>,
    ) -> bool {
        match Self::last_true(opened) {
            Some(i) => {
                let device = devices.output_devices@[i];
                &&& post == (PlaybackState {
                    current_device: device,
                    status: if start_playback {
                        Status::Playing
                    } else {
                        pre.status
                    },
                    ..pre.with_loaded(loaded)
                })
                &&& actions == pre.restoring() + (if start_playback {
                    seq![Action::Play]
                } else {
                    seq![]
                }) + seq![Action::UsePlayer, Action::Tell(Msg2Main::DeviceSwitched(device))]
            },
            None => {
                &&& post == pre
                &&& actions == seq![
                    Action::Tell(Msg2Main::Panic("no output device available")),
                    Action::Fail("failed to create sink for any output device"),
                ]
            },
        }
    }

    /// Goes on with the last of the devices that could be opened; `opened` says
    /// of each whether it could, and `loaded` is the current song, opened for the
    /// new player.
    pub fn rebuild_player_from_new_devices(
        &mut self,
        devices: AvailableDevices,
        opened: &Vec<bool>,
        loaded: LoadedSource,
        start_playback: bool,
    ) -> (actions: Vec<Action>)
        requires
            opened@.len() == devices.output_devices@.len(),
        ensures
            Self::rebuilt(
                *old(self),
                devices,
                opened@,
                loaded,
                start_playback,
                *final(self),
                actions@,
            ),
            old(self).well_formed() && (Self::last_true(opened@) is Some ==> old(self).has_source())
                ==> final(self).well_formed(),
    {
        let chosen = match Self::last_opened(opened) {
            Some(i) => i,
            None => {
                return vec![
                    Action::Tell(Msg2Main::Panic("no output device available")),
                    Action::Fail("failed to create sink for any output device"),
                ];
            },
        };
        self.current_device = devices.output_devices[chosen].clone();
        let mut actions = self._restore_state(loaded);
        if start_playback {
            actions.push(Action::Play);
            self.status = Status::Playing;
        }
        actions.push(Action::UsePlayer);
        actions.push(Action::Tell(Msg2Main::DeviceSwitched(self.current_device.clone())));
        proof {
            let device = devices.output_devices@[chosen as int];
            assert(actions@ =~= old(self).restoring() + (if start_playback {
                seq![Action::Play]
            } else {
                seq![]
            }) + seq![Action::UsePlayer, Action::Tell(Msg2Main::DeviceSwitched(device))]);
        }
        actions
    }

    /// It is time to try the device again.
    pub open spec fn device_is_due(self, now: Nanos) -> bool {
        clock::time_between(self.last_device_healthcheck, now) > HEALTHCHECK_AFTER
    }

    /// Whether it is time to try the device again.
    pub fn needs_healthcheck(&self, now: Nanos) -> (r: bool)
        ensures
            r == self.device_is_due(now),
    {
        clock::time_since(self.last_device_healthcheck, now) > HEALTHCHECK_AFTER
    }

    /// What trying the device again does. A device that cannot be opened is told
    /// and nothing else changes, so that it is tried again soon. While the playback
    /// is paused the new player is brought to where the playback is, and while it
    /// waits the new player takes the place of the old one.
    pub open spec fn tried_again(
        pre: PlaybackState,
        opened: bool,
        loaded: LoadedSource,
        now: Nanos,
        post: PlaybackState,
        actions: Seq<Action>,
    ) -> bool {
        if !opened {
            &&& post == pre
            &&& actions == seq![Action::Tell(Msg2Main::DeviceLostWait)]
        } else if pre.status is Paused {
            &&& post == (PlaybackState { last_device_healthcheck: now, ..pre.with_loaded(loaded) })
            &&& actions == pre.restoring().push(
                Action::Tell(Msg2Main::DeviceSwitched(pre.current_device)),
            )
        } else {
            &&& post == (PlaybackState { last_device_healthcheck: now, ..pre })
            &&& actions == seq![
                Action::SetVolume(pre.volume),
                Action::UsePlayer,
                Action::Tell(Msg2Main::DeviceSwitched(pre.current_device)),
            ]
        }
    }

    /// The current song is to be opened for the new player when the device is tried
    /// again.
    pub open spec fn song_reopens(self, opened: bool) -> bool {
        opened && self.status is Paused
    }

    /// Whether the current song is to be opened for the new player when the device is
    /// tried again.
    pub fn reopens_song(&self, opened: bool) -> (r: bool)
        ensures
            r == self.song_reopens(opened),
    {
        opened && matches!(self.status, Status::Paused)
    }

    /// Tries the device again while nothing plays; `loaded` is the current song,
    /// opened for the new player, where `reopens_song` asks for it.
    pub fn rebuild_player_from_current_device(
        &mut self,
        opened: bool,
        loaded: LoadedSource,
        now: Nanos,
    ) -> (actions: Vec<Action>)
        requires
            opened ==> old(self).status is Paused || old(self).status is Waiting,
        ensures
            Self::tried_again(*old(self), opened, loaded, now, *final(self), actions@),
            old(self).well_formed() ==> final(self).well_formed(),
    {
        if !opened {
            let actions = vec![Action::Tell(Msg2Main::DeviceLostWait)];
            proof {
                assert(actions@ =~= seq![Action::Tell(Msg2Main::DeviceLostWait)]);
            }
            return actions;
        }
        let mut actions: Vec<Action> = match self.status {
            Status::Paused => self._restore_state(loaded),
            _ => vec![Action::SetVolume(self.volume), Action::UsePlayer],
        };
        self.last_device_healthcheck = now;
        actions.push(Action::Tell(Msg2Main::DeviceSwitched(self.current_device.clone())));
        proof {
            if old(self).status is Waiting {
                assert(actions@ =~= seq![
                    Action::SetVolume(old(self).volume),
                    Action::UsePlayer,
                    Action::Tell(Msg2Main::DeviceSwitched(old(self).current_device)),
                ]);
            }
        }
        actions
    }

    /// What comes next, decided without the outside.
    pub open spec fn next(self, player_empty: bool) -> (PlaybackState, Next) {
        match self.status {
            Status::Startup => (
                self,
                Next::AddSource(Some(Msg2Main::SongChanged(Some(self.index)))),
            ),
            Status::NextSong => if self.should_loop {
                (self, Next::AddSource(None))
            } else if self.index + 1 < self.sources@.len() {
                let index = (self.index + 1) as usize;
                (
                    PlaybackState { index, ..self },
                    Next::AddSource(Some(Msg2Main::SongChanged(Some(index)))),
                )
            } else {
                (
                    PlaybackState { index: 0, status: Status::Waiting, ..self },
                    Next::Announce(Msg2Main::SongChanged(None)),
                )
            },
            Status::Playing => if player_empty {
                (
                    PlaybackState { status: Status::NextSong, total_duration: None, ..self },
                    Next::Again,
                )
            } else {
                (self, Next::KeepPlaying)
            },
            Status::Paused => (self, Next::Idle),
            Status::Waiting => (self, Next::Idle),
            Status::ShouldExit => (self, Next::Exit),
        }
    }

    /// Begins one turn of the playback: goes to the next song when one has ended,
    /// repeats the song if it loops, and waits behind the last one.
    pub fn run(&mut self, player_empty: bool) -> (next: Next)
        requires
            old(self).well_formed(),
        ensures
            (*final(self), next) == old(self).next(player_empty),
            final(self).well_formed(),
            next is AddSource && !(old(self).status is Startup) ==> final(self).has_source(),
    {
        match self.status {
            Status::Startup => Next::AddSource(Some(Msg2Main::SongChanged(Some(self.index)))),
            Status::NextSong => {
                if self.should_loop {
                    Next::AddSource(None)
                } else {
                    let n: usize = self.sources.len();
                    self.index = self.index + 1;
                    if self.index >= n {
                        self.index = 0;
                        self.status = Status::Waiting;
                        Next::Announce(Msg2Main::SongChanged(None))
                    } else {
                        Next::AddSource(Some(Msg2Main::SongChanged(Some(self.index))))
                    }
                }
            },
            Status::Playing => {
                if player_empty {
                    self.status = Status::NextSong;
                    self.total_duration = None;
                    Next::Again
                } else {
                    Next::KeepPlaying
                }
            },
            Status::Paused => Next::Idle,
            Status::Waiting => Next::Idle,
            Status::ShouldExit => Next::Exit,
        }
    }

    /// Adds the current song, which was opened, to the player.
    pub fn add_next_source(&mut self, loaded: LoadedSource) -> (actions: Vec<Action>)
        ensures
            *final(self) == old(self).with_loaded(loaded),
            actions@ == seq![
                Action::Append,
                Action::Tell(Msg2Main::TotalDuration(loaded.total_duration)),
            ],
    {
        self.total_duration = loaded.total_duration;
        vec![Action::Append, Action::Tell(Msg2Main::TotalDuration(self.total_duration))]
    }

    /// The current song was added to the player and plays.
    pub open spec fn song_started(
        pre: PlaybackState,
        loaded: LoadedSource,
        post: PlaybackState,
        actions: Seq<Action>,
    ) -> bool {
        &&& post == (PlaybackState { status: Status::Playing, ..pre.with_loaded(loaded) })
        &&& actions == seq![
            Action::Append,
            Action::Tell(Msg2Main::TotalDuration(loaded.total_duration)),
            Action::Play,
        ]
    }

    /// Adds the current song, which was opened, to the player and plays it.
    pub fn play_next_source(&mut self, loaded: LoadedSource) -> (actions: Vec<Action>)
        ensures
            Self::song_started(*old(self), loaded, *final(self), actions@),
            old(self).well_formed() && old(self).has_source() ==> final(self).well_formed(),
    {
        let mut actions = self.add_next_source(loaded);
        actions.push(Action::Play);
        self.status = Status::Playing;
        proof {
            assert(actions@ =~= seq![
                Action::Append,
                Action::Tell(Msg2Main::TotalDuration(loaded.total_duration)),
                Action::Play,
            ]);
        }
        actions
    }

    /// The position is known anew. It is told if a second has passed since it
    /// was told last.
    pub open spec fn positioned(self, position: Option<Nanos>, now: Nanos) -> PlaybackState {
        PlaybackState {
            position,
            last_position_update: if clock::time_between(self.last_position_update, now)
                >= POSITION_EVERY {
                now
            } else {
                self.last_position_update
            },
            ..self
        }
    }

    /// Where the song is, as the player says; nowhere if the player has no song.
    pub open spec fn position_of(player_empty: bool, player_position: Nanos) -> Option<Nanos> {
        if player_empty {
            None
        } else {
            Some(player_position)
        }
    }

    /// What is told of the position.
    pub open spec fn position_told(self, position: Option<Nanos>, now: Nanos) -> Option<Msg2Main> {
        if clock::time_between(self.last_position_update, now) >= POSITION_EVERY {
            Some(Msg2Main::UpdatePosition(position))
        } else {
            None
        }
    }

    /// Notes the position in the song, and tells it once a second.
    pub fn update_position(&mut self, player_empty: bool, player_position: Nanos, now: Nanos) -> (told:
        Option<Msg2Main>)
        ensures
            *final(self) == old(self).positioned(
                Self::position_of(player_empty, player_position),
                now,
            ),
            told == old(self).position_told(Self::position_of(player_empty, player_position), now),
    {
        let position: Option<Nanos> = if player_empty {
            None
        } else {
            Some(player_position)
        };
        self.position = position;
        if clock::time_since(self.last_position_update, now) >= POSITION_EVERY {
            self.last_position_update = now;
            Some(Msg2Main::UpdatePosition(position))
        } else {
            None
        }
    }

    /// While a song plays, it is noted where it is and that the device works.
    pub open spec fn kept_playing(
        pre: PlaybackState,
        player_empty: bool,
        player_position: Nanos,
        now: Nanos,
        post: PlaybackState,
        told: Option<Msg2Main>,
    ) -> bool {
        let position = Self::position_of(player_empty, player_position);
        &&& post == (PlaybackState {
            last_device_healthcheck: now,
            ..pre.positioned(position, now)
        })
        &&& told == pre.position_told(position, now)
    }

    /// Notes while a song plays where it is, and that the device works.
    pub fn keep_playing(&mut self, player_empty: bool, player_position: Nanos, now: Nanos) -> (told:
        Option<Msg2Main>)
        ensures
            Self::kept_playing(
                *old(self),
                player_empty,
                player_position,
                now,
                *final(self),
                told,
            ),
            old(self).well_formed() ==> final(self).well_formed(),
    {
        let told = self.update_position(player_empty, player_position, now);
        self.last_device_healthcheck = now;
        told
    }

    pub fn toggle_loop(&mut self) -> (actions: Vec<Action>)
        ensures
            *final(self) == (PlaybackState { should_loop: !old(self).should_loop, ..*old(self) }),
            actions@ == seq![Action::Tell(Msg2Main::LoopStatus(!old(self).should_loop))],
    {
        self.should_loop = !self.should_loop;
        vec![Action::Tell(Msg2Main::LoopStatus(self.should_loop))]
    }

    /// What sets the volume of the player and tells it.
    pub open spec fn setting_volume(volume: u8) -> Seq<Action> {
        seq![Action::SetVolume(volume), Action::Tell(Msg2Main::VolumeChanged(volume))]
    }

    pub fn mute(&mut self) -> (actions: Vec<Action>)
        ensures
            *final(self) == (PlaybackState { volume: 0, ..*old(self) }),
            actions@ == Self::setting_volume(0),
    {
        self.volume = 0;
        vec![Action::SetVolume(0), Action::Tell(Msg2Main::VolumeChanged(0))]
    }

    pub fn increase_volume(&mut self) -> (actions: Vec<Action>)
        ensures
            *final(self) == (PlaybackState { volume: louder(old(self).volume), ..*old(self) }),
            actions@ == Self::setting_volume(louder(old(self).volume)),
    {
        let new_volume: u8 = if self.volume < LOUDEST {
            self.volume + 1
        } else {
            LOUDEST
        };
        self.volume = new_volume;
        vec![Action::SetVolume(new_volume), Action::Tell(Msg2Main::VolumeChanged(new_volume))]
    }

    pub fn decrease_volume(&mut self) -> (actions: Vec<Action>)
        ensures
            *final(self) == (PlaybackState { volume: quieter(old(self).volume), ..*old(self) }),
            actions@ == Self::setting_volume(quieter(old(self).volume)),
    {
        let new_volume: u8 = if self.volume > LOUDEST {
            LOUDEST
        } else if self.volume > 0 {
            self.volume - 1
        } else {
            0
        };
        self.volume = new_volume;
        vec![Action::SetVolume(new_volume), Action::Tell(Msg2Main::VolumeChanged(new_volume))]
    }

    /// Plays the song at `index` from its start.
    pub fn select_source(&mut self, index: usize) -> (actions: Vec<Action>)
        ensures
            *final(self) == (PlaybackState { index, status: Status::Startup, ..*old(self) }),
            actions@ == seq![Action::Clear],
    {
        self.index = index;
        self.status = Status::Startup;
        vec![Action::Clear]
    }

    /// Goes on to the next song.
    pub fn skip(&mut self) -> (actions: Vec<Action>)
        ensures
            *final(self) == (PlaybackState { status: Status::NextSong, ..*old(self) }),
            actions@ == seq![Action::Clear],
    {
        self.status = Status::NextSong;
        vec![Action::Clear]
    }

    /// Plays other songs, from the first one.
    pub fn new_sources(&mut self, new_sources: Vec<PathBuf>) -> (actions: Vec<Action>)
        ensures
            *final(self) == (PlaybackState {
                sources: new_sources,
                index: 0,
                status: Status::Startup,
                ..*old(self)
            }),
            actions@ == seq![Action::Clear],
    {
        self.sources = new_sources;
        self.index = 0;
        self.status = Status::Startup;
        vec![Action::Clear]
    }

    /// Plays if the player is paused, and pauses if it is not.
    pub fn pause_unpause(&mut self, player_paused: bool) -> (actions: Vec<Action>)
        ensures
            player_paused ==> {
                &&& *final(self) == (PlaybackState { status: Status::Playing, ..*old(self) })
                &&& actions@ == seq![Action::Play]
            },
            !player_paused ==> {
                &&& *final(self) == (PlaybackState { status: Status::Paused, ..*old(self) })
                &&& actions@ == seq![Action::Pause]
            },
    {
        if player_paused {
            self.status = Status::Playing;
            vec![Action::Play]
        } else {
            self.status = Status::Paused;
            vec![Action::Pause]
        }
    }

    /// The songs are in another order, which is told, and play from the first one.
    pub open spec fn reordered(
        pre: PlaybackState,
        shuffled: Seq<PathBuf>,
        post: PlaybackState,
        actions: Seq<Action>,
    ) -> bool {
        &&& post.sources@ == shuffled
        &&& post == (PlaybackState {
            sources: post.sources,
            index: 0,
            status: Status::Startup,
            ..pre
        })
        &&& actions.len() == 2
        &&& actions[0] is Clear
        &&& actions[1] matches Action::Tell(Msg2Main::Randomized(told)) && told@ == shuffled
    }

    /// Plays the songs in the order into which they were put, from the first one.
    pub fn sources_shuffled(&mut self, shuffled: Vec<PathBuf>) -> (actions: Vec<Action>)
        ensures
            final(self).sources == shuffled,
            Self::reordered(*old(self), shuffled@, *final(self), actions@),
    {
        let told = media::copy_paths(&shuffled);
        self.sources = shuffled;
        self.index = 0;
        self.status = Status::Startup;
        vec![Action::Clear, Action::Tell(Msg2Main::Randomized(told))]
    }

    /// Plays the songs in an order left to chance, from the first one.
    pub fn randomize_sources(&mut self, rng: &mut ThreadRng) -> (actions: Vec<Action>)
        ensures
            final(self).sources@.to_multiset() == old(self).sources@.to_multiset(),
            Self::reordered(*old(self), final(self).sources@, *final(self), actions@),
    {
        let mut shuffled = media::copy_paths(&self.sources);
        shuffle(&mut shuffled, rng);
        self.sources_shuffled(shuffled)
    }

    /// One second further on, where the position is known.
    pub open spec fn seeking_forward(self) -> Seq<Action> {
        match self.position {
            Some(position) => {
                let target = (position + clock::SECOND) as Nanos;
                seq![Action::Seek(target)]
            },
            None => Seq::empty(),
        }
    }

    /// One second back, where the position is known.
    pub open spec fn seeking_backward(self) -> Seq<Action> {
        match self.position {
            Some(position) => {
                let target = (position - clock::SECOND) as Nanos;
                seq![Action::Seek(target)]
            },
            None => Seq::empty(),
        }
    }

    pub fn try_move_forward(&self) -> (actions: Vec<Action>)
        requires
            self.position matches Some(position) ==> position + clock::SECOND
                <= clock::LONGEST,
        ensures
            actions@ == self.seeking_forward(),
    {
        match self.position {
            Some(position) => {
                let target: Nanos = position + clock::SECOND;
                vec![Action::Seek(target)]
            },
            None => Vec::new(),
        }
    }

    pub fn try_move_backward(&self) -> (actions: Vec<Action>)
        requires
            self.position matches Some(position) ==> position >= clock::SECOND,
        ensures
            actions@ == self.seeking_backward(),
    {
        match self.position {
            Some(position) => {
                let target: Nanos = position - clock::SECOND;
                vec![Action::Seek(target)]
            },
            None => Vec::new(),
        }
    }

    /// The playback can follow the message. Seeking fails where the time to seek
    /// to would be negative, or longer than any.
    pub open spec fn can_follow(self, msg: Msg2Sub) -> bool {
        &&& msg is MoveForward && self.status is Playing ==> (self.position matches Some(position)
            ==> position + clock::SECOND <= clock::LONGEST)
        &&& msg is MoveBackward && self.status is Playing ==> (self.position matches Some(position)
            ==> position >= clock::SECOND)
    }

    /// Whether the playback can follow the message.
    pub fn accepts(&self, msg: &Msg2Sub) -> (r: bool)
        ensures
            r == self.can_follow(*msg),
    {
        match (msg, self.status, self.position) {
            (Msg2Sub::MoveForward, Status::Playing, Some(position)) => position <= clock::LONGEST
                - clock::SECOND,
            (Msg2Sub::MoveBackward, Status::Playing, Some(position)) => position >= clock::SECOND,
            _ => true,
        }
    }

    /// What following a message does, wherever the playback listens: while it
    /// plays, while it is paused, and while it waits behind the last song.
    /// There is nothing to pause or to skip while it waits, and it seeks only
    /// while it plays.
    pub open spec fn followed(
        pre: PlaybackState,
        msg: Msg2Sub,
        player_paused: bool,
        post: PlaybackState,
        actions: Seq<Action>,
    ) -> bool {
        match msg {
            Msg2Sub::PauseUnpause => if pre.status is Waiting {
                post == pre && actions == Seq::<Action>::empty()
            } else if player_paused {
                &&& post == (PlaybackState { status: Status::Playing, ..pre })
                &&& actions == seq![Action::Play]
            } else {
                &&& post == (PlaybackState { status: Status::Paused, ..pre })
                &&& actions == seq![Action::Pause]
            },
            Msg2Sub::Skip => if pre.status is Waiting {
                post == pre && actions == Seq::<Action>::empty()
            } else {
                &&& post == (PlaybackState { status: Status::NextSong, ..pre })
                &&& actions == seq![Action::Clear]
            },
            Msg2Sub::Select(index) => {
                &&& post == (PlaybackState { index, status: Status::Startup, ..pre })
                &&& actions == seq![Action::Clear]
            },
            Msg2Sub::IncreaseVolume => {
                &&& post == (PlaybackState { volume: louder(pre.volume), ..pre })
                &&& actions == Self::setting_volume(louder(pre.volume))
            },
            Msg2Sub::DecreaseVolume => {
                &&& post == (PlaybackState { volume: quieter(pre.volume), ..pre })
                &&& actions == Self::setting_volume(quieter(pre.volume))
            },
            Msg2Sub::Mute => {
                &&& post == (PlaybackState { volume: 0, ..pre })
                &&& actions == Self::setting_volume(0)
            },
            Msg2Sub::NewSources(sources) => {
                &&& post == (PlaybackState { sources, index: 0, status: Status::Startup, ..pre })
                &&& actions == seq![Action::Clear]
            },
            Msg2Sub::Randomize => {
                &&& post.sources@.to_multiset() == pre.sources@.to_multiset()
                &&& Self::reordered(pre, post.sources@, post, actions)
            },
            Msg2Sub::MoveForward => {
                &&& post == pre
                &&& actions == (if pre.status is Playing {
                    pre.seeking_forward()
                } else {
                    Seq::empty()
                })
            },
            Msg2Sub::MoveBackward => {
                &&& post == pre
                &&& actions == (if pre.status is Playing {
                    pre.seeking_backward()
                } else {
                    Seq::empty()
                })
            },
            Msg2Sub::ShouldExit => {
                &&& post == (PlaybackState { status: Status::ShouldExit, ..pre })
                &&& actions == Seq::<Action>::empty()
            },
            Msg2Sub::ToggleLoop => {
                &&& post == (PlaybackState { should_loop: !pre.should_loop, ..pre })
                &&& actions == seq![Action::Tell(Msg2Main::LoopStatus(!pre.should_loop))]
            },
            Msg2Sub::SwitchDevice(device) => {
                &&& post == pre
                &&& actions == seq![Action::OpenDevice(device)]
            },
            Msg2Sub::Devices(devices, start_playback) => {
                &&& post == pre
                &&& actions == seq![Action::OpenDevices(devices, start_playback)]
            },
        }
    }

    /// Follows a message from the screens.
    pub fn follow(&mut self, msg: Msg2Sub, player_paused: bool, rng: &mut ThreadRng) -> (actions:
        Vec<Action>)
        requires
            old(self).well_formed(),
            old(self).status is Playing || old(self).status is Paused || old(self).status is Waiting,
            old(self).can_follow(msg),
        ensures
            Self::followed(*old(self), msg, player_paused, *final(self), actions@),
            final(self).well_formed(),
    {
        let waiting = matches!(self.status, Status::Waiting);
        let playing = matches!(self.status, Status::Playing);
        match msg {
            Msg2Sub::PauseUnpause => if waiting {
                Vec::new()
            } else {
                self.pause_unpause(player_paused)
            },
            Msg2Sub::Skip => if waiting {
                Vec::new()
            } else {
                self.skip()
            },
            Msg2Sub::Select(index) => self.select_source(index),
            Msg2Sub::IncreaseVolume => self.increase_volume(),
            Msg2Sub::DecreaseVolume => self.decrease_volume(),
            Msg2Sub::Mute => self.mute(),
            Msg2Sub::NewSources(new_sources) => self.new_sources(new_sources),
            Msg2Sub::Randomize => self.randomize_sources(rng),
            Msg2Sub::MoveForward => if playing {
                self.try_move_forward()
            } else {
                Vec::new()
            },
            Msg2Sub::MoveBackward => if playing {
                self.try_move_backward()
            } else {
                Vec::new()
            },
            Msg2Sub::ShouldExit => {
                self.status = Status::ShouldExit;
                Vec::new()
            },
            Msg2Sub::ToggleLoop => self.toggle_loop(),
            Msg2Sub::SwitchDevice(device) => {
                let actions = vec![Action::OpenDevice(device)];
                proof {
                    assert(actions@ =~= seq![Action::OpenDevice(device)]);
                }
                actions
            },
            Msg2Sub::Devices(devices, start_playback) => {
                let actions = vec![Action::OpenDevices(devices, start_playback)];
                proof {
                    assert(actions@ =~= seq![Action::OpenDevices(devices, start_playback)]);
                }
                actions
            },
        }
    }

    /// A message from the screens was followed, if there was one.
    pub open spec fn listened(
        pre: PlaybackState,
        received: Received,
        player_paused: bool,
        post: PlaybackState,
        actions: Seq<Action>,
    ) -> bool {
        match received {
            Received::Message(msg) => Self::followed(pre, msg, player_paused, post, actions),
            _ => post == pre && actions == Seq::<Action>::empty(),
        }
    }

    /// Ends one turn of the playback with what came from the screens. Nothing is
    /// left to do once they are gone.
    pub fn receive(&mut self, received: Received, player_paused: bool, rng: &mut ThreadRng) -> (r:
        Option<Vec<Action>>)
        requires
            old(self).well_formed(),
            old(self).status is Playing || old(self).status is Paused || old(self).status is Waiting,
            received matches Received::Message(msg) ==> old(self).can_follow(msg),
        ensures
            received is Disconnected <==> r is None,
            Self::listened(
                *old(self),
                received,
                player_paused,
                *final(self),
                if r is Some {
                    r->0@
                } else {
                    Seq::empty()
                },
            ),
            final(self).well_formed(),
    {
        match received {
            Received::Message(msg) => Some(self.follow(msg, player_paused, rng)),
            Received::Empty => Some(Vec::new()),
            Received::Disconnected => None,
        }
    }
}

/// The volume stays in range.
pub proof fn volume_stays_in_range(volume: u8)
    requires
        volume <= LOUDEST,
    ensures
        louder(volume) <= LOUDEST,
        quieter(volume) <= LOUDEST,
{
}

/// Louder and then quieter is as loud as before, except at the loudest, and the
/// other way round, except at silence.
pub proof fn louder_undoes_quieter(volume: u8)
    requires
        volume <= LOUDEST,
    ensures
        volume < LOUDEST ==> quieter(louder(volume)) == volume,
        volume > 0 ==> louder(quieter(volume)) == volume,
{
}

/// A song that ended is followed by the next one.
pub proof fn next_song_follows(p: PlaybackState, player_empty: bool)
    requires
        p.status is NextSong,
        !p.should_loop,
        p.index + 1 < p.sources@.len(),
    ensures
        p.next(player_empty).0.index == p.index + 1,
        p.next(player_empty).1 == Next::AddSource(
            Some(Msg2Main::SongChanged(Some((p.index + 1) as usize))),
        ),
{
    assert(p.sources@.len() == p.sources.len());
}

/// Behind the last song the playback waits, and stands at the first song again.
pub proof fn last_song_waits(p: PlaybackState, player_empty: bool)
    requires
        p.status is NextSong,
        !p.should_loop,
        p.index + 1 >= p.sources@.len(),
    ensures
        p.next(player_empty).0.status is Waiting,
        p.next(player_empty).0.index == 0,
        p.next(player_empty).1 == Next::Announce(Msg2Main::SongChanged(None)),
{
}

/// A song that loops is followed by itself, and nothing is announced.
pub proof fn looping_repeats(p: PlaybackState, player_empty: bool)
    requires
        p.status is NextSong,
        p.should_loop,
    ensures
        p.next(player_empty) == (p, Next::AddSource(None)),
{
}

/// The playback after `n` songs have ended one after the other.
pub open spec fn after_songs(p: PlaybackState, n: nat) -> PlaybackState
    decreases n,
{
    if n == 0 {
        p
    } else {
        let q = after_songs(p, (n - 1) as nat);
        if q.status is Waiting {
            q
        } else {
            let r = (PlaybackState { status: Status::NextSong, ..q }).next(true).0;
            if r.status is Waiting {
                r
            } else {
                PlaybackState { status: Status::Playing, ..r }
            }
        }
    }
}

/// Without looping, the songs play in order, each one once, and then the playback
/// waits.
pub proof fn songs_play_in_order(p: PlaybackState, n: nat)
    requires
        p.status is Playing,
        p.index == 0,
        p.sources@.len() > 0,
        !p.should_loop,
    ensures
        n < p.sources@.len() ==> after_songs(p, n) == (PlaybackState { index: n as usize, ..p }),
        n >= p.sources@.len() ==> after_songs(p, n) == (PlaybackState {
            status: Status::Waiting,
            ..p
        }),
    decreases n,
{
    if n > 0 {
        songs_play_in_order(p, (n - 1) as nat);
        assert(p.sources@.len() == p.sources.len());
    }
}

/// To loop and not to loop again leaves the playback as it was.
pub proof fn toggling_twice_restores(
    p: PlaybackState,
    q: PlaybackState,
    r: PlaybackState,
    paused: bool,
    a: Seq<Action>,
    b: Seq<Action>,
)
    requires
        PlaybackState::followed(p, Msg2Sub::ToggleLoop, paused, q, a),
        PlaybackState::followed(q, Msg2Sub::ToggleLoop, paused, r, b),
    ensures
        r == p,
{
}

/// To pause and to go on leaves the playback as it was.
pub proof fn pausing_and_going_on_restores(
    p: PlaybackState,
    q: PlaybackState,
    r: PlaybackState,
    a: Seq<Action>,
    b: Seq<Action>,
)
    requires
        p.status is Playing,
        PlaybackState::followed(p, Msg2Sub::PauseUnpause, false, q, a),
        PlaybackState::followed(q, Msg2Sub::PauseUnpause, true, r, b),
    ensures
        q.status is Paused,
        r == p,
{
}

/// Selecting a song has that song announced and played next.
pub proof fn selected_song_is_next(
    p: PlaybackState,
    index: usize,
    paused: bool,
    q: PlaybackState,
    actions: Seq<Action>,
    player_empty: bool,
)
    requires
        PlaybackState::followed(p, Msg2Sub::Select(index), paused, q, actions),
    ensures
        q.next(player_empty) == (
            q,
            Next::AddSource(Some(Msg2Main::SongChanged(Some(index)))),
        ),
        q.index == index,
{
}

} // verus!
