//! What the threads and the screens of the player tell each other.
use crate::clock::Nanos;
use crate::device::AvailableDevices;
use crate::device::Device;
use std::path::PathBuf;
use vstd::prelude::*;

verus! {

/// Which screen is shown.
#[derive(Clone, Copy, Debug, PartialEq, Eq, Structural)]
pub enum CurrentState {
    Songs,
    Search,
}

/// Why a screen gives up the keyboard.
#[derive(Clone, Copy, Debug, PartialEq, Eq, Structural)]
pub enum ReasonStopped {
    Quit,
    NoOutputDevices,
    ChangeScreen,
    NewSources,
}

/// What the playback is doing.
#[derive(Clone, Copy, Debug, PartialEq, Eq, Structural)]
pub enum Status {
    /// About to play the current song from its start.
    Startup,
    Paused,
    Playing,
    /// About to go on to the next song.
    NextSong,
    /// Past the last song.
    Waiting,
    ShouldExit,
}

/// What the playback tells the screens. Volumes are in tenths.
#[derive(Debug)]
pub enum Msg2Main {
    SongChanged(Option<usize>),
    Randomized(Vec<PathBuf>),
    TotalDuration(Option<Nanos>),
    UpdatePosition(Option<Nanos>),
    VolumeChanged(u8),
    DeviceLost,
    DeviceLostWait,
    DeviceSwitched(Device),
    Panic(&'static str),
    PanicS(String),
    OutputStreamInitializationFailed,
    LoopStatus(bool),
}

/// What the screens tell the playback.
#[derive(Debug)]
pub enum Msg2Sub {
    PauseUnpause,
    Skip,
    Select(usize),
    IncreaseVolume,
    DecreaseVolume,
    Mute,
    NewSources(Vec<PathBuf>),
    Randomize,
    MoveForward,
    MoveBackward,
    ShouldExit,
    ToggleLoop,
    SwitchDevice(Device),
    Devices(AvailableDevices, bool),
}

/// What can end the player. An error from outside is kept as its text.
#[derive(Debug)]
pub enum AppError {
    DrawFrame,
    NoOutputDevices,
    Io(String),
    Sink(String),
    Decoder(String),
    Seek(String),
    BuildStream(String),
    OutputConfig(String),
}

impl AppError {
    /// The text of the error.
    pub open spec fn text(self) -> Seq<char> {
        match self {
            AppError::DrawFrame => "failed to draw frame"@,
            AppError::NoOutputDevices => "no output devices"@,
            AppError::Io(e) => e@,
            AppError::Sink(e) => e@,
            AppError::Decoder(e) => e@,
            AppError::Seek(e) => e@,
            AppError::BuildStream(e) => e@,
            AppError::OutputConfig(e) => e@,
        }
    }

    /// The text of the error.
    pub fn to_text(&self) -> (s: String)
        ensures
            s@ == self.text(),
    {
        match self {
            AppError::DrawFrame => "failed to draw frame".to_owned(),
            AppError::NoOutputDevices => "no output devices".to_owned(),
            AppError::Io(e) => e.clone(),
            AppError::Sink(e) => e.clone(),
            AppError::Decoder(e) => e.clone(),
            AppError::Seek(e) => e.clone(),
            AppError::BuildStream(e) => e.clone(),
            AppError::OutputConfig(e) => e.clone(),
        }
    }
}

/// What the playback tells of an error in a running stream.
pub open spec fn stream_error_message(device_not_available: bool, error: String) -> Msg2Main {
    if device_not_available {
        Msg2Main::DeviceLost
    } else {
        Msg2Main::PanicS(error)
    }
}

/// What the playback tells of an error in a running stream: that the device was
/// lost, or else the text of the error.
pub fn stream_error(device_not_available: bool, error: String) -> (msg: Msg2Main)
    ensures
        msg == stream_error_message(device_not_available, error),
{
    if device_not_available {
        Msg2Main::DeviceLost
    } else {
        Msg2Main::PanicS(error)
    }
}

} // verus!
