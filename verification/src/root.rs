//! The player as a whole: how it starts, and which screen is shown.
use crate::device::AvailableDevices;
use crate::directory::DirectoryState;
use crate::list_state::ListState;
use crate::media;
use crate::media::MediaSource;
use crate::media::MediaSources;
use crate::message::AppError;
use crate::message::CurrentState;
use crate::message::Msg2Sub;
use crate::message::ReasonStopped;
use crate::message::Status;
use crate::order;
use crate::path;
use crate::songs::SongsState;
use crate::text;
use std::path::PathBuf;
use vstd::prelude::*;

verus! {

/// What the player was started with: where all music is, and a folder to play.
#[derive(Debug)]
pub struct Args {
    pub root_dir: String,
    pub dir: Option<String>,
}

impl Args {
    /// What the arguments are read from: the text of the file of the root, and the folder
    /// to play.
    pub open spec fn is_read_from(self, root_dir_text: Seq<char>, dir: Option<String>) -> bool {
        &&& self.root_dir@ == text::trimmed_end(text::trimmed_start(root_dir_text))
        &&& self.dir == dir
    }

    /// The root is the text of its file without the white space around it.
    pub fn parse(root_dir_text: &str, dir: Option<String>) -> (r: Args)
        ensures
            r.is_read_from(root_dir_text@, dir),
    {
        Args { root_dir: text::trim(root_dir_text), dir }
    }
}

/// Why the player does not start.
#[derive(Clone, Copy, Debug, PartialEq, Eq, Structural)]
pub enum StartError {
    NoOutputDevices,
    NothingToPlay,
}

impl StartError {
    /// The text of the error.
    pub open spec fn text(self) -> Seq<char> {
        match self {
            StartError::NoOutputDevices => "there are no output devices"@,
            StartError::NothingToPlay => "there's nothing to play"@,
        }
    }

    /// The text of the error.
    pub fn to_text(&self) -> (s: String)
        ensures
            s@ == self.text(),
    {
        match self {
            StartError::NoOutputDevices => "there are no output devices".to_owned(),
            StartError::NothingToPlay => "there's nothing to play".to_owned(),
        }
    }
}

/// How the player starts: with which songs, what the playback does, and which
/// screen is shown.
#[derive(Debug)]
pub struct Start {
    pub sources: Vec<MediaSource>,
    pub status: Status,
    pub current_state: CurrentState,
}

impl Start {
    /// How the player starts, or why it does not.
    pub open spec fn decided(
        devices: AvailableDevices,
        listing: Option<Vec<PathBuf>>,
        r: Result<Start, StartError>,
    ) -> bool {
        if devices.output_devices@.len() == 0 {
            r == Err::<Start, StartError>(StartError::NoOutputDevices)
        } else {
            match listing {
                Some(listing) => if media::no_music(listing@) {
                    r == Err::<Start, StartError>(StartError::NothingToPlay)
                } else {
                    r matches Ok(start) && {
                        &&& order::stable_sort_of(
                            media::paths(start.sources@),
                            listing@.filter(|p: PathBuf| path::is_music(p)),
                        )
                        &&& start.sources@.len() > 0
                        &&& media::marked(start.sources@, Some(0))
                        &&& start.status is Startup
                        &&& start.current_state is Songs
                    }
                },
                None => r matches Ok(start) && {
                    &&& start.sources@ == Seq::<MediaSource>::empty()
                    &&& start.status is Waiting
                    &&& start.current_state is Search
                },
            }
        }
    }

    /// Decides how the player starts; `listing` has what is in the folder to play,
    /// if one was given. With a folder its songs play at once, and without one the
    /// music folders are shown.
    pub fn new(devices: &AvailableDevices, listing: Option<Vec<PathBuf>>) -> (r: Result<
        Start,
        StartError,
    >)
        ensures
            Start::decided(*devices, listing, r),
    {
        if devices.is_empty() {
            return Err(StartError::NoOutputDevices);
        }
        match listing {
            Some(listing) => match media::playlist(&listing) {
                Some(sources) => Ok(
                    Start {
                        sources,
                        status: Status::Startup,
                        current_state: CurrentState::Songs,
                    },
                ),
                None => Err(StartError::NothingToPlay),
            },
            None => Ok(
                Start {
                    sources: Vec::new(),
                    status: Status::Waiting,
                    current_state: CurrentState::Search,
                },
            ),
        }
    }
}

/// What is to be done outside when a folder is opened, in this order.
#[derive(Debug)]
pub enum RootAction {
    /// Send a message to the playback.
    Send(Msg2Sub),
    /// Throw away the messages from the playback that were not read yet.
    DropMessages,
}

/// The state of the player.
#[derive(Debug)]
pub struct RootState {
    pub songs_state: SongsState,
    pub directory_state: DirectoryState,
    pub current_state: CurrentState,
    pub should_quit: bool,
}

impl RootState {
    /// The player at its start.
    pub open spec fn initial(
        songs_state: SongsState,
        directory_state: DirectoryState,
        current_state: CurrentState,
    ) -> RootState {
        RootState { songs_state, directory_state, current_state, should_quit: false }
    }

    pub fn new(
        songs_state: SongsState,
        directory_state: DirectoryState,
        current_state: CurrentState,
    ) -> (r: RootState)
        ensures
            r == RootState::initial(songs_state, directory_state, current_state),
    {
        RootState { songs_state, directory_state, current_state, should_quit: false }
    }

    /// Why the screen that is shown gives up the keyboard, if it does.
    pub open spec fn exit_reason(self) -> Option<ReasonStopped> {
        match self.current_state {
            CurrentState::Songs => self.songs_state.exit_reason,
            CurrentState::Search => self.directory_state.exit_reason,
        }
    }

    /// The screen that is shown keeps the keyboard.
    pub open spec fn reason_taken(self) -> RootState {
        match self.current_state {
            CurrentState::Songs => RootState {
                songs_state: SongsState { exit_reason: None, ..self.songs_state },
                ..self
            },
            CurrentState::Search => RootState {
                directory_state: DirectoryState { exit_reason: None, ..self.directory_state },
                ..self
            },
        }
    }

    /// Takes the reason why the screen that is shown gives up the keyboard, if it
    /// does.
    pub fn take_exit_reason(&mut self) -> (reason: Option<ReasonStopped>)
        ensures
            reason == old(self).exit_reason(),
            *final(self) == old(self).reason_taken(),
    {
        match self.current_state {
            CurrentState::Songs => self.songs_state.exit_reason.take(),
            CurrentState::Search => self.directory_state.exit_reason.take(),
        }
    }

    /// The screen that is shown can be left for the reason.
    pub open spec fn can_leave(self, reason: ReasonStopped) -> bool {
        match self.current_state {
            CurrentState::Songs => reason is Quit || reason is ChangeScreen,
            CurrentState::Search => reason is NewSources
                ==> self.directory_state.selection_in_range(),
        }
    }

    /// The player after its screen was left for the reason. To change screens goes
    /// from one to the other.
    pub open spec fn left_for(self, reason: ReasonStopped) -> RootState {
        match reason {
            ReasonStopped::ChangeScreen => RootState {
                current_state: match self.current_state {
                    CurrentState::Songs => CurrentState::Search,
                    CurrentState::Search => CurrentState::Songs,
                },
                ..self
            },
            ReasonStopped::Quit => RootState { should_quit: true, ..self },
            ReasonStopped::NoOutputDevices => self,
            ReasonStopped::NewSources => self,
        }
    }

    /// Whether the screen that is shown can be left for the reason.
    pub fn may_leave(&self, reason: ReasonStopped) -> (r: bool)
        ensures
            r == self.can_leave(reason),
    {
        match self.current_state {
            CurrentState::Songs => matches!(reason, ReasonStopped::Quit | ReasonStopped::ChangeScreen),
            CurrentState::Search => match reason {
                ReasonStopped::NewSources => {
                    let items = self.directory_state.current_items();
                    match items.state.selected {
                        Some(i) => i < items.dirs.len(),
                        None => true,
                    }
                },
                _ => true,
            },
        }
    }

    /// Leaves the screen that is shown for the reason. To play a new folder is left
    /// to `play_folder`; the result is that folder, if one is selected.
    pub fn run(&mut self, reason: ReasonStopped) -> (r: Result<Option<PathBuf>, AppError>)
        requires
            old(self).can_leave(reason),
        ensures
            *final(self) == old(self).left_for(reason),
            r == (match reason {
                ReasonStopped::NoOutputDevices => Err::<Option<PathBuf>, AppError>(
                    AppError::NoOutputDevices,
                ),
                ReasonStopped::NewSources => Ok::<Option<PathBuf>, AppError>(
                    old(self).directory_state.chosen(),
                ),
                _ => Ok::<Option<PathBuf>, AppError>(None),
            }),
    {
        match self.current_state {
            CurrentState::Songs => {
                match reason {
                    ReasonStopped::ChangeScreen => {
                        self.current_state = CurrentState::Search;
                    },
                    _ => {
                        self.should_quit = true;
                    },
                }
                Ok(None)
            },
            CurrentState::Search => match reason {
                ReasonStopped::ChangeScreen => {
                    self.current_state = CurrentState::Songs;
                    Ok(None)
                },
                ReasonStopped::Quit => {
                    self.should_quit = true;
                    Ok(None)
                },
                ReasonStopped::NoOutputDevices => Err(AppError::NoOutputDevices),
                ReasonStopped::NewSources => Ok(self.directory_state.selected_dir()),
            },
        }
    }

    /// What playing a folder does; `listing` has what is in it. Its songs are
    /// shown in order, the first one marked, and handed to the playback.
    pub open spec fn folder_played(
        pre: RootState,
        listing: Seq<PathBuf>,
        post: RootState,
        msg: Msg2Sub,
    ) -> bool {
        let songs = post.songs_state.media.sources@;
        &&& order::stable_sort_of(
            media::paths(songs),
            listing.filter(|p: PathBuf| path::is_music(p)),
        )
        &&& songs.len() > 0
        &&& media::marked(songs, Some(0))
        &&& msg matches Msg2Sub::NewSources(new_paths) && new_paths@ == media::paths(songs)
        &&& post == (RootState {
            songs_state: SongsState {
                media: MediaSources {
                    sources: post.songs_state.media.sources,
                    state: ListState::initial(),
                },
                ..pre.songs_state
            },
            current_state: CurrentState::Songs,
            ..pre
        })
    }

    /// Plays a folder, if there is music in it. Otherwise nothing changes.
    pub fn checked_play_folder(&mut self, listing: &Vec<PathBuf>) -> (r: Option<Msg2Sub>)
        ensures
            r is None <==> media::no_music(listing@),
            r is None ==> *final(self) == *old(self),
            r matches Some(msg) ==> RootState::folder_played(
                *old(self),
                listing@,
                *final(self),
                msg,
            ),
    {
        if media::has_music(listing) {
            Some(self.play_folder(listing))
        } else {
            None
        }
    }

    /// What opening a folder does beside playing it: its songs are sent to the
    /// playback, and then the messages that the playback has sent so far are thrown
    /// away. They are on the songs before, and would mark one of the new songs.
    pub open spec fn folder_opened(
        pre: RootState,
        listing: Seq<PathBuf>,
        post: RootState,
        actions: Seq<RootAction>,
    ) -> bool {
        &&& actions.len() == 2
        &&& actions[0] matches RootAction::Send(msg) && RootState::folder_played(
            pre,
            listing,
            post,
            msg,
        )
        &&& actions[1] is DropMessages
    }

    /// Opens a folder, if there is music in it. Otherwise nothing changes.
    pub fn open_folder(&mut self, listing: &Vec<PathBuf>) -> (r: Option<Vec<RootAction>>)
        ensures
            r is None <==> media::no_music(listing@),
            r is None ==> *final(self) == *old(self),
            r matches Some(actions) ==> RootState::folder_opened(
                *old(self),
                listing@,
                *final(self),
                actions@,
            ),
    {
        match self.checked_play_folder(listing) {
            Some(msg) => Some(vec![RootAction::Send(msg), RootAction::DropMessages]),
            None => None,
        }
    }

    /// Plays a folder. What is returned is for the playback.
    pub fn play_folder(&mut self, listing: &Vec<PathBuf>) -> (msg: Msg2Sub)
        requires
            !media::no_music(listing@),
        ensures
            RootState::folder_played(*old(self), listing@, *final(self), msg),
    {
        let sources = match media::playlist(listing) {
            Some(sources) => sources,
            None => Vec::new(),
        };
        let new_paths = media::source_paths(&sources);
        self.songs_state.media = MediaSources { sources, state: ListState::default() };
        self.current_state = CurrentState::Songs;
        Msg2Sub::NewSources(new_paths)
    }
}

/// To change screens twice comes back to the first one, with nothing else changed.
pub proof fn changing_screens_twice_returns(r: RootState)
    ensures
        r.can_leave(ReasonStopped::ChangeScreen),
        r.left_for(ReasonStopped::ChangeScreen).left_for(ReasonStopped::ChangeScreen) == r,
{
}

/// The songs of a folder that is played can all be shown.
pub proof fn played_songs_can_be_shown(
    pre: RootState,
    listing: Seq<PathBuf>,
    post: RootState,
    msg: Msg2Sub,
)
    requires
        RootState::folder_played(pre, listing, post, msg),
    ensures
        post.songs_state.all_named(),
{
    media::songs_of_folder_are_music(listing, post.songs_state.media.sources@);
}

/// Only a wish to quit ends the player.
pub proof fn only_quitting_quits(r: RootState, reason: ReasonStopped)
    requires
        !r.should_quit,
        r.can_leave(reason),
    ensures
        r.left_for(reason).should_quit <==> reason is Quit,
{
}

} // verus!
