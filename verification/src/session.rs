//! A whole run of the playback, turn by turn.
use crate::clock::Nanos;
use crate::message::Msg2Main;
use crate::message::Msg2Sub;
use crate::playback::Action;
use crate::playback::LoadedSource;
use crate::playback::Next;
use crate::playback::PlaybackState;
use crate::playback::Received;
use vstd::prelude::*;

verus! {

/// Why a run of the playback ends.
#[derive(Clone, Copy, Debug, PartialEq, Eq, Structural)]
pub enum End {
    /// The playback was told to exit.
    Exited,
    /// The screens are gone.
    Closed,
    /// None of the devices that were found could be opened.
    NoDevice,
}

/// One turn of the playback as it was taken, with what came from outside.
pub struct PlaybackTurn {
    pub pre: PlaybackState,
    pub player_empty: bool,
    pub player_paused: bool,
    pub player_position: Nanos,
    pub now: Nanos,
    /// The current song, where it was opened before the playback listened.
    pub loaded: LoadedSource,
    /// Whether the device could be opened when it was tried again, and when that was.
    pub reopened: bool,
    pub retried_at: Nanos,
    pub retried: Vec<Action>,
    /// What was told of the position.
    pub told: Option<Msg2Main>,
    /// The playback when it listened.
    pub listening: PlaybackState,
    pub received: Received,
    /// The playback when it had followed the message.
    pub followed: PlaybackState,
    pub actions: Vec<Action>,
    /// The current song, if it was opened for another device.
    pub reloaded: Option<LoadedSource>,
    /// Which of the devices that were found could be opened, and the current song as it
    /// was opened for them.
    pub opened: Vec<bool>,
    pub rebuilt_with: LoadedSource,
    pub restored: Vec<Action>,
    pub post: PlaybackState,
    pub end: Option<End>,
}

impl PlaybackTurn {
    /// What comes next at the beginning of the turn.
    pub open spec fn next(self) -> (PlaybackState, Next) {
        self.pre.next(self.player_empty)
    }

    /// The playback listens in this turn.
    pub open spec fn listens(self) -> bool {
        self.next().1 is KeepPlaying || self.next().1 is Idle
    }

    /// The message that the playback follows in this turn.
    pub open spec fn heard(self) -> Option<Msg2Sub> {
        if self.listens() {
            match self.received {
                Received::Message(msg) => Some(msg),
                _ => None,
            }
        } else {
            None
        }
    }

    /// How the turn goes on once the playback has listened: it follows the message, and
    /// goes to another device if it was told to.
    pub open spec fn goes_on(self) -> bool {
        &&& PlaybackState::listened(
            self.listening,
            self.received,
            self.player_paused,
            self.followed,
            self.actions@,
        )
        &&& match self.received {
            Received::Disconnected => self.post == self.followed && self.end == Some(End::Closed),
            Received::Message(Msg2Sub::SwitchDevice(device)) => {
                &&& PlaybackState::switched(
                    self.followed,
                    device,
                    self.reloaded,
                    self.post,
                    self.restored@,
                )
                &&& self.end is None
            },
            Received::Message(Msg2Sub::Devices(devices, start_playback)) => {
                &&& self.opened@.len() == devices.output_devices@.len()
                &&& PlaybackState::rebuilt(
                    self.followed,
                    devices,
                    self.opened@,
                    self.rebuilt_with,
                    start_playback,
                    self.post,
                    self.restored@,
                )
                &&& self.end == (if PlaybackState::last_true(self.opened@) is Some {
                    None
                } else {
                    Some(End::NoDevice)
                })
            },
            _ => self.post == self.followed && self.end is None,
        }
    }

    /// The turn was taken as the functions of the playback take it.
    pub open spec fn is_taken(self) -> bool {
        let (state, next) = self.next();
        match next {
            Next::AddSource(_) => {
                &&& PlaybackState::song_started(state, self.loaded, self.post, self.restored@)
                &&& self.end is None
            },
            Next::Announce(_) | Next::Again => self.post == state && self.end is None,
            Next::KeepPlaying => {
                &&& PlaybackState::kept_playing(
                    state,
                    self.player_empty,
                    self.player_position,
                    self.now,
                    self.listening,
                    self.told,
                )
                &&& self.goes_on()
            },
            Next::Idle => {
                &&& if state.device_is_due(self.now) {
                    PlaybackState::tried_again(
                        state,
                        self.reopened,
                        self.loaded,
                        self.retried_at,
                        self.listening,
                        self.retried@,
                    )
                } else {
                    self.listening == state
                }
                &&& self.goes_on()
            },
            Next::Exit => self.post == state && self.end == Some(End::Exited),
        }
    }

    /// What the playback hears can be played: a song that is selected is one of the
    /// sources, new sources are not empty, and without a song it is not told to play one.
    pub open spec fn is_playable(self) -> bool {
        self.heard() matches Some(msg) ==> match msg {
            Msg2Sub::Select(index) => index < self.listening.sources@.len(),
            Msg2Sub::NewSources(sources) => sources@.len() > 0,
            Msg2Sub::Randomize => self.listening.has_source(),
            Msg2Sub::SwitchDevice(_) => self.listening.has_source(),
            Msg2Sub::Devices(_, _) => self.listening.has_source(),
            _ => self.listening.can_follow(msg),
        }
    }
}

/// There is a song wherever one is needed: the playback has none only while it waits for
/// the first one, or exits.
pub open spec fn in_order(p: PlaybackState) -> bool {
    &&& p.well_formed()
    &&& p.has_source() || p.status is Waiting || p.status is ShouldExit
}

/// The playback is in order when it starts, with songs to play at once or without any.
pub proof fn playback_starts_in_order(p: PlaybackState)
    requires
        p.index == 0,
        p.volume == crate::playback::INITIAL_VOLUME,
        p.status is Startup && p.sources@.len() > 0 || p.status is Waiting,
    ensures
        in_order(p),
{
}

/// The turns follow each other, and only the last one may end the run.
pub open spec fn is_session(turns: Seq<PlaybackTurn>) -> bool {
    &&& forall|i: int|
        0 <= i < turns.len() ==> (#[trigger] turns[i]).is_taken() && (turns[i].end is Some ==> i
            == turns.len() - 1)
    &&& forall|i: int, j: int|
        0 <= i && j == i + 1 && j < turns.len() ==> (#[trigger] turns[j]).pre == (
        #[trigger] turns[i]).post
}

proof fn lemma_same_songs(a: PlaybackState, b: PlaybackState)
    requires
        a.sources@.to_multiset() == b.sources@.to_multiset(),
    ensures
        a.sources@.len() == b.sources@.len(),
{
    broadcast use vstd::seq_lib::group_to_multiset_ensures;

    assert(a.sources@.len() == a.sources@.to_multiset().len());
    assert(b.sources@.len() == b.sources@.to_multiset().len());
}

proof fn lemma_turn(t: PlaybackTurn)
    requires
        t.is_taken(),
        t.is_playable(),
        in_order(t.pre),
    ensures
        in_order(t.post),
        t.pre.has_source() ==> t.post.has_source(),
        t.next().1 is AddSource ==> t.next().0.has_source(),
{
    if t.heard() matches Some(Msg2Sub::Randomize) {
        lemma_same_songs(t.followed, t.listening);
    }
}

/// Whatever comes, as long as it can be played, the playback stays in order: its volume
/// is in range, a song that plays or is paused is one of the sources, and so is each
/// song that it opens. Once it has a song it never lacks one.
pub proof fn playback_stays_in_order(turns: Seq<PlaybackTurn>, n: int)
    requires
        is_session(turns),
        0 <= n < turns.len(),
        in_order(turns[0].pre),
        forall|i: int| 0 <= i < turns.len() ==> (#[trigger] turns[i]).is_playable(),
    ensures
        in_order(turns[n].pre),
        in_order(turns[n].post),
        turns[0].pre.has_source() ==> turns[n].pre.has_source() && turns[n].post.has_source(),
        turns[n].next().1 is AddSource ==> turns[n].next().0.has_source(),
    decreases n,
{
    if n > 0 {
        playback_stays_in_order(turns, n - 1);
        assert(turns[n].pre == turns[n - 1].post);
    }
    lemma_turn(turns[n]);
}

/// A turn ends the run if and only if the playback is to exit, the screens are gone, or
/// none of the devices that were found could be opened.
pub proof fn session_ends_for_a_reason(t: PlaybackTurn)
    requires
        t.is_taken(),
    ensures
        t.end == Some(End::Exited) <==> t.pre.status is ShouldExit,
        t.end == Some(End::Closed) <==> t.listens() && t.received is Disconnected,
        t.end == Some(End::NoDevice) <==> t.heard() is Some && t.heard()->0 is Devices
            && PlaybackState::last_true(t.opened@) is None,
{
}

/// The playback exits only after it was told to.
pub proof fn exit_is_asked_for(turns: Seq<PlaybackTurn>)
    requires
        is_session(turns),
        turns.len() > 0,
        !(turns[0].pre.status is ShouldExit),
        turns.last().end == Some(End::Exited),
    ensures
        exists|i: int|
            0 <= i < turns.len() - 1 && (#[trigger] turns[i]).heard() == Some(Msg2Sub::ShouldExit),
{
    let n = turns.len() - 1;
    assert(turns[n].is_taken());
    lemma_exit_is_heard(turns, n);
}

/// Where the playback is to exit, it was told so before.
proof fn lemma_exit_is_heard(turns: Seq<PlaybackTurn>, n: int)
    requires
        is_session(turns),
        0 <= n < turns.len(),
        !(turns[0].pre.status is ShouldExit),
        turns[n].pre.status is ShouldExit,
    ensures
        exists|i: int| 0 <= i < n && (#[trigger] turns[i]).heard() == Some(Msg2Sub::ShouldExit),
    decreases n,
{
    let before = turns[n - 1];
    assert(before.is_taken());
    assert(turns[n].pre == before.post);
    if before.pre.status is ShouldExit {
        lemma_exit_is_heard(turns, n - 1);
    } else {
        assert(before.heard() == Some(Msg2Sub::ShouldExit));
    }
}

/// Once it was told to exit, the playback exits in the next turn.
pub proof fn exit_is_followed(turns: Seq<PlaybackTurn>, i: int)
    requires
        is_session(turns),
        0 <= i < turns.len() - 1,
        turns[i].heard() == Some(Msg2Sub::ShouldExit),
    ensures
        turns.len() == i + 2,
        turns[i + 1].end == Some(End::Exited),
{
    assert(turns[i].is_taken());
    assert(turns[i + 1].pre == turns[i].post);
    assert(turns[i + 1].is_taken());
}

} // verus!
