//! What the playback does with the songs, the player and the devices.
use crate::clock::Nanos;
use crate::device::AvailableDevices;
use crate::device::Device;
use crate::message::Msg2Main;
use crate::message::Msg2Sub;
use crate::message::Status;
use crate::playback::Action;
use crate::playback::LoadedSource;
use crate::playback::Next;
use crate::playback::PlaybackState;
use crate::playback::Received;
use std::path::PathBuf;
use vstd::prelude::*;

verus! {

/// The actions leave the player as loud as `volume`, whatever it was before.
pub open spec fn make_it_as_loud_as(actions: Seq<Action>, volume: u8) -> bool {
    &&& exists|i: int| 0 <= i < actions.len() && #[trigger] actions[i] is SetVolume
    &&& forall|i: int|
        0 <= i < actions.len() ==> (#[trigger] actions[i] matches Action::SetVolume(v) ==> v
            == volume)
}

/// The actions do not touch how loud the player is.
pub open spec fn leave_the_volume(actions: Seq<Action>) -> bool {
    forall|i: int| 0 <= i < actions.len() ==> !(#[trigger] actions[i] is SetVolume)
}

/// The two have the same songs, settings and times, and differ at most in which song is
/// current, what is done, and how long the song is.
pub open spec fn same_session(a: PlaybackState, b: PlaybackState) -> bool {
    &&& a.sources == b.sources
    &&& a.volume == b.volume
    &&& a.should_loop == b.should_loop
    &&& a.position == b.position
    &&& a.current_device == b.current_device
    &&& a.last_position_update == b.last_position_update
    &&& a.last_device_healthcheck == b.last_device_healthcheck
}

/// A song that plays is left if and only if the player is empty: until then nothing
/// changes, and then the next song is due, from the same place in the list.
pub proof fn a_song_plays_to_its_end(p: PlaybackState, player_empty: bool)
    requires
        p.status is Playing,
    ensures
        p.next(player_empty).1 is KeepPlaying <==> !player_empty,
        p.next(player_empty).1 is Again <==> player_empty,
        p.next(player_empty).0.status is NextSong <==> player_empty,
        !player_empty ==> p.next(player_empty).0 == p,
        player_empty ==> p.next(player_empty).0.total_duration is None,
        p.next(player_empty).0.index == p.index,
        same_session(p, p.next(player_empty).0),
{
}

/// A song is opened if and only if one is due, and it is the one that is announced: the
/// current one at the start, and the one behind it, or itself if it loops, after a song.
pub proof fn the_song_that_is_due_is_opened(p: PlaybackState, player_empty: bool)
    requires
        p.well_formed(),
    ensures
        p.next(player_empty).1 is AddSource <==> p.status is Startup || p.status is NextSong && (
        p.should_loop || p.index < p.sources@.len() - 1),
        p.next(player_empty).1 matches Next::AddSource(announced) ==> {
            let q = p.next(player_empty).0;
            &&& announced matches Some(msg) ==> msg == Msg2Main::SongChanged(Some(q.index))
            &&& announced is None <==> p.status is NextSong && p.should_loop
            &&& q.index == p.index + (if p.status is NextSong && !p.should_loop {
                1int
            } else {
                0
            })
            &&& q.status == p.status
            &&& q.total_duration == p.total_duration
            &&& same_session(p, q)
        },
{
    assert(p.sources@.len() == p.sources.len());
}

/// Behind the last song, and only there, the playback announces that none plays, stands
/// at the first song again and waits.
pub proof fn it_waits_behind_the_last_song(p: PlaybackState, player_empty: bool)
    requires
        p.well_formed(),
    ensures
        p.next(player_empty).1 is Announce <==> p.status is NextSong && !p.should_loop && p.index
            == p.sources@.len() - 1,
        p.next(player_empty).1 matches Next::Announce(msg) ==> {
            let q = p.next(player_empty).0;
            &&& msg == Msg2Main::SongChanged(None)
            &&& q.index == 0
            &&& q.status is Waiting
            &&& q.total_duration == p.total_duration
            &&& same_session(p, q)
        },
{
    assert(p.sources@.len() == p.sources.len());
}

/// Paused or waiting, the playback stays as it is until it is told something, and it
/// stops if and only if it is to exit.
pub proof fn a_resting_playback_stays(p: PlaybackState, player_empty: bool)
    ensures
        p.next(player_empty).1 is Idle <==> p.status is Paused || p.status is Waiting,
        p.next(player_empty).1 is Exit <==> p.status is ShouldExit,
        p.status is Paused || p.status is Waiting || p.status is ShouldExit ==> p.next(
            player_empty,
        ).0 == p,
{
}

/// An opened song is added to the player before that plays, its length is noted and told,
/// and nothing else changes.
pub proof fn an_opened_song_plays(
    pre: PlaybackState,
    loaded: LoadedSource,
    post: PlaybackState,
    actions: Seq<Action>,
)
    requires
        PlaybackState::song_started(pre, loaded, post, actions),
    ensures
        post.status is Playing,
        post.index == pre.index,
        post.total_duration == loaded.total_duration,
        same_session(pre, post),
        actions.len() == 3,
        actions[0] is Append,
        actions[1] == Action::Tell(Msg2Main::TotalDuration(post.total_duration)),
        actions[2] is Play,
        leave_the_volume(actions),
{
}

/// The position that is noted is the one of the player, as long as that has a song, and
/// whatever is told is what is noted. It is told if and only if a second has passed since
/// it was told last.
pub proof fn the_position_is_that_of_the_player(
    pre: PlaybackState,
    player_empty: bool,
    player_position: Nanos,
    now: Nanos,
    post: PlaybackState,
    told: Option<Msg2Main>,
)
    requires
        PlaybackState::kept_playing(pre, player_empty, player_position, now, post, told),
    ensures
        !player_empty ==> post.position == Some(player_position),
        player_empty ==> post.position is None,
        told is Some <==> now >= pre.last_position_update + 1_000_000_000,
        told matches Some(msg) ==> msg == Msg2Main::UpdatePosition(post.position),
        post.last_position_update == (if told is Some {
            now
        } else {
            pre.last_position_update
        }),
        post.last_device_healthcheck == now,
        post.sources == pre.sources,
        post.index == pre.index,
        post.status == pre.status,
        post.volume == pre.volume,
        post.should_loop == pre.should_loop,
        post.total_duration == pre.total_duration,
        post.current_device == pre.current_device,
{
}

/// While a song plays, seeking goes to one second behind, or before, where the player is.
/// Forward and backward are two seconds apart.
pub proof fn seeking_goes_one_second_from_the_player(
    pre: PlaybackState,
    player_position: Nanos,
    now: Nanos,
    p: PlaybackState,
    told: Option<Msg2Main>,
    paused: bool,
    q: PlaybackState,
    forward: Seq<Action>,
    r: PlaybackState,
    backward: Seq<Action>,
)
    requires
        pre.status is Playing,
        PlaybackState::kept_playing(pre, false, player_position, now, p, told),
        1_000_000_000 <= player_position <= 18_446_744_073_709_551_614_999_999_999,
        PlaybackState::followed(p, Msg2Sub::MoveForward, paused, q, forward),
        PlaybackState::followed(p, Msg2Sub::MoveBackward, paused, r, backward),
    ensures
        q == p,
        r == p,
        forward.len() == 1,
        forward[0] matches Action::Seek(to) && to == player_position + 1_000_000_000,
        backward.len() == 1,
        backward[0] matches Action::Seek(to) && to == player_position - 1_000_000_000,
{
}

/// There is nothing to seek to unless a song plays at a known position, and seeking never
/// changes the playback itself.
pub proof fn seeking_needs_a_position(
    pre: PlaybackState,
    msg: Msg2Sub,
    paused: bool,
    post: PlaybackState,
    actions: Seq<Action>,
)
    requires
        msg is MoveForward || msg is MoveBackward,
        PlaybackState::followed(pre, msg, paused, post, actions),
    ensures
        post == pre,
        actions.len() == 0 <==> !(pre.status is Playing && pre.position is Some),
{
}

/// A message cannot be followed if and only if it seeks, while a song plays, to before its
/// start or beyond the longest time.
pub proof fn only_seeking_can_fail(p: PlaybackState, msg: Msg2Sub)
    ensures
        !p.can_follow(msg) <==> p.status is Playing && (p.position matches Some(position) && (msg
            is MoveBackward && position < 1_000_000_000 || msg is MoveForward && position
            > 18_446_744_073_709_551_614_999_999_999)),
{
}

/// A message for quieter takes one tenth away, down to silence, and one for louder adds
/// one, up to ten; muting goes to silence. The player is set to just that volume, just
/// that volume is told, and nothing else changes.
pub proof fn volume_messages_change_the_volume(
    pre: PlaybackState,
    msg: Msg2Sub,
    paused: bool,
    post: PlaybackState,
    actions: Seq<Action>,
)
    requires
        pre.volume <= 10,
        msg is IncreaseVolume || msg is DecreaseVolume || msg is Mute,
        PlaybackState::followed(pre, msg, paused, post, actions),
    ensures
        post.volume <= 10,
        msg is DecreaseVolume && pre.volume > 0 ==> post.volume == pre.volume - 1,
        msg is DecreaseVolume && pre.volume == 0 ==> post.volume == 0,
        msg is IncreaseVolume && pre.volume < 10 ==> post.volume == pre.volume + 1,
        msg is IncreaseVolume && pre.volume == 10 ==> post.volume == 10,
        msg is Mute ==> post.volume == 0,
        actions.len() == 2,
        actions[0] == Action::SetVolume(post.volume),
        actions[1] == Action::Tell(Msg2Main::VolumeChanged(post.volume)),
        make_it_as_loud_as(actions, post.volume),
        post.status == pre.status,
        post.index == pre.index,
        post.total_duration == pre.total_duration,
        same_session(pre, (PlaybackState { volume: pre.volume, ..post })),
{
    assert(actions[0] is SetVolume);
}

/// Louder and then quieter is as loud as before, unless it was loudest, and quieter and
/// then louder, unless it was silent.
pub proof fn volume_messages_undo_each_other(
    p: PlaybackState,
    first: Msg2Sub,
    q: PlaybackState,
    a: Seq<Action>,
    second: Msg2Sub,
    r: PlaybackState,
    b: Seq<Action>,
    paused: bool,
)
    requires
        p.volume <= 10,
        first is IncreaseVolume && second is DecreaseVolume && p.volume < 10 || first
            is DecreaseVolume && second is IncreaseVolume && p.volume > 0,
        PlaybackState::followed(p, first, paused, q, a),
        PlaybackState::followed(q, second, paused, r, b),
    ensures
        q.volume != p.volume,
        r == p,
{
}

/// The player and the screen learn of the volume if and only if a message is about it, and
/// the volume changes by no other message.
pub proof fn other_messages_leave_the_volume(
    pre: PlaybackState,
    msg: Msg2Sub,
    paused: bool,
    post: PlaybackState,
    actions: Seq<Action>,
)
    requires
        !(msg is IncreaseVolume || msg is DecreaseVolume || msg is Mute),
        PlaybackState::followed(pre, msg, paused, post, actions),
    ensures
        post.volume == pre.volume,
        leave_the_volume(actions),
        forall|i: int|
            0 <= i < actions.len() ==> !(#[trigger] actions[i] matches Action::Tell(told) && told
                is VolumeChanged),
{
}

/// No message touches the device, the position, the length of the song or the times. Only
/// new songs and a shuffle change the songs, only these and a selection the current one,
/// and only the loop message the looping.
pub proof fn messages_change_only_what_they_are_about(
    pre: PlaybackState,
    msg: Msg2Sub,
    paused: bool,
    post: PlaybackState,
    actions: Seq<Action>,
)
    requires
        PlaybackState::followed(pre, msg, paused, post, actions),
    ensures
        post.current_device == pre.current_device,
        post.position == pre.position,
        post.total_duration == pre.total_duration,
        post.last_position_update == pre.last_position_update,
        post.last_device_healthcheck == pre.last_device_healthcheck,
        !(msg is NewSources || msg is Randomize) ==> post.sources == pre.sources,
        !(msg is NewSources || msg is Randomize || msg is Select) ==> post.index == pre.index,
        post.should_loop == (if msg is ToggleLoop {
            !pre.should_loop
        } else {
            pre.should_loop
        }),
        !(msg is PauseUnpause || msg is Skip || msg is Select || msg is NewSources || msg
            is Randomize || msg is ShouldExit) ==> post.status == pre.status,
        msg is ShouldExit ==> post.status is ShouldExit && actions.len() == 0,
        msg is ToggleLoop ==> actions == seq![Action::Tell(Msg2Main::LoopStatus(post.should_loop))],
        msg matches Msg2Sub::SwitchDevice(device) ==> actions == seq![Action::OpenDevice(device)],
        msg matches Msg2Sub::Devices(devices, start) ==> actions == seq![
            Action::OpenDevices(devices, start),
        ],
{
}

/// Pausing and going on follow what the player does, and do nothing while the playback
/// waits.
pub proof fn pausing_follows_the_player(
    pre: PlaybackState,
    paused: bool,
    post: PlaybackState,
    actions: Seq<Action>,
)
    requires
        PlaybackState::followed(pre, Msg2Sub::PauseUnpause, paused, post, actions),
    ensures
        pre.status is Waiting ==> post == pre && actions.len() == 0,
        !(pre.status is Waiting) ==> {
            &&& actions.len() == 1
            &&& post.status is Playing <==> paused
            &&& post.status is Paused <==> !paused
            &&& actions[0] is Play <==> paused
            &&& actions[0] is Pause <==> !paused
        },
{
}

/// Skipping takes the song off the player and has the one behind it play, or the playback
/// wait if it was the last one. There is nothing to skip while the playback waits.
pub proof fn skipping_goes_to_the_next_song(
    pre: PlaybackState,
    paused: bool,
    post: PlaybackState,
    actions: Seq<Action>,
    player_empty: bool,
)
    requires
        pre.well_formed(),
        pre.status is Playing || pre.status is Paused || pre.status is Waiting,
        PlaybackState::followed(pre, Msg2Sub::Skip, paused, post, actions),
    ensures
        pre.status is Waiting ==> post == pre && actions.len() == 0,
        !(pre.status is Waiting) ==> {
            &&& actions.len() == 1 && actions[0] is Clear
            &&& post.index == pre.index
            &&& !pre.should_loop && pre.index < pre.sources@.len() - 1 ==> post.next(
                player_empty,
            ).0.index == pre.index + 1 && post.next(player_empty).1 is AddSource
            &&& !pre.should_loop && pre.index == pre.sources@.len() - 1 ==> post.next(
                player_empty,
            ).0.status is Waiting
            &&& pre.should_loop ==> post.next(player_empty).0.index == pre.index && post.next(
                player_empty,
            ).1 is AddSource
        },
{
    assert(pre.sources@.len() == pre.sources.len());
}

/// New songs play from the first of them, whichever song was current before: the player
/// is emptied, and the next turn announces and opens the first path of the list.
pub proof fn new_songs_play_from_the_first(
    pre: PlaybackState,
    songs: Vec<PathBuf>,
    paused: bool,
    post: PlaybackState,
    actions: Seq<Action>,
    player_empty: bool,
)
    requires
        songs@.len() > 0,
        PlaybackState::followed(pre, Msg2Sub::NewSources(songs), paused, post, actions),
    ensures
        actions.len() == 1,
        actions[0] is Clear,
        post.sources == songs,
        post.status is Startup,
        ({
            let (q, next) = post.next(player_empty);
            &&& next == Next::AddSource(Some(Msg2Main::SongChanged(Some(0))))
            &&& q.index == 0
            &&& q.sources@[q.index as int] == songs@[0]
        }),
{
}

/// The selected song is emptied for, announced and opened next, whichever one was current.
pub proof fn the_selected_song_plays_next(
    pre: PlaybackState,
    index: usize,
    paused: bool,
    post: PlaybackState,
    actions: Seq<Action>,
    player_empty: bool,
)
    requires
        index < pre.sources@.len(),
        PlaybackState::followed(pre, Msg2Sub::Select(index), paused, post, actions),
    ensures
        actions.len() == 1,
        actions[0] is Clear,
        ({
            let (q, next) = post.next(player_empty);
            &&& next == Next::AddSource(Some(Msg2Main::SongChanged(Some(index))))
            &&& q.sources@[q.index as int] == pre.sources@[index as int]
        }),
{
}

/// A shuffle keeps the songs, plays them from the first one in their new order, and tells
/// just that order.
pub proof fn a_shuffle_plays_the_same_songs_from_the_first(
    pre: PlaybackState,
    paused: bool,
    post: PlaybackState,
    actions: Seq<Action>,
    player_empty: bool,
)
    requires
        PlaybackState::followed(pre, Msg2Sub::Randomize, paused, post, actions),
    ensures
        post.sources@.to_multiset() == pre.sources@.to_multiset(),
        post.sources@.len() == pre.sources@.len(),
        actions.len() == 2,
        actions[0] is Clear,
        actions[1] matches Action::Tell(Msg2Main::Randomized(told)) && told@ == post.sources@,
        post.next(player_empty).0.index == 0,
        post.next(player_empty).1 == Next::AddSource(Some(Msg2Main::SongChanged(Some(0)))),
{
    broadcast use vstd::seq_lib::group_to_multiset_ensures;

    assert(post.sources@.len() == post.sources@.to_multiset().len());
    assert(pre.sources@.len() == pre.sources@.to_multiset().len());
}

/// On another device the same song goes on where it was, as loud as it was: the new player
/// gets the volume of the playback, the song and the position, plays, and then takes the
/// place of the old one. If the device cannot be opened nothing changes but a message.
pub proof fn a_switch_goes_on_as_before(
    pre: PlaybackState,
    device: Device,
    loaded: Option<LoadedSource>,
    post: PlaybackState,
    actions: Seq<Action>,
)
    requires
        PlaybackState::switched(pre, device, loaded, post, actions),
    ensures
        same_session(pre, (PlaybackState { current_device: pre.current_device, ..post })),
        post.index == pre.index,
        loaded is Some ==> {
            let n = actions.len() as int;
            &&& post.current_device == device
            &&& post.status is Playing
            &&& post.total_duration == loaded->0.total_duration
            &&& make_it_as_loud_as(actions, post.volume)
            &&& n == (if post.position is Some {
                6int
            } else {
                5
            })
            &&& actions[0] == Action::SetVolume(pre.volume)
            &&& actions[1] is Append
            &&& pre.position matches Some(position) ==> actions[2] == Action::Seek(position)
            &&& actions[n - 3] is Play
            &&& actions[n - 2] is UsePlayer
            &&& actions[n - 1] == Action::Tell(Msg2Main::DeviceSwitched(device))
        },
        loaded is None ==> {
            &&& post == pre
            &&& actions == seq![Action::Tell(Msg2Main::OutputStreamInitializationFailed)]
        },
{
    if loaded is Some {
        assert(actions[0] is SetVolume);
    }
}

/// The last device that could be opened is the one behind which none could.
pub proof fn the_last_opened_is_last(opened: Seq<bool>)
    ensures
        PlaybackState::last_true(opened) matches Some(i) ==> {
            &&& 0 <= i < opened.len()
            &&& opened[i]
            &&& forall|j: int| i < j < opened.len() ==> !#[trigger] opened[j]
        },
        PlaybackState::last_true(opened) is None <==> forall|j: int|
            0 <= j < opened.len() ==> !#[trigger] opened[j],
    decreases opened.len(),
{
    if opened.len() > 0 && !opened.last() {
        let front = opened.drop_last();
        the_last_opened_is_last(front);
        if PlaybackState::last_true(opened) is None {
            assert forall|j: int| 0 <= j < opened.len() implies !#[trigger] opened[j] by {
                if j < front.len() {
                    assert(!front[j]);
                }
            }
        } else {
            let i = PlaybackState::last_true(opened)->0;
            assert(front[i]);
            assert forall|j: int| i < j < opened.len() implies !#[trigger] opened[j] by {
                if j < front.len() {
                    assert(!front[j]);
                }
            }
        }
    } else if opened.len() > 0 {
        assert(opened[opened.len() - 1]);
    }
}

/// With new devices the last one that opens is used, and the song goes on there where it
/// was and as loud as it was, played only if that is asked for. If none opens the playback
/// says so and fails.
pub proof fn new_devices_go_on_as_before(
    pre: PlaybackState,
    devices: AvailableDevices,
    opened: Seq<bool>,
    loaded: LoadedSource,
    start_playback: bool,
    post: PlaybackState,
    actions: Seq<Action>,
    last: int,
)
    requires
        PlaybackState::rebuilt(pre, devices, opened, loaded, start_playback, post, actions),
        0 <= last < opened.len(),
        opened[last],
        forall|j: int| last < j < opened.len() ==> !#[trigger] opened[j],
    ensures
        post.current_device == devices.output_devices@[last],
        same_session(pre, (PlaybackState { current_device: pre.current_device, ..post })),
        post.index == pre.index,
        post.total_duration == loaded.total_duration,
        start_playback ==> post.status is Playing,
        !start_playback ==> post.status == pre.status,
        make_it_as_loud_as(actions, post.volume),
        actions[0] == Action::SetVolume(pre.volume),
        actions[1] is Append,
        pre.position matches Some(position) ==> actions[2] == Action::Seek(position),
        actions[actions.len() - 2] is UsePlayer,
        actions[actions.len() - 1] == Action::Tell(Msg2Main::DeviceSwitched(post.current_device)),
        actions[actions.len() - 3] is Play <==> start_playback,
        actions.len() == 4 + (if pre.position is Some {
            1int
        } else {
            0
        }) + (if start_playback {
            1int
        } else {
            0
        }),
{
    the_last_opened_is_last(opened);
    assert(PlaybackState::last_true(opened) == Some(last)) by {
        let i = PlaybackState::last_true(opened)->0;
        if i < last {
            assert(!opened[last]);
        } else if last < i {
            assert(!opened[i]);
        }
    }
    assert(actions[0] is SetVolume);
}

/// Without a device that opens the playback changes nothing, says that there is none and
/// gives up.
pub proof fn without_a_device_the_playback_fails(
    pre: PlaybackState,
    devices: AvailableDevices,
    opened: Seq<bool>,
    loaded: LoadedSource,
    start_playback: bool,
    post: PlaybackState,
    actions: Seq<Action>,
)
    requires
        PlaybackState::rebuilt(pre, devices, opened, loaded, start_playback, post, actions),
        forall|j: int| 0 <= j < opened.len() ==> !#[trigger] opened[j],
    ensures
        post == pre,
        actions.len() == 2,
        actions[0] == Action::Tell(Msg2Main::Panic("no output device available")),
        actions[1] == Action::Fail("failed to create sink for any output device"),
{
    the_last_opened_is_last(opened);
}

/// A device is tried again if and only if more than a minute has passed.
pub proof fn a_device_is_tried_again_after_a_minute(p: PlaybackState, now: Nanos)
    ensures
        p.device_is_due(now) <==> now > p.last_device_healthcheck + 60_000_000_000,
{
}

/// Trying a device again changes nothing of the playback but when that was, and, while it
/// is paused, the length of the song. The new player is as loud as the playback; only
/// while the playback waits does it take the place of the old one, and only while it is
/// paused does it get the song and the position. It never plays. A device that does not
/// open is told to be lost and is due as before.
pub proof fn trying_again_goes_on_as_before(
    pre: PlaybackState,
    opened: bool,
    loaded: LoadedSource,
    now: Nanos,
    post: PlaybackState,
    actions: Seq<Action>,
)
    requires
        pre.status is Paused || pre.status is Waiting,
        PlaybackState::tried_again(pre, opened, loaded, now, post, actions),
    ensures
        post.status == pre.status,
        post.index == pre.index,
        same_session(
            pre,
            (PlaybackState { last_device_healthcheck: pre.last_device_healthcheck, ..post }),
        ),
        post.last_device_healthcheck == (if opened {
            now
        } else {
            pre.last_device_healthcheck
        }),
        post.total_duration == (if opened && pre.status is Paused {
            loaded.total_duration
        } else {
            pre.total_duration
        }),
        forall|i: int| 0 <= i < actions.len() ==> !(#[trigger] actions[i] is Play),
        !opened ==> actions == seq![Action::Tell(Msg2Main::DeviceLostWait)],
        opened ==> make_it_as_loud_as(actions, post.volume),
        opened ==> actions[0] == Action::SetVolume(pre.volume),
        opened ==> actions.last() == Action::Tell(Msg2Main::DeviceSwitched(pre.current_device)),
        opened && pre.status is Waiting ==> actions.len() == 3 && actions[1] is UsePlayer,
        opened && pre.status is Paused ==> {
            &&& actions[1] is Append
            &&& pre.position matches Some(position) ==> actions.len() == 4 && actions[2]
                == Action::Seek(position)
            &&& pre.position is None ==> actions.len() == 3
        },
{
    if opened {
        assert(actions[0] is SetVolume);
    }
}

/// The playback starts with the first song, at volume eight, without looping, and with
/// nothing known of where the song is.
pub proof fn the_playback_starts_with_the_first_song(
    sources: Vec<PathBuf>,
    device: Device,
    status: Status,
    now: Nanos,
)
    ensures
        ({
            let p = PlaybackState::initial(sources, device, status, now);
            &&& p.sources == sources
            &&& p.current_device == device
            &&& p.status == status
            &&& p.index == 0
            &&& p.volume == 8
            &&& !p.should_loop
            &&& p.position is None
            &&& p.total_duration is None
            &&& p.last_position_update == now
            &&& p.last_device_healthcheck == now
        }),
{
}

/// What is always so of the playback is just this: the volume is at most ten, and where a
/// song is in play it is one of the sources. The current song is the one at its place.
pub proof fn a_song_in_play_is_one_of_the_sources(p: PlaybackState)
    ensures
        p.well_formed() <==> p.volume <= 10 && (p.status is Playing || p.status is Paused
            || p.status is NextSong ==> p.index < p.sources@.len()),
        p.has_source() <==> p.index < p.sources@.len(),
        p.has_source() ==> p.sources@.contains(p.current_song()) && p.current_song()
            == p.sources@[p.index as int],
{
}

/// Nothing heard changes nothing, and a message heard is followed.
pub proof fn what_is_heard_is_followed(
    pre: PlaybackState,
    received: Received,
    paused: bool,
    post: PlaybackState,
    actions: Seq<Action>,
)
    requires
        PlaybackState::listened(pre, received, paused, post, actions),
    ensures
        !(received is Message) ==> post == pre && actions.len() == 0,
        received matches Received::Message(msg) ==> PlaybackState::followed(
            pre,
            msg,
            paused,
            post,
            actions,
        ),
{
}

/// The song is opened again when the device is tried if and only if the new player is then
/// given one.
pub proof fn a_song_is_opened_again_where_it_is_needed(
    pre: PlaybackState,
    opened: bool,
    loaded: LoadedSource,
    now: Nanos,
    post: PlaybackState,
    actions: Seq<Action>,
)
    requires
        pre.status is Paused || pre.status is Waiting,
        PlaybackState::tried_again(pre, opened, loaded, now, post, actions),
    ensures
        pre.song_reopens(opened) <==> exists|i: int|
            0 <= i < actions.len() && #[trigger] actions[i] is Append,
        pre.song_reopens(opened) <==> opened && pre.status is Paused,
{
    if pre.song_reopens(opened) {
        assert(actions[1] is Append);
    }
}

} // verus!
