//! The screen shows what the playback does.
use crate::device::AvailableDevices;
use crate::device::Device;
use crate::media;
use crate::media::MediaSource;
use crate::message::Msg2Main;
use crate::message::Msg2Sub;
use crate::message::Status;
use crate::playback::Action;
use crate::playback::LoadedSource;
use crate::playback::Next;
use crate::playback::PlaybackState;
use crate::root::RootAction;
use crate::root::RootState;
use crate::songs::SongsEffect;
use crate::songs::SongsState;
use std::path::PathBuf;
use vstd::prelude::*;

verus! {

/// The screen shows the volume, the looping and the songs of the playback, and
/// marks the song that is in play, or none while the playback waits.
pub open spec fn agree(screen: SongsState, playback: PlaybackState) -> bool {
    &&& screen.playback_position.volume == playback.volume
    &&& screen.playback_position.is_looping == playback.should_loop
    &&& media::paths(screen.media.sources@) == playback.sources@
    &&& playback.status is Playing || playback.status is Paused || playback.status is NextSong
        ==> media::marked(screen.media.sources@, Some(playback.index))
    &&& playback.status is Waiting ==> media::marked(screen.media.sources@, None)
}

/// What actions tell the screen.
pub open spec fn messages(actions: Seq<Action>) -> Seq<Msg2Main>
    decreases actions.len(),
{
    if actions.len() == 0 {
        Seq::empty()
    } else {
        let before = messages(actions.drop_last());
        match actions.last() {
            Action::Tell(msg) => before.push(msg),
            _ => before,
        }
    }
}

/// The screen took note of the messages, one after the other.
pub open spec fn all_told(pre: SongsState, msgs: Seq<Msg2Main>, post: SongsState) -> bool
    decreases msgs.len(),
{
    if msgs.len() == 0 {
        post == pre
    } else {
        exists|mid: SongsState, now: u128, effect: SongsEffect|
            all_told(pre, msgs.drop_last(), mid) && #[trigger] SongsState::told(
                mid,
                msgs.last(),
                now,
                post,
                effect,
            )
    }
}

/// The one message that was told.
proof fn lemma_one_told(pre: SongsState, msg: Msg2Main, post: SongsState) -> (r: (u128, SongsEffect))
    requires
        all_told(pre, seq![msg], post),
    ensures
        SongsState::told(pre, msg, r.0, post, r.1),
{
    let msgs = seq![msg];
    let (mid, now, effect) = choose|mid: SongsState, now: u128, effect: SongsEffect|
        all_told(pre, msgs.drop_last(), mid) && #[trigger] SongsState::told(
            mid,
            msgs.last(),
            now,
            post,
            effect,
        );
    assert(msgs.drop_last() =~= Seq::empty());
    assert(mid == pre);
    (now, effect)
}

proof fn lemma_messages_push(actions: Seq<Action>, action: Action)
    ensures
        messages(actions.push(action)) == (match action {
            Action::Tell(msg) => messages(actions).push(msg),
            _ => messages(actions),
        }),
{
    assert(actions.push(action).drop_last() =~= actions);
}

/// Bringing a new player up to date tells nothing.
proof fn lemma_restoring_tells_nothing(playback: PlaybackState)
    ensures
        messages(playback.restoring()) == Seq::<Msg2Main>::empty(),
{
    let none = Seq::<Action>::empty();
    let one = none.push(Action::SetVolume(playback.volume));
    let two = one.push(Action::Append);
    lemma_messages_push(none, Action::SetVolume(playback.volume));
    lemma_messages_push(one, Action::Append);
    if let Some(position) = playback.position {
        lemma_messages_push(two, Action::Seek(position));
        assert(playback.restoring() =~= two.push(Action::Seek(position)));
    } else {
        assert(playback.restoring() =~= two);
    }
}

/// At the start the screen and the playback agree.
pub proof fn agree_at_start(
    sources: Vec<MediaSource>,
    screen: SongsState,
    playback: PlaybackState,
)
    requires
        screen.media.sources == sources,
        screen.playback_position.volume == crate::playback::INITIAL_VOLUME,
        !screen.playback_position.is_looping,
        playback.sources@ == media::paths(sources@),
        playback.volume == crate::playback::INITIAL_VOLUME,
        !playback.should_loop,
        playback.status is Startup || playback.status is Waiting && sources@.len() == 0,
    ensures
        agree(screen, playback),
{
}

/// Whatever message the playback follows, once the screen has taken note of what
/// it was told the two agree as before. New songs are shown by the screen itself.
pub proof fn agree_after_message(
    screen: SongsState,
    pre: PlaybackState,
    msg: Msg2Sub,
    player_paused: bool,
    post: PlaybackState,
    actions: Seq<Action>,
    shown: SongsState,
)
    requires
        agree(screen, pre),
        pre.status is Playing || pre.status is Paused || pre.status is Waiting,
        !(msg is NewSources),
        PlaybackState::followed(pre, msg, player_paused, post, actions),
        all_told(screen, messages(actions), shown),
    ensures
        agree(shown, post),
{
    let none = Seq::<Action>::empty();
    match msg {
        Msg2Sub::IncreaseVolume | Msg2Sub::DecreaseVolume | Msg2Sub::Mute => {
            let one = none.push(Action::SetVolume(post.volume));
            lemma_messages_push(none, Action::SetVolume(post.volume));
            lemma_messages_push(one, Action::Tell(Msg2Main::VolumeChanged(post.volume)));
            assert(actions =~= one.push(Action::Tell(Msg2Main::VolumeChanged(post.volume))));
            assert(messages(actions) =~= seq![Msg2Main::VolumeChanged(post.volume)]);
            lemma_one_told(screen, Msg2Main::VolumeChanged(post.volume), shown);
        },
        Msg2Sub::ToggleLoop => {
            lemma_messages_push(none, Action::Tell(Msg2Main::LoopStatus(post.should_loop)));
            assert(actions =~= none.push(Action::Tell(Msg2Main::LoopStatus(post.should_loop))));
            assert(messages(actions) =~= seq![Msg2Main::LoopStatus(post.should_loop)]);
            lemma_one_told(screen, Msg2Main::LoopStatus(post.should_loop), shown);
        },
        Msg2Sub::Randomize => {
            let told = actions[1]->Tell_0;
            let one = none.push(Action::Clear);
            lemma_messages_push(none, Action::Clear);
            lemma_messages_push(one, Action::Tell(told));
            assert(actions =~= one.push(Action::Tell(told)));
            assert(messages(actions) =~= seq![told]);
            lemma_one_told(screen, told, shown);
        },
        _ => {
            if actions.len() == 1 {
                lemma_messages_push(none, actions[0]);
                assert(actions =~= none.push(actions[0]));
            }
            assert(messages(actions) =~= Seq::empty());
        },
    }
}

/// The message in what comes next.
pub open spec fn next_messages(next: Next) -> Seq<Msg2Main> {
    match next {
        Next::AddSource(Some(msg)) => seq![msg],
        Next::Announce(msg) => seq![msg],
        _ => Seq::empty(),
    }
}

/// When the playback goes to another song, repeats one, or waits behind the last
/// one, the screen marks that song, or none, once it has taken note.
pub proof fn agree_after_turn(
    screen: SongsState,
    pre: PlaybackState,
    player_empty: bool,
    shown: SongsState,
)
    requires
        pre.well_formed(),
        agree(screen, pre),
        all_told(screen, next_messages(pre.next(player_empty).1), shown),
    ensures
        agree(shown, pre.next(player_empty).0),
        pre.next(player_empty).1 is AddSource ==> media::marked(
            shown.media.sources@,
            Some(pre.next(player_empty).0.index),
        ),
{
    match pre.next(player_empty).1 {
        Next::AddSource(Some(msg)) => {
            lemma_one_told(screen, msg, shown);
        },
        Next::Announce(msg) => {
            lemma_one_told(screen, msg, shown);
        },
        _ => {},
    }
}

/// When the song that the screen marks begins to play, the two agree.
pub proof fn agree_after_play(
    screen: SongsState,
    pre: PlaybackState,
    loaded: LoadedSource,
    shown: SongsState,
)
    requires
        agree(screen, pre),
        media::marked(screen.media.sources@, Some(pre.index)),
        all_told(
            screen,
            messages(
                seq![
                    Action::Append,
                    Action::Tell(Msg2Main::TotalDuration(loaded.total_duration)),
                    Action::Play,
                ],
            ),
            shown,
        ),
    ensures
        agree(
            shown,
            (PlaybackState { status: Status::Playing, ..pre.with_loaded(loaded) }),
        ),
{
    let none = Seq::<Action>::empty();
    let tell = Action::Tell(Msg2Main::TotalDuration(loaded.total_duration));
    lemma_messages_push(none, Action::Append);
    lemma_messages_push(none.push(Action::Append), tell);
    lemma_messages_push(none.push(Action::Append).push(tell), Action::Play);
    assert(seq![Action::Append, tell, Action::Play] =~= none.push(Action::Append).push(tell).push(
        Action::Play,
    ));
    assert(messages(seq![Action::Append, tell, Action::Play]) =~= seq![
        Msg2Main::TotalDuration(loaded.total_duration),
    ]);
    lemma_one_told(screen, Msg2Main::TotalDuration(loaded.total_duration), shown);
}

/// Switching to another device changes nothing of what the screen shows but the
/// device, unless the playback waited: then a song plays that is not marked.
pub proof fn agree_after_switch(
    screen: SongsState,
    pre: PlaybackState,
    device: Device,
    loaded: Option<LoadedSource>,
    post: PlaybackState,
    actions: Seq<Action>,
    shown: SongsState,
)
    requires
        agree(screen, pre),
        pre.status is Playing || pre.status is Paused || pre.status is Waiting && loaded is None,
        PlaybackState::switched(pre, device, loaded, post, actions),
        all_told(screen, messages(actions), shown),
    ensures
        agree(shown, post),
        shown.devices.output_devices == screen.devices.output_devices,
        loaded is Some ==> screen.devices.is_place_of(device, shown.devices.current_device as int),
        loaded is None ==> shown.devices == screen.devices,
{
    let base = pre.restoring();
    let none = Seq::<Action>::empty();
    let tell = Action::Tell(Msg2Main::DeviceSwitched(device));
    let failed = Action::Tell(Msg2Main::OutputStreamInitializationFailed);
    if loaded is Some {
        lemma_restoring_tells_nothing(pre);
        lemma_messages_push(base, Action::Play);
        lemma_messages_push(base.push(Action::Play), Action::UsePlayer);
        lemma_messages_push(base.push(Action::Play).push(Action::UsePlayer), tell);
        assert(actions =~= base.push(Action::Play).push(Action::UsePlayer).push(tell));
        assert(messages(actions) =~= seq![Msg2Main::DeviceSwitched(device)]);
        lemma_one_told(screen, Msg2Main::DeviceSwitched(device), shown);
    } else {
        lemma_messages_push(none, failed);
        assert(actions =~= none.push(failed));
        assert(messages(actions) =~= seq![Msg2Main::OutputStreamInitializationFailed]);
        lemma_one_told(screen, Msg2Main::OutputStreamInitializationFailed, shown);
    }
}

/// Going on with new devices changes nothing of what the screen shows but the
/// device, unless it starts the playback while that waited.
pub proof fn agree_after_new_devices(
    screen: SongsState,
    pre: PlaybackState,
    devices: AvailableDevices,
    opened: Seq<bool>,
    loaded: LoadedSource,
    start_playback: bool,
    post: PlaybackState,
    actions: Seq<Action>,
    shown: SongsState,
)
    requires
        agree(screen, pre),
        pre.status is Playing || pre.status is Paused || pre.status is Waiting && !start_playback,
        PlaybackState::last_true(opened) is Some,
        PlaybackState::rebuilt(pre, devices, opened, loaded, start_playback, post, actions),
        all_told(screen, messages(actions), shown),
    ensures
        agree(shown, post),
        screen.devices.is_place_of(post.current_device, shown.devices.current_device as int),
{
    let tell = Action::Tell(Msg2Main::DeviceSwitched(post.current_device));
    let played = if start_playback {
        pre.restoring().push(Action::Play)
    } else {
        pre.restoring()
    };
    lemma_restoring_tells_nothing(pre);
    lemma_messages_push(pre.restoring(), Action::Play);
    lemma_messages_push(played, Action::UsePlayer);
    lemma_messages_push(played.push(Action::UsePlayer), tell);
    assert(actions =~= played.push(Action::UsePlayer).push(tell));
    assert(messages(actions) =~= seq![Msg2Main::DeviceSwitched(post.current_device)]);
    lemma_one_told(screen, Msg2Main::DeviceSwitched(post.current_device), shown);
}

/// Trying the device again while nothing plays leaves the two in agreement.
pub proof fn agree_after_trying_again(
    screen: SongsState,
    pre: PlaybackState,
    opened: bool,
    loaded: LoadedSource,
    now: u128,
    post: PlaybackState,
    actions: Seq<Action>,
    shown: SongsState,
)
    requires
        agree(screen, pre),
        pre.status is Paused || pre.status is Waiting,
        PlaybackState::tried_again(pre, opened, loaded, now, post, actions),
        all_told(screen, messages(actions), shown),
    ensures
        agree(shown, post),
{
    let none = Seq::<Action>::empty();
    let lost = Action::Tell(Msg2Main::DeviceLostWait);
    let tell = Action::Tell(Msg2Main::DeviceSwitched(pre.current_device));
    let volume = Action::SetVolume(pre.volume);
    if !opened {
        lemma_messages_push(none, lost);
        assert(actions =~= none.push(lost));
        assert(messages(actions) =~= seq![Msg2Main::DeviceLostWait]);
        lemma_one_told(screen, Msg2Main::DeviceLostWait, shown);
    } else {
        if pre.status is Paused {
            lemma_restoring_tells_nothing(pre);
            lemma_messages_push(pre.restoring(), tell);
        } else {
            lemma_messages_push(none, volume);
            lemma_messages_push(none.push(volume), Action::UsePlayer);
            lemma_messages_push(none.push(volume).push(Action::UsePlayer), tell);
            assert(actions =~= none.push(volume).push(Action::UsePlayer).push(tell));
        }
        assert(messages(actions) =~= seq![Msg2Main::DeviceSwitched(pre.current_device)]);
        lemma_one_told(screen, Msg2Main::DeviceSwitched(pre.current_device), shown);
    }
}

/// Where the song is does not touch what the two agree on.
pub proof fn agree_while_playing(
    screen: SongsState,
    pre: PlaybackState,
    position: Option<u128>,
    now: u128,
    shown: SongsState,
)
    requires
        agree(screen, pre),
        all_told(screen, seq![Msg2Main::UpdatePosition(position)], shown) || shown == screen,
    ensures
        agree(
            shown,
            (PlaybackState { last_device_healthcheck: now, ..pre.positioned(position, now) }),
        ),
{
    if shown != screen {
        lemma_one_told(screen, Msg2Main::UpdatePosition(position), shown);
    }
}

/// When a folder is opened and the playback follows, the two agree on the songs.
pub proof fn agree_after_new_sources(
    before: SongsState,
    screen: SongsState,
    pre: PlaybackState,
    msg: Msg2Sub,
    player_paused: bool,
    post: PlaybackState,
    actions: Seq<Action>,
)
    requires
        agree(before, pre),
        screen.playback_position == before.playback_position,
        msg matches Msg2Sub::NewSources(new_paths) && new_paths@ == media::paths(
            screen.media.sources@,
        ),
        PlaybackState::followed(pre, msg, player_paused, post, actions),
    ensures
        agree(screen, post),
        messages(actions) == Seq::<Msg2Main>::empty(),
{
    let none = Seq::<Action>::empty();
    lemma_messages_push(none, Action::Clear);
    assert(actions =~= none.push(Action::Clear));
}

/// What is left of the messages from the playback that were not read yet.
pub open spec fn still_unread(unread: Seq<Msg2Main>, actions: Seq<RootAction>) -> Seq<Msg2Main>
    decreases actions.len(),
{
    if actions.len() == 0 {
        unread
    } else {
        match actions.last() {
            RootAction::DropMessages => Seq::empty(),
            RootAction::Send(_) => still_unread(unread, actions.drop_last()),
        }
    }
}

/// Whatever the playback has said before a folder is opened, the songs screen then
/// shows the new songs with the first one marked and no other, and all else as it was.
pub proof fn old_messages_are_dropped(
    pre: RootState,
    listing: Seq<PathBuf>,
    post: RootState,
    actions: Seq<RootAction>,
    unread: Seq<Msg2Main>,
    shown: SongsState,
)
    requires
        RootState::folder_opened(pre, listing, post, actions),
        all_told(post.songs_state, still_unread(unread, actions), shown),
    ensures
        shown == post.songs_state,
        media::marked(shown.media.sources@, Some(0)),
        shown.playback_position == pre.songs_state.playback_position,
        shown.devices == pre.songs_state.devices,
{
    assert(still_unread(unread, actions) == Seq::<Msg2Main>::empty());
}

} // verus!
