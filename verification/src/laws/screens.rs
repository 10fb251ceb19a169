//! What keys and messages do on the screens, and how the screens are left.
use crate::clock::Nanos;
use crate::debounce::Debounce;
use crate::device::AvailableDevices;
use crate::device::Device;
use crate::directory::DirectoryFocus;
use crate::directory::DirectoryState;
use crate::key::KeyCode;
use crate::key::KeyEvent;
use crate::media::MediaSource;
use crate::message;
use crate::message::AppError;
use crate::message::CurrentState;
use crate::message::Msg2Main;
use crate::message::Msg2Sub;
use crate::message::ReasonStopped;
use crate::message::Status;
use crate::path;
use crate::playback::Next;
use crate::playback::PlaybackState;
use crate::root::RootAction;
use crate::root::RootState;
use crate::root::Start;
use crate::root::StartError;
use crate::songs::Focus;
use crate::songs::ListEntry;
use crate::songs::SongsEffect;
use crate::songs::SongsState;
use crate::turn;
use crate::turn::LoopEvent;
use crate::turn::LoopStep;
use crate::turn::StopStep;
use std::path::PathBuf;
use vstd::prelude::*;

verus! {

/// The key is one of those that speak to the playback on every screen, and this is what it
/// says.
pub open spec fn says(code: KeyCode, msg: Msg2Sub) -> bool {
    match msg {
        Msg2Sub::PauseUnpause => code == KeyCode::Char('p') || code == KeyCode::F(8) || code
            == KeyCode::Pause || code == KeyCode::Char(' '),
        Msg2Sub::Skip => code == KeyCode::Char('s') || code == KeyCode::F(9),
        Msg2Sub::Mute => code == KeyCode::Char('m') || code == KeyCode::F(10),
        Msg2Sub::DecreaseVolume => code == KeyCode::Char('v') || code == KeyCode::F(11),
        Msg2Sub::IncreaseVolume => code == KeyCode::Char('V') || code == KeyCode::F(12),
        Msg2Sub::MoveBackward => code == KeyCode::Left,
        Msg2Sub::MoveForward => code == KeyCode::Right,
        Msg2Sub::ToggleLoop => code == KeyCode::Char('L'),
        _ => false,
    }
}

/// On the songs screen a key that speaks to the playback sends just that message,
/// whichever list the keys are for, and changes nothing on the screen.
pub proof fn playback_keys_speak_from_the_songs_screen(s: SongsState, code: KeyCode, msg: Msg2Sub)
    requires
        says(code, msg),
    ensures
        s.key_pressed(code) == (s, SongsEffect::Send(msg)),
{
}

/// So does such a key on the folder screen, while the keys are for its list.
pub proof fn playback_keys_speak_from_the_folder_screen(
    pre: DirectoryState,
    event: KeyEvent,
    now: Nanos,
    post: DirectoryState,
    told: Option<Msg2Sub>,
    msg: Msg2Sub,
)
    requires
        pre.focus is View,
        says(event.code, msg),
        DirectoryState::key_pressed(pre, event, now, post, told),
    ensures
        post == pre,
        told == Some(msg),
{
}

/// Whatever is sent from the songs screen was asked for by a key that stands for it.
pub proof fn nothing_is_sent_unasked(s: SongsState, code: KeyCode)
    ensures
        s.key_pressed(code).1 matches SongsEffect::Send(msg) ==> {
            ||| says(code, msg)
            ||| msg is Randomize && code == KeyCode::Char('r') && s.focus is Songs
            ||| msg is Select && code is Enter && s.focus is Songs
            ||| msg is SwitchDevice && code is Enter && s.focus is Devices
        },
        s.key_pressed(code).1 is SendDevices <==> code == KeyCode::Char('f'),
        s.key_pressed(code).1 is RefreshDevices <==> code == KeyCode::Char('r') && s.focus
            is Devices,
        s.key_pressed(code).1 matches SongsEffect::SendDevices(start) ==> start,
        !(s.key_pressed(code).1 is Fail),
{
}

/// On the songs screen a key touches nothing but the selection of the list that the keys
/// are for, which list that is, and the wish to leave.
pub proof fn keys_change_only_selection_focus_and_exit(s: SongsState, code: KeyCode)
    ensures
        ({
            let t = s.key_pressed(code).0;
            &&& t.media.sources == s.media.sources
            &&& t.playback_position == s.playback_position
            &&& t.devices == s.devices
            &&& t.message == s.message
            &&& t.media.state.offset == s.media.state.offset
            &&& t.device_list_state.offset == s.device_list_state.offset
            &&& s.focus is Devices ==> t.media.state == s.media.state
            &&& s.focus is Songs ==> t.device_list_state == s.device_list_state
            &&& t.exit_reason == (if code is Esc {
                Some(ReasonStopped::Quit)
            } else if code is Tab {
                Some(ReasonStopped::ChangeScreen)
            } else {
                s.exit_reason
            })
            &&& t.focus is Devices <==> (s.focus is Devices && code != KeyCode::Char('h')) || (
            s.focus is Songs && code == KeyCode::Char('l'))
        }),
{
}

/// The selection after a key that goes up, down, to the first or to the last entry of a
/// list. Nothing lies before the first entry; without a selection going down selects the
/// first entry and going up the last.
pub open spec fn moved(
    before: Option<usize>,
    up: bool,
    down: bool,
    first: bool,
    last: bool,
    after: Option<usize>,
) -> bool {
    if up {
        match before {
            Some(i) => after is Some && after->0 == (if i == 0 {
                0
            } else {
                i - 1
            }),
            None => after == Some(usize::MAX),
        }
    } else if down {
        match before {
            Some(i) => after is Some && after->0 == (if i == usize::MAX {
                usize::MAX as int
            } else {
                i + 1
            }),
            None => after == Some(0usize),
        }
    } else if first {
        after == Some(0usize)
    } else if last {
        after == Some(usize::MAX)
    } else {
        after == before
    }
}

/// On the songs screen the selection moves in the list that the keys are for, and by no
/// other keys than those for moving.
pub proof fn keys_move_the_selection(s: SongsState, code: KeyCode)
    ensures
        s.focus is Songs ==> moved(
            s.media.state.selected,
            code is Up || code == KeyCode::Char('k'),
            code is Down || code == KeyCode::Char('j'),
            code is End || code == KeyCode::Char('g'),
            code is Home || code == KeyCode::Char('G'),
            s.key_pressed(code).0.media.state.selected,
        ),
        s.focus is Devices ==> moved(
            s.device_list_state.selected,
            code is Up || code == KeyCode::Char('k'),
            code is Down || code == KeyCode::Char('j'),
            code is Home || code == KeyCode::Char('g'),
            code is End || code == KeyCode::Char('G'),
            s.key_pressed(code).0.device_list_state.selected,
        ),
{
}

/// Enter asks for what is selected: the song at the selected place, or the device there if
/// there is one. Without a selection nothing happens.
pub proof fn enter_asks_for_the_selected(s: SongsState)
    ensures
        s.key_pressed(KeyCode::Enter).0 == s,
        s.focus is Songs ==> match s.media.state.selected {
            Some(i) => s.key_pressed(KeyCode::Enter).1 == SongsEffect::Send(Msg2Sub::Select(i)),
            None => s.key_pressed(KeyCode::Enter).1 is Nothing,
        },
        s.focus is Devices ==> match s.device_list_state.selected {
            Some(i) => if i < s.devices.output_devices@.len() {
                s.key_pressed(KeyCode::Enter).1 == SongsEffect::Send(
                    Msg2Sub::SwitchDevice(s.devices.output_devices@[i as int]),
                )
            } else {
                s.key_pressed(KeyCode::Enter).1 is Nothing
            },
            None => s.key_pressed(KeyCode::Enter).1 is Nothing,
        },
        s.focus is Songs ==> s.key_pressed(KeyCode::Char('r')).1 == SongsEffect::Send(
            Msg2Sub::Randomize,
        ),
        s.chosen_device() is Some <==> s.device_list_state.selected is Some
            && s.device_list_state.selected->0 < s.devices.output_devices@.len(),
{
}

/// Whatever the playback tells, only what it tells of changes on the screen: where the
/// song is, how long it is, how loud and whether it loops, which device is in use, which
/// song plays, and the songs themselves after a shuffle. No message moves a selection.
pub proof fn messages_change_only_what_they_tell_of(
    pre: SongsState,
    msg: Msg2Main,
    now: Nanos,
    post: SongsState,
    effect: SongsEffect,
)
    requires
        SongsState::told(pre, msg, now, post, effect),
    ensures
        post.media.state == pre.media.state,
        post.device_list_state == pre.device_list_state,
        post.focus == pre.focus,
        post.exit_reason == pre.exit_reason,
        post.devices.output_devices == pre.devices.output_devices,
        post.devices.names == pre.devices.names,
        !(msg is DeviceSwitched) ==> post.devices.current_device == pre.devices.current_device,
        !(msg is SongChanged || msg is Randomized) ==> post.media.sources == pre.media.sources,
        post.playback_position.volume == (match msg {
            Msg2Main::VolumeChanged(volume) => volume,
            _ => pre.playback_position.volume,
        }),
        post.playback_position.is_looping == (match msg {
            Msg2Main::LoopStatus(is_looping) => is_looping,
            _ => pre.playback_position.is_looping,
        }),
        post.playback_position.current_pos == (match msg {
            Msg2Main::UpdatePosition(position) => position,
            _ => pre.playback_position.current_pos,
        }),
        post.playback_position.total_duration == (match msg {
            Msg2Main::TotalDuration(duration) => duration,
            _ => pre.playback_position.total_duration,
        }),
        post.message == (match msg {
            Msg2Main::OutputStreamInitializationFailed => Some((now, "failed to switch devices")),
            _ => pre.message,
        }),
        match effect {
            SongsEffect::SendDevices(start) => msg is DeviceLost && start || msg is DeviceLostWait
                && !start,
            SongsEffect::Fail(text) => match msg {
                Msg2Main::Panic(said) => text@ == said@,
                Msg2Main::PanicS(said) => text == said,
                _ => false,
            },
            SongsEffect::Nothing => !(msg is DeviceLost || msg is DeviceLostWait || msg is Panic
                || msg is PanicS),
            _ => false,
        },
{
}

/// The song that the playback says is the one that is marked, and no other; the songs stay
/// where they are.
pub proof fn the_song_that_plays_is_marked(
    pre: SongsState,
    playing: Option<usize>,
    now: Nanos,
    post: SongsState,
    effect: SongsEffect,
    i: int,
)
    requires
        SongsState::told(pre, Msg2Main::SongChanged(playing), now, post, effect),
    ensures
        post.media.sources@.len() == pre.media.sources@.len(),
        0 <= i < pre.media.sources@.len() ==> {
            &&& post.media.sources@[i].path == pre.media.sources@[i].path
            &&& post.media.sources@[i].is_playing <==> (playing matches Some(j) && i == j)
        },
{
    let a = crate::media::paths(pre.media.sources@);
    let b = crate::media::paths(post.media.sources@);
    assert(a.len() == pre.media.sources@.len());
    assert(b.len() == post.media.sources@.len());
    if 0 <= i < a.len() {
        assert(a[i] == b[i]);
    }
}

/// After a shuffle the screen has the songs in the order that the playback tells, and marks
/// the first of them.
pub proof fn a_shuffle_is_shown_as_told(
    pre: SongsState,
    songs: Vec<PathBuf>,
    now: Nanos,
    post: SongsState,
    effect: SongsEffect,
    i: int,
)
    requires
        SongsState::told(pre, Msg2Main::Randomized(songs), now, post, effect),
    ensures
        post.media.sources@.len() == songs@.len(),
        0 <= i < songs@.len() ==> {
            &&& post.media.sources@[i].path == songs@[i]
            &&& post.media.sources@[i].is_playing <==> i == 0
        },
{
    let b = crate::media::paths(post.media.sources@);
    assert(b.len() == post.media.sources@.len());
    if 0 <= i < songs@.len() {
        assert(b[i] == songs@[i]);
    }
}

/// Two devices are told apart by each thing that they say of themselves: name, maker,
/// driver, kind, connection, direction, address and details, and by the error if they
/// cannot say.
pub proof fn devices_are_told_apart_by_all_they_say(a: Device, b: Device)
    ensures
        crate::device::described_alike(a, a),
        crate::device::described_alike(a, b) == crate::device::described_alike(b, a),
        a.description is Ok != b.description is Ok ==> !crate::device::described_alike(a, b),
        a.description matches Ok(m) ==> b.description matches Ok(n) ==> (
        crate::device::described_alike(a, b) <==> {
            &&& m.name@ == n.name@
            &&& m.manufacturer is Some == n.manufacturer is Some
            &&& m.manufacturer is Some ==> m.manufacturer->0@ == n.manufacturer->0@
            &&& m.driver is Some == n.driver is Some
            &&& m.driver is Some ==> m.driver->0@ == n.driver->0@
            &&& m.device_type == n.device_type
            &&& m.interface_type == n.interface_type
            &&& m.direction == n.direction
            &&& m.address is Some == n.address is Some
            &&& m.address is Some ==> m.address->0@ == n.address->0@
            &&& m.extended@ == n.extended@
        }),
        a.description matches Err(m) ==> b.description matches Err(n) ==> (
        crate::device::described_alike(a, b) <==> m@ == n@),
{
}

/// The device in use is shown at the first place that has a device like it, and at the
/// first place of all if there is none.
pub proof fn the_device_in_use_is_shown_at_its_first_place(
    pre: SongsState,
    device: Device,
    now: Nanos,
    post: SongsState,
    effect: SongsEffect,
)
    requires
        SongsState::told(pre, Msg2Main::DeviceSwitched(device), now, post, effect),
    ensures
        ({
            let all = pre.devices.output_devices@;
            let i = post.devices.current_device as int;
            &&& forall|j: int|
                0 <= j < i ==> !crate::device::described_alike(#[trigger] all[j], device)
            &&& i < all.len() && crate::device::described_alike(all[i], device) || i == 0
            &&& (exists|j: int|
                0 <= j < all.len() && crate::device::described_alike(#[trigger] all[j], device))
                ==> i < all.len() && crate::device::described_alike(all[i], device)
        }),
{
}

/// Devices that were found go to the playback as they are, if there are any. Otherwise the
/// screen is left for that reason, and nothing is sent.
pub proof fn found_devices_are_handed_on(
    s: SongsState,
    devices: AvailableDevices,
    start_playback: bool,
)
    ensures
        ({
            let (t, sent) = s.after_finding(devices, start_playback);
            &&& sent is Some <==> devices.output_devices@.len() > 0
            &&& sent matches Some(msg) ==> msg == Msg2Sub::Devices(devices, start_playback)
            &&& t.exit_reason == (if sent is Some {
                s.exit_reason
            } else {
                Some(ReasonStopped::NoOutputDevices)
            })
            &&& t == (SongsState { exit_reason: t.exit_reason, ..s })
        }),
{
}

/// Refreshing shows other devices with none selected, and leaves all else.
pub proof fn refreshing_shows_other_devices(s: SongsState, devices: AvailableDevices)
    ensures
        s.refreshed(devices).devices == devices,
        s.refreshed(devices).device_list_state.selected is None,
        s.refreshed(devices).device_list_state.offset == 0,
        s.refreshed(devices) == (SongsState {
            devices,
            device_list_state: s.refreshed(devices).device_list_state,
            ..s
        }),
{
}

/// A message stays on the screen for three seconds and is then gone for good.
pub proof fn messages_are_shown_for_three_seconds(s: SongsState, now: Nanos)
    ensures
        s.showing(now).1 is Some ==> s.message is Some,
        s.message matches Some((since, text)) ==> (s.showing(now).1 == Some(text) <==> now < since
            + 3_000_000_000),
        s.message matches Some((since, text)) ==> (s.showing(now).1 is None <==> now >= since
            + 3_000_000_000),
        s.message matches Some((since, text)) ==> (s.showing(now).0 == s <==> now < since
            + 3_000_000_000),
        s.showing(now).1 is None ==> s.showing(now).0.message is None,
        s.showing(now).0 == (SongsState { message: s.showing(now).0.message, ..s }),
{
}

/// There is a line for each song, in order, with its file name, and just the song that is
/// marked is highlighted.
pub proof fn songs_are_shown_by_name(s: SongsState, entries: Seq<ListEntry>, i: int)
    requires
        s.songs_shown(entries),
    ensures
        entries.len() == s.media.sources@.len(),
        0 <= i < entries.len() ==> entries[i].highlighted == s.media.sources@[i].is_playing,
        0 <= i < entries.len() ==> path::path_components(s.media.sources@[i].path).len() > 0 && (path::path_components(
            s.media.sources@[i].path,
        ).last() matches path::PartView::Normal(name) && (vstd::utf8::valid_utf8(name)
            ==> entries[i].text@ == vstd::utf8::decode_utf8(name)) && (!vstd::utf8::valid_utf8(name)
            ==> entries[i].text@.len() == 0)) || path::file_name_of(s.media.sources@[i].path)
            is None,
        s.all_named() <==> forall|j: int|
            0 <= j < s.media.sources@.len() ==> path::path_components(
                (#[trigger] s.media.sources@[j]).path,
            ).len() > 0 && path::path_components(s.media.sources@[j].path).last() is Normal,
{
}

/// There is a line for each device, in order, with its name, and just the one in use is
/// highlighted.
pub proof fn devices_are_shown_by_name(s: SongsState, entries: Seq<ListEntry>, i: int)
    requires
        s.devices_shown(entries),
    ensures
        entries.len() == s.devices.names@.len(),
        0 <= i < entries.len() ==> entries[i].text@ == s.devices.names@[i]@,
        0 <= i < entries.len() ==> (entries[i].highlighted <==> i == s.devices.current_device),
{
}

/// The playback starts if and only if the device could be opened, with the songs of the
/// screen in their order; otherwise the error is the one of the device.
pub proof fn the_playback_starts_with_the_songs_shown(
    device: Device,
    sources: Seq<MediaSource>,
    status: Status,
    opened: Result<(), String>,
    now: Nanos,
    r: Result<PlaybackState, AppError>,
    i: int,
)
    requires
        SongsState::playback_started(device, sources, status, opened, now, r),
    ensures
        r is Ok <==> opened is Ok,
        opened matches Err(e) ==> r == Err::<PlaybackState, AppError>(AppError::Sink(e)),
        r matches Ok(p) ==> {
            &&& p.sources@.len() == sources.len()
            &&& 0 <= i < sources.len() ==> p.sources@[i] == sources[i].path
            &&& p.current_device == device
            &&& p.status == status
            &&& p.index == 0
            &&& p.volume == 8
            &&& !p.should_loop
            &&& p.position is None
            &&& p.total_duration is None
            &&& p.last_position_update == now
            &&& p.last_device_healthcheck == now
        },
{
}

/// The songs screen starts with its songs and devices, nothing selected, the keys for the
/// songs, and what the playback starts with: volume eight and no looping.
pub proof fn the_songs_screen_starts_as_the_playback(
    sources: Vec<MediaSource>,
    devices: AvailableDevices,
)
    ensures
        ({
            let s = SongsState::initial(sources, devices);
            &&& s.media.sources == sources
            &&& s.devices == devices
            &&& s.media.state.selected is None && s.media.state.offset == 0
            &&& s.device_list_state.selected is None && s.device_list_state.offset == 0
            &&& s.focus is Songs
            &&& s.exit_reason is None
            &&& s.message is None
            &&& s.playback_position.volume == 8
            &&& !s.playback_position.is_looping
            &&& s.playback_position.current_pos is None
            &&& s.playback_position.total_duration is None
        }),
        devices.output_devices@.len() > 0 ==> SongsState::first_device(devices)
            == devices.output_devices@[0],
{
}

/// The player starts with its screens as they are, and does not quit.
pub proof fn the_player_starts_with_its_screens(
    songs_state: SongsState,
    directory_state: DirectoryState,
    current_state: CurrentState,
)
    ensures
        ({
            let r = RootState::initial(songs_state, directory_state, current_state);
            &&& r.songs_state == songs_state
            &&& r.directory_state == directory_state
            &&& r.current_state == current_state
            &&& !r.should_quit
        }),
{
}

/// Devices are handed on if there are any, and otherwise their lack is the error.
pub proof fn a_lack_of_devices_is_an_error(devices: AvailableDevices, start_playback: bool)
    ensures
        SongsState::handing_on(devices, start_playback) is Ok <==> devices.output_devices@.len()
            > 0,
        SongsState::handing_on(devices, start_playback) matches Ok(msg) ==> msg == Msg2Sub::Devices(
            devices,
            start_playback,
        ),
        SongsState::handing_on(devices, start_playback) matches Err(e) ==> e is NoOutputDevices,
{
}

/// On the folder screen, while the keys are for its list, Escape, Tab and Enter leave it,
/// a slash goes to the search, and the other keys move the selection or do nothing; all
/// else stays.
pub proof fn keys_on_the_folder_list(
    pre: DirectoryState,
    event: KeyEvent,
    now: Nanos,
    post: DirectoryState,
    told: Option<Msg2Sub>,
)
    requires
        pre.focus is View,
        DirectoryState::key_pressed(pre, event, now, post, told),
    ensures
        told matches Some(msg) ==> says(event.code, msg) || msg is Randomize,
        told == Some(Msg2Sub::Randomize) <==> event.code == KeyCode::Char('r'),
        post.exit_reason == (if event.code is Esc {
            Some(ReasonStopped::Quit)
        } else if event.code is Tab {
            Some(ReasonStopped::ChangeScreen)
        } else if event.code is Enter {
            Some(ReasonStopped::NewSources)
        } else {
            pre.exit_reason
        }),
        post.focus is Textedit <==> event.code == KeyCode::Char('/'),
        moved(
            pre.items.state.selected,
            event.code is Up || event.code == KeyCode::Char('k'),
            event.code is Down || event.code == KeyCode::Char('j'),
            event.code is Home || event.code == KeyCode::Char('g'),
            event.code is End || event.code == KeyCode::Char('G'),
            post.items.state.selected,
        ),
        post.items.dirs == pre.items.dirs,
        post.items.state.offset == pre.items.state.offset,
        post == (DirectoryState {
            exit_reason: post.exit_reason,
            focus: post.focus,
            items: post.items,
            ..pre
        }),
{
}

/// While the keys are for the text, a plain character is added to its end, Backspace takes
/// the last one off, and Enter leaves with the text gone. Whatever changes the text, but
/// for Enter, makes the search wait from now on, and nothing else does.
pub proof fn keys_edit_the_text(
    pre: DirectoryState,
    event: KeyEvent,
    now: Nanos,
    post: DirectoryState,
    told: Option<Msg2Sub>,
)
    requires
        pre.focus is Textedit,
        DirectoryState::key_pressed(pre, event, now, post, told),
    ensures
        told is None,
        event.code matches KeyCode::Char(c) ==> event.modifiers.bits == 0 ==> {
            &&& post.textedit@.len() == pre.textedit@.len() + 1
            &&& post.textedit@.last() == c
            &&& post.textedit@.drop_last() == pre.textedit@
        },
        event.code is Backspace ==> post.textedit@ == (if pre.textedit@.len() == 0 {
            pre.textedit@
        } else {
            pre.textedit@.take(pre.textedit@.len() - 1)
        }),
        event.code is Enter ==> post.textedit@.len() == 0,
        !(event.code is Backspace || event.code is Enter || event.code is Char
            && event.modifiers.bits == 0) ==> post.textedit == pre.textedit,
        post.debounce.delay == pre.debounce.delay,
        post.debounce.last_trigger == (if event.code is Backspace || event.code is Char
            && event.modifiers.bits == 0 {
            Some(now)
        } else {
            pre.debounce.last_trigger
        }),
        post.exit_reason == (if event.code is Esc {
            Some(ReasonStopped::Quit)
        } else if event.code is Enter {
            Some(ReasonStopped::NewSources)
        } else {
            pre.exit_reason
        }),
        post.focus is View <==> event.code is Tab,
{
    if event.code is Backspace && pre.textedit@.len() > 0 {
        assert(pre.textedit@.drop_last() =~= pre.textedit@.take(pre.textedit@.len() - 1));
    }
    if let KeyCode::Char(c) = event.code {
        if event.modifiers.bits == 0 {
            assert(pre.textedit@.push(c).drop_last() =~= pre.textedit@);
        }
    }
}

/// While the keys are for the text, the arrows and the characters j, k, f and l with
/// Control move the selection among the folders that were found, and nothing else does.
pub proof fn keys_move_among_the_found_folders(
    pre: DirectoryState,
    event: KeyEvent,
    now: Nanos,
    post: DirectoryState,
    told: Option<Msg2Sub>,
)
    requires
        pre.focus is Textedit,
        DirectoryState::key_pressed(pre, event, now, post, told),
    ensures
        moved(
            pre.filtered_items.state.selected,
            event.code is Up || event.code == KeyCode::Char('k') && event.modifiers.bits == 2,
            event.code is Down || event.code == KeyCode::Char('j') && event.modifiers.bits == 2,
            event.code == KeyCode::Char('f') && event.modifiers.bits == 2,
            event.code == KeyCode::Char('l') && event.modifiers.bits == 2,
            post.filtered_items.state.selected,
        ),
        post.filtered_items.dirs == pre.filtered_items.dirs,
        post.filtered_items.state.offset == pre.filtered_items.state.offset,
        post.items == pre.items,
        post.contents == pre.contents,
        post.root_dir == pre.root_dir,
{
}

/// The list and the selection on the folder screen are those of the folders that were
/// found while the text is edited, and of all folders otherwise.
pub proof fn the_list_goes_with_the_focus(s: DirectoryState)
    ensures
        s.focus is View ==> s.shown() == s.items,
        s.focus is Textedit ==> s.shown() == s.filtered_items,
        s.shown_lines().len() == s.shown().dirs@.len(),
        forall|i: int|
            0 <= i < s.shown_lines().len() ==> #[trigger] s.shown_lines()[i]
                == s.shown().dirs@[i].dir_without_root_string,
        s.selection_in_range() <==> (s.shown().state.selected is None
            || s.shown().state.selected->0 < s.shown().dirs@.len()),
        s.chosen() is Some <==> s.shown().state.selected is Some,
        s.selection_in_range() ==> (s.chosen() matches Some(dir) ==> dir
            == s.shown().dirs@[s.shown().state.selected->0 as int].full_dir),
{
}

/// The songs that are shown are those of the selected folder: of an entry of the contents
/// with the same path.
pub proof fn the_songs_shown_are_those_of_the_selected_folder(s: DirectoryState)
    requires
        s.well_formed(),
        s.selection_in_range(),
    ensures
        s.chosen() is None ==> s.chosen_songs() is None,
        s.chosen() matches Some(dir) ==> (s.chosen_songs() matches Some(songs) && songs@.len() > 0
            && exists|i: int|
            0 <= i < s.contents@.len() && path::path_components(
                (#[trigger] s.contents@[i]).dir,
            ) == path::path_components(dir) && s.contents@[i].songs == songs),
{
    if let Some(dir) = s.chosen() {
        let n = s.shown().state.selected->0 as int;
        assert(s.shown().dirs@[n].full_dir == dir);
        assert(crate::directory::songs_of(s.contents@, dir) is Some);
        let i = choose|i: int| crate::directory::is_place(s.contents@, dir, i);
        assert(crate::directory::is_place(s.contents@, dir, i));
        assert(s.contents@[i].songs == s.chosen_songs()->0);
    }
}

/// The folders are searched when more than the delay has passed since the text changed
/// last, and only then; whatever was selected stays selected.
pub proof fn the_search_waits_for_a_pause(pre: DirectoryState, now: Nanos, post: DirectoryState)
    requires
        DirectoryState::searched(pre, now, post),
    ensures
        post.items == pre.items,
        post.contents == pre.contents,
        post.textedit == pre.textedit,
        post.focus == pre.focus,
        post.debounce == pre.debounce,
        post.exit_reason == pre.exit_reason,
        post.root_dir == pre.root_dir,
        post.filtered_items.state == pre.filtered_items.state,
        pre.debounce.last_trigger is None ==> post == pre,
        pre.debounce.last_trigger matches Some(at) ==> now <= at + pre.debounce.delay ==> post
            == pre,
        pre.debounce.last_trigger matches Some(at) ==> now > at + pre.debounce.delay
            ==> post.filtered_items.dirs@ == DirectoryState::matching(
            pre.items.dirs@,
            pre.textedit@,
        ),
{
}

/// The line above the search is a prompt and then the text.
pub proof fn the_prompt_stands_before_the_text(s: DirectoryState)
    ensures
        s.prompted().len() == s.textedit@.len() + 2,
        s.prompted()[0] == '>',
        s.prompted()[1] == ' ',
        s.prompted().skip(2) == s.textedit@,
{
    reveal_strlit("> ");
    assert(s.prompted().skip(2) =~= s.textedit@);
}

/// A delay is over when more than it has passed since the last trigger, and never before
/// the first one.
pub proof fn a_delay_counts_from_the_last_trigger(d: Debounce, at: Nanos, now: Nanos)
    ensures
        d.last_trigger is None ==> !d.ready_when(now),
        d.last_trigger matches Some(t) ==> (d.ready_when(now) <==> now > t + d.delay),
        d.triggered_when(at).ready_when(now) <==> now > at + d.delay,
        d.triggered_when(at).delay == d.delay,
        d.triggered_when(at).last_trigger == Some(at),
{
}

/// The time between two moments is how much the later one is ahead, and none if it is not.
pub proof fn time_passes_forward(earlier: Nanos, later: Nanos)
    ensures
        earlier <= later ==> earlier + crate::clock::time_between(earlier, later) == later,
        earlier > later ==> crate::clock::time_between(earlier, later) == 0,
{
}

/// The player does not start without devices or, if a folder is given, without music in
/// it. With a folder its music plays at once, each song once, none left out, and the
/// first one is marked; without one nothing plays and the folders are shown.
pub proof fn the_player_starts_with_the_folder(
    devices: AvailableDevices,
    listing: Option<Vec<PathBuf>>,
    r: Result<Start, StartError>,
)
    requires
        Start::decided(devices, listing, r),
    ensures
        r == Err::<Start, StartError>(StartError::NoOutputDevices)
            <==> devices.output_devices@.len() == 0,
        r == Err::<Start, StartError>(StartError::NothingToPlay) <==> devices.output_devices@.len()
            > 0 && (listing matches Some(all) && forall|i: int|
            0 <= i < all@.len() ==> !path::is_music(#[trigger] all@[i])),
        r matches Ok(start) ==> (start.status is Startup <==> listing is Some),
        r matches Ok(start) ==> (start.status is Waiting <==> listing is None),
        r matches Ok(start) ==> (start.current_state is Songs <==> listing is Some),
        r matches Ok(start) ==> (start.sources@.len() == 0 <==> listing is None),
        r matches Ok(start) ==> forall|i: int|
            0 <= i < start.sources@.len() ==> ((#[trigger] start.sources@[i]).is_playing <==> i
                == 0),
        r matches Ok(start) ==> listing matches Some(all) ==> forall|p: PathBuf| #[trigger]
            all@.contains(p) && path::is_music(p) ==> exists|i: int|
                0 <= i < start.sources@.len() && (#[trigger] start.sources@[i]).path == p,
        r matches Ok(start) ==> listing matches Some(all) ==> forall|i: int|
            0 <= i < start.sources@.len() ==> path::is_music((#[trigger] start.sources@[i]).path)
                && all@.contains(start.sources@[i].path),
{
    if let Ok(start) = r {
        if let Some(all) = listing {
            crate::laws::lists::songs_are_the_music_of_the_folder(all@, start.sources@);
        }
    }
}

/// Opening a folder shows its music, each song, in order, the first one marked and nothing
/// selected, sends just these songs, and throws the old messages away; only the songs and
/// the screen that is shown change.
pub proof fn an_opened_folder_is_shown_and_played(
    pre: RootState,
    listing: Seq<PathBuf>,
    post: RootState,
    actions: Seq<RootAction>,
)
    requires
        RootState::folder_opened(pre, listing, post, actions),
    ensures
        ({
            let songs = post.songs_state.media.sources@;
            &&& actions.len() == 2
            &&& actions[1] is DropMessages
            &&& actions[0] matches RootAction::Send(Msg2Sub::NewSources(sent)) && sent@.len()
                == songs.len() && (forall|i: int|
                0 <= i < songs.len() ==> #[trigger] sent@[i] == songs[i].path)
            &&& songs.len() > 0
            &&& forall|i: int|
                0 <= i < songs.len() ==> ((#[trigger] songs[i]).is_playing <==> i == 0)
            &&& forall|i: int|
                0 <= i < songs.len() ==> path::is_music((#[trigger] songs[i]).path)
                    && listing.contains(songs[i].path)
            &&& forall|p: PathBuf| #[trigger]
                listing.contains(p) && path::is_music(p) ==> exists|i: int|
                    0 <= i < songs.len() && (#[trigger] songs[i]).path == p
        }),
        post.current_state is Songs,
        post.songs_state.media.state.selected is None,
        post.songs_state.media.state.offset == 0,
        post.directory_state == pre.directory_state,
        post.should_quit == pre.should_quit,
        post.songs_state == (SongsState { media: post.songs_state.media, ..pre.songs_state }),
{
    let songs = post.songs_state.media.sources@;
    crate::laws::lists::songs_are_the_music_of_the_folder(listing, songs);
    let sent = actions[0]->Send_0->NewSources_0;
    assert(sent@.len() == songs.len());
    assert forall|i: int| 0 <= i < songs.len() implies #[trigger] sent@[i] == songs[i].path by {
        assert(crate::media::paths(songs)[i] == songs[i].path);
    }
}

/// When a folder was opened and the playback has followed, the song that is opened next is
/// the one that the screen marks, and it is at the same path.
pub proof fn the_marked_song_of_a_new_folder_is_opened(
    pre: RootState,
    listing: Seq<PathBuf>,
    post: RootState,
    actions: Seq<RootAction>,
    before: PlaybackState,
    paused: bool,
    after: PlaybackState,
    done: Seq<crate::playback::Action>,
    player_empty: bool,
)
    requires
        RootState::folder_opened(pre, listing, post, actions),
        actions[0] matches RootAction::Send(msg) && PlaybackState::followed(
            before,
            msg,
            paused,
            after,
            done,
        ),
    ensures
        ({
            let (q, next) = after.next(player_empty);
            let songs = post.songs_state.media.sources@;
            &&& next == Next::AddSource(Some(Msg2Main::SongChanged(Some(0))))
            &&& q.index < songs.len()
            &&& songs[q.index as int].is_playing
            &&& songs[q.index as int].path == q.sources@[q.index as int]
        }),
{
    an_opened_folder_is_shown_and_played(pre, listing, post, actions);
    let songs = post.songs_state.media.sources@;
    assert(songs[0].is_playing);
    let sent = actions[0]->Send_0->NewSources_0;
    assert(sent@[0] == songs[0].path);
}

/// Which reasons a screen can be left for: the songs screen to quit or to change screens,
/// the folder screen for any, as long as what is selected is on the list when it is to be
/// played. Leaving changes only the screen or the wish to quit.
pub proof fn screens_are_left_as_asked(r: RootState, reason: ReasonStopped)
    ensures
        r.current_state is Songs ==> (r.can_leave(reason) <==> reason is Quit || reason
            is ChangeScreen),
        r.current_state is Search && !(reason is NewSources) ==> r.can_leave(reason),
        r.current_state is Search && reason is NewSources ==> (r.can_leave(reason)
            <==> r.directory_state.selection_in_range()),
        r.left_for(reason).songs_state == r.songs_state,
        r.left_for(reason).directory_state == r.directory_state,
        r.left_for(reason).should_quit == (r.should_quit || reason is Quit),
        (r.left_for(reason).current_state == r.current_state) <==> !(reason is ChangeScreen),
        r.exit_reason() == (if r.current_state is Songs {
            r.songs_state.exit_reason
        } else {
            r.directory_state.exit_reason
        }),
        r.reason_taken().exit_reason() is None,
        r.reason_taken().current_state == r.current_state,
        r.reason_taken().should_quit == r.should_quit,
        r.current_state is Songs ==> r.reason_taken().directory_state == r.directory_state,
        r.current_state is Search ==> r.reason_taken().songs_state == r.songs_state,
        r.reason_taken().songs_state == (SongsState {
            exit_reason: r.reason_taken().songs_state.exit_reason,
            ..r.songs_state
        }),
        r.reason_taken().directory_state == (DirectoryState {
            exit_reason: r.reason_taken().directory_state.exit_reason,
            ..r.directory_state
        }),
{
}

/// A turn that neither ends the player nor leaves a screen draws the one that is shown; it
/// reads messages if and only if that is the songs screen, and searches only on the other.
pub proof fn a_turn_draws_the_screen(pre: RootState, now: Nanos, post: RootState, step: LoopStep)
    requires
        RootState::stepped(pre, LoopEvent::Turn, now, post, step),
    ensures
        step is Done <==> pre.should_quit || pre.exit_reason() == Some(
            ReasonStopped::NoOutputDevices,
        ),
        pre.should_quit ==> step == LoopStep::Done(Ok(())) && post == pre,
        !pre.should_quit && pre.exit_reason() is None ==> {
            &&& step is ReadAndDraw <==> pre.current_state is Songs
            &&& step is Draw <==> pre.current_state is Search
            &&& post.songs_state == pre.songs_state
            &&& post.current_state == pre.current_state
            &&& !post.should_quit
            &&& pre.current_state is Songs ==> post.directory_state == pre.directory_state
            &&& pre.current_state is Search ==> DirectoryState::searched(
                pre.directory_state,
                now,
                post.directory_state,
            )
        },
        !pre.should_quit ==> (pre.exit_reason() matches Some(reason) ==> {
            &&& post == pre.reason_taken().left_for(reason)
            &&& step is ListFolder <==> reason is NewSources && pre.directory_state.chosen() is Some
            &&& step matches LoopStep::ListFolder(dir) ==> Some(dir) == pre.directory_state.chosen()
            &&& step is Done <==> reason is NoOutputDevices
            &&& step is Again <==> !(step is ListFolder || step is Done)
        }),
{
}

/// After drawing the terminal is polled, and read if and only if there is something; a key
/// goes to the screen that is shown and to no other.
pub proof fn keys_go_to_the_screen_that_is_shown(
    pre: RootState,
    event: LoopEvent,
    now: Nanos,
    post: RootState,
    step: LoopStep,
)
    requires
        !(event is Turn || event is Listed),
        RootState::stepped(pre, event, now, post, step),
    ensures
        event == LoopEvent::Drawn(true) ==> step is Poll,
        event == LoopEvent::Drawn(false) ==> step == LoopStep::Done(Err(AppError::DrawFrame)),
        event matches LoopEvent::Polled(polled) ==> match polled {
            Ok(ready) => step is ReadKey == ready && step is Again == !ready,
            Err(e) => step == LoopStep::Done(Err(AppError::Io(e))),
        },
        !(event matches LoopEvent::KeyRead(Ok(Some(_)))) ==> post == pre,
        event matches LoopEvent::KeyRead(Ok(None)) ==> step is Again,
        event matches LoopEvent::KeyRead(Err(e)) ==> step == LoopStep::Done(Err(AppError::Io(e))),
        event matches LoopEvent::KeyRead(Ok(Some(key))) ==> {
            &&& post.current_state == pre.current_state
            &&& post.should_quit == pre.should_quit
            &&& pre.current_state is Songs ==> {
                &&& post.directory_state == pre.directory_state
                &&& post.songs_state == pre.songs_state.key_pressed(key.code).0
                &&& step == LoopStep::Follow(pre.songs_state.key_pressed(key.code).1)
            }
            &&& pre.current_state is Search ==> {
                &&& post.songs_state == pre.songs_state
                &&& step is Tell || step is Again
                &&& DirectoryState::key_pressed(
                    pre.directory_state,
                    key,
                    now,
                    post.directory_state,
                    if step is Tell {
                        Some(step->Tell_0)
                    } else {
                        None
                    },
                )
            }
        },
{
}

/// A folder that was listed is opened.
pub proof fn a_listed_folder_is_opened(
    pre: RootState,
    listing: Vec<PathBuf>,
    now: Nanos,
    post: RootState,
    step: LoopStep,
)
    requires
        RootState::stepped(pre, LoopEvent::Listed(listing), now, post, step),
    ensures
        step is Perform,
        RootState::folder_opened(pre, listing@, post, step->Perform_0@),
{
}

/// The loop can go on after anything but a folder without music, or a screen that is left
/// for a reason for which it cannot be.
pub proof fn the_loop_can_go_on(r: RootState, event: LoopEvent)
    ensures
        event is Turn ==> (r.can_step(event) <==> r.should_quit || r.exit_reason() is None
            || r.can_leave(r.exit_reason()->0)),
        event matches LoopEvent::Listed(listing) ==> (r.can_step(event) <==> exists|i: int|
            0 <= i < listing@.len() && path::is_music(#[trigger] listing@[i])),
        !(event is Turn || event is Listed) ==> r.can_step(event),
{
}

/// The audio thread is joined if it has finished, waited for with one attempt less if it
/// has not, and given up when there is no attempt left.
pub proof fn waiting_uses_up_attempts(attempts: u8, finished: bool)
    ensures
        turn::stopping(attempts, finished) is GiveUp <==> attempts == 0,
        turn::stopping(attempts, finished) is Join <==> attempts > 0 && finished,
        turn::stopping(attempts, finished) matches StopStep::Wait(left) ==> left + 1 == attempts
            && !finished,
        turn::STOP_ATTEMPTS == 4,
{
}

/// An error of a running stream is told as the loss of the device if it is that, and
/// otherwise by its own text.
pub proof fn stream_errors_are_told(lost: bool, error: String)
    ensures
        message::stream_error_message(lost, error) is DeviceLost <==> lost,
        !lost ==> message::stream_error_message(lost, error) == Msg2Main::PanicS(error),
{
}

/// An error that came from outside is shown as it came, and the others by their own words.
pub proof fn errors_are_shown_as_they_came(e: String)
    ensures
        AppError::Io(e).text() == e@,
        AppError::Sink(e).text() == e@,
        AppError::Decoder(e).text() == e@,
        AppError::Seek(e).text() == e@,
        AppError::BuildStream(e).text() == e@,
        AppError::OutputConfig(e).text() == e@,
        AppError::DrawFrame.text() == "failed to draw frame"@,
        AppError::NoOutputDevices.text() == "no output devices"@,
        StartError::NoOutputDevices.text() == "there are no output devices"@,
        StartError::NothingToPlay.text() == "there's nothing to play"@,
{
}

} // verus!
