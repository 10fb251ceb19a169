//! The loop of the screens, one step after the other, and how the player stops.
use crate::clock::Nanos;
use crate::directory::DirectoryState;
use crate::key::KeyEvent;
use crate::media;
use crate::message::AppError;
use crate::message::CurrentState;
use crate::message::Msg2Sub;
use crate::message::ReasonStopped;
use crate::root::RootAction;
use crate::root::RootState;
use crate::songs::SongsEffect;
use std::path::PathBuf;
use vstd::prelude::*;

verus! {

/// What has happened outside since the last step. An error is kept as its text.
#[derive(Debug)]
pub enum LoopEvent {
    /// Nothing but what the last step asked for: another turn begins.
    Turn,
    /// The screen was drawn, or could not be drawn.
    Drawn(bool),
    /// Whether there is something to read from the terminal.
    Polled(Result<bool, String>),
    /// What was read from the terminal: a key that was pressed, or something else.
    KeyRead(Result<Option<KeyEvent>, String>),
    /// What is in the folder to open.
    Listed(Vec<PathBuf>),
}

/// What is to be done outside next.
#[derive(Debug)]
pub enum LoopStep {
    /// Begin another turn.
    Again,
    /// Hand the messages from the playback to the songs screen, and draw it.
    ReadAndDraw,
    /// Draw the screen.
    Draw,
    /// See whether there is something to read from the terminal.
    Poll,
    /// Read from the terminal.
    ReadKey,
    /// Do what the songs screen asks for, and begin another turn.
    Follow(SongsEffect),
    /// Send a message to the playback, and begin another turn.
    Tell(Msg2Sub),
    /// List what is in the folder.
    ListFolder(PathBuf),
    /// Do these in order, and begin another turn.
    Perform(Vec<RootAction>),
    /// The player ends.
    Done(Result<(), AppError>),
}

/// The event is an answer to what was to be done.
pub open spec fn answers(event: LoopEvent, step: LoopStep) -> bool {
    match step {
        LoopStep::ReadAndDraw | LoopStep::Draw => event is Drawn,
        LoopStep::Poll => event is Polled,
        LoopStep::ReadKey => event is KeyRead,
        LoopStep::ListFolder(_) => event is Listed,
        LoopStep::Done(_) => false,
        _ => event is Turn,
    }
}

impl RootState {
    /// A turn begins. The player ends if it should, and otherwise a screen that gives
    /// up the keyboard is left. Messages are read only for the songs screen, and
    /// folders are searched only on theirs.
    pub open spec fn turned(pre: RootState, now: Nanos, post: RootState, step: LoopStep) -> bool {
        if pre.should_quit {
            &&& post == pre
            &&& step == LoopStep::Done(Ok(()))
        } else {
            match pre.exit_reason() {
                Some(reason) => {
                    &&& post == pre.reason_taken().left_for(reason)
                    &&& step == (match reason {
                        ReasonStopped::NoOutputDevices => LoopStep::Done(
                            Err(AppError::NoOutputDevices),
                        ),
                        ReasonStopped::NewSources => match pre.directory_state.chosen() {
                            Some(dir) => LoopStep::ListFolder(dir),
                            None => LoopStep::Again,
                        },
                        _ => LoopStep::Again,
                    })
                },
                None => match pre.current_state {
                    CurrentState::Songs => {
                        &&& post == pre
                        &&& step is ReadAndDraw
                    },
                    CurrentState::Search => {
                        &&& DirectoryState::searched(pre.directory_state, now, post.directory_state)
                        &&& post == (RootState { directory_state: post.directory_state, ..pre })
                        &&& step is Draw
                    },
                },
            }
        }
    }

    /// A key goes to the screen that is shown.
    pub open spec fn key_followed(
        pre: RootState,
        key: KeyEvent,
        now: Nanos,
        post: RootState,
        step: LoopStep,
    ) -> bool {
        match pre.current_state {
            CurrentState::Songs => {
                let (songs_state, effect) = pre.songs_state.key_pressed(key.code);
                &&& post == (RootState { songs_state, ..pre })
                &&& step == LoopStep::Follow(effect)
            },
            CurrentState::Search => {
                &&& post == (RootState { directory_state: post.directory_state, ..pre })
                &&& match step {
                    LoopStep::Tell(msg) => DirectoryState::key_pressed(
                        pre.directory_state,
                        key,
                        now,
                        post.directory_state,
                        Some(msg),
                    ),
                    LoopStep::Again => DirectoryState::key_pressed(
                        pre.directory_state,
                        key,
                        now,
                        post.directory_state,
                        None,
                    ),
                    _ => false,
                }
            },
        }
    }

    /// What a step of the loop does.
    pub open spec fn stepped(
        pre: RootState,
        event: LoopEvent,
        now: Nanos,
        post: RootState,
        step: LoopStep,
    ) -> bool {
        match event {
            LoopEvent::Turn => RootState::turned(pre, now, post, step),
            LoopEvent::Drawn(drawn) => {
                &&& post == pre
                &&& step == (if drawn {
                    LoopStep::Poll
                } else {
                    LoopStep::Done(Err(AppError::DrawFrame))
                })
            },
            LoopEvent::Polled(polled) => {
                &&& post == pre
                &&& step == (match polled {
                    Ok(true) => LoopStep::ReadKey,
                    Ok(false) => LoopStep::Again,
                    Err(e) => LoopStep::Done(Err(AppError::Io(e))),
                })
            },
            LoopEvent::KeyRead(read) => match read {
                Ok(Some(key)) => RootState::key_followed(pre, key, now, post, step),
                Ok(None) => post == pre && step is Again,
                Err(e) => post == pre && step == LoopStep::Done(Err(AppError::Io(e))),
            },
            LoopEvent::Listed(listing) => step matches LoopStep::Perform(actions)
                && RootState::folder_opened(pre, listing@, post, actions@),
        }
    }

    /// The loop can take a step. A screen must have a reason for which it can be left,
    /// and a folder that is opened must hold music.
    pub open spec fn can_step(self, event: LoopEvent) -> bool {
        match event {
            LoopEvent::Turn => !self.should_quit ==> (self.exit_reason() matches Some(reason)
                ==> self.can_leave(reason)),
            LoopEvent::Listed(listing) => !media::no_music(listing@),
            _ => true,
        }
    }

    /// Whether the loop can take a step.
    pub fn may_step(&self, event: &LoopEvent) -> (r: bool)
        ensures
            r == self.can_step(*event),
    {
        match event {
            LoopEvent::Turn => {
                let reason = match self.current_state {
                    CurrentState::Songs => self.songs_state.exit_reason,
                    CurrentState::Search => self.directory_state.exit_reason,
                };
                match reason {
                    Some(reason) => self.should_quit || self.may_leave(reason),
                    None => true,
                }
            },
            LoopEvent::Listed(listing) => media::has_music(listing),
            _ => true,
        }
    }

    /// Takes a step of the loop, at the time `now`.
    pub fn step(&mut self, event: LoopEvent, now: Nanos) -> (step: LoopStep)
        requires
            old(self).can_step(event),
        ensures
            RootState::stepped(*old(self), event, now, *final(self), step),
            old(self).directory_state.well_formed() ==> final(self).directory_state.well_formed(),
    {
        match event {
            LoopEvent::Turn => {
                if self.should_quit {
                    return LoopStep::Done(Ok(()));
                }
                match self.take_exit_reason() {
                    Some(reason) => match self.run(reason) {
                        Ok(Some(dir)) => LoopStep::ListFolder(dir),
                        Ok(None) => LoopStep::Again,
                        Err(e) => LoopStep::Done(Err(e)),
                    },
                    None => match self.current_state {
                        CurrentState::Songs => LoopStep::ReadAndDraw,
                        CurrentState::Search => {
                            self.directory_state.filter_when_ready(now);
                            LoopStep::Draw
                        },
                    },
                }
            },
            LoopEvent::Drawn(drawn) => if drawn {
                LoopStep::Poll
            } else {
                LoopStep::Done(Err(AppError::DrawFrame))
            },
            LoopEvent::Polled(polled) => match polled {
                Ok(true) => LoopStep::ReadKey,
                Ok(false) => LoopStep::Again,
                Err(e) => LoopStep::Done(Err(AppError::Io(e))),
            },
            LoopEvent::KeyRead(read) => match read {
                Ok(Some(key)) => match self.current_state {
                    CurrentState::Songs => LoopStep::Follow(self.songs_state.handle_key(key)),
                    CurrentState::Search => match self.directory_state.handle_key_at(key, now) {
                        Some(msg) => LoopStep::Tell(msg),
                        None => LoopStep::Again,
                    },
                },
                Ok(None) => LoopStep::Again,
                Err(e) => LoopStep::Done(Err(AppError::Io(e))),
            },
            LoopEvent::Listed(listing) => match self.open_folder(&listing) {
                Some(actions) => LoopStep::Perform(actions),
                None => LoopStep::Again,
            },
        }
    }
}

/// One step as it was taken.
pub struct Taken {
    pub pre: RootState,
    pub event: LoopEvent,
    pub now: Nanos,
    pub post: RootState,
    pub step: LoopStep,
}

/// The steps make up a whole run of the loop: it begins with a turn, each event answers
/// the step before, and only the last step ends it. What is done outside between two
/// steps neither changes the screen that is shown nor makes the player quit.
pub open spec fn is_run(taken: Seq<Taken>) -> bool {
    &&& taken.len() > 0
    &&& taken[0].event is Turn
    &&& forall|i: int|
        0 <= i < taken.len() ==> {
            let t = #[trigger] taken[i];
            &&& t.pre.can_step(t.event)
            &&& RootState::stepped(t.pre, t.event, t.now, t.post, t.step)
            &&& t.step is Done <==> i == taken.len() - 1
        }
    &&& forall|i: int, j: int|
        0 <= i && j == i + 1 && j < taken.len() ==> {
            let t = #[trigger] taken[i];
            let u = #[trigger] taken[j];
            &&& answers(u.event, t.step)
            &&& u.pre.current_state == t.post.current_state
            &&& u.pre.should_quit == t.post.should_quit
        }
}

/// The terminal failed with the error, when it was polled or read.
pub open spec fn terminal_failed(event: LoopEvent, e: String) -> bool {
    event == LoopEvent::Polled(Err(e)) || event == LoopEvent::KeyRead(Err(e))
}

/// The folder screen was left because there are no output devices.
pub open spec fn devices_gone(t: Taken) -> bool {
    &&& t.event is Turn
    &&& !t.pre.should_quit
    &&& t.pre.current_state is Search
    &&& t.pre.directory_state.exit_reason == Some(ReasonStopped::NoOutputDevices)
}

/// The player ends with an error if and only if the screen could not be drawn, the
/// terminal failed, or the folder screen was left because there are no output
/// devices, and it is that error. Otherwise it ends because it should quit.
pub proof fn run_ends_for_a_reason(taken: Seq<Taken>, e: String)
    requires
        is_run(taken),
    ensures
        taken.last().step is Done,
        ({
            let result = taken.last().step->Done_0;
            &&& result == Err::<(), AppError>(AppError::DrawFrame) <==> exists|i: int|
                0 <= i < taken.len() && (#[trigger] taken[i]).event == LoopEvent::Drawn(false)
            &&& result == Err::<(), AppError>(AppError::Io(e)) <==> exists|i: int|
                0 <= i < taken.len() && terminal_failed((#[trigger] taken[i]).event, e)
            &&& result == Err::<(), AppError>(AppError::NoOutputDevices) <==> exists|i: int|
                0 <= i < taken.len() && devices_gone(#[trigger] taken[i])
            &&& result is Err ==> result->Err_0 is DrawFrame || result->Err_0 is Io
                || result->Err_0 is NoOutputDevices
            &&& result is Ok ==> taken.last().post.should_quit
        }),
{
    let n = taken.len() - 1;
    let last = taken[n];
    assert(taken.last() == last);
    assert(RootState::stepped(last.pre, last.event, last.now, last.post, last.step));
    assert forall|i: int| 0 <= i < n implies (#[trigger] taken[i]).event != LoopEvent::Drawn(false)
        && !terminal_failed(taken[i].event, e) && !devices_gone(taken[i]) by {
        let t = taken[i];
        assert(RootState::stepped(t.pre, t.event, t.now, t.post, t.step));
        assert(!(t.step is Done));
    }
}

/// A player that should quit before the loop begins ends at once, with nothing drawn
/// and nothing read.
pub proof fn quitting_player_ends_at_once(taken: Seq<Taken>)
    requires
        is_run(taken),
        taken[0].pre.should_quit,
    ensures
        taken.len() == 1,
        taken[0].step == LoopStep::Done(Ok(())),
        taken[0].post == taken[0].pre,
{
    assert(taken[0].step is Done);
}

/// What to do next while the audio thread is to stop.
#[derive(Clone, Copy, Debug, PartialEq, Eq, Structural)]
pub enum StopStep {
    /// Do not wait any longer.
    GiveUp,
    /// The thread has finished: join it.
    Join,
    /// Wait a while, with so many attempts left.
    Wait(u8),
}

/// How often the audio thread is asked whether it has finished.
pub const STOP_ATTEMPTS: u8 = 4;

/// What to do next while the audio thread is to stop.
pub open spec fn stopping(attempts: u8, finished: bool) -> StopStep {
    if attempts == 0 {
        StopStep::GiveUp
    } else if finished {
        StopStep::Join
    } else {
        StopStep::Wait((attempts - 1) as u8)
    }
}

/// What to do next while the audio thread is to stop.
pub fn stop_step(attempts: u8, finished: bool) -> (r: StopStep)
    ensures
        r == stopping(attempts, finished),
{
    if attempts == 0 {
        StopStep::GiveUp
    } else if finished {
        StopStep::Join
    } else {
        StopStep::Wait(attempts - 1)
    }
}

/// What the player does in the end, if `finished` says of each attempt whether the
/// audio thread has finished by then.
pub open spec fn stopped(attempts: u8, finished: spec_fn(u8) -> bool) -> StopStep
    decreases attempts,
{
    match stopping(attempts, finished(attempts)) {
        StopStep::Wait(left) => if left < attempts {
            stopped(left, finished)
        } else {
            StopStep::GiveUp
        },
        step => step,
    }
}

/// The player never waits forever: in the end the audio thread is joined if it has
/// finished by one of the attempts, and given up if it has not.
pub proof fn stopping_ends(attempts: u8, finished: spec_fn(u8) -> bool)
    ensures
        stopped(attempts, finished) is Join <==> exists|a: u8|
            0 < a <= attempts && #[trigger] finished(a),
        stopped(attempts, finished) is GiveUp <==> forall|a: u8|
            0 < a <= attempts ==> !#[trigger] finished(a),
    decreases attempts,
{
    if attempts > 0 && !finished(attempts) {
        stopping_ends((attempts - 1) as u8, finished);
    }
}

} // verus!
