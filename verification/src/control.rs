//! The decision behind each endpoint of the control API: `/health`, `/join`,
//! `/play`, `/stop` and `/leave`.
//!
//! An endpoint that has work done by the voice library comes in two halves.
//! The first looks at the feeder and either refuses the request or says what
//! is to be done; the second takes the outcome and says how the feeder goes on
//! and what is answered. The caller keeps the feeder locked from the one to
//! the other, so that only one transition runs at a time. `/leave` has a step
//! between the two where a track is playing: the track is stopped first.
use vstd::prelude::*;

use crate::error::{ErrorView, FeederError, StatusCode};
use crate::state::{AppState, FeederState};

verus! {

/// The body of a `/join` request.
#[derive(Debug, Clone, Copy)]
pub struct JoinReq {
    pub guild_id: u64,
    pub channel_id: u64,
}

impl JoinReq {
    /// The numbers of a guild and of a channel are never zero.
    pub open spec fn well_formed(self) -> bool {
        self.guild_id != 0 && self.channel_id != 0
    }
}

/// The body of the answer to `/health`.
#[derive(Debug)]
pub struct HealthResp {
    pub name: String,
    pub user_id: Option<u64>,
    pub in_voice: bool,
    pub playing: bool,
}

/// What an accepted `/join` has done: connect to a voice channel.
pub struct Connect<'a, M> {
    pub manager: &'a M,
    pub guild_id: u64,
    pub channel_id: u64,
}

/// What an accepted `/play` has done: start a track on a call.
pub struct Start<C> {
    pub guild: u64,
    pub call: C,
    pub audio_file: String,
}

/// What `/stop` comes to.
pub struct Stopped<T> {
    /// The track to stop, if one was playing.
    pub track: Option<T>,
    pub status: StatusCode,
}

/// What an accepted `/leave` has done in the end: disconnect from a guild.
pub struct Disconnect<'a, M, C> {
    pub manager: &'a M,
    pub guild: u64,
    pub call: C,
}

/// A `/leave` that waits for the track to be stopped. Until then it gives out
/// nothing to disconnect with.
pub struct Departing<'a, M, C> {
    disconnect: Disconnect<'a, M, C>,
}

impl<'a, M, C> Departing<'a, M, C> {
    /// What is to be done once the track is stopped.
    pub closed spec fn next(self) -> Disconnect<'a, M, C> {
        self.disconnect
    }
}

/// What an accepted `/leave` comes to first.
pub enum Leave<'a, M, C, T> {
    /// There is nothing to leave; this is the answer.
    Nothing { status: StatusCode },
    /// Stop the track. What is left to do comes from [`track_stopped`].
    Stop { track: T, departing: Departing<'a, M, C> },
    /// Nothing is playing: disconnect.
    Disconnect { disconnect: Disconnect<'a, M, C> },
}

impl<C, T> FeederState<C, T> {
    /// Why `/join` is refused, if it is. `ready` tells whether there is a
    /// voice manager.
    pub open spec fn join_refusal(self, ready: bool) -> Option<ErrorView> {
        if !ready {
            Some(ErrorView::NotReady)
        } else if self.in_voice() {
            Some(ErrorView::AlreadyJoined)
        } else {
            None
        }
    }

    /// Why `/play` is refused, if it is. A missing file comes first, whatever
    /// the state.
    pub open spec fn play_refusal(self, audio_file: Seq<char>, file_exists: bool) -> Option<
        ErrorView,
    > {
        if !file_exists {
            Some(ErrorView::AudioFileMissing(audio_file))
        } else if self.playing() {
            Some(ErrorView::AlreadyPlaying)
        } else if !self.in_voice() {
            Some(ErrorView::NotInVoice)
        } else {
            None
        }
    }

    /// Why `/leave` is refused, if it is. The voice manager is needed only
    /// where there is something to leave.
    pub open spec fn leave_refusal(self, ready: bool) -> Option<ErrorView> {
        if self.in_voice() && !ready {
            Some(ErrorView::NotReady)
        } else {
            None
        }
    }

    /// The state after the voice library has tried to connect to `guild`.
    pub open spec fn connected(self, guild: u64, outcome: Result<C, Seq<char>>) -> FeederState<
        C,
        T,
    > {
        match outcome {
            Ok(call) => FeederState::Joined { guild, call },
            Err(_) => self,
        }
    }

    /// The guild of the call that the feeder is in.
    pub open spec fn current_guild(self) -> u64
        recommends
            self.in_voice(),
    {
        match self {
            FeederState::Playing { guild, .. } => guild,
            _ => self->Joined_guild,
        }
    }

    /// The call that the feeder is in.
    pub open spec fn current_call(self) -> C
        recommends
            self.in_voice(),
    {
        match self {
            FeederState::Playing { call, .. } => call,
            _ => self->Joined_call,
        }
    }
}

/// What is answered once the voice library has done, or refused, its part.
pub open spec fn outcome_reply<R>(outcome: Result<R, Seq<char>>) -> Result<StatusCode, ErrorView> {
    match outcome {
        Ok(_) => Ok(StatusCode::OK),
        Err(message) => Err(ErrorView::Songbird(message)),
    }
}

/// An outcome of the voice library, its message as a sequence of characters.
pub open spec fn view_outcome<R>(outcome: Result<R, String>) -> Result<R, Seq<char>> {
    match outcome {
        Ok(value) => Ok(value),
        Err(message) => Err(message@),
    }
}

/// `GET /health`: reports the feeder's status.
pub fn health<M, C, T>(app: &AppState<M, C, T>) -> (resp: HealthResp)
    ensures
        resp == (HealthResp {
            name: app.name,
            user_id: app.self_user_id,
            in_voice: app.state.in_voice(),
            playing: app.state.playing(),
        }),
{
    let snap = app.snapshot();
    HealthResp {
        name: snap.name,
        user_id: snap.user_id,
        in_voice: snap.in_voice,
        playing: snap.playing,
    }
}

/// `POST /join`, first half: refuses the request or says where to connect to.
/// The numbers matter only to a request that is accepted.
pub fn join<'a, M, C, T>(app: &'a AppState<M, C, T>, req: &JoinReq) -> (r: Result<
    Connect<'a, M>,
    FeederError,
>)
    requires
        app.state.join_refusal(app.songbird is Some) is None ==> req.well_formed(),
    ensures
        match app.state.join_refusal(app.songbird is Some) {
            Some(refusal) => r is Err && r->Err_0@ == refusal,
            None => r is Ok && r->Ok_0 == (Connect {
                manager: &app.songbird->0,
                guild_id: req.guild_id,
                channel_id: req.channel_id,
            }),
        },
{
    let Some(manager) = &app.songbird else {
        return Err(FeederError::NotReady);
    };
    match &app.state {
        FeederState::Joined { .. } | FeederState::Playing { .. } => Err(FeederError::AlreadyJoined),
        FeederState::Idle => Ok(
            Connect { manager, guild_id: req.guild_id, channel_id: req.channel_id },
        ),
    }
}

/// `POST /join`, second half: takes the call that the voice library connected
/// to `guild_id`, or its message where it could not. A failure changes
/// nothing.
pub fn join_finished<M, C, T>(
    app: &mut AppState<M, C, T>,
    guild_id: u64,
    outcome: Result<C, String>,
) -> (r: Result<StatusCode, FeederError>)
    ensures
        *final(app) == (AppState::<M, C, T> {
            state: old(app).state.connected(guild_id, view_outcome(outcome)),
            ..*old(app)
        }),
        crate::error::view_reply(r) == outcome_reply(view_outcome(outcome)),
{
    match outcome {
        Ok(call) => {
            app.state = FeederState::Joined { guild: guild_id, call };
            Ok(StatusCode::OK)
        },
        Err(message) => Err(FeederError::Songbird(message)),
    }
}

/// `POST /play`, first half: refuses the request, with the state as it was, or
/// takes the call out of the state and says what to play on it.
pub fn play<M, C, T>(app: &mut AppState<M, C, T>, file_exists: bool) -> (r: Result<
    Start<C>,
    FeederError,
>)
    ensures
        match old(app).state.play_refusal(old(app).audio_file@, file_exists) {
            Some(refusal) => *final(app) == *old(app) && r is Err && r->Err_0@ == refusal,
            None => {
                &&& *final(app) == (AppState::<M, C, T> { state: FeederState::Idle, ..*old(app) })
                &&& r is Ok
                &&& r->Ok_0 == (Start {
                    guild: old(app).state.current_guild(),
                    call: old(app).state.current_call(),
                    audio_file: old(app).audio_file,
                })
            },
        },
{
    if !file_exists {
        return Err(FeederError::AudioFileMissing(app.audio_file.clone()));
    }
    match app.state.take() {
        FeederState::Idle => Err(FeederError::NotInVoice),
        FeederState::Playing { guild, call, track } => {
            app.state = FeederState::Playing { guild, call, track };
            Err(FeederError::AlreadyPlaying)
        },
        FeederState::Joined { guild, call } => Ok(
            Start { guild, call, audio_file: app.audio_file.clone() },
        ),
    }
}

/// `POST /play`, second half: the track is playing on the call.
pub fn play_started<M, C, T>(app: &mut AppState<M, C, T>, start: Start<C>, track: T) -> (status:
    StatusCode)
    ensures
        *final(app) == (AppState::<M, C, T> {
            state: FeederState::Playing { guild: start.guild, call: start.call, track },
            ..*old(app)
        }),
        status == StatusCode::OK,
{
    app.state = FeederState::Playing { guild: start.guild, call: start.call, track };
    StatusCode::OK
}

/// `POST /stop`: hands out the track to stop and stays in the call. Without a
/// track it changes nothing. It is never refused.
pub fn stop<M, C, T>(app: &mut AppState<M, C, T>) -> (stopped: Stopped<T>)
    ensures
        *final(app) == (AppState::<M, C, T> { state: old(app).state.without_track(), ..*old(app) }),
        stopped == (Stopped { track: old(app).state.current_track(), status: StatusCode::OK }),
{
    let track = app.state.end_track();
    Stopped { track, status: StatusCode::OK }
}

/// The track ran to its end: the feeder stays in the call, silent.
pub fn track_ended<M, C, T>(app: &mut AppState<M, C, T>)
    ensures
        *final(app) == (AppState::<M, C, T> { state: old(app).state.without_track(), ..*old(app) }),
{
    app.state.end_track();
}

/// `POST /leave`, first step: refuses the request, with the state as it was,
/// or says what to do first, with the feeder idle already. Where a track is
/// playing, that is to stop it, and only [`track_stopped`] says where to
/// disconnect from.
pub fn leave<'a, M, C, T>(app: &'a mut AppState<M, C, T>) -> (r: Result<
    Leave<'a, M, C, T>,
    FeederError,
>)
    ensures
        match old(app).state.leave_refusal(old(app).songbird is Some) {
            Some(refusal) => *final(app) == *old(app) && r is Err && r->Err_0@ == refusal,
            None => {
                &&& *final(app) == (AppState::<M, C, T> { state: FeederState::Idle, ..*old(app) })
                &&& r is Ok
                &&& match old(app).state {
                    FeederState::Idle => {
                        &&& r->Ok_0 matches Leave::Nothing { status }
                        &&& status == StatusCode::OK
                    },
                    FeederState::Joined { guild, call } => {
                        &&& r->Ok_0 matches Leave::Disconnect { disconnect }
                        &&& disconnect == (Disconnect {
                            manager: &old(app).songbird->0,
                            guild,
                            call,
                        })
                    },
                    FeederState::Playing { guild, call, track: playing } => {
                        &&& r->Ok_0 matches Leave::Stop { track, departing }
                        &&& track == playing
                        &&& departing.next() == (Disconnect {
                            manager: &old(app).songbird->0,
                            guild,
                            call,
                        })
                    },
                }
            },
        },
{
    match app.state.take() {
        FeederState::Idle => Ok(Leave::Nothing { status: StatusCode::OK }),
        FeederState::Joined { guild, call } => {
            let Some(manager) = &app.songbird else {
                app.state = FeederState::Joined { guild, call };
                return Err(FeederError::NotReady);
            };
            Ok(Leave::Disconnect { disconnect: Disconnect { manager, guild, call } })
        },
        FeederState::Playing { guild, call, track } => {
            let Some(manager) = &app.songbird else {
                app.state = FeederState::Playing { guild, call, track };
                return Err(FeederError::NotReady);
            };
            let departing = Departing { disconnect: Disconnect { manager, guild, call } };
            Ok(Leave::Stop { track, departing })
        },
    }
}

/// `POST /leave`, second step, where a track was playing: the voice library
/// was told to stop it. Whether that worked makes no difference, since the
/// call is torn down anyway.
pub fn track_stopped<'a, M, C>(
    departing: Departing<'a, M, C>,
    outcome: Result<(), String>,
) -> (disconnect: Disconnect<'a, M, C>)
    ensures
        disconnect == departing.next(),
{
    departing.disconnect
}

/// `POST /leave`, last step: what is answered once the voice library has
/// left the call, or has failed to. The feeder is idle either way.
pub fn leave_finished(outcome: Result<(), String>) -> (r: Result<StatusCode, FeederError>)
    ensures
        crate::error::view_reply(r) == outcome_reply(view_outcome(outcome)),
{
    match outcome {
        Ok(()) => Ok(StatusCode::OK),
        Err(message) => Err(FeederError::Songbird(message)),
    }
}

/// Something that happens to the feeder, together with what the disk and the
/// voice library come back with.
pub enum Happening<C, T> {
    /// A `/join` request, and the call that it connects, or a message.
    Join { req: JoinReq, call: Result<C, String> },
    /// A `/play` request, and the track that it starts.
    Play { file_exists: bool, track: T },
    /// A `/stop` request.
    Stop,
    /// A `/leave` request, what stopping the track comes to, if one is
    /// playing, and what disconnecting comes to.
    Leave { stop: Result<(), String>, outcome: Result<(), String> },
    /// The track ran to its end.
    TrackEnded,
}

/// What a request is answered: a status, or an error.
pub type Reply = Result<StatusCode, ErrorView>;

impl<C, T> FeederState<C, T> {
    /// What a `/join` request is answered.
    pub open spec fn join_reply(self, ready: bool, outcome: Result<C, String>) -> Reply {
        match self.join_refusal(ready) {
            Some(refusal) => Err(refusal),
            None => outcome_reply(view_outcome(outcome)),
        }
    }

    /// What a `/play` request is answered.
    pub open spec fn play_reply(self, audio_file: Seq<char>, file_exists: bool) -> Reply {
        match self.play_refusal(audio_file, file_exists) {
            Some(refusal) => Err(refusal),
            None => Ok(StatusCode::OK),
        }
    }

    /// What a `/leave` request is answered.
    pub open spec fn leave_reply(self, ready: bool, outcome: Result<(), String>) -> Reply {
        match self.leave_refusal(ready) {
            Some(refusal) => Err(refusal),
            None => if self.in_voice() {
                outcome_reply(view_outcome(outcome))
            } else {
                Ok(StatusCode::OK)
            },
        }
    }

    /// What is answered to `happening`; nothing, if it is no request.
    pub open spec fn reply(
        self,
        ready: bool,
        audio_file: Seq<char>,
        happening: Happening<C, T>,
    ) -> Option<Reply> {
        match happening {
            Happening::Join { call, .. } => Some(self.join_reply(ready, call)),
            Happening::Play { file_exists, .. } => Some(self.play_reply(audio_file, file_exists)),
            Happening::Stop => Some(Ok(StatusCode::OK)),
            Happening::Leave { outcome, .. } => Some(self.leave_reply(ready, outcome)),
            Happening::TrackEnded => None,
        }
    }

    /// The state after `happening`. A refused request leaves it as it is. A
    /// `/leave` that the voice library fails leaves the feeder idle.
    pub open spec fn after(
        self,
        ready: bool,
        audio_file: Seq<char>,
        happening: Happening<C, T>,
    ) -> FeederState<C, T> {
        match happening {
            Happening::Join { req, call } => if self.join_refusal(ready) is Some {
                self
            } else {
                self.connected(req.guild_id, view_outcome(call))
            },
            Happening::Play { file_exists, track } => if self.play_refusal(
                audio_file,
                file_exists,
            ) is Some {
                self
            } else {
                FeederState::Playing {
                    guild: self.current_guild(),
                    call: self.current_call(),
                    track,
                }
            },
            Happening::Stop => self.without_track(),
            Happening::Leave { .. } => if self.leave_refusal(ready) is Some {
                self
            } else {
                FeederState::Idle
            },
            Happening::TrackEnded => self.without_track(),
        }
    }
}

impl<C, T> Happening<C, T> {
    /// A `/join` request names a guild and a channel.
    pub open spec fn well_formed(self) -> bool {
        self matches Happening::Join { req, .. } ==> req.well_formed()
    }
}

/// Takes the feeder through `happening` from its first half to its second,
/// with the outcomes given beforehand. The handles that it is done with are
/// dropped.
pub fn serve<M, C, T>(app: &mut AppState<M, C, T>, happening: Happening<C, T>) -> (reply: Option<
    Result<StatusCode, FeederError>,
>)
    requires
        old(app).state.join_refusal(old(app).songbird is Some) is None ==> happening.well_formed(),
    ensures
        *final(app) == (AppState::<M, C, T> {
            state: old(app).state.after(
                old(app).songbird is Some,
                old(app).audio_file@,
                happening,
            ),
            ..*old(app)
        }),
        match reply {
            Some(r) => Some(crate::error::view_reply(r)),
            None => None,
        } == old(app).state.reply(old(app).songbird is Some, old(app).audio_file@, happening),
{
    match happening {
        Happening::Join { req, call } => {
            let guild_id: u64 = match join(app, &req) {
                Ok(connect) => connect.guild_id,
                Err(error) => return Some(Err(error)),
            };
            Some(join_finished(app, guild_id, call))
        },
        Happening::Play { file_exists, track } => match play(app, file_exists) {
            Ok(start) => Some(Ok(play_started(app, start, track))),
            Err(error) => Some(Err(error)),
        },
        Happening::Stop => Some(Ok(stop(app).status)),
        Happening::Leave { stop, outcome } => match leave(app) {
            Ok(Leave::Nothing { status }) => Some(Ok(status)),
            Ok(Leave::Stop { departing, .. }) => {
                let _disconnect = track_stopped(departing, stop);
                Some(leave_finished(outcome))
            },
            Ok(Leave::Disconnect { .. }) => Some(leave_finished(outcome)),
            Err(error) => Some(Err(error)),
        },
        Happening::TrackEnded => {
            track_ended(app);
            None
        },
    }
}

} // verus!
