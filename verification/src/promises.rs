//! What each operation promises of its results, in terms of its inputs alone:
//! each law speaks of any call of the operation and of what came back.
#![allow(unused_imports)]
use vstd::prelude::*;

use crate::audio::{self, AudioFormat, Level, Report};
use crate::config::{ConfigError, EnvConfig, EnvVars, IpAddr};
use crate::control::{
    self, Connect, Departing, Disconnect, Happening, HealthResp, JoinReq, Leave, Start, Stopped,
};
use crate::error::{ErrBody, FeederError, StatusCode};
use crate::state::{AppState, Event, FeederState, HealthSnapshot, TransitionDecision};

verus! {

/// `/join` is answered 500 without a voice manager. With one, it is accepted
/// if and only if the feeder is idle: in a call, silent or playing, it is a
/// conflict. What is accepted is what was asked for, on the feeder's manager.
pub proof fn law_join<'a, M, C, T>(
    app: &'a AppState<M, C, T>,
    req: &JoinReq,
    r: Result<Connect<'a, M>, FeederError>,
)
    requires
        call_ensures(control::join::<M, C, T>, (app, req), r),
    ensures
        r is Ok <==> app.songbird is Some && app.state is Idle,
        (r matches Err(error) && error is NotReady) <==> app.songbird is None,
        (r matches Err(error) && error is AlreadyJoined) <==> app.songbird is Some && (
        app.state is Joined || app.state is Playing),
        r matches Ok(connect) ==> {
            &&& Some(*connect.manager) == app.songbird
            &&& connect.guild_id == req.guild_id
            &&& connect.channel_id == req.channel_id
        },
{
}

/// A `/join` that connects leaves the feeder silent in the call, in the guild
/// that was joined. One that fails leaves everything as it was, and passes the
/// message on.
pub proof fn law_join_finished<M, C, T>(
    app: &mut AppState<M, C, T>,
    guild_id: u64,
    outcome: Result<C, String>,
    r: Result<StatusCode, FeederError>,
)
    requires
        call_ensures(control::join_finished::<M, C, T>, (app, guild_id, outcome), r),
    ensures
        outcome matches Ok(connected) ==> {
            &&& r matches Ok(status)
            &&& status is OK
            &&& final(app).state matches FeederState::Joined { guild, call }
            &&& guild == guild_id
            &&& call == connected
        },
        outcome matches Err(message) ==> {
            &&& r matches Err(FeederError::Songbird(text))
            &&& text@ == message@
            &&& final(app).state == old(app).state
        },
        final(app).name == old(app).name,
        final(app).audio_file == old(app).audio_file,
        final(app).self_user_id == old(app).self_user_id,
        final(app).songbird == old(app).songbird,
{
}

/// `/play` is answered 404 if and only if the file is not there. With the
/// file, it is accepted if and only if the feeder is silent in a call; without
/// a call it is not in voice, and while playing it is a conflict.
pub proof fn law_play<M, C, T>(
    app: &mut AppState<M, C, T>,
    file_exists: bool,
    r: Result<Start<C>, FeederError>,
)
    requires
        call_ensures(control::play::<M, C, T>, (app, file_exists), r),
    ensures
        r is Ok <==> file_exists && old(app).state is Joined,
        (r matches Err(error) && error is NotInVoice) <==> file_exists && old(app).state is Idle,
        (r matches Err(error) && error is AlreadyPlaying) <==> file_exists
            && old(app).state is Playing,
        (r matches Err(error) && error is AudioFileMissing) <==> !file_exists,
        r matches Err(FeederError::AudioFileMissing(path)) ==> path@ == old(app).audio_file@,
        r is Err ==> final(app).state == old(app).state,
        r matches Ok(start) ==> {
            &&& old(app).state matches FeederState::Joined { guild, call }
            &&& start.guild == guild
            &&& start.call == call
            &&& start.audio_file@ == old(app).audio_file@
            &&& final(app).state is Idle
        },
        final(app).name == old(app).name,
        final(app).audio_file == old(app).audio_file,
        final(app).self_user_id == old(app).self_user_id,
        final(app).songbird == old(app).songbird,
{
}

/// A track that has started plays in the guild and on the call that it was
/// started for.
pub proof fn law_play_started<M, C, T>(
    app: &mut AppState<M, C, T>,
    start: Start<C>,
    started: T,
    r: StatusCode,
)
    requires
        call_ensures(control::play_started::<M, C, T>, (app, start, started), r),
    ensures
        r is OK,
        final(app).state matches FeederState::Playing { guild, call, track } && guild
            == start.guild && call == start.call && track == started,
        final(app).name == old(app).name,
        final(app).audio_file == old(app).audio_file,
        final(app).self_user_id == old(app).self_user_id,
        final(app).songbird == old(app).songbird,
{
}

/// The two halves of `/play` put together: from silent in a call to playing on
/// that call, in that guild.
pub proof fn law_play_keeps_the_call<M, C, T>(
    before: &mut AppState<M, C, T>,
    between: &mut AppState<M, C, T>,
    start: Start<C>,
    started: T,
    status: StatusCode,
)
    requires
        call_ensures(
            control::play::<M, C, T>,
            (before, true),
            Ok::<Start<C>, FeederError>(start),
        ),
        *between == *final(before),
        call_ensures(control::play_started::<M, C, T>, (between, start, started), status),
    ensures
        old(before).state matches FeederState::Joined { guild, call } && final(between).state matches FeederState::Playing { guild: g, call: c, track } && g == guild && c == call
            && track == started,
{
}

/// `/stop` is always answered 200. It hands out the track that is playing, and
/// stays in the call and the guild; without a track it changes nothing.
pub proof fn law_stop<M, C, T>(app: &mut AppState<M, C, T>, r: Stopped<T>)
    requires
        call_ensures(control::stop::<M, C, T>, (app,), r),
    ensures
        r.status is OK,
        r.track is Some <==> old(app).state is Playing,
        old(app).state matches FeederState::Playing { guild, call, track } ==> {
            &&& r.track == Some(track)
            &&& final(app).state matches FeederState::Joined { guild: g, call: c }
            &&& g == guild
            &&& c == call
        },
        !(old(app).state is Playing) ==> final(app).state == old(app).state,
        final(app).name == old(app).name,
        final(app).audio_file == old(app).audio_file,
        final(app).self_user_id == old(app).self_user_id,
        final(app).songbird == old(app).songbird,
{
}

/// The end of the track leaves the feeder in the same call, silent; without a
/// track it changes nothing.
pub proof fn law_track_ended<M, C, T>(app: &mut AppState<M, C, T>, r: ())
    requires
        call_ensures(control::track_ended::<M, C, T>, (app,), r),
    ensures
        old(app).state matches FeederState::Playing { guild, call, .. } ==> {
            &&& final(app).state matches FeederState::Joined { guild: g, call: c }
            &&& g == guild
            &&& c == call
        },
        !(old(app).state is Playing) ==> final(app).state == old(app).state,
        final(app).name == old(app).name,
        final(app).audio_file == old(app).audio_file,
        final(app).self_user_id == old(app).self_user_id,
        final(app).songbird == old(app).songbird,
{
}

/// `/leave` of an idle feeder is a no-op answered 200, with or without a voice
/// manager. It is refused if and only if there is a call to leave and no
/// manager to leave it with. Otherwise the feeder is idle, and what it was
/// doing says what to do first: stop the track, or disconnect.
pub proof fn law_leave<'a, M, C, T>(
    app: &'a mut AppState<M, C, T>,
    r: Result<Leave<'a, M, C, T>, FeederError>,
)
    requires
        call_ensures(control::leave::<M, C, T>, (app,), r),
    ensures
        (r matches Err(error) && error is NotReady) <==> !(old(app).state is Idle) && old(app).songbird is None,
        r is Err ==> r->Err_0 is NotReady && final(app).state == old(app).state,
        r is Ok ==> final(app).state is Idle,
        (r matches Ok(Leave::Nothing { status }) && status is OK) <==> old(app).state is Idle,
        (r matches Ok(Leave::Disconnect { .. })) <==> old(app).state is Joined && old(app).songbird is Some,
        (r matches Ok(Leave::Stop { .. })) <==> old(app).state is Playing && old(app).songbird is Some,
        r matches Ok(Leave::Disconnect { disconnect }) ==> {
            &&& old(app).state matches FeederState::Joined { guild, call }
            &&& Some(*disconnect.manager) == old(app).songbird
            &&& disconnect.guild == guild
            &&& disconnect.call == call
        },
        r matches Ok(Leave::Stop { track, .. }) ==> {
            &&& old(app).state matches FeederState::Playing { track: playing, .. }
            &&& track == playing
        },
        final(app).name == old(app).name,
        final(app).audio_file == old(app).audio_file,
        final(app).self_user_id == old(app).self_user_id,
        final(app).songbird == old(app).songbird,
{
}

/// A `/leave` that stopped the track goes on, whether or not that worked, to
/// disconnect from the guild of the call that it was playing on.
pub proof fn law_leave_after_stop<'a, M, C, T>(
    app: &'a mut AppState<M, C, T>,
    track: T,
    departing: Departing<'a, M, C>,
    outcome: Result<(), String>,
    disconnect: Disconnect<'a, M, C>,
)
    requires
        call_ensures(
            control::leave::<M, C, T>,
            (app,),
            Ok::<Leave<'a, M, C, T>, FeederError>(Leave::Stop { track, departing }),
        ),
        call_ensures(control::track_stopped::<M, C>, (departing, outcome), disconnect),
    ensures
        old(app).state matches FeederState::Playing { guild, call, .. } && disconnect.guild == guild
            && disconnect.call == call,
        Some(*disconnect.manager) == old(app).songbird,
{
}

/// A `/leave` is answered 200 if the voice library left the call, and its
/// message otherwise.
pub proof fn law_leave_finished(
    outcome: Result<(), String>,
    r: Result<StatusCode, FeederError>,
)
    requires
        call_ensures(control::leave_finished, (outcome,), r),
    ensures
        outcome is Ok ==> (r matches Ok(status) && status is OK),
        outcome matches Err(message) ==> (r matches Err(FeederError::Songbird(text)) && text@
            == message@),
{
}

/// `/health` tells the feeder's name and user id, and whether it is in a call
/// and plays.
pub proof fn law_health<M, C, T>(app: &AppState<M, C, T>, r: HealthResp)
    requires
        call_ensures(control::health::<M, C, T>, (app,), r),
    ensures
        r.name@ == app.name@,
        r.user_id == app.self_user_id,
        r.in_voice <==> app.state is Joined || app.state is Playing,
        r.playing <==> app.state is Playing,
{
}

/// The same of the snapshot that `/health` is made of.
pub proof fn law_snapshot<M, C, T>(app: &AppState<M, C, T>, r: HealthSnapshot)
    requires
        call_ensures(AppState::<M, C, T>::snapshot, (app,), r),
    ensures
        r.name@ == app.name@,
        r.user_id == app.self_user_id,
        r.in_voice <==> app.state is Joined || app.state is Playing,
        r.playing <==> app.state is Playing,
{
}

/// A feeder starts idle, knowing its name and its audio file and nothing else.
pub proof fn law_new<M, C, T>(name: String, audio_file: String, r: AppState<M, C, T>)
    requires
        call_ensures(AppState::<M, C, T>::new, (name, audio_file), r),
    ensures
        r.name@ == name@,
        r.audio_file@ == audio_file@,
        r.self_user_id is None,
        r.songbird is None,
        r.state is Idle,
{
}

/// At ready time the feeder learns its user id, and the manager if there is
/// one; one that it has already is not lost. Nothing else changes.
pub proof fn law_ready<M, C, T>(
    app: &mut AppState<M, C, T>,
    user_id: u64,
    manager: Option<M>,
    r: bool,
)
    requires
        call_ensures(AppState::<M, C, T>::ready, (app, user_id, manager), r),
    ensures
        r <==> manager is Some,
        final(app).self_user_id == Some(user_id),
        manager is Some ==> final(app).songbird == manager,
        manager is None ==> final(app).songbird == old(app).songbird,
        final(app).name == old(app).name,
        final(app).audio_file == old(app).audio_file,
        final(app).state == old(app).state,
{
}

/// What the predicates on a state say, and its label.
pub proof fn law_state_queries<C, T>(
    state: &FeederState<C, T>,
    in_voice: bool,
    playing: bool,
    label: &'static str,
)
    requires
        call_ensures(FeederState::<C, T>::is_in_voice, (state,), in_voice),
        call_ensures(FeederState::<C, T>::is_playing, (state,), playing),
        call_ensures(FeederState::<C, T>::name, (state,), label),
    ensures
        in_voice <==> state is Joined || state is Playing,
        playing <==> state is Playing,
        state is Idle <==> label@ == "idle"@,
        state is Joined <==> label@ == "joined"@,
        state is Playing <==> label@ == "playing"@,
{
    reveal_strlit("idle");
    reveal_strlit("joined");
    reveal_strlit("playing");
    assert("idle"@.len() == 4 && "joined"@.len() == 6 && "playing"@.len() == 7);
}

/// The transition policy, event by event.
pub proof fn law_decide<C, T>(state: &FeederState<C, T>, event: Event, r: TransitionDecision)
    requires
        call_ensures(FeederState::<C, T>::decide, (state, event), r),
    ensures
        r is Proceed <==> {
            ||| event is Join && state is Idle
            ||| event is Play && state is Joined
            ||| event is Stop && state is Playing
            ||| event is Leave && !(state is Idle)
        },
        r is Noop <==> {
            ||| event is Stop && !(state is Playing)
            ||| event is Leave && state is Idle
        },
        (r matches TransitionDecision::Reject(error) && error is AlreadyJoined) <==> event is Join
            && !(state is Idle),
        (r matches TransitionDecision::Reject(error) && error is NotInVoice) <==> event is Play
            && state is Idle,
        (r matches TransitionDecision::Reject(error) && error is AlreadyPlaying) <==> event is Play
            && state is Playing,
{
}

/// The policy and the endpoint agree on `/join` and on `/play`: with a voice
/// manager and an audio file, the one proceeds if and only if the other
/// accepts, and both reject with the same error.
pub proof fn law_endpoints_agree_with_decide<'a, M, C, T>(
    app: &'a mut AppState<M, C, T>,
    req: &JoinReq,
    on_join: TransitionDecision,
    on_play: TransitionDecision,
    join: Result<Connect<'a, M>, FeederError>,
    play: Result<Start<C>, FeederError>,
)
    requires
        app.songbird is Some,
        call_ensures(FeederState::<C, T>::decide, (&app.state, Event::Join), on_join),
        call_ensures(FeederState::<C, T>::decide, (&app.state, Event::Play), on_play),
        call_ensures(control::join::<M, C, T>, (&*app, req), join),
        call_ensures(control::play::<M, C, T>, (app, true), play),
    ensures
        on_join is Proceed <==> join is Ok,
        on_join matches TransitionDecision::Reject(error) ==> join == Err::<
            Connect<'a, M>,
            FeederError,
        >(error),
        on_play is Proceed <==> play is Ok,
        on_play matches TransitionDecision::Reject(error) ==> play == Err::<
            Start<C>,
            FeederError,
        >(error),
{
}

/// Taking the state out gives it back whole, and leaves the feeder idle.
pub proof fn law_take<C, T>(state: &mut FeederState<C, T>, r: FeederState<C, T>)
    requires
        call_ensures(FeederState::<C, T>::take, (state,), r),
    ensures
        r == *old(state),
        *final(state) is Idle,
{
}

/// Ending the track hands it out and keeps the call and the guild.
pub proof fn law_end_track<C, T>(state: &mut FeederState<C, T>, r: Option<T>)
    requires
        call_ensures(FeederState::<C, T>::end_track, (state,), r),
    ensures
        *old(state) matches FeederState::Playing { guild, call, track } ==> {
            &&& r == Some(track)
            &&& *final(state) matches FeederState::Joined { guild: g, call: c }
            &&& g == guild
            &&& c == call
        },
        !(*old(state) is Playing) ==> r is None && *final(state) == *old(state),
{
}

/// The default state is `Idle`.
pub proof fn law_default<C, T>(r: FeederState<C, T>)
    requires
        call_ensures(FeederState::<C, T>::default, (), r),
    ensures
        r is Idle,
{
}

/// A `/join` request from its first half to its second.
pub proof fn law_serve_join<M, C, T>(
    app: &mut AppState<M, C, T>,
    req: JoinReq,
    call: Result<C, String>,
    r: Option<Result<StatusCode, FeederError>>,
)
    requires
        call_ensures(control::serve::<M, C, T>, (app, Happening::Join { req, call }), r),
    ensures
        old(app).songbird is None ==> {
            &&& r matches Some(Err(error))
            &&& error is NotReady
            &&& *final(app) == *old(app)
        },
        old(app).songbird is Some && !(old(app).state is Idle) ==> {
            &&& r matches Some(Err(error))
            &&& error is AlreadyJoined
            &&& *final(app) == *old(app)
        },
        old(app).songbird is Some && old(app).state is Idle ==> match call {
            Ok(connected) => {
                &&& r matches Some(Ok(status))
                &&& status is OK
                &&& final(app).state matches FeederState::Joined { guild, call: c }
                &&& guild == req.guild_id
                &&& c == connected
            },
            Err(message) => {
                &&& r matches Some(Err(FeederError::Songbird(text)))
                &&& text@ == message@
                &&& *final(app) == *old(app)
            },
        },
{
}

/// A `/play` request from its first half to its second.
pub proof fn law_serve_play<M, C, T>(
    app: &mut AppState<M, C, T>,
    file_exists: bool,
    started: T,
    r: Option<Result<StatusCode, FeederError>>,
)
    requires
        call_ensures(
            control::serve::<M, C, T>,
            (app, Happening::Play { file_exists, track: started }),
            r,
        ),
    ensures
        !file_exists ==> {
            &&& r matches Some(Err(FeederError::AudioFileMissing(path)))
            &&& path@ == old(app).audio_file@
            &&& *final(app) == *old(app)
        },
        file_exists && old(app).state is Idle ==> {
            &&& r matches Some(Err(error))
            &&& error is NotInVoice
            &&& *final(app) == *old(app)
        },
        file_exists && old(app).state is Playing ==> {
            &&& r matches Some(Err(error))
            &&& error is AlreadyPlaying
            &&& *final(app) == *old(app)
        },
        file_exists && old(app).state is Joined ==> {
            &&& r matches Some(Ok(status))
            &&& status is OK
            &&& old(app).state matches FeederState::Joined { guild, call }
            &&& final(app).state matches FeederState::Playing { guild: g, call: c, track }
            &&& g == guild
            &&& c == call
            &&& track == started
        },
{
}

/// A `/leave` request through all its steps.
pub proof fn law_serve_leave<M, C, T>(
    app: &mut AppState<M, C, T>,
    stop: Result<(), String>,
    outcome: Result<(), String>,
    r: Option<Result<StatusCode, FeederError>>,
)
    requires
        call_ensures(control::serve::<M, C, T>, (app, Happening::Leave { stop, outcome }), r),
    ensures
        old(app).state is Idle ==> {
            &&& r matches Some(Ok(status))
            &&& status is OK
            &&& *final(app) == *old(app)
        },
        !(old(app).state is Idle) && old(app).songbird is None ==> {
            &&& r matches Some(Err(error))
            &&& error is NotReady
            &&& *final(app) == *old(app)
        },
        !(old(app).state is Idle) && old(app).songbird is Some ==> final(app).state is Idle
            && match outcome {
            Ok(_) => r matches Some(Ok(status)) && status is OK,
            Err(message) => r matches Some(Err(FeederError::Songbird(text))) && text@ == message@,
        },
{
}

/// A `/stop` request and the end of the track, which is answered nothing.
pub proof fn law_serve_stop<M, C, T>(
    app: &mut AppState<M, C, T>,
    happening: Happening<C, T>,
    r: Option<Result<StatusCode, FeederError>>,
)
    requires
        happening is Stop || happening is TrackEnded,
        call_ensures(control::serve::<M, C, T>, (app, happening), r),
    ensures
        happening is Stop ==> (r matches Some(Ok(status)) && status is OK),
        happening is TrackEnded ==> r is None,
        old(app).state matches FeederState::Playing { guild, call, .. } ==> {
            &&& final(app).state matches FeederState::Joined { guild: g, call: c }
            &&& g == guild
            &&& c == call
        },
        !(old(app).state is Playing) ==> *final(app) == *old(app),
{
}

/// Nothing that happens changes what the feeder is, other than its state.
pub proof fn law_serve_changes_the_state_only<M, C, T>(
    app: &mut AppState<M, C, T>,
    happening: Happening<C, T>,
    r: Option<Result<StatusCode, FeederError>>,
)
    requires
        call_ensures(control::serve::<M, C, T>, (app, happening), r),
    ensures
        final(app).name == old(app).name,
        final(app).audio_file == old(app).audio_file,
        final(app).self_user_id == old(app).self_user_id,
        final(app).songbird == old(app).songbird,
{
}

/// The numbers of the statuses.
pub proof fn law_status_numbers(status: &StatusCode, code: u16)
    requires
        call_ensures(StatusCode::as_u16, (status,), code),
    ensures
        code == 200 <==> status is OK,
        code == 400 <==> status is BAD_REQUEST,
        code == 404 <==> status is NOT_FOUND,
        code == 409 <==> status is CONFLICT,
        code == 500 <==> status is INTERNAL_SERVER_ERROR,
        code == 200 || code == 400 || code == 404 || code == 409 || code == 500,
{
}

/// The number that each error is answered with.
pub proof fn law_error_numbers(error: &FeederError, status: StatusCode, code: u16)
    requires
        call_ensures(FeederError::status, (error,), status),
        call_ensures(StatusCode::as_u16, (&status,), code),
    ensures
        code == 400 <==> error is NotInVoice,
        code == 404 <==> error is AudioFileMissing,
        code == 409 <==> error is AlreadyPlaying || error is AlreadyJoined,
        code == 500 <==> error is Songbird || error is NotReady,
{
}

/// The text of each error.
pub proof fn law_error_texts(error: &FeederError, text: String)
    requires
        call_ensures(FeederError::to_string, (error,), text),
    ensures
        error is NotInVoice ==> text@ == "not in voice channel"@,
        error is AlreadyPlaying ==> text@ == "already playing"@,
        error is AlreadyJoined ==> text@ == "already joined; leave first"@,
        error matches FeederError::AudioFileMissing(path) ==> text@ == "audio file missing: "@
            + path@,
        error matches FeederError::Songbird(message) ==> text@ == "songbird error: "@ + message@,
        error is NotReady ==> text@ == "songbird not ready"@,
{
}

/// The response to an error holds its status and its text.
pub proof fn law_error_response(
    error: FeederError,
    status: StatusCode,
    text: String,
    response: (StatusCode, ErrBody),
)
    requires
        call_ensures(FeederError::status, (&error,), status),
        call_ensures(FeederError::to_string, (&error,), text),
        call_ensures(FeederError::into_response, (error,), response),
    ensures
        response.0 == status,
        response.1.error@ == text@,
{
}

/// Whether the eight bytes at `at` read `OpusHead`.
pub open spec fn reads_opus_head(bytes: Seq<u8>, at: int) -> bool {
    &&& bytes[at] == 0x4f
    &&& bytes[at + 1] == 0x70
    &&& bytes[at + 2] == 0x75
    &&& bytes[at + 3] == 0x73
    &&& bytes[at + 4] == 0x48
    &&& bytes[at + 5] == 0x65
    &&& bytes[at + 6] == 0x61
    &&& bytes[at + 7] == 0x64
}

/// Whether the first four bytes read `OggS`.
pub open spec fn reads_ogg(bytes: Seq<u8>) -> bool {
    bytes[0] == 0x4f && bytes[1] == 0x67 && bytes[2] == 0x67 && bytes[3] == 0x53
}

proof fn lemma_reads_ogg(bytes: Seq<u8>)
    requires
        bytes.len() >= 64,
    ensures
        audio::occurs_at(bytes.take(64), audio::ogg_magic(), 0) == reads_ogg(bytes),
{
    let part = bytes.take(64).subrange(0, 4);
    if reads_ogg(bytes) {
        assert(part =~= audio::ogg_magic());
    }
    if part == audio::ogg_magic() {
        assert(part[0] == 0x4f && part[1] == 0x67 && part[2] == 0x67 && part[3] == 0x53);
    }
}

proof fn lemma_reads_opus_head(bytes: Seq<u8>, at: int)
    requires
        bytes.len() >= 64,
        0 <= at <= 56,
    ensures
        audio::occurs_at(bytes.take(64), audio::opus_magic(), at) == reads_opus_head(bytes, at),
{
    let part = bytes.take(64).subrange(at, at + 8);
    if reads_opus_head(bytes, at) {
        assert(part =~= audio::opus_magic());
    }
    if part == audio::opus_magic() {
        assert(part[0] == 0x4f && part[1] == 0x70 && part[2] == 0x75 && part[3] == 0x73);
        assert(part[4] == 0x48 && part[5] == 0x65 && part[6] == 0x61 && part[7] == 0x64);
    }
}

/// A file is `Unknown` if and only if it could not be read, has fewer than 64
/// bytes, or does not start with `OggS`.
pub proof fn law_detect_unknown(contents: Option<&[u8]>, r: AudioFormat)
    requires
        call_ensures(audio::detect_format, (contents,), r),
    ensures
        r is Unknown <==> match contents {
            Some(bytes) => bytes@.len() < 64 || !reads_ogg(bytes@),
            None => true,
        },
{
    if let Some(bytes) = contents {
        if bytes@.len() >= 64 {
            lemma_reads_ogg(bytes@);
        }
    }
}

/// A file that starts with `OggS`, and reads `OpusHead` first at `head`, is
/// OGG Opus at the rate that the four bytes twelve further on give, least
/// significant first, as long as they lie in the first 64 bytes.
pub proof fn law_detect_opus(bytes: &[u8], head: int, r: AudioFormat)
    requires
        call_ensures(audio::detect_format, (Some(bytes),), r),
        bytes@.len() >= 64,
        reads_ogg(bytes@),
        0 <= head <= 48,
        reads_opus_head(bytes@, head),
        forall|at: int| 0 <= at < head ==> !reads_opus_head(bytes@, at),
    ensures
        r matches AudioFormat::OggOpus { sample_rate } && sample_rate == bytes@[head + 12] + 256
            * bytes@[head + 13] + 65536 * bytes@[head + 14] + 16777216 * bytes@[head + 15],
{
    let window = bytes@.take(64);
    lemma_reads_ogg(bytes@);
    lemma_reads_opus_head(bytes@, head);
    assert forall|at: int| at < head implies !#[trigger] audio::occurs_at(
        window,
        audio::opus_magic(),
        at,
    ) by {
        if 0 <= at {
            lemma_reads_opus_head(bytes@, at);
        }
    }
    audio::lemma_first_is_position(window, audio::opus_magic(), head);
}

/// A file that starts with `OggS`, and reads `OpusHead` nowhere early enough
/// for the rate to lie in the first 64 bytes, is OGG of another kind.
pub proof fn law_detect_other(bytes: &[u8], r: AudioFormat)
    requires
        call_ensures(audio::detect_format, (Some(bytes),), r),
        bytes@.len() >= 64,
        reads_ogg(bytes@),
        forall|at: int| 0 <= at <= 48 ==> !reads_opus_head(bytes@, at),
    ensures
        r is OggOther,
{
    let window = bytes@.take(64);
    lemma_reads_ogg(bytes@);
    if let Some(head) = audio::position(window, audio::opus_magic()) {
        assert(audio::first_at(window, audio::opus_magic(), head));
        lemma_reads_opus_head(bytes@, head);
    }
}

/// Two files that agree on their first 64 bytes have the same format.
pub proof fn law_detect_looks_at_first_bytes(a: &[u8], b: &[u8], ra: AudioFormat, rb: AudioFormat)
    requires
        call_ensures(audio::detect_format, (Some(a),), ra),
        call_ensures(audio::detect_format, (Some(b),), rb),
        a@.len() >= 64,
        b@.len() >= 64,
        forall|i: int| 0 <= i < 64 ==> a@[i] == b@[i],
    ensures
        ra == rb,
{
    assert(a@.take(64) =~= b@.take(64));
}

/// What is found is the first place where every byte of the needle stands;
/// where nothing is found, there is no such place.
pub proof fn law_find_subslice(haystack: &[u8], needle: &[u8], r: Option<usize>)
    requires
        needle@.len() > 0,
        call_ensures(audio::find_subslice, (haystack, needle), r),
    ensures
        ({
            let (h, n) = (haystack@, needle@);
            let differs = |at: int| exists|k: int| 0 <= k < n.len() && h[at + k] != n[k];
            match r {
                Some(found) => {
                    &&& found + n.len() <= h.len()
                    &&& forall|k: int| 0 <= k < n.len() ==> h[found + k] == #[trigger] n[k]
                    &&& forall|at: int| 0 <= at < found ==> #[trigger] differs(at)
                },
                None => forall|at: int| 0 <= at <= h.len() - n.len() ==> #[trigger] differs(at),
            }
        }),
{
    let (h, n) = (haystack@, needle@);
    let differs = |at: int| exists|k: int| 0 <= k < n.len() && h[at + k] != n[k];
    assert forall|at: int|
        0 <= at <= h.len() - n.len() && !audio::occurs_at(h, n, at) implies #[trigger] differs(
        at,
    ) by {
        if forall|k: int| 0 <= k < n.len() ==> h[at + k] == n[k] {
            assert(h.subrange(at, at + n.len()) =~= n);
        }
    }
    match r {
        Some(found) => {
            assert(audio::first_at(h, n, found as int));
            assert forall|k: int| 0 <= k < n.len() implies h[found + k] == #[trigger] n[k] by {
                assert(h.subrange(found as int, found + n.len())[k] == h[found + k]);
            }
        },
        None => {
            assert forall|at: int| 0 <= at <= h.len() - n.len() implies #[trigger] differs(at) by {
                if audio::occurs_at(h, n, at) {
                    lemma_some_first(h, n, at);
                }
            }
        },
    }
}

/// What stands somewhere stands somewhere first.
proof fn lemma_some_first(haystack: Seq<u8>, needle: Seq<u8>, at: int)
    requires
        audio::occurs_at(haystack, needle, at),
    ensures
        audio::position(haystack, needle) is Some,
    decreases at,
{
    if exists|earlier: int| earlier < at && #[trigger] audio::occurs_at(haystack, needle, earlier) {
        let earlier = choose|earlier: int|
            earlier < at && #[trigger] audio::occurs_at(haystack, needle, earlier);
        lemma_some_first(haystack, needle, earlier);
    } else {
        assert(audio::first_at(haystack, needle, at));
    }
}

/// Passthrough is ideal of OGG Opus at exactly 48000 Hz, and of nothing else.
pub proof fn law_passthrough(format: &AudioFormat, r: bool)
    requires
        call_ensures(AudioFormat::is_passthrough_ideal, (format,), r),
    ensures
        r <==> (format matches AudioFormat::OggOpus { sample_rate } && sample_rate == 48000),
{
}

/// The check reports at level Info if and only if the file is OGG Opus at
/// exactly 48000 Hz, and warns of every other. The rate is given where it is
/// the trouble, and only there, and each kind of file has its own message.
pub proof fn law_check_audio_file(contents: Option<&[u8]>, format: AudioFormat, r: Report)
    requires
        call_ensures(audio::detect_format, (contents,), format),
        call_ensures(audio::check_audio_file, (contents,), r),
    ensures
        r.level is Info <==> (format matches AudioFormat::OggOpus { sample_rate } && sample_rate
            == 48000),
        r.level is Info || r.level is Warn,
        format matches AudioFormat::OggOpus { sample_rate } ==> {
            &&& sample_rate == 48000 ==> r.sample_rate is None && r.message@
                == "audio_file_ok: OGG Opus @ 48kHz — passthrough eligible"@
            &&& sample_rate != 48000 ==> r.level is Warn && r.sample_rate == Some(sample_rate)
                && r.message@
                == "audio_file_non_ideal: OGG Opus but not 48kHz; songbird will resample"@
        },
        format is OggOther ==> r.sample_rate is None && r.message@
            == "audio_file_non_ideal: OGG container but not Opus; passthrough disabled"@,
        format is Unknown ==> r.sample_rate is None && r.message@
            == "audio_file_non_ideal: not OGG Opus; songbird will decode+reencode"@,
{
}

/// The audio file is demanded: a missing one is named.
pub proof fn law_require_audio_file_exists(path: &str, exists: bool, r: Result<(), String>)
    requires
        call_ensures(audio::require_audio_file_exists, (path, exists), r),
    ensures
        r is Ok <==> exists,
        r matches Err(message) ==> message@ == "AUDIO_FILE does not exist: "@ + path@,
{
}

/// Whether each character is an ASCII digit.
pub open spec fn all_digits(text: Seq<char>) -> bool {
    forall|i: int| 0 <= i < text.len() ==> 48 <= #[trigger] text[i] as int <= 57
}

/// The number that digits stand for: the first one counts by the power of ten
/// that the number of the others gives.
pub open spec fn numeral(digits: Seq<char>) -> int
    decreases digits.len(),
{
    if digits.len() == 0 {
        0
    } else {
        (digits[0] as int - 48) * vstd::arithmetic::power::pow(10, (digits.len() - 1) as nat)
            + numeral(digits.drop_first())
    }
}

proof fn lemma_decimal_is_numeral(digits: Seq<char>)
    requires
        all_digits(digits),
    ensures
        crate::config::decimal(digits) == numeral(digits),
    decreases digits.len(),
{
    reveal(vstd::arithmetic::power::pow);
    if digits.len() == 1 {
        assert(digits.drop_last() =~= Seq::<char>::empty());
        assert(digits.drop_first() =~= Seq::<char>::empty());
        assert(crate::config::decimal(Seq::<char>::empty()) == 0);
        assert(numeral(Seq::<char>::empty()) == 0);
        assert(vstd::arithmetic::power::pow(10, 0) == 1);
    } else if digits.len() > 1 {
        let front = digits.drop_last();
        let back = digits.drop_first();
        let middle = back.drop_last();
        assert(front.drop_first() =~= middle);
        lemma_decimal_is_numeral(front);
        lemma_decimal_is_numeral(back);
        lemma_decimal_is_numeral(middle);
        let first = digits[0] as int - 48;
        let power = vstd::arithmetic::power::pow(10, (digits.len() - 2) as nat);
        assert(vstd::arithmetic::power::pow(10, (digits.len() - 1) as nat) == 10 * power);
        assert(10 * (first * power) == first * (10 * power)) by (nonlinear_arith);
        assert(back.last() == digits.last());
    }
}

/// Loading succeeds if and only if a token and an audio file are given and the
/// file exists; the first thing that is missing is the error. The settings
/// hold what the variables of the same purpose say, whatever the others hold.
pub proof fn law_from_env(
    vars: EnvVars,
    audio_file_exists: bool,
    r: Result<EnvConfig, ConfigError>,
)
    requires
        call_ensures(EnvConfig::from_env, (vars, audio_file_exists), r),
    ensures
        r is Ok <==> vars.discord_token is Some && vars.audio_file is Some && audio_file_exists,
        (r matches Err(error) && error is TokenNotSet) <==> vars.discord_token is None,
        (r matches Err(error) && error is AudioFileNotSet) <==> vars.discord_token is Some
            && vars.audio_file is None,
        (r matches Err(error) && error is AudioFileAbsent) <==> vars.discord_token is Some
            && vars.audio_file is Some && !audio_file_exists,
        r matches Err(ConfigError::AudioFileAbsent(text)) ==> text@ == "AUDIO_FILE does not exist: "@
            + vars.audio_file->0@,
        r matches Ok(cfg) ==> {
            &&& cfg.token@ == vars.discord_token->0@
            &&& cfg.audio_file@ == vars.audio_file->0@
            &&& vars.feeder_name matches Some(name) ==> cfg.name@ == name@
            &&& vars.feeder_name is None ==> cfg.name@ == "feeder"@
        },
{
}

/// The same of loading with the address given.
pub proof fn law_with_bind(
    vars: EnvVars,
    audio_file_exists: bool,
    bind: Option<IpAddr>,
    r: Result<EnvConfig, ConfigError>,
)
    requires
        call_ensures(EnvConfig::with_bind, (vars, audio_file_exists, bind), r),
    ensures
        r is Ok <==> vars.discord_token is Some && vars.audio_file is Some && audio_file_exists,
        (r matches Err(error) && error is TokenNotSet) <==> vars.discord_token is None,
        (r matches Err(error) && error is AudioFileNotSet) <==> vars.discord_token is Some
            && vars.audio_file is None,
        (r matches Err(error) && error is AudioFileAbsent) <==> vars.discord_token is Some
            && vars.audio_file is Some && !audio_file_exists,
        r matches Err(ConfigError::AudioFileAbsent(text)) ==> text@ == "AUDIO_FILE does not exist: "@
            + vars.audio_file->0@,
        r matches Ok(cfg) ==> {
            &&& cfg.token@ == vars.discord_token->0@
            &&& cfg.audio_file@ == vars.audio_file->0@
            &&& vars.feeder_name matches Some(name) ==> cfg.name@ == name@
            &&& vars.feeder_name is None ==> cfg.name@ == "feeder"@
        },
{
}

/// The port is the number that CONTROL_PORT holds, in decimal digits after an
/// optional plus sign, where it holds one of 16 bits and nothing else; in any
/// other case it is 8003.
pub proof fn law_from_env_port(
    vars: EnvVars,
    audio_file_exists: bool,
    r: Result<EnvConfig, ConfigError>,
)
    requires
        r is Ok,
        call_ensures(EnvConfig::from_env, (vars, audio_file_exists), r),
    ensures
        vars.control_port is None ==> r->Ok_0.control_port == 8003,
        vars.control_port matches Some(text) ==> {
            let digits = if text@.len() > 0 && text@[0] == '+' {
                text@.drop_first()
            } else {
                text@
            };
            if digits.len() > 0 && all_digits(digits) && numeral(digits) <= 65535 {
                r->Ok_0.control_port == numeral(digits)
            } else {
                r->Ok_0.control_port == 8003
            }
        },
{
    if let Some(text) = vars.control_port {
        let digits = crate::config::digits_of(text@);
        if all_digits(digits) {
            lemma_decimal_is_numeral(digits);
        }
    }
}

/// The same of loading with the address given.
pub proof fn law_with_bind_port(
    vars: EnvVars,
    audio_file_exists: bool,
    bind: Option<IpAddr>,
    r: Result<EnvConfig, ConfigError>,
)
    requires
        r is Ok,
        call_ensures(EnvConfig::with_bind, (vars, audio_file_exists, bind), r),
    ensures
        vars.control_port is None ==> r->Ok_0.control_port == 8003,
        vars.control_port matches Some(text) ==> {
            let digits = if text@.len() > 0 && text@[0] == '+' {
                text@.drop_first()
            } else {
                text@
            };
            if digits.len() > 0 && all_digits(digits) && numeral(digits) <= 65535 {
                r->Ok_0.control_port == numeral(digits)
            } else {
                r->Ok_0.control_port == 8003
            }
        },
{
    if let Some(text) = vars.control_port {
        let digits = crate::config::digits_of(text@);
        if all_digits(digits) {
            lemma_decimal_is_numeral(digits);
        }
    }
}

/// An address that is given is bound to as it is. Where none is given it is
/// `127.0.0.1`.
pub proof fn law_with_bind_address(
    vars: EnvVars,
    audio_file_exists: bool,
    bind: Option<IpAddr>,
    r: Result<EnvConfig, ConfigError>,
)
    requires
        r is Ok,
        call_ensures(EnvConfig::with_bind, (vars, audio_file_exists, bind), r),
    ensures
        match bind {
            Some(IpAddr::V4 { octets: given }) => r->Ok_0.control_bind matches IpAddr::V4 { octets }
                && octets@ == given@,
            Some(IpAddr::V6 { octets: given }) => r->Ok_0.control_bind matches IpAddr::V6 { octets }
                && octets@ == given@,
            None => r->Ok_0.control_bind matches IpAddr::V4 { octets } && octets@[0] == 127
                && octets@[1] == 0 && octets@[2] == 0 && octets@[3] == 1,
        },
{
}

/// The address is the one that the text of CONTROL_BIND names. Where it is
/// unset, or names none, it is `127.0.0.1`.
pub proof fn law_from_env_address(
    vars: EnvVars,
    audio_file_exists: bool,
    r: Result<EnvConfig, ConfigError>,
)
    requires
        r is Ok,
        call_ensures(EnvConfig::from_env, (vars, audio_file_exists), r),
    ensures
        ({
            let bytes = match r->Ok_0.control_bind {
                IpAddr::V4 { octets } => octets@,
                IpAddr::V6 { octets } => octets@,
            };
            match vars.control_bind {
                Some(text) if crate::config::ip_addr_of(text@) is Some => Some(bytes)
                    == crate::config::ip_addr_of(text@),
                _ => bytes.len() == 4 && bytes[0] == 127 && bytes[1] == 0 && bytes[2] == 0
                    && bytes[3] == 1,
            }
        }),
{
}

/// The message that each error gives up with.
pub proof fn law_config_messages(error: &ConfigError, r: String)
    requires
        call_ensures(ConfigError::message, (error,), r),
    ensures
        error is TokenNotSet ==> r@ == "DISCORD_TOKEN not set"@,
        error is AudioFileNotSet ==> r@ == "AUDIO_FILE not set — path to OGG Opus file to play"@,
        error matches ConfigError::AudioFileAbsent(text) ==> r@ == text@,
{
}

/// Every request can be put to the feeder in every state. Only a `/join` that
/// is going to be accepted must name a guild and a channel.
pub proof fn law_any_request_any_state<M, C, T>(
    app: &mut AppState<M, C, T>,
    req: JoinReq,
    guild_id: u64,
    call: Result<C, String>,
    file_exists: bool,
    start: Start<C>,
    track: T,
    outcome: Result<(), String>,
    stop: Result<(), String>,
)
    ensures
        call_requires(control::health::<M, C, T>, (&*old(app),)),
        !(old(app).songbird is Some && old(app).state is Idle) || (req.guild_id != 0
            && req.channel_id != 0) ==> {
            &&& call_requires(control::join::<M, C, T>, (&*old(app), &req))
            &&& call_requires(control::serve::<M, C, T>, (old(app), Happening::Join { req, call }))
        },
        call_requires(control::join_finished::<M, C, T>, (old(app), guild_id, call)),
        call_requires(control::play::<M, C, T>, (old(app), file_exists)),
        call_requires(control::play_started::<M, C, T>, (old(app), start, track)),
        call_requires(control::stop::<M, C, T>, (old(app),)),
        call_requires(control::track_ended::<M, C, T>, (old(app),)),
        call_requires(control::leave::<M, C, T>, (old(app),)),
        call_requires(control::leave_finished, (outcome,)),
        call_requires(
            control::serve::<M, C, T>,
            (old(app), Happening::Play { file_exists, track }),
        ),
        call_requires(control::serve::<M, C, T>, (old(app), Happening::Leave { stop, outcome })),
        call_requires(control::serve::<M, C, T>, (old(app), Happening::Stop)),
        call_requires(control::serve::<M, C, T>, (old(app), Happening::TrackEnded)),
{
}

/// Every event can be decided on in every state, every file can be checked,
/// and every environment can be loaded.
pub proof fn law_any_file_any_environment<C, T>(
    state: &FeederState<C, T>,
    event: Event,
    contents: Option<&[u8]>,
    path: &str,
    exists: bool,
    vars: EnvVars,
    bind: Option<IpAddr>,
)
    ensures
        call_requires(FeederState::<C, T>::decide, (state, event)),
        call_requires(audio::detect_format, (contents,)),
        call_requires(audio::check_audio_file, (contents,)),
        call_requires(audio::require_audio_file_exists, (path, exists)),
        call_requires(EnvConfig::from_env, (vars, exists)),
        call_requires(EnvConfig::with_bind, (vars, exists, bind)),
{
}

} // verus!
