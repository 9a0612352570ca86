//! The endpoints, half by half and as a whole.
use chronicle_feeder::control::{
    health, join, join_finished, leave, leave_finished, play, play_started, serve, stop,
    track_ended, track_stopped, Happening, JoinReq, Leave,
};
use chronicle_feeder::error::{FeederError, StatusCode};
use chronicle_feeder::state::{AppState, FeederState};

/// A feeder whose manager, call and track are plain texts.
type App = AppState<&'static str, &'static str, &'static str>;

const REQ: JoinReq = JoinReq { guild_id: 1, channel_id: 2 };

fn dummy_state() -> App {
    AppState::new("test".into(), "/nonexistent.ogg".into())
}

fn ready_state() -> App {
    let mut app = dummy_state();
    app.ready(99, Some("manager"));
    app
}

fn joined_state() -> App {
    let mut app = ready_state();
    app.state = FeederState::Joined { guild: 1, call: "call" };
    app
}

fn playing_state() -> App {
    let mut app = ready_state();
    app.state = FeederState::Playing { guild: 1, call: "call", track: "track" };
    app
}

fn is_joined(app: &App) -> bool {
    matches!(app.state, FeederState::Joined { guild: 1, call: "call" })
}

fn is_playing(app: &App) -> bool {
    matches!(app.state, FeederState::Playing { guild: 1, call: "call", track: "track" })
}

#[test]
fn health_snapshot_reflects_idle() {
    let state = dummy_state();
    let snap = state.snapshot();
    assert_eq!(snap.name, "test");
    assert!(!snap.in_voice);
    assert!(!snap.playing);
    assert!(snap.user_id.is_none());
}

#[test]
fn control_play_without_audio_file_returns_404() {
    let mut state = dummy_state();
    match play(&mut state, false) {
        Err(err) => {
            assert_eq!(err.status(), StatusCode::NOT_FOUND);
            assert_eq!(err.to_string(), "audio file missing: /nonexistent.ogg");
        }
        Ok(_) => panic!("played a missing file"),
    }
}

#[test]
fn health_reflects_every_state() {
    let resp = health(&ready_state());
    assert_eq!(resp.name, "test");
    assert_eq!(resp.user_id, Some(99));
    assert!(!resp.in_voice && !resp.playing);
    let resp = health(&joined_state());
    assert!(resp.in_voice && !resp.playing);
    let resp = health(&playing_state());
    assert!(resp.in_voice && resp.playing);
}

#[test]
fn join_says_where_to_connect_to() {
    let app = ready_state();
    match join(&app, &REQ) {
        Ok(connect) => {
            assert_eq!(*connect.manager, "manager");
            assert_eq!(connect.guild_id, 1);
            assert_eq!(connect.channel_id, 2);
        }
        Err(_) => panic!("refused"),
    }
}

#[test]
fn join_refuses_without_a_manager_whatever_the_state() {
    let mut app = joined_state();
    app.songbird = None;
    assert!(matches!(join(&app, &REQ), Err(FeederError::NotReady)));
}

#[test]
fn a_refused_join_does_not_look_at_the_numbers() {
    let zero = JoinReq { guild_id: 0, channel_id: 0 };
    assert!(matches!(join(&dummy_state(), &zero), Err(FeederError::NotReady)));
    assert!(matches!(join(&joined_state(), &zero), Err(FeederError::AlreadyJoined)));
}

#[test]
fn join_finishes_in_the_call() {
    let mut app = ready_state();
    assert!(matches!(join_finished(&mut app, 1, Ok("call")), Ok(StatusCode::OK)));
    assert!(is_joined(&app));
    assert_eq!(app.songbird, Some("manager"));
    assert_eq!(app.self_user_id, Some(99));
}

#[test]
fn join_that_fails_stays_idle() {
    let mut app = ready_state();
    let err = join_finished(&mut app, 1, Err("no permission".to_string())).unwrap_err();
    assert_eq!(err.status(), StatusCode::INTERNAL_SERVER_ERROR);
    assert_eq!(err.to_string(), "songbird error: no permission");
    assert!(matches!(app.state, FeederState::Idle));
}

#[test]
fn play_takes_the_call_and_gives_it_back() {
    let mut app = joined_state();
    let start = match play(&mut app, true) {
        Ok(start) => start,
        Err(_) => panic!("refused"),
    };
    assert_eq!(start.guild, 1);
    assert_eq!(start.call, "call");
    assert_eq!(start.audio_file, "/nonexistent.ogg");
    assert!(matches!(app.state, FeederState::Idle));
    assert_eq!(play_started(&mut app, start, "track"), StatusCode::OK);
    assert!(is_playing(&app));
}

#[test]
fn a_refused_play_keeps_the_state() {
    let mut app = playing_state();
    assert!(matches!(play(&mut app, true), Err(FeederError::AlreadyPlaying)));
    assert!(is_playing(&app));
    assert!(matches!(play(&mut app, false), Err(FeederError::AudioFileMissing(_))));
    assert!(is_playing(&app));
    let mut app = joined_state();
    assert!(matches!(play(&mut app, false), Err(FeederError::AudioFileMissing(_))));
    assert!(is_joined(&app));
}

#[test]
fn stop_hands_out_the_track() {
    let mut app = playing_state();
    let stopped = stop(&mut app);
    assert_eq!(stopped.track, Some("track"));
    assert_eq!(stopped.status, StatusCode::OK);
    assert!(is_joined(&app));
    let stopped = stop(&mut app);
    assert_eq!(stopped.track, None);
    assert_eq!(stopped.status, StatusCode::OK);
    assert!(is_joined(&app));
}

#[test]
fn a_refused_join_with_zero_numbers_changes_nothing() {
    let zero = JoinReq { guild_id: 0, channel_id: 0 };
    let mut app = joined_state();
    let reply = serve(&mut app, Happening::Join { req: zero, call: Ok("other") });
    assert!(matches!(reply, Some(Err(FeederError::AlreadyJoined))));
    assert!(is_joined(&app));
}

#[test]
fn end_of_track_allows_another_play() {
    let mut app = playing_state();
    track_ended(&mut app);
    assert!(is_joined(&app));
    assert!(!health(&app).playing);
    assert!(play(&mut app, true).is_ok());
}

#[test]
fn leave_stops_the_track_before_it_disconnects() {
    for outcome in [Ok(()), Err("gone already".to_string())] {
        let mut app = playing_state();
        match leave(&mut app) {
            Ok(Leave::Stop { track, departing }) => {
                assert_eq!(track, "track");
                let disconnect = track_stopped(departing, outcome);
                assert_eq!(*disconnect.manager, "manager");
                assert_eq!(disconnect.guild, 1);
                assert_eq!(disconnect.call, "call");
            }
            _ => panic!("no track to stop"),
        }
        assert!(matches!(app.state, FeederState::Idle));
    }
}

#[test]
fn leave_from_joined_has_no_track_to_stop() {
    let mut app = joined_state();
    match leave(&mut app) {
        Ok(Leave::Disconnect { disconnect }) => {
            assert_eq!(*disconnect.manager, "manager");
            assert_eq!(disconnect.guild, 1);
            assert_eq!(disconnect.call, "call");
        }
        _ => panic!("not asked to disconnect"),
    }
    assert!(matches!(app.state, FeederState::Idle));
}

#[test]
fn leave_succeeds_though_the_track_would_not_stop() {
    let mut app = playing_state();
    let happening = Happening::Leave { stop: Err("gone already".to_string()), outcome: Ok(()) };
    assert!(matches!(serve(&mut app, happening), Some(Ok(StatusCode::OK))));
    assert!(matches!(app.state, FeederState::Idle));
}

#[test]
fn leave_without_a_manager_keeps_the_state() {
    let mut app = joined_state();
    app.songbird = None;
    assert!(matches!(leave(&mut app), Err(FeederError::NotReady)));
    assert!(is_joined(&app));
    let mut app = playing_state();
    app.songbird = None;
    assert!(matches!(leave(&mut app), Err(FeederError::NotReady)));
    assert!(is_playing(&app));
}

#[test]
fn leave_that_fails_is_reported() {
    let err = leave_finished(Err("gone".to_string())).unwrap_err();
    assert_eq!(err.status(), StatusCode::INTERNAL_SERVER_ERROR);
    assert_eq!(err.to_string(), "songbird error: gone");
    assert!(matches!(leave_finished(Ok(())), Ok(StatusCode::OK)));
}

#[test]
fn leave_that_fails_leaves_the_feeder_idle() {
    let mut app = playing_state();
    let reply = serve(&mut app, Happening::Leave { stop: Ok(()), outcome: Err("gone".to_string()) });
    assert!(matches!(reply, Some(Err(FeederError::Songbird(_)))));
    assert!(matches!(app.state, FeederState::Idle));
}

#[test]
fn whole_course_of_a_test_run() {
    let mut app = ready_state();
    let reply = serve(&mut app, Happening::Join { req: REQ, call: Ok("call") });
    assert!(matches!(reply, Some(Ok(StatusCode::OK))));
    assert!(is_joined(&app));
    let reply = serve(&mut app, Happening::Join { req: REQ, call: Ok("other") });
    assert!(matches!(reply, Some(Err(FeederError::AlreadyJoined))));
    assert!(is_joined(&app));
    let reply = serve(&mut app, Happening::Play { file_exists: true, track: "track" });
    assert!(matches!(reply, Some(Ok(StatusCode::OK))));
    assert!(is_playing(&app));
    let reply = serve(&mut app, Happening::Play { file_exists: true, track: "other" });
    assert!(matches!(reply, Some(Err(FeederError::AlreadyPlaying))));
    assert!(is_playing(&app));
    let reply = serve(&mut app, Happening::Stop);
    assert!(matches!(reply, Some(Ok(StatusCode::OK))));
    assert!(is_joined(&app));
    let reply = serve(&mut app, Happening::Play { file_exists: true, track: "track" });
    assert!(matches!(reply, Some(Ok(StatusCode::OK))));
    assert!(serve(&mut app, Happening::TrackEnded).is_none());
    assert!(is_joined(&app));
    let reply = serve(&mut app, Happening::Leave { stop: Ok(()), outcome: Ok(()) });
    assert!(matches!(reply, Some(Ok(StatusCode::OK))));
    assert!(matches!(app.state, FeederState::Idle));
    let reply = serve(&mut app, Happening::Leave { stop: Ok(()), outcome: Ok(()) });
    assert!(matches!(reply, Some(Ok(StatusCode::OK))));
    assert!(matches!(app.state, FeederState::Idle));
}
