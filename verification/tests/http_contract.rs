//! What the control API answers while the gateway is not ready yet.
use chronicle_feeder::control::{health, serve, Happening, JoinReq};
use chronicle_feeder::error::{ErrBody, FeederError};
use chronicle_feeder::AppState;

use axum::http::StatusCode;

type App = AppState<u32, u32, u32>;

fn state_with_no_audio_file() -> App {
    AppState::new("moe".into(), "/does/not/exist.ogg".into())
}

/// Serves a request and renders the answer.
fn answer(app: &mut App, happening: Happening<u32, u32>) -> (StatusCode, Option<ErrBody>) {
    let (status, body) = match serve(app, happening) {
        Some(Ok(status)) => (status, None),
        Some(Err(error)) => {
            let (status, body) = error.into_response();
            (status, Some(body))
        }
        None => panic!("not a request"),
    };
    (StatusCode::from_u16(status.as_u16()).unwrap(), body)
}

#[test]
fn health_returns_idle_shape() {
    let v = health(&state_with_no_audio_file());
    assert_eq!(v.name, "moe");
    assert_eq!(v.in_voice, false);
    assert_eq!(v.playing, false);
    assert!(v.user_id.is_none());
}

#[test]
fn http_contract_play_without_audio_file_returns_404() {
    let mut app = state_with_no_audio_file();
    let (status, body) = answer(&mut app, Happening::Play { file_exists: false, track: 0 });
    assert_eq!(status, StatusCode::NOT_FOUND);
    assert!(body.unwrap().error.starts_with("audio file missing:"));
}

#[test]
fn play_in_idle_with_file_returns_400_not_in_voice() {
    let mut app: App = AppState::new("moe".into(), "chronicle_feeder_dummy.ogg".into());
    let (status, body) = answer(&mut app, Happening::Play { file_exists: true, track: 0 });
    assert_eq!(status, StatusCode::BAD_REQUEST);
    assert_eq!(body.unwrap().error, "not in voice channel");
}

#[test]
fn stop_in_idle_is_noop_200() {
    let mut app = state_with_no_audio_file();
    let (status, body) = answer(&mut app, Happening::Stop);
    assert_eq!(status, StatusCode::OK);
    assert!(body.is_none());
}

#[test]
fn leave_in_idle_is_noop_200_even_without_songbird() {
    let mut app = state_with_no_audio_file();
    let (status, body) = answer(&mut app, Happening::Leave { stop: Ok(()), outcome: Ok(()) });
    assert_eq!(status, StatusCode::OK);
    assert!(body.is_none());
}

#[test]
fn join_without_songbird_returns_not_ready() {
    let mut app = state_with_no_audio_file();
    let req = JoinReq { guild_id: 1, channel_id: 2 };
    let (status, body) = answer(&mut app, Happening::Join { req, call: Ok(0) });
    assert_eq!(status, StatusCode::INTERNAL_SERVER_ERROR);
    assert_eq!(body.unwrap().error, "songbird not ready");
}

#[test]
fn every_error_has_its_status_and_its_reason() {
    let cases = vec![
        (FeederError::NotInVoice, StatusCode::BAD_REQUEST, "not in voice channel"),
        (FeederError::AlreadyPlaying, StatusCode::CONFLICT, "already playing"),
        (FeederError::AlreadyJoined, StatusCode::CONFLICT, "already joined; leave first"),
        (
            FeederError::AudioFileMissing("/a.ogg".to_string()),
            StatusCode::NOT_FOUND,
            "audio file missing: /a.ogg",
        ),
        (
            FeederError::Songbird("no call".to_string()),
            StatusCode::INTERNAL_SERVER_ERROR,
            "songbird error: no call",
        ),
        (FeederError::NotReady, StatusCode::INTERNAL_SERVER_ERROR, "songbird not ready"),
    ];
    for (error, status, reason) in cases {
        assert_eq!(error.status().as_u16(), status.as_u16());
        assert_eq!(error.to_string(), reason);
        let (rendered, body) = error.into_response();
        assert_eq!(rendered.as_u16(), status.as_u16());
        assert_eq!(body.error, reason);
    }
}
