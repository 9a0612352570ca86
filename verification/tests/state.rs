//! The transition policy and the state machine itself.
use chronicle_feeder::error::FeederError;
use chronicle_feeder::state::{AppState, Event, FeederState, TransitionDecision};

/// A state whose call and track are plain numbers.
type State = FeederState<u32, u32>;

fn idle() -> State {
    FeederState::Idle
}

fn joined() -> State {
    FeederState::Joined { guild: 1, call: 10 }
}

fn playing() -> State {
    FeederState::Playing { guild: 1, call: 10, track: 20 }
}

#[test]
fn join_from_idle_proceeds() {
    assert!(matches!(idle().decide(Event::Join), TransitionDecision::Proceed));
}

#[test]
fn join_from_joined_rejects_as_already_joined() {
    let d = joined().decide(Event::Join);
    assert!(matches!(d, TransitionDecision::Reject(FeederError::AlreadyJoined)));
}

#[test]
fn play_from_idle_rejects_as_not_in_voice() {
    let d = idle().decide(Event::Play);
    assert!(matches!(d, TransitionDecision::Reject(FeederError::NotInVoice)));
}

#[test]
fn play_from_joined_proceeds() {
    assert!(matches!(joined().decide(Event::Play), TransitionDecision::Proceed));
}

#[test]
fn double_play_from_playing_rejects_as_already_playing() {
    let d = playing().decide(Event::Play);
    assert!(matches!(d, TransitionDecision::Reject(FeederError::AlreadyPlaying)));
}

#[test]
fn join_from_playing_rejects_as_already_joined() {
    let d = playing().decide(Event::Join);
    assert!(matches!(d, TransitionDecision::Reject(FeederError::AlreadyJoined)));
}

#[test]
fn stop_from_playing_proceeds() {
    let d = playing().decide(Event::Stop);
    assert!(matches!(d, TransitionDecision::Proceed));
}

#[test]
fn leave_from_playing_proceeds() {
    let d = playing().decide(Event::Leave);
    assert!(matches!(d, TransitionDecision::Proceed));
}

#[test]
fn is_in_voice_and_playing_in_playing_state() {
    let p = playing();
    assert!(p.is_in_voice());
    assert!(p.is_playing());
    assert_eq!(p.name(), "playing");
}

#[test]
fn stop_is_noop_in_idle_and_joined() {
    assert!(matches!(idle().decide(Event::Stop), TransitionDecision::Noop));
    assert!(matches!(joined().decide(Event::Stop), TransitionDecision::Noop));
}

#[test]
fn leave_is_noop_in_idle() {
    assert!(matches!(idle().decide(Event::Leave), TransitionDecision::Noop));
}

#[test]
fn leave_from_joined_proceeds() {
    assert!(matches!(joined().decide(Event::Leave), TransitionDecision::Proceed));
}

#[test]
fn is_in_voice_matches_variant() {
    assert!(!idle().is_in_voice());
    assert!(joined().is_in_voice());
}

#[test]
fn is_playing_matches_idle() {
    assert!(!idle().is_playing());
}

#[test]
fn is_playing_false_in_joined() {
    assert!(!joined().is_playing());
}

#[test]
fn state_names() {
    assert_eq!(idle().name(), "idle");
    assert_eq!(joined().name(), "joined");
}

#[test]
fn default_state_is_idle() {
    assert!(matches!(State::default(), FeederState::Idle));
}

#[test]
fn take_leaves_idle_behind() {
    let mut state = playing();
    let taken = state.take();
    assert!(matches!(taken, FeederState::Playing { guild: 1, call: 10, track: 20 }));
    assert!(matches!(state, FeederState::Idle));
}

#[test]
fn end_of_track_keeps_the_call() {
    let mut state = playing();
    assert_eq!(state.end_track(), Some(20));
    assert!(matches!(state, FeederState::Joined { guild: 1, call: 10 }));
    assert_eq!(state.end_track(), None);
    assert!(matches!(state, FeederState::Joined { guild: 1, call: 10 }));
    let mut state = idle();
    assert_eq!(state.end_track(), None);
    assert!(matches!(state, FeederState::Idle));
}

#[test]
fn ready_sets_the_user_id_and_the_manager() {
    let mut app: AppState<u32, u32, u32> = AppState::new("moe".to_string(), "/a.ogg".to_string());
    assert!(app.ready(42, Some(7)));
    assert_eq!(app.self_user_id, Some(42));
    assert_eq!(app.songbird, Some(7));
    assert_eq!(app.name, "moe");
    assert_eq!(app.audio_file, "/a.ogg");
}

#[test]
fn ready_without_a_manager_sets_the_user_id_only() {
    let mut app: AppState<u32, u32, u32> = AppState::new("moe".to_string(), "/a.ogg".to_string());
    assert!(!app.ready(42, None));
    assert_eq!(app.self_user_id, Some(42));
    assert_eq!(app.songbird, None);
    assert!(app.ready(42, Some(7)));
    assert!(!app.ready(43, None));
    assert_eq!(app.self_user_id, Some(43));
    assert_eq!(app.songbird, Some(7));
}
