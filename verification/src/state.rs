//! The feeder's state machine.
//!
//! ```text
//! Idle  ──/join──▶  Joined  ──/play──▶  Playing
//!   ▲                  │                    │
//!   │                  │                    │
//!   └───/leave─────────┴────/stop (or EOF)──┘
//! ```
//!
//! What belongs to one state only (the guild, the call, the track) lives
//! inside that state's variant. The handles of the voice library are type
//! parameters: the state machine stores them, moves them and gives them back,
//! and nothing else.
use vstd::prelude::*;

use crate::error::FeederError;

verus! {

/// The state machine. `C` is the handle of a call, `T` that of a track.
#[derive(Debug)]
pub enum FeederState<C, T> {
    /// Not in a voice channel.
    Idle,
    /// In a voice channel, silent.
    Joined { guild: u64, call: C },
    /// In a voice channel, playing a track.
    Playing { guild: u64, call: C, track: T },
}

/// What an endpoint decides to do with the state, apart from its side effects.
#[derive(Debug)]
pub enum TransitionDecision {
    /// The event is valid in the current state.
    Proceed,
    /// The event has no effect in the current state, and is no error.
    Noop,
    /// The event is invalid in the current state.
    Reject(FeederError),
}

/// The control events of the HTTP layer.
#[derive(Debug, Clone, Copy, PartialEq, Eq, Structural)]
pub enum Event {
    Join,
    Play,
    Stop,
    Leave,
}

impl<C, T> FeederState<C, T> {
    /// Whether the feeder is in a voice channel.
    pub open spec fn in_voice(self) -> bool {
        self !is Idle
    }

    /// Whether the feeder is playing.
    pub open spec fn playing(self) -> bool {
        self is Playing
    }

    /// A guild's number is never zero.
    pub open spec fn well_formed(self) -> bool {
        match self {
            FeederState::Idle => true,
            FeederState::Joined { guild, .. } => guild != 0,
            FeederState::Playing { guild, .. } => guild != 0,
        }
    }

    /// The transition policy.
    pub open spec fn policy(self, event: Event) -> TransitionDecision {
        match event {
            Event::Join => if self.in_voice() {
                TransitionDecision::Reject(FeederError::AlreadyJoined)
            } else {
                TransitionDecision::Proceed
            },
            Event::Play => if self.playing() {
                TransitionDecision::Reject(FeederError::AlreadyPlaying)
            } else if self.in_voice() {
                TransitionDecision::Proceed
            } else {
                TransitionDecision::Reject(FeederError::NotInVoice)
            },
            Event::Stop => if self.playing() {
                TransitionDecision::Proceed
            } else {
                TransitionDecision::Noop
            },
            Event::Leave => if self.in_voice() {
                TransitionDecision::Proceed
            } else {
                TransitionDecision::Noop
            },
        }
    }

    /// The state once the track is over, whether it was stopped or ran to its
    /// end: the feeder stays in the call that it was playing to.
    pub open spec fn without_track(self) -> FeederState<C, T> {
        match self {
            FeederState::Playing { guild, call, .. } => FeederState::Joined { guild, call },
            _ => self,
        }
    }

    /// The track being played, if there is one.
    pub open spec fn current_track(self) -> Option<T> {
        match self {
            FeederState::Playing { track, .. } => Some(track),
            _ => None,
        }
    }

    pub fn is_in_voice(&self) -> (r: bool)
        ensures
            r == self.in_voice(),
    {
        matches!(self, FeederState::Joined { .. } | FeederState::Playing { .. })
    }

    pub fn is_playing(&self) -> (r: bool)
        ensures
            r == self.playing(),
    {
        matches!(self, FeederState::Playing { .. })
    }

    /// Short label for logs and tests.
    pub fn name(&self) -> (label: &'static str)
        ensures
            *self is Idle ==> label@ == "idle"@,
            *self is Joined ==> label@ == "joined"@,
            *self is Playing ==> label@ == "playing"@,
    {
        match self {
            FeederState::Idle => "idle",
            FeederState::Joined { .. } => "joined",
            FeederState::Playing { .. } => "playing",
        }
    }

    /// The transition policy: whether `event` is valid in this state. It
    /// changes nothing.
    pub fn decide(&self, event: Event) -> (decision: TransitionDecision)
        ensures
            decision == self.policy(event),
    {
        match (self, event) {
            (FeederState::Idle, Event::Join) => TransitionDecision::Proceed,
            (FeederState::Joined { .. } | FeederState::Playing { .. }, Event::Join) => {
                TransitionDecision::Reject(FeederError::AlreadyJoined)
            },
            (FeederState::Idle, Event::Play) => {
                TransitionDecision::Reject(FeederError::NotInVoice)
            },
            (FeederState::Joined { .. }, Event::Play) => TransitionDecision::Proceed,
            (FeederState::Playing { .. }, Event::Play) => {
                TransitionDecision::Reject(FeederError::AlreadyPlaying)
            },
            (FeederState::Idle | FeederState::Joined { .. }, Event::Stop) => {
                TransitionDecision::Noop
            },
            (FeederState::Playing { .. }, Event::Stop) => TransitionDecision::Proceed,
            (FeederState::Idle, Event::Leave) => TransitionDecision::Noop,
            (FeederState::Joined { .. } | FeederState::Playing { .. }, Event::Leave) => {
                TransitionDecision::Proceed
            },
        }
    }

    /// Takes the state out, leaving `Idle` in its place.
    pub fn take(&mut self) -> (state: FeederState<C, T>)
        ensures
            state == *old(self),
            *final(self) == FeederState::<C, T>::Idle,
    {
        let mut state = FeederState::Idle;
        core::mem::swap(&mut state, self);
        state
    }

    /// The track is over: gives back its handle, if there was one, and stays
    /// in the call.
    pub fn end_track(&mut self) -> (track: Option<T>)
        ensures
            *final(self) == old(self).without_track(),
            track == old(self).current_track(),
    {
        match self.take() {
            FeederState::Playing { guild, call, track } => {
                *self = FeederState::Joined { guild, call };
                Some(track)
            },
            silent => {
                *self = silent;
                None
            },
        }
    }
}

impl<C, T> Default for FeederState<C, T> {
    fn default() -> (state: FeederState<C, T>)
        ensures
            state == FeederState::<C, T>::Idle,
    {
        FeederState::Idle
    }
}

/// Read-only snapshot of the feeder, for the `/health` endpoint.
#[derive(Debug, Clone)]
pub struct HealthSnapshot {
    pub name: String,
    pub user_id: Option<u64>,
    pub in_voice: bool,
    pub playing: bool,
}

/// The whole of what the feeder knows. `M` is the handle of the voice manager.
#[derive(Debug)]
pub struct AppState<M, C, T> {
    pub name: String,
    /// Path of the audio file.
    pub audio_file: String,
    /// The feeder's own user id, known once the gateway is ready.
    pub self_user_id: Option<u64>,
    /// The voice manager, known once the gateway is ready.
    pub songbird: Option<M>,
    /// The state machine.
    pub state: FeederState<C, T>,
}

impl<M, C, T> AppState<M, C, T> {
    pub fn new(name: String, audio_file: String) -> (app: AppState<M, C, T>)
        ensures
            app == (AppState::<M, C, T> {
                name,
                audio_file,
                self_user_id: None,
                songbird: None,
                state: FeederState::Idle,
            }),
    {
        AppState { name, audio_file, self_user_id: None, songbird: None, state: FeederState::Idle }
    }

    /// The feeder's current status. Changes nothing.
    pub fn snapshot(&self) -> (snapshot: HealthSnapshot)
        ensures
            snapshot == (HealthSnapshot {
                name: self.name,
                user_id: self.self_user_id,
                in_voice: self.state.in_voice(),
                playing: self.state.playing(),
            }),
    {
        HealthSnapshot {
            name: self.name.clone(),
            user_id: self.self_user_id,
            in_voice: self.state.is_in_voice(),
            playing: self.state.is_playing(),
        }
    }

    /// The gateway is ready: the feeder learns its user id and, if there is
    /// one, the voice manager. Tells whether there is one.
    pub fn ready(&mut self, user_id: u64, manager: Option<M>) -> (attached: bool)
        ensures
            attached == (manager is Some),
            *final(self) == (AppState::<M, C, T> {
                self_user_id: Some(user_id),
                songbird: if manager is Some {
                    manager
                } else {
                    old(self).songbird
                },
                ..*old(self)
            }),
    {
        self.self_user_id = Some(user_id);
        if manager.is_none() {
            return false;
        }
        self.songbird = manager;
        true
    }
}

} // verus!
