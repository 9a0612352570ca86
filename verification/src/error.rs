//! The errors of the control API. The set is closed, and each error has a
//! fixed HTTP status and a fixed reason, so that a test harness can rely on
//! both.
use vstd::prelude::*;

verus! {

/// The HTTP statuses that the control API answers with, under the names that
/// HTTP libraries give them.
#[allow(non_camel_case_types)]
#[derive(Debug, Clone, Copy, PartialEq, Eq, Structural)]
pub enum StatusCode {
    /// 200, of every request that is carried out or is a no-op.
    OK,
    /// 400
    BAD_REQUEST,
    /// 404
    NOT_FOUND,
    /// 409
    CONFLICT,
    /// 500
    INTERNAL_SERVER_ERROR,
}

impl StatusCode {
    /// The number that the status has on the wire.
    pub open spec fn code(self) -> u16 {
        match self {
            StatusCode::OK => 200,
            StatusCode::BAD_REQUEST => 400,
            StatusCode::NOT_FOUND => 404,
            StatusCode::CONFLICT => 409,
            StatusCode::INTERNAL_SERVER_ERROR => 500,
        }
    }

    /// The number that the status has on the wire.
    pub fn as_u16(&self) -> (code: u16)
        ensures
            code == self.code(),
    {
        match self {
            StatusCode::OK => 200,
            StatusCode::BAD_REQUEST => 400,
            StatusCode::NOT_FOUND => 404,
            StatusCode::CONFLICT => 409,
            StatusCode::INTERNAL_SERVER_ERROR => 500,
        }
    }
}

/// Every error that the control API may return to its caller.
#[derive(Debug)]
pub enum FeederError {
    /// `/play` called before `/join`.
    NotInVoice,
    /// `/play` called while a track is already playing.
    AlreadyPlaying,
    /// `/join` called while already in a voice channel.
    AlreadyJoined,
    /// The audio file does not exist at `/play` time. Holds its path.
    AudioFileMissing(String),
    /// The voice library rejected a join or a leave. Holds its message, which
    /// is passed on to the caller for ease of debugging.
    Songbird(String),
    /// The gateway has not reported ready yet, so that there is no voice
    /// manager.
    NotReady,
}

/// A [`FeederError`] with its texts as sequences of characters.
pub enum ErrorView {
    NotInVoice,
    AlreadyPlaying,
    AlreadyJoined,
    AudioFileMissing(Seq<char>),
    Songbird(Seq<char>),
    NotReady,
}

impl View for FeederError {
    type V = ErrorView;

    open spec fn view(&self) -> ErrorView {
        match self {
            FeederError::NotInVoice => ErrorView::NotInVoice,
            FeederError::AlreadyPlaying => ErrorView::AlreadyPlaying,
            FeederError::AlreadyJoined => ErrorView::AlreadyJoined,
            FeederError::AudioFileMissing(path) => ErrorView::AudioFileMissing(path@),
            FeederError::Songbird(message) => ErrorView::Songbird(message@),
            FeederError::NotReady => ErrorView::NotReady,
        }
    }
}

impl ErrorView {
    /// The status that an error is answered with.
    pub open spec fn status(self) -> StatusCode {
        match self {
            ErrorView::NotInVoice => StatusCode::BAD_REQUEST,
            ErrorView::AlreadyPlaying => StatusCode::CONFLICT,
            ErrorView::AlreadyJoined => StatusCode::CONFLICT,
            ErrorView::AudioFileMissing(_) => StatusCode::NOT_FOUND,
            ErrorView::Songbird(_) => StatusCode::INTERNAL_SERVER_ERROR,
            ErrorView::NotReady => StatusCode::INTERNAL_SERVER_ERROR,
        }
    }

    /// The reason that an error gives in its body.
    pub open spec fn reason(self) -> Seq<char> {
        match self {
            ErrorView::NotInVoice => "not in voice channel"@,
            ErrorView::AlreadyPlaying => "already playing"@,
            ErrorView::AlreadyJoined => "already joined; leave first"@,
            ErrorView::AudioFileMissing(path) => "audio file missing: "@ + path,
            ErrorView::Songbird(message) => "songbird error: "@ + message,
            ErrorView::NotReady => "songbird not ready"@,
        }
    }
}

/// What a request came to, with an error's texts as sequences of characters.
pub open spec fn view_reply<R>(reply: Result<R, FeederError>) -> Result<R, ErrorView> {
    match reply {
        Ok(value) => Ok(value),
        Err(error) => Err(error@),
    }
}

/// The JSON object that an error is rendered as: `{ "error": "<reason>" }`.
#[derive(Debug)]
pub struct ErrBody {
    pub error: String,
}

impl FeederError {
    /// The HTTP status of the error.
    pub fn status(&self) -> (status: StatusCode)
        ensures
            status == self@.status(),
    {
        match self {
            FeederError::NotInVoice => StatusCode::BAD_REQUEST,
            FeederError::AlreadyPlaying | FeederError::AlreadyJoined => StatusCode::CONFLICT,
            FeederError::AudioFileMissing(_) => StatusCode::NOT_FOUND,
            FeederError::Songbird(_) | FeederError::NotReady => StatusCode::INTERNAL_SERVER_ERROR,
        }
    }

    /// The reason of the error, as its body gives it.
    pub fn to_string(&self) -> (reason: String)
        ensures
            reason@ == self@.reason(),
    {
        match self {
            FeederError::NotInVoice => "not in voice channel".to_owned(),
            FeederError::AlreadyPlaying => "already playing".to_owned(),
            FeederError::AlreadyJoined => "already joined; leave first".to_owned(),
            FeederError::AudioFileMissing(path) => {
                let mut reason = "audio file missing: ".to_owned();
                reason.append(path.as_str());
                reason
            },
            FeederError::Songbird(message) => {
                let mut reason = "songbird error: ".to_owned();
                reason.append(message.as_str());
                reason
            },
            FeederError::NotReady => "songbird not ready".to_owned(),
        }
    }

    /// The response that the error is rendered as: its status and its body.
    pub fn into_response(self) -> (response: (StatusCode, ErrBody))
        ensures
            response.0 == self@.status(),
            response.1.error@ == self@.reason(),
    {
        let status = self.status();
        let error = self.to_string();
        (status, ErrBody { error })
    }
}

} // verus!
