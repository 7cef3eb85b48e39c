//! Plain records that cross the boundary to the surrounding application.

use vstd::prelude::*;

verus! {

/// A request to transcribe recorded audio.
#[derive(Debug)]
pub struct TranscriptionRequest {
    /// "api", "local" or "google".
    pub mode: String,
    pub model: Option<String>,
    pub api_key: Option<String>,
    pub audio_data: Vec<u8>,
    pub mime_type: String,
    pub filename: String,
    pub prompt: Option<String>,
}

/// The text that a transcription gave.
#[derive(Debug)]
pub struct TranscriptionResponse {
    pub text: String,
}

/// The tokens that a sign-in hands over.
#[derive(Debug, Clone)]
pub struct AuthTokensPayload {
    pub access: String,
    pub refresh: Option<String>,
}

/// The state of the local speech server.
#[derive(Debug, Clone)]
pub struct FastWhisperStatus {
    pub installed: bool,
    pub running: bool,
    pub phase: String,
    pub message: String,
    pub error: Option<String>,
    pub last_action: Option<String>,
    pub last_success_at: Option<i64>,
    pub log_line: Option<String>,
    pub updated_at: i64,
}

impl FastWhisperStatus {
    /// The status of a server that is not installed, with a message and
    /// the time of the report in milliseconds.
    pub fn new(message: &str, now_ms: i64) -> (s: FastWhisperStatus)
        ensures
            !s.installed,
            !s.running,
            s.phase@ == "not-installed"@,
            s.message@ == message@,
            s.error is None,
            s.last_action is None,
            s.last_success_at is None,
            s.log_line is None,
            s.updated_at == now_ms,
    {
        FastWhisperStatus {
            installed: false,
            running: false,
            phase: String::from_str("not-installed"),
            message: String::from_str(message),
            error: None,
            last_action: None,
            last_success_at: None,
            log_line: None,
            updated_at: now_ms,
        }
    }
}

} // verus!
