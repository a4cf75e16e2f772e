//! The application-wide error type.

use vstd::prelude::*;

verus! {

/// Errors reported by the application.
///
/// The secret vault uses four of these as its error classes:
/// `NotConfigured` for configuration failures (a directory or the master
/// key cannot be resolved), `DecryptionError` when the secrets blob does
/// not decrypt under any available passphrase or is not in the expected
/// container format, `SerializationError` when decrypted bytes are not
/// valid UTF-8 JSON for the secret mapping, and `FileWriteError` for plain
/// I/O failures.  The remaining variants belong to the collaborators that
/// consume the vault (data sources, delivery channels, the LLM bridge).
#[derive(Debug, Clone)]
pub enum AppError {
    JiraUnreachable(String),
    CalendarUnauthorized,
    CalendarError(String),
    TogglError(String),
    LlmTimeout(u64),
    LlmUnavailable(String),
    SmtpAuthFailed(String),
    SlackWebhookInvalid(String),
    DatabaseError(String),
    FileWriteError(String),
    NotConfigured(String),
    NetworkTimeout(String),
    DecryptionError(String),
    SerializationError(String),
}

} // verus!
