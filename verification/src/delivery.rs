//! Delivery targets for a finished summary.
//!
//! The senders (SMTP, a Slack webhook, a file writer) do network and
//! file I/O and live outside this library; the configuration they take
//! and the confirmation they report are plain data.

use vstd::prelude::*;

verus! {

/// SMTP delivery configuration.
#[derive(Debug, Clone)]
pub struct SmtpConfig {
    pub host: String,
    pub port: u16,
    pub from_address: String,
    pub to_address: String,
    pub username: String,
    pub password: String,
    pub use_tls: bool,
}

/// Slack webhook delivery configuration.
#[derive(Debug, Clone)]
pub struct SlackConfig {
    pub webhook_url: String,
}

/// Markdown-file delivery configuration.
#[derive(Debug, Clone)]
pub struct FileConfig {
    pub directory_path: String,
}

/// One configured delivery target.
#[derive(Debug, Clone)]
pub enum DeliveryConfig {
    Email(SmtpConfig),
    Slack(SlackConfig),
    File(FileConfig),
}

/// What one delivery attempt reported.
#[derive(Debug, Clone)]
pub struct DeliveryConfirmation {
    pub delivery_type: String,
    pub success: bool,
    pub message: String,
    pub timestamp: String,
}

} // verus!
