//! The secret names used by the application's collaborators.
//!
//! The vault's key space is flat, process-wide and case-sensitive; these
//! are the names the rest of the application stores under.  The OAuth
//! CSRF token and PKCE verifier are write-once, read-once, and deleted by
//! their consumer after use.

use vstd::prelude::*;

verus! {

pub const SMTP_PASSWORD: &'static str = "smtp_password";

pub const SLACK_WEBHOOK_URL: &'static str = "slack_webhook_url";

pub const JIRA_API_TOKEN: &'static str = "jira_api_token";

pub const JIRA_EMAIL: &'static str = "jira_email";

pub const GOOGLE_REFRESH_TOKEN: &'static str = "google_refresh_token";

pub const TOGGL_API_TOKEN: &'static str = "toggl_api_token";

pub const OAUTH_CSRF_TOKEN: &'static str = "oauth_csrf_token";

pub const OAUTH_PKCE_VERIFIER: &'static str = "oauth_pkce_verifier";

} // verus!
