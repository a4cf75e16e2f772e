//! Data gathered from the day's work sources.
//!
//! The fetchers that fill these records talk to third-party services
//! over the network and live outside this library; the records
//! themselves are plain data.

use vstd::prelude::*;

verus! {

/// An issue-tracker ticket.
#[derive(Debug, Clone)]
pub struct Ticket {
    pub id: String,
    pub title: String,
    pub status: String,
    pub url: String,
    pub resolved_at: Option<String>,
}

/// A calendar meeting.
#[derive(Debug, Clone)]
pub struct Meeting {
    pub title: String,
    pub start: String,
    pub end: String,
    pub duration_minutes: i32,
}

/// The outcome of one data source's fetch.
#[derive(Debug, Clone)]
pub enum SourceStatusDetail {
    Fetched { fetched_at: String },
    Failed { error: String },
    NotConfigured,
}

/// The outcome of every data source's fetch.
#[derive(Debug, Clone)]
pub struct DataSourcesStatus {
    pub jira: SourceStatusDetail,
    pub calendar: SourceStatusDetail,
    pub toggl: SourceStatusDetail,
}

} // verus!
