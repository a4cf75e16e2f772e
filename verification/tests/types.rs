use workday_debrief::aggregation::{DataSourcesStatus, Meeting, SourceStatusDetail, Ticket};
use workday_debrief::delivery::{
    DeliveryConfig, DeliveryConfirmation, FileConfig, SlackConfig, SmtpConfig,
};
use workday_debrief::error::AppError;
use workday_debrief::prompts::SummaryInput;

#[test]
fn ticket_and_meeting_hold_their_fields() {
    let ticket = Ticket {
        id: "PROJ-17".to_string(),
        title: "Fix the build".to_string(),
        status: "Done".to_string(),
        url: "https://tracker/PROJ-17".to_string(),
        resolved_at: Some("2024-05-01T17:00:00Z".to_string()),
    };
    assert_eq!(ticket.id, "PROJ-17");
    assert_eq!(ticket.resolved_at.as_deref(), Some("2024-05-01T17:00:00Z"));

    let meeting = Meeting {
        title: "Standup".to_string(),
        start: "09:00".to_string(),
        end: "09:15".to_string(),
        duration_minutes: 15,
    };
    assert_eq!(meeting.duration_minutes, 15);
}

#[test]
fn source_status_covers_the_three_outcomes() {
    let status = DataSourcesStatus {
        jira: SourceStatusDetail::Fetched { fetched_at: "now".to_string() },
        calendar: SourceStatusDetail::Failed { error: "401".to_string() },
        toggl: SourceStatusDetail::NotConfigured,
    };
    assert!(matches!(status.jira, SourceStatusDetail::Fetched { .. }));
    assert!(matches!(status.calendar, SourceStatusDetail::Failed { .. }));
    assert!(matches!(status.toggl, SourceStatusDetail::NotConfigured));
}

#[test]
fn delivery_configs_wrap_their_targets() {
    let email = DeliveryConfig::Email(SmtpConfig {
        host: "smtp.example.com".to_string(),
        port: 587,
        from_address: "from@example.com".to_string(),
        to_address: "to@example.com".to_string(),
        username: "user".to_string(),
        password: "secret".to_string(),
        use_tls: true,
    });
    let slack = DeliveryConfig::Slack(SlackConfig {
        webhook_url: "https://hooks.slack.com/x".to_string(),
    });
    let file = DeliveryConfig::File(FileConfig { directory_path: "/tmp/out".to_string() });
    assert!(matches!(email, DeliveryConfig::Email(ref c) if c.port == 587 && c.use_tls));
    assert!(matches!(slack, DeliveryConfig::Slack(ref c) if c.webhook_url.starts_with("https")));
    assert!(matches!(file, DeliveryConfig::File(ref c) if c.directory_path == "/tmp/out"));
}

#[test]
fn delivery_confirmation_holds_its_fields() {
    let confirmation = DeliveryConfirmation {
        delivery_type: "email".to_string(),
        success: true,
        message: "sent".to_string(),
        timestamp: "2024-05-01T18:00:00Z".to_string(),
    };
    assert!(confirmation.success);
    assert_eq!(confirmation.delivery_type, "email");
}

#[test]
fn summary_input_fields_are_optional() {
    let input = SummaryInput {
        blockers: None,
        tomorrow_priorities: Some("ship it".to_string()),
        manual_notes: None,
        narrative: None,
        tone: Some("casual".to_string()),
    };
    assert!(input.blockers.is_none());
    assert_eq!(input.tone.as_deref(), Some("casual"));
}

#[test]
fn vault_error_classes_are_distinct() {
    let config = AppError::NotConfigured("no config dir".to_string());
    let decrypt = AppError::DecryptionError("bad passphrase".to_string());
    let serial = AppError::SerializationError("not json".to_string());
    let io = AppError::FileWriteError("disk full".to_string());
    assert!(matches!(config, AppError::NotConfigured(_)));
    assert!(matches!(decrypt, AppError::DecryptionError(_)));
    assert!(matches!(serial, AppError::SerializationError(_)));
    assert!(matches!(io, AppError::FileWriteError(_)));
}
