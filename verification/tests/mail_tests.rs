use std::time::{Duration, SystemTime, UNIX_EPOCH};
use watchdog::clock::{timestamp_from, unix_timestamp_now};
use watchdog::mail::envelope;
use watchdog::notifiers::EmailNotifier;
use watchdog::service::email::{email_envelope, EmailService, TransportSecurity};

#[test]
fn envelope_reads_sender_then_recipient() {
    let (from, to) = envelope("sender@example.com", "Alice <alice@example.org>").unwrap();
    assert_eq!(from.email.to_string(), "sender@example.com");
    assert_eq!(to.email.to_string(), "alice@example.org");
    assert_eq!(to.name.as_deref(), Some("Alice"));
    assert!(envelope("not an address", "alice@example.org").is_err());
    assert!(envelope("sender@example.com", "missing-domain").is_err());
}

#[test]
fn service_envelope_uses_the_configured_sender() {
    let s = EmailService::new(
        "smtp.example.com".to_string(),
        "587",
        "me".to_string(),
        "pw".to_string(),
        "me@example.com".to_string(),
        None,
    )
    .unwrap();
    assert!(s.transport_security() == TransportSecurity::StartTls);
    let (from, to) = email_envelope(&s, "you@example.net").unwrap();
    assert_eq!(from.email.to_string(), "me@example.com");
    assert_eq!(to.email.to_string(), "you@example.net");
    assert!(email_envelope(&s, "@@").is_err());
}

#[test]
fn timestamps_count_whole_seconds_and_zero_before_the_epoch() {
    assert_eq!(timestamp_from(Ok(Duration::from_millis(42_999))), 42);
    let before_epoch = UNIX_EPOCH.duration_since(SystemTime::now() + Duration::from_secs(5));
    assert!(before_epoch.is_err());
    assert_eq!(timestamp_from(before_epoch), 0);
    assert!(unix_timestamp_now() > 1_600_000_000);
}

#[test]
fn email_notifier_renaming_keeps_addresses_and_settings() {
    let mut n = EmailNotifier::new(
        "mail".to_string(),
        "smtp.example.com".to_string(),
        25,
        "bot@example.com".to_string(),
        "pw".to_string(),
    );
    n.set_user_email("u1".to_string(), "u1@example.com".to_string());
    n.set_name("renamed".to_string());
    assert_eq!(n.name(), "renamed");
    assert_eq!(n.get_user_email("u1"), Some("u1@example.com".to_string()));
    assert_eq!(n.smtp_server(), "smtp.example.com");
    assert_eq!(n.smtp_port(), 25);
    assert_eq!(n.smtp_username, "bot@example.com");
    assert_eq!(n.smtp_password, "pw");
}
