use watchdog::error::FrameworkError;
use watchdog::service::api::{
    create_subscription_response, get_subscription_response, list_subscriptions_response,
    remove_subscription_response, subscription_from_request, ApiError, ApiResponse,
    CreateSubscriptionRequest,
};
use watchdog::service::email::{EmailService, EmailSettingsError, TransportSecurity};
use watchdog::service::user::{
    get_user_email_response, list_user_emails_response, remove_user_email_response,
    set_user_email_response, UserEmailService,
};
use watchdog::subscription::Subscription;

#[test]
fn email_service_settings() {
    let s = EmailService::new(
        "smtp.163.com".to_string(),
        "465",
        "me@163.com".to_string(),
        "pw".to_string(),
        "me@163.com".to_string(),
        Some("TRUE".to_string()),
    )
    .ok()
    .unwrap();
    assert_eq!(s.smtp_port(), 465);
    assert_eq!(s.smtp_server(), "smtp.163.com");
    assert_eq!(s.smtp_username(), "me@163.com");
    assert_eq!(s.smtp_password(), "pw");
    assert_eq!(s.from(), "me@163.com");
    assert!(s.transport_security() == TransportSecurity::Tls);

    let plain = EmailService::new(
        "smtp.gmail.com".to_string(),
        "587",
        "u".to_string(),
        "p".to_string(),
        "f".to_string(),
        None,
    )
    .ok()
    .unwrap();
    assert!(plain.transport_security() == TransportSecurity::StartTls);

    let bad = EmailService::new(
        "h".to_string(),
        "port",
        "u".to_string(),
        "p".to_string(),
        "f".to_string(),
        Some("true".to_string()),
    );
    assert!(matches!(bad, Err(EmailSettingsError::InvalidPort)));
}

#[test]
fn user_email_service_set_get_remove_list() {
    let mut s = UserEmailService::new();
    assert_eq!(s.set_user_email("alice".to_string(), "a@x.org".to_string()), Ok(()));
    s.set_user_email("bob".to_string(), "b@x.org".to_string()).unwrap();
    assert_eq!(s.get_user_email("alice"), Ok(Some("a@x.org".to_string())));
    assert_eq!(
        s.list_user_emails(),
        Ok(vec![
            ("alice".to_string(), "a@x.org".to_string()),
            ("bob".to_string(), "b@x.org".to_string())
        ])
    );
    assert_eq!(s.remove_user_email("alice"), Ok(Some("a@x.org".to_string())));
    assert_eq!(s.get_user_email("alice"), Ok(None));
    assert_eq!(s.remove_user_email("alice"), Ok(None));
    let d: UserEmailService = Default::default();
    assert_eq!(d.list_user_emails(), Ok(vec![]));
}

#[test]
fn user_email_responses() {
    let r = set_user_email_response(&Ok(()));
    assert!(r.success);
    assert_eq!(r.data.unwrap().message, "User email set successfully");
    let r = set_user_email_response(&Err("boom".to_string()));
    assert_eq!(r.error, Some("Failed to set user email: boom".to_string()));

    let r = get_user_email_response("u".to_string(), Ok(Some("e@x".to_string())));
    let d = r.data.unwrap();
    assert_eq!((d.user_id.as_str(), d.email.as_str()), ("u", "e@x"));
    let r = get_user_email_response("u".to_string(), Ok(None));
    assert_eq!(r.error, Some("User email not found".to_string()));
    let r = get_user_email_response("u".to_string(), Err("e".to_string()));
    assert_eq!(r.error, Some("Failed to get user email: e".to_string()));

    let r = remove_user_email_response(&Ok(Some("e".to_string())));
    assert_eq!(r.data.unwrap().message, "User email removed successfully");
    let r = remove_user_email_response(&Ok(None));
    assert!(!r.success);
    assert_eq!(r.error, Some("User email not found".to_string()));
    let r = remove_user_email_response(&Err("x".to_string()));
    assert_eq!(r.error, Some("Failed to remove user email: x".to_string()));

    let r = list_user_emails_response(Ok(vec![("u".to_string(), "e".to_string())]));
    let d = r.data.unwrap();
    assert_eq!(d.len(), 1);
    assert_eq!(d[0].user_id, "u");
    let r = list_user_emails_response(Err("x".to_string()));
    assert_eq!(r.error, Some("Failed to list user emails: x".to_string()));
}

#[test]
fn subscription_api_responses() {
    let r: ApiResponse<u8> = ApiResponse::success(3);
    assert!(r.success && r.data == Some(3) && r.error.is_none());
    let r: ApiResponse<u8> = ApiResponse::error("bad".to_string());
    assert!(!r.success && r.data.is_none());

    let r = create_subscription_response(&Ok(()));
    assert_eq!(r.data.unwrap().message, "Subscription created successfully");
    let r = create_subscription_response(&Err("no".to_string()));
    assert_eq!(r.error, Some("Failed to create subscription: no".to_string()));

    let some: Result<Option<Subscription<u8>>, String> =
        Ok(Some(Subscription::new("u".to_string(), 1)));
    assert_eq!(
        remove_subscription_response(&some).data.unwrap().message,
        "Subscription removed successfully"
    );
    let none: Result<Option<Subscription<u8>>, String> = Ok(None);
    assert_eq!(remove_subscription_response(&none).error, Some("Subscription not found".to_string()));
    let err: Result<Option<Subscription<u8>>, String> = Err("e".to_string());
    assert_eq!(
        remove_subscription_response(&err).error,
        Some("Failed to remove subscription: e".to_string())
    );

    let r = get_subscription_response(Ok(Some(Subscription::new("u".to_string(), 9u8))));
    let d = r.data.unwrap();
    assert_eq!((d.user_id.as_str(), d.criteria), ("u", 9));
    let r = get_subscription_response::<u8>(Ok(None));
    assert_eq!(r.error, Some("Subscription not found".to_string()));
    let r = get_subscription_response::<u8>(Err("e".to_string()));
    assert_eq!(r.error, Some("Failed to get subscription: e".to_string()));

    let r = list_subscriptions_response(Ok(vec![
        Subscription::new("a".to_string(), 1u8),
        Subscription::new("b".to_string(), 2u8),
    ]));
    let d = r.data.unwrap();
    assert_eq!(d.len(), 2);
    assert_eq!((d[1].user_id.as_str(), d[1].criteria), ("b", 2));
    let r = list_subscriptions_response::<u8>(Err("e".to_string()));
    assert_eq!(r.error, Some("Failed to list subscriptions: e".to_string()));

    let s = subscription_from_request(CreateSubscriptionRequest { user_id: "u".to_string(), criteria: 4u8 });
    assert_eq!((s.user_id.as_str(), s.criteria), ("u", 4));

    let e = ApiError::from_framework_error(&FrameworkError::Custom("c".to_string()));
    assert_eq!(e.error, "Custom error: c");
}
