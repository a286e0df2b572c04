use std::time::Duration;
use watchdog::service::arxiv::criteria::ArxivCriteria;
use watchdog::subscription::{Subscription, SubscriptionManager};
use watchdog::error::FrameworkError;
use watchdog::server::common::dto::ApiResponse;
use watchdog::server::common::error::{ApiErrorResponse, AppError};
use watchdog::server::common::handlers::health_check_response;
use watchdog::server::common::utils::check_duplicate_name;
use watchdog::server::domains::fetcher::dto::AddFetcherRequest;
use watchdog::server::domains::fetcher::{
    check_fetcher_type, fetcher_added_response, fetcher_removed_response, fetcher_types_response,
    user_fetchers_response,
};
use watchdog::server::domains::notifier::dto::AddNotifierRequest;
use watchdog::server::domains::notifier::{
    choose_notifier, console_notifier_added_response, email_notifier_added_response,
    email_notifier_failed_response, notifier_removal_response, notifier_types_response,
    user_notifier_response, NotifierChoice,
};
use watchdog::server::domains::subscription::dto::CreateSubscriptionRequest;
use watchdog::server::domains::subscription::model::SubscriptionCriteria;
use watchdog::server::domains::subscription::{
    plan_subscription, plan_subscription_for, subscription_created_response, subscription_removed_response,
    user_subscriptions_response,
};
use watchdog::subscription::SubscriptionCriteria as Criteria;
use watchdog::watchdog::WatchdogConfig;

#[test]
fn handlers_test_health_check() {
    let r = health_check_response();
    assert_eq!(r.status, 200);
    assert_eq!(r.message, "Watchdog API server is running");
}

#[test]
fn lib_test_health_check() {
    assert_eq!(health_check_response().status, 200);
}

#[test]
fn api_response_constructors() {
    let r = ApiResponse::success(5u8);
    assert_eq!((r.status, r.message.as_str(), r.data), (200, "success", Some(5)));
    let r: ApiResponse<()> = ApiResponse::success_with_message("ok".to_string());
    assert_eq!((r.status, r.message.as_str(), r.data), (200, "ok", None));
    let r: ApiResponse<()> = ApiResponse::error(418, "teapot".to_string());
    assert_eq!((r.status, r.message.as_str(), r.data), (418, "teapot", None));
}

#[test]
fn duplicate_names_conflict() {
    let names = vec!["a".to_string(), "b".to_string()];
    let r = check_duplicate_name(&names, "b", "Subscription").unwrap();
    assert_eq!(r.status, 409);
    assert_eq!(r.message, "Subscription with this name already exists");
    assert!(check_duplicate_name(&names, "c", "Subscription").is_none());
    assert!(check_duplicate_name(&[], "c", "Fetcher").is_none());
}

#[test]
fn test_fetcher_endpoints() {
    let r = fetcher_types_response();
    assert_eq!(r.status, 200);
    assert_eq!(r.data.unwrap(), vec!["ArxivFetcher".to_string()]);
}

#[test]
fn fetcher_decisions() {
    let ok = AddFetcherRequest {
        user_id: "u".to_string(),
        fetcher_name: "f".to_string(),
        fetcher_type: "ArxivFetcher".to_string(),
    };
    assert!(check_fetcher_type(&ok).is_none());
    let bad = AddFetcherRequest { fetcher_type: "Rss".to_string(), ..ok };
    let r = check_fetcher_type(&bad).unwrap();
    assert_eq!((r.status, r.message.as_str()), (400, "Unsupported fetcher type"));
    assert!(r.data.is_none());

    assert_eq!(fetcher_added_response(&Ok(())).message, "Fetcher added successfully");
    let r = fetcher_added_response(&Err(FrameworkError::Network("down".to_string())));
    assert_eq!((r.status, r.message.as_str()), (500, "Failed to add fetcher: Network error: down"));
    assert_eq!(fetcher_removed_response(&Ok(())).message, "Fetcher removed successfully");
    let r = fetcher_removed_response(&Err(FrameworkError::Custom("x".to_string())));
    assert_eq!(r.message, "Failed to remove fetcher: Custom error: x");

    let r = user_fetchers_response(Ok(vec!["f".to_string()]));
    assert_eq!((r.status, r.data), (200, Some(vec!["f".to_string()])));
    let r = user_fetchers_response(Err(FrameworkError::Email("e".to_string())));
    assert_eq!((r.status, r.message.as_str()), (500, "Failed to add fetcher: Email error: e"));
}

#[test]
fn test_notifier_endpoints() {
    let r = notifier_types_response();
    assert_eq!(r.status, 200);
    assert_eq!(
        r.data.unwrap(),
        vec!["ArxivConsoleNotifier".to_string(), "ArxivEmailNotifier".to_string()]
    );
}

#[test]
fn notifier_decisions() {
    let console = AddNotifierRequest {
        user_id: "u".to_string(),
        notifier_name: "n".to_string(),
        notifier_type: "ArxivConsoleNotifier".to_string(),
        email_address: None,
    };
    assert!(matches!(choose_notifier(&console), NotifierChoice::Console));
    let email = AddNotifierRequest {
        notifier_type: "ArxivEmailNotifier".to_string(),
        email_address: Some("a@b.c".to_string()),
        ..console.clone()
    };
    match choose_notifier(&email) {
        NotifierChoice::Email(a) => assert_eq!(a, "a@b.c"),
        _ => panic!("expected an email notifier"),
    }
    let no_address = AddNotifierRequest { email_address: None, ..email.clone() };
    match choose_notifier(&no_address) {
        NotifierChoice::Rejected(r) => {
            assert_eq!((r.status, r.message.as_str()), (400, "Email address is required for email notifier"));
            assert!(r.data.is_none());
        }
        _ => panic!("expected a rejection"),
    }
    let other = AddNotifierRequest { notifier_type: "Sms".to_string(), ..console.clone() };
    match choose_notifier(&other) {
        NotifierChoice::Rejected(r) => {
            assert_eq!((r.status, r.message.as_str()), (400, "Unsupported notifier type"));
            assert!(r.data.is_none());
        }
        _ => panic!("expected a rejection"),
    }

    assert_eq!(console_notifier_added_response(&Ok(())).message, "Console notifier added successfully");
    assert_eq!(
        console_notifier_added_response(&Err(FrameworkError::Custom("c".to_string()))).message,
        "Failed to add console notifier: Custom error: c"
    );
    assert_eq!(email_notifier_added_response(&Ok(())).message, "Email notifier added successfully");
    assert_eq!(
        email_notifier_added_response(&Err(FrameworkError::Custom("c".to_string()))).status,
        500
    );
    assert_eq!(email_notifier_failed_response("bad").message, "Failed to create email notifier: bad");
    assert_eq!(notifier_removal_response("n").message, "Notifier 'n' removal requested");
    let d = user_notifier_response("u".to_string()).data.unwrap();
    assert_eq!(
        (d.user_id.as_str(), d.notifier_name.as_str(), d.notifier_type.as_str()),
        ("u", "default_notifier", "ArxivConsoleNotifier")
    );
}

#[test]
fn test_subscription_endpoints() {
    let r = user_subscriptions_response(vec![]);
    assert_eq!(r.status, 200);
    assert_eq!(r.data, Some(vec![]));
}

#[test]
fn test_create_subscription() {
    let req = CreateSubscriptionRequest {
        user_id: "test_user".to_string(),
        subscription_id: "test_criteria".to_string(),
        keywords: vec!["test".to_string(), "keyword".to_string()],
    };
    let s = plan_subscription(&[], req).ok().unwrap();
    assert_eq!(s.user_id, "test_user");
    assert_eq!(s.criteria.id(), "test_criteria");
    let r = subscription_created_response("test_user".to_string(), "test_criteria".to_string(), &Ok(()));
    assert_eq!(r.status, 200);
    let d = r.data.unwrap();
    assert_eq!((d.user_id.as_str(), d.subscription_id.as_str()), ("test_user", "test_criteria"));
}

#[test]
fn duplicate_subscription_is_refused() {
    let req = CreateSubscriptionRequest {
        user_id: "u".to_string(),
        subscription_id: "s".to_string(),
        keywords: vec![],
    };
    let r = plan_subscription(&["s".to_string()], req).err().unwrap();
    assert_eq!((r.status, r.message.as_str()), (409, "Subscription with this name already exists"));
    let r = subscription_created_response("u".to_string(), "s".to_string(), &Err(FrameworkError::Custom("x".to_string())));
    assert_eq!((r.status, r.message.as_str()), (500, "Failed to create subscription: Custom error: x"));
    assert_eq!(subscription_removed_response(&Ok(())).message, "Subscription removed successfully");
    assert_eq!(
        subscription_removed_response(&Err(FrameworkError::Network("n".to_string()))).message,
        "Failed to remove subscription: Network error: n"
    );
}

#[test]
fn domain_model_criteria() {
    let c = SubscriptionCriteria::new("id".to_string(), vec!["k".to_string()]);
    assert_eq!(c.id, "id");
    assert_eq!(c.keywords, vec!["k".to_string()]);
}

#[test]
fn app_errors_map_to_statuses() {
    let e = AppError::InvalidInput("x".to_string());
    assert_eq!(e.status_code(), 400);
    let r = e.error_response();
    assert_eq!((r.status, r.message.as_str()), (400, "Invalid input: x"));
    let e = AppError::NotFound("y".to_string());
    assert_eq!(e.error_response().message, "Not found: y");
    assert_eq!(e.status_code(), 404);
    let e = AppError::Watchdog(FrameworkError::Custom("z".to_string()));
    assert_eq!(e.error_response().message, "Watchdog error: Custom error: z");
    assert_eq!(e.status_code(), 500);
    let e = AppError::Io(std::io::Error::new(std::io::ErrorKind::Other, "disk"));
    assert_eq!(e.error_response().message, "IO error: disk");
    let json_err = serde_json::from_str::<u8>("x").unwrap_err();
    let text = json_err.to_string();
    let e = AppError::Serialization(json_err);
    assert_eq!(e.error_response().message, format!("Serialization error: {}", text));
    let r = ApiErrorResponse::new(404, "m".to_string());
    assert!(r.data.is_none());
}

#[test]
fn framework_error_messages() {
    assert_eq!(FrameworkError::Network("a".to_string()).message(), "Network error: a");
    assert_eq!(FrameworkError::Custom("b".to_string()).message(), "Custom error: b");
    assert_eq!(FrameworkError::Email("c".to_string()).message(), "Email error: c");
    let json_err = serde_json::from_str::<u8>("x").unwrap_err();
    let text = json_err.to_string();
    let e: FrameworkError = json_err.into();
    assert_eq!(e.message(), format!("Serialization error: {}", text));
}

#[test]
fn default_config() {
    let c = WatchdogConfig::default();
    assert_eq!(c.fetch_interval, Duration::from_secs(60));
    assert_eq!(c.fetch_worker_threads, 4);
    let d = c.clone();
    assert_eq!(d.fetch_interval, Duration::from_secs(60));
}

#[test]
fn an_identifier_held_by_another_user_is_refused() {
    let mut manager = SubscriptionManager::<ArxivCriteria>::new();
    manager.add_subscription(Subscription::new(
        "alice".to_string(),
        ArxivCriteria::new("shared".to_string(), vec!["rust".to_string()]),
    ));
    let taken = CreateSubscriptionRequest {
        user_id: "bob".to_string(),
        subscription_id: "shared".to_string(),
        keywords: vec!["go".to_string()],
    };
    let r = plan_subscription_for(&manager, taken).err().unwrap();
    assert_eq!((r.status, r.message.as_str()), (409, "Subscription with this name already exists"));
    assert!(r.data.is_none());
    let fresh = CreateSubscriptionRequest {
        user_id: "bob".to_string(),
        subscription_id: "own".to_string(),
        keywords: vec!["go".to_string()],
    };
    let s = plan_subscription_for(&manager, fresh).ok().unwrap();
    assert_eq!(s.user_id, "bob");
    assert_eq!(s.criteria.id(), "own");
}
