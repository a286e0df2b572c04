use watchdog::notifiers::composition::CompositeNotifier;
use watchdog::notifiers::registry::NotifierRegistry;
use watchdog::notifiers::{ConsoleNotifier, EmailNotifier, Notification};
use watchdog::subscription::{Subscription, SubscriptionCriteria, SubscriptionManager};

#[test]
fn test_console_notifier() {
    let mut notifier: ConsoleNotifier = ConsoleNotifier::new("console".to_string());
    let notification = Notification {
        user_id: "test_user".to_string(),
        title: "Test Notification".to_string(),
        content: "This is a test notification".to_string(),
        timestamp: 1234567890,
    };

    // Test that we can set the name
    notifier.set_name("new_name".to_string());
    assert_eq!(notifier.name(), "new_name");

    // Sending writes this line
    let line = ConsoleNotifier::format_line(
        &notification.user_id,
        &notification.title,
        &notification.content,
        notification.timestamp,
    );
    assert_eq!(
        line,
        "Notification to test_user: Test Notification - This is a test notification (at 1234567890)"
    );
}

#[derive(Debug, Clone)]
struct KeywordCriteria {
    id: String,
    keyword: String,
}

impl SubscriptionCriteria for KeywordCriteria {
    type Content = String;

    fn matches(&self, content: &String) -> bool {
        content.contains(&self.keyword)
    }

    fn id(&self) -> &String {
        &self.id
    }
}

fn keyword_sub(user: &str, id: &str, keyword: &str) -> Subscription<KeywordCriteria> {
    Subscription::new(
        user.to_string(),
        KeywordCriteria { id: id.to_string(), keyword: keyword.to_string() },
    )
}

#[test]
fn test_notifier_manager() {
    let mut subscriptions = SubscriptionManager::<KeywordCriteria>::new();
    subscriptions.add_subscription(keyword_sub("test_user", "test_sub", "test"));

    let mut registry: NotifierRegistry<u32> = NotifierRegistry::new();
    registry.add_notifier("test_user".to_string(), "test".to_string(), 7);

    let content = "this is a test message".to_string();
    let plan = registry.deliveries_for(&subscriptions, &content);
    assert_eq!(plan.len(), 1);
    assert_eq!(plan[0].user_id, "test_user");
    assert_eq!(plan[0].notifier_index, 0);
    assert_eq!(registry.notifier_at(&plan[0].user_id, plan[0].notifier_index), Some(&7));

    let notification = Notification::subscription_update(plan[0].user_id.clone(), content.clone(), 5);
    assert_eq!(notification.user_id, "test_user");
    assert_eq!(notification.content, "this is a test message");
    assert_eq!(notification.title, "Subscription Update");
}

#[test]
fn test_notifier_manager_with_actix() {
    let mut subscriptions = SubscriptionManager::<KeywordCriteria>::new();
    subscriptions.add_subscription(keyword_sub("test_user", "sub1", "test"));
    let mut registry: NotifierRegistry<&str> = NotifierRegistry::new();
    registry.add_notifier("test_user".to_string(), "test".to_string(), "handle");
    let plan = registry.deliveries_for(&subscriptions, &"this is a test message".to_string());
    assert_eq!(plan.len(), 1);
}

#[test]
fn every_notifier_of_every_matching_user_gets_a_delivery() {
    let mut subscriptions = SubscriptionManager::<KeywordCriteria>::new();
    subscriptions.add_subscription(keyword_sub("alice", "a", "rust"));
    subscriptions.add_subscription(keyword_sub("bob", "b", "go"));
    subscriptions.add_subscription(keyword_sub("carol", "c", "rust"));
    let mut registry: NotifierRegistry<u32> = NotifierRegistry::new();
    registry.add_notifier("alice".to_string(), "mail".to_string(), 1);
    registry.add_notifier("alice".to_string(), "console".to_string(), 2);
    registry.add_notifier("bob".to_string(), "mail".to_string(), 3);
    let plan = registry.deliveries_for(&subscriptions, &"rust 2024".to_string());
    let steps: Vec<(String, usize)> =
        plan.iter().map(|d| (d.user_id.clone(), d.notifier_index)).collect();
    // carol matched but has no notifiers; bob has notifiers but did not match
    assert_eq!(steps, vec![("alice".to_string(), 0), ("alice".to_string(), 1)]);
}

#[test]
fn registry_add_remove_and_list() {
    let mut registry: NotifierRegistry<u32> = NotifierRegistry::new();
    registry.add_notifier("u".to_string(), "a".to_string(), 1);
    registry.add_notifier("u".to_string(), "b".to_string(), 2);
    registry.add_notifier("u".to_string(), "a".to_string(), 3);
    registry.add_notifier("v".to_string(), "a".to_string(), 4);
    assert_eq!(registry.get_user_notifiers("u"), vec!["a", "b", "a"]);
    registry.remove_notifier("u", "a");
    assert_eq!(registry.get_user_notifiers("u"), vec!["b"]);
    assert_eq!(registry.notifier_at(&"u".to_string(), 0), Some(&2));
    assert_eq!(registry.get_user_notifiers("v"), vec!["a"]);
    registry.remove_notifier("u", "b");
    assert!(registry.get_user_notifiers("u").is_empty());
    assert_eq!(registry.notifier_at(&"u".to_string(), 0), None);
    registry.remove_all_notifiers("v");
    assert!(registry.get_user_notifiers("v").is_empty());
    assert!(registry.get_user_notifiers("nobody").is_empty());
}

#[test]
fn remove_undoes_add_of_a_new_name() {
    let mut registry: NotifierRegistry<u32> = NotifierRegistry::new();
    registry.add_notifier("u".to_string(), "a".to_string(), 1);
    registry.add_notifier("u".to_string(), "b".to_string(), 2);
    registry.remove_notifier("u", "b");
    assert_eq!(registry.get_user_notifiers("u"), vec!["a"]);
}

#[test]
fn email_notifier_prepares_mail_for_known_users_only() {
    let mut notifier = EmailNotifier::new(
        "email".to_string(),
        "smtp.example.com".to_string(),
        465,
        "bot@example.com".to_string(),
        "secret".to_string(),
    );
    notifier.set_user_email("alice".to_string(), "alice@example.com".to_string());
    assert_eq!(notifier.get_user_email("alice"), Some("alice@example.com".to_string()));
    assert_eq!(notifier.get_user_email("bob"), None);
    assert_eq!(notifier.smtp_server(), "smtp.example.com");
    assert_eq!(notifier.smtp_port(), 465);

    let draft = notifier.prepare_email("alice", "New paper", "Rust for cats", 42).unwrap();
    assert_eq!(draft.from, "bot@example.com");
    assert_eq!(draft.to, "alice@example.com");
    assert_eq!(draft.subject, "New paper");
    assert_eq!(draft.body, "Hello alice,\n\nRust for cats\n\nSent at: 42");

    let missing = notifier.prepare_email("bob", "New paper", "Rust for cats", 42);
    assert_eq!(missing.err(), Some("No email address found for user bob".to_string()));

    notifier.set_user_email("alice".to_string(), "a2@example.com".to_string());
    assert_eq!(notifier.get_user_email("alice"), Some("a2@example.com".to_string()));
    notifier.set_name("renamed".to_string());
    assert_eq!(notifier.name(), "renamed");
}

#[test]
fn composite_notifier_names() {
    let mut composite: CompositeNotifier<u32> = CompositeNotifier::new();
    assert_eq!(composite.len(), 0);
    composite.add_notifier("console".to_string(), 1);
    composite.add_notifier("email".to_string(), 2);
    composite.add_notifier("console".to_string(), 3);
    assert_eq!(composite.list_notifiers(), vec!["console", "email"]);
    assert_eq!(composite.get_notifier(&"console".to_string()), Some(&3));
    assert_eq!(composite.remove_notifier("console"), Some(3));
    assert_eq!(composite.remove_notifier("console"), None);
    assert_eq!(composite.list_notifiers(), vec!["email"]);
    assert_eq!(composite.len(), 1);
}

#[test]
fn notification_new_keeps_its_fields() {
    let n = Notification::new("u".to_string(), "t".to_string(), 5u8);
    assert_eq!(n.user_id, "u");
    assert_eq!(n.title, "t");
    assert_eq!(n.content, 5);
    assert!(n.timestamp > 1_600_000_000);
}
