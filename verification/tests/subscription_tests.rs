use watchdog::subscription::{Subscription, SubscriptionCriteria, SubscriptionManager};

#[derive(Debug, Clone, Hash, PartialEq, Eq)]
struct TestCriteria {
    id: String,
    keywords: Vec<String>,
}

impl TestCriteria {
    fn new(id: String, keywords: Vec<String>) -> Self {
        Self { id, keywords }
    }
}

impl SubscriptionCriteria for TestCriteria {
    type Content = String;

    fn matches(&self, content: &String) -> bool {
        self.keywords.iter().any(|keyword| content.contains(keyword))
    }

    fn id(&self) -> &String {
        &self.id
    }
}

#[test]
fn test_subscription_manager() {
    let mut manager = SubscriptionManager::<TestCriteria>::new();

    let subscription = Subscription::new(
        "test_user".to_string(),
        TestCriteria::new("test_id".to_string(), vec!["test".to_string()]),
    );

    manager.add_subscription(subscription);

    assert_eq!(manager.get_subscriptions().len(), 1);

    let retrieved = manager.get_subscription(&"test_id".to_string());
    assert!(retrieved.is_some());
    assert_eq!(retrieved.unwrap().user_id, "test_user");

    // Test removal
    let removed = manager.remove_subscription(&"test_id".to_string());
    assert!(removed.is_some());
    assert_eq!(manager.get_subscriptions().len(), 0);
}

#[test]
fn test_criteria_matching() {
    let criteria = TestCriteria::new(
        "test_id".to_string(),
        vec!["rust".to_string(), "programming".to_string()],
    );

    assert!(criteria.matches(&"I love rust programming".to_string()));
    assert!(criteria.matches(&"rust is great".to_string()));
    assert!(!criteria.matches(&"Python is awesome".to_string()));
}

fn sub(user: &str, id: &str, keywords: &[&str]) -> Subscription<TestCriteria> {
    Subscription::new(
        user.to_string(),
        TestCriteria::new(id.to_string(), keywords.iter().map(|k| k.to_string()).collect()),
    )
}

#[test]
fn adding_an_existing_id_replaces_the_subscription() {
    let mut manager = SubscriptionManager::<TestCriteria>::new();
    manager.add_subscription(sub("alice", "a", &["x"]));
    manager.add_subscription(sub("bob", "a", &["y"]));
    assert_eq!(manager.get_subscriptions().len(), 1);
    assert_eq!(manager.get_subscription(&"a".to_string()).unwrap().user_id, "bob");
}

#[test]
fn removing_an_unknown_id_finds_nothing() {
    let mut manager = SubscriptionManager::<TestCriteria>::new();
    manager.add_subscription(sub("alice", "a", &["x"]));
    assert!(manager.remove_subscription(&"b".to_string()).is_none());
    assert_eq!(manager.get_subscriptions().len(), 1);
}

#[test]
fn remove_undoes_add() {
    let mut manager = SubscriptionManager::<TestCriteria>::new();
    manager.add_subscription(sub("alice", "a", &["x"]));
    manager.add_subscription(sub("bob", "b", &["y"]));
    manager.remove_subscription(&"b".to_string());
    assert_eq!(manager.get_subscriptions().keys(), vec!["a".to_string()]);
    assert!(manager.get_subscription(&"b".to_string()).is_none());
}

#[test]
fn matching_subscriptions_keep_the_managers_order() {
    let mut manager = SubscriptionManager::<TestCriteria>::new();
    manager.add_subscription(sub("alice", "a", &["rust"]));
    manager.add_subscription(sub("bob", "b", &["python"]));
    manager.add_subscription(sub("carol", "c", &["rust", "go"]));
    let matching = manager.get_matching_subscriptions(&"rust news".to_string());
    let users: Vec<&str> = matching.iter().map(|s| s.user_id.as_str()).collect();
    assert_eq!(users, vec!["alice", "carol"]);
    assert!(manager.get_matching_subscriptions(&"java".to_string()).is_empty());
}

#[test]
fn user_subscriptions_list_the_users_ids() {
    let mut manager = SubscriptionManager::<TestCriteria>::new();
    manager.add_subscription(sub("alice", "a1", &["x"]));
    manager.add_subscription(sub("bob", "b1", &["x"]));
    manager.add_subscription(sub("alice", "a2", &["x"]));
    assert_eq!(manager.get_user_subscriptions("alice"), vec!["a1".to_string(), "a2".to_string()]);
    assert_eq!(manager.get_user_subscriptions("bob"), vec!["b1".to_string()]);
    assert!(manager.get_user_subscriptions("dave").is_empty());
}

#[test]
fn default_manager_is_empty() {
    let manager: SubscriptionManager<TestCriteria> = Default::default();
    assert_eq!(manager.get_subscriptions().len(), 0);
}
