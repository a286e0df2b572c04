use watchdog::notifiers::Notification;
use watchdog::service::arxiv::criteria::ArxivCriteria;
use watchdog::service::arxiv::model::ArxivPaper;
use watchdog::service::arxiv::notifier::ArxivNotifier;
use watchdog::subscription::{Subscription, SubscriptionCriteria, SubscriptionManager};

fn paper(title: &str, summary: &str, categories: &[&str]) -> ArxivPaper {
    ArxivPaper {
        id: "2401.00001".to_string(),
        title: title.to_string(),
        summary: summary.to_string(),
        authors: vec!["Ada".to_string(), "Alan".to_string()],
        published: "2024-01-01".to_string(),
        updated: "2024-01-02".to_string(),
        categories: categories.iter().map(|c| c.to_string()).collect(),
        link: "https://arxiv.org/abs/2401.00001".to_string(),
    }
}

#[test]
fn keywords_match_title_or_summary_ignoring_case() {
    let c = ArxivCriteria::new("c".to_string(), vec!["Verification".to_string()]);
    assert!(c.matches(&paper("Formal VERIFICATION of Rust", "nothing", &[])));
    assert!(c.matches(&paper("Rust", "we use verification tools", &[])));
    assert!(!c.matches(&paper("Rust", "we use tests", &[])));
    assert_eq!(c.id(), "c");
}

#[test]
fn a_paper_with_categories_matches_any_keyword() {
    let c = ArxivCriteria::new("c".to_string(), vec!["quantum".to_string()]);
    assert!(c.matches(&paper("Rust", "tests", &["cs.PL"])));
    let none = ArxivCriteria::new("n".to_string(), vec![]);
    assert!(!none.matches(&paper("quantum", "quantum", &["cs.PL"])));
}

#[test]
fn arxiv_subscriptions_select_matching_papers() {
    let mut m = SubscriptionManager::<ArxivCriteria>::new();
    m.add_subscription(Subscription::new(
        "alice".to_string(),
        ArxivCriteria::new("a".to_string(), vec!["rust".to_string()]),
    ));
    m.add_subscription(Subscription::new(
        "bob".to_string(),
        ArxivCriteria::new("b".to_string(), vec!["haskell".to_string()]),
    ));
    let matching = m.get_matching_subscriptions(&paper("Rust in space", "summary", &[]));
    assert_eq!(matching.len(), 1);
    assert_eq!(matching[0].user_id, "alice");
}

#[test]
fn paper_display_and_alert() {
    let p = paper("Title", "Summary", &[]);
    assert_eq!(p.display_text(), "Title - Summary by Ada, Alan");
    let n = Notification {
        user_id: "u1".to_string(),
        title: "Subscription Update".to_string(),
        content: p,
        timestamp: 3,
    };
    let notifier = ArxivNotifier;
    assert_eq!(
        notifier.alert(&n),
        "=== New arXiv Paper Alert ===\nTo: u1\nTitle: Title\nAuthors: Ada, Alan\nPublished: 2024-01-01\nSummary: Summary\nLink: https://arxiv.org/abs/2401.00001\n=============================="
    );
    let mut notifier = notifier;
    notifier.set_name("other".to_string());
    assert_eq!(notifier.name(), "arxiv_notifier");
}
