use std::collections::HashMap;
use watchdog::fetcher::FetchResult;
use watchdog::fetchers::{count_successes, CycleAction, CycleEvent, FetchCycle, FetcherRegistry};

#[test]
fn test_fetcher_manager() {
    let mut registry: FetcherRegistry<&str> = FetcherRegistry::new();
    registry.add_fetcher("user", "test", "test data fetcher");
    assert_eq!(registry.get_user_fetchers("user"), vec!["test".to_string()]);
    let targets = registry.cycle_targets();
    assert_eq!(targets, vec![("user".to_string(), "test".to_string())]);
    assert_eq!(
        registry.fetcher(&targets[0].0, &targets[0].1),
        Some(&"test data fetcher")
    );

    let mut cycle = FetchCycle::new();
    assert!(cycle.handle(CycleEvent::Start) == CycleAction::ScheduleTicks);
    assert!(cycle.handle(CycleEvent::Tick) == CycleAction::RunCycle);
    assert!(cycle.handle(CycleEvent::Stop) == CycleAction::StopTicks);
    assert!(cycle.handle(CycleEvent::Tick) == CycleAction::Skip);

    let mut metadata = HashMap::new();
    metadata.insert("source".to_string(), "test".to_string());
    let result = FetchResult { content: "test data".to_string(), metadata, timestamp: 100 };
    assert!(result.content.contains("test data"));
}

#[test]
fn fetchers_are_kept_per_user() {
    let mut registry: FetcherRegistry<u32> = FetcherRegistry::new();
    registry.add_fetcher("alice", "arxiv", 1);
    registry.add_fetcher("bob", "arxiv", 2);
    registry.add_fetcher("alice", "rss", 3);
    registry.add_fetcher("alice", "arxiv", 4);
    assert_eq!(registry.get_user_fetchers("alice"), vec!["arxiv", "rss"]);
    assert_eq!(registry.fetcher(&"alice".to_string(), &"arxiv".to_string()), Some(&4));
    assert_eq!(registry.fetcher(&"bob".to_string(), &"arxiv".to_string()), Some(&2));
    assert_eq!(registry.remove_fetcher("alice", "arxiv"), Some(()));
    assert_eq!(registry.get_user_fetchers("alice"), vec!["rss"]);
    assert_eq!(registry.remove_fetcher("alice", "missing"), Some(()));
    assert_eq!(registry.remove_fetcher("alice", "rss"), Some(()));
    assert!(registry.get_user_fetchers("alice").is_empty());
    assert_eq!(registry.cycle_targets(), vec![("bob".to_string(), "arxiv".to_string())]);
    assert_eq!(registry.fetcher(&"alice".to_string(), &"rss".to_string()), None);
}

#[test]
fn cycle_targets_cover_every_fetcher() {
    let mut registry: FetcherRegistry<u32> = FetcherRegistry::new();
    registry.add_fetcher("a", "x", 1);
    registry.add_fetcher("b", "y", 2);
    registry.add_fetcher("b", "z", 3);
    let targets = registry.cycle_targets();
    assert_eq!(targets.len(), 3);
    assert!(targets.contains(&("a".to_string(), "x".to_string())));
    assert!(targets.contains(&("b".to_string(), "y".to_string())));
    assert!(targets.contains(&("b".to_string(), "z".to_string())));
}

#[test]
fn successes_are_counted() {
    assert_eq!(count_successes(&vec![]), 0);
    assert_eq!(count_successes(&vec![true, false, true, true]), 3);
    assert_eq!(count_successes(&vec![false, false]), 0);
}

#[test]
fn a_stopped_cycle_ignores_ticks() {
    let mut cycle = FetchCycle::new();
    assert!(!cycle.running);
    assert!(cycle.handle(CycleEvent::Tick) == CycleAction::Skip);
    assert!(!cycle.running);
}
