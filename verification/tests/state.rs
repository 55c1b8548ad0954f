use rina_bot::runtime::{Notification, ProcessedNotifications, Runtime};

#[test]
fn inserting_twice_leaves_size_unchanged() {
    let mut p = ProcessedNotifications::new();
    p.insert("100".to_string());
    assert_eq!(p.len(), 1);
    p.insert("100".to_string());
    assert_eq!(p.len(), 1);
    p.insert("200".to_string());
    assert_eq!(p.len(), 2);
    assert!(p.contains("100"));
    assert!(p.contains("200"));
    assert!(!p.contains("300"));
}

#[test]
fn loading_drops_duplicate_entries() {
    let ids = vec![
        "1".to_string(),
        "2".to_string(),
        "1".to_string(),
        "3".to_string(),
        "2".to_string(),
    ];
    let p = ProcessedNotifications::from_ids(ids);
    assert_eq!(p.len(), 3);
    assert!(p.contains("1"));
    assert!(p.contains("2"));
    assert!(p.contains("3"));
}

#[test]
fn default_record_is_empty() {
    let p = ProcessedNotifications::default();
    assert_eq!(p.len(), 0);
    assert!(!p.contains("1"));
}

#[test]
fn recording_a_post_appends_exactly_one_entry() {
    let mut rt = Runtime::new(vec!["older post".to_string()], ProcessedNotifications::new());
    rt.record_post("a fresh post");
    assert_eq!(rt.memory().len(), 2);
    assert_eq!(rt.memory().last().unwrap(), "a fresh post");
    rt.record_post("another one");
    assert_eq!(rt.memory().len(), 3);
    assert_eq!(rt.memory().last().unwrap(), "another one");
}

#[test]
fn notification_batch_takes_at_most_five() {
    let notifications: Vec<Notification> = (0..8)
        .map(|i| Notification { id: i.to_string(), text: format!("mention {}", i) })
        .collect();
    let batch = Runtime::notification_batch(notifications);
    assert_eq!(batch.len(), 5);
    for (i, n) in batch.iter().enumerate() {
        assert_eq!(n.id, i.to_string());
    }

    let few: Vec<Notification> =
        (0..3).map(|i| Notification { id: i.to_string(), text: String::new() }).collect();
    assert_eq!(Runtime::notification_batch(few).len(), 3);

    assert_eq!(Runtime::notification_batch(Vec::new()).len(), 0);
}

#[test]
fn marking_processed_is_idempotent() {
    let mut rt = Runtime::new(Vec::new(), ProcessedNotifications::new());
    assert!(!rt.is_processed("42"));
    rt.mark_processed("42");
    assert!(rt.is_processed("42"));
    assert_eq!(rt.processed_ids().len(), 1);
    rt.mark_processed("42");
    assert_eq!(rt.processed_ids().len(), 1);
}

#[test]
fn agents_are_added_in_order() {
    let mut rt = Runtime::new(Vec::new(), ProcessedNotifications::new());
    assert!(!rt.has_agents());
    rt.add_agent("first persona");
    rt.add_agent("second persona");
    assert!(rt.has_agents());
    assert_eq!(rt.agents_count(), 2);
}

#[test]
fn selection_is_in_range_and_roughly_uniform() {
    let mut rt = Runtime::new(Vec::new(), ProcessedNotifications::new());
    let n = 4;
    for i in 0..n {
        rt.add_agent(&format!("persona {}", i));
    }
    let rounds = 8000;
    let mut counts = vec![0usize; n];
    for _ in 0..rounds {
        let i = rt.select_agent_index();
        assert!(i < n);
        counts[i] += 1;
    }
    // expected 2000 per agent; allow a generous band around 1/n
    for c in counts {
        assert!(c > 1500 && c < 2500, "selection frequency out of band: {}", c);
    }
}

#[test]
fn single_agent_is_always_selected() {
    let mut rt = Runtime::new(Vec::new(), ProcessedNotifications::new());
    rt.add_agent("only persona");
    for _ in 0..50 {
        assert_eq!(rt.select_agent_index(), 0);
    }
}
