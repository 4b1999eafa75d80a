use franz::server::{decimal_string, subscribe_failed, topic_not_found, TopicTable};

#[test]
fn table_lookup_after_insert() {
    let mut table: TopicTable<u32> = TopicTable::new();
    let a = "test_topic_1".to_string();
    let b = "other_topic".to_string();
    assert_eq!(table.get(&a), None);
    table.insert(a.clone(), 1);
    table.insert(b.clone(), 2);
    assert_eq!(table.get(&a), Some(&1));
    assert_eq!(table.get(&b), Some(&2));
    assert!(table.contains(&a));
    assert!(!table.contains(&"missing".to_string()));
}

#[test]
fn table_later_insert_wins() {
    let mut table: TopicTable<&str> = TopicTable::new();
    let name = "topic".to_string();
    table.insert(name.clone(), "first");
    table.insert("other".to_string(), "other");
    table.insert(name.clone(), "second");
    assert_eq!(table.get(&name), Some(&"second"));
    assert_eq!(table.get(&"other".to_string()), Some(&"other"));
}

#[test]
fn routing_unknown_topic() {
    let mut table: TopicTable<u8> = TopicTable::new();
    table.insert("known".to_string(), 7);
    assert_eq!(table.route(&"known".to_string()).ok(), Some(&7));
    match table.route(&"nope".to_string()) {
        Err(reply) => {
            assert_eq!(reply.status, 404);
            assert_eq!(reply.body, "topic with name nope does not exist");
        }
        Ok(_) => panic!("route to a missing topic"),
    }
}

#[test]
fn not_found_reply() {
    let reply = topic_not_found(&"events".to_string());
    assert_eq!(reply.status, 404);
    assert_eq!(reply.body, "topic with name events does not exist");
}

#[test]
fn subscribe_failed_reply() {
    let reply = subscribe_failed(42);
    assert_eq!(reply.status, 500);
    assert_eq!(reply.body, "unable to subscribe to topic with group 42");
}

#[test]
fn decimal_numbers() {
    assert_eq!(decimal_string(0), "0");
    assert_eq!(decimal_string(7), "7");
    assert_eq!(decimal_string(10), "10");
    assert_eq!(decimal_string(1234567890), "1234567890");
    assert_eq!(decimal_string(usize::MAX), usize::MAX.to_string());
}

#[test]
fn table_from_configured_topics() {
    let table = TopicTable::from_topics(vec![
        ("test_topic_1".to_string(), 16usize),
        ("other_topic".to_string(), 7usize),
        ("test_topic_1".to_string(), 2usize),
    ]);
    assert_eq!(table.get(&"test_topic_1".to_string()), Some(&2));
    assert_eq!(table.get(&"other_topic".to_string()), Some(&7));
    assert_eq!(table.get(&"missing".to_string()), None);
    let empty: TopicTable<u8> = TopicTable::from_topics(Vec::new());
    assert!(!empty.contains(&"test_topic_1".to_string()));
}
