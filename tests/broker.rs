use mercurius::broker::{Handle, WatchTable};
use mercurius::registry::SubscriptionHandle;

#[test]
fn release_of_last_subscriber_stops_watching() {
    let mut t: WatchTable<u32> = WatchTable::new();
    assert!(!t.is_watched("orders"));
    t.insert("orders".to_string(), 1);
    assert!(t.is_watched("orders"));
    assert_eq!(t.release("orders", 2), None);
    assert!(t.is_watched("orders"));
    assert_eq!(t.release("orders", 0), Some(1));
    assert!(!t.is_watched("orders"));
    t.insert("orders".to_string(), 2);
    assert_eq!(t.get("orders"), Some(&2));
}

#[test]
fn release_of_unknown_collection_is_noop() {
    let mut t: WatchTable<u32> = WatchTable::new();
    t.insert("a".to_string(), 1);
    assert_eq!(t.release("b", 0), None);
    assert_eq!(t.remove("b"), None);
    assert_eq!(t.len(), 1);
    assert_eq!(t.get("a"), Some(&1));
    assert_eq!(t.remove("a"), Some(1));
    assert_eq!(t.len(), 0);
}

#[test]
fn handle_carries_collection_and_id() {
    let h = Handle::new("users".to_string(), SubscriptionHandle(3));
    assert_eq!(h.collection(), "users");
    assert_eq!(h.subscription(), SubscriptionHandle(3));
}
