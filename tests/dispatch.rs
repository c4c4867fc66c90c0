use std::sync::Arc;

use mercurius::registry::SubscriptionsManager;
use mercurius::subscription::{
    check_plain_filter, delete_event, drop_event, insert_event, into_result, replace_event, transition,
    update_event, Delivery, Event, FilterError, Subscription, Transition,
};
use mercurius::watcher::{change_event, classify_change, dispatch, event_key, Change, OperationKind, WatchError};
use mongodb::bson::Document;
use mongodb::change_stream::event::UpdateDescription;
use tokio::sync::mpsc::{unbounded_channel, UnboundedReceiver};

fn doc1(k: &str, v: &str) -> Document {
    let mut d = Document::new();
    d.insert(k, v);
    d
}

fn subscriber(filter: Option<Document>) -> (Subscription, UnboundedReceiver<Event>) {
    let (tx, rx) = unbounded_channel();
    (Subscription::new(filter, tx).unwrap(), rx)
}

fn empty_update() -> UpdateDescription {
    mongodb::bson::from_document(doc_with_update_fields()).unwrap()
}

fn doc_with_update_fields() -> Document {
    let mut d = Document::new();
    d.insert("updatedFields", Document::new());
    d.insert("removedFields", Vec::<String>::new());
    d
}

#[test]
fn transition_table() {
    assert_eq!(transition(true, true), Transition::PassThrough);
    assert_eq!(transition(true, false), Transition::Left);
    assert_eq!(transition(false, true), Transition::Entered);
    assert_eq!(transition(false, false), Transition::Unseen);
}

#[test]
fn pure_event_builders() {
    let d = Arc::new(doc1("a", "b"));
    assert!(matches!(insert_event(d.clone(), true), Some(Event::Added(x)) if *x == *d));
    assert!(insert_event(d.clone(), false).is_none());
    let k = Arc::new("k1".to_string());
    assert!(matches!(delete_event(k.clone(), true), Some(Event::Removed(x)) if *x == "k1"));
    assert!(delete_event(k.clone(), false).is_none());
    let u = Arc::new(empty_update());
    assert!(matches!(update_event(k.clone(), u.clone(), d.clone(), true, true), Some(Event::Updated(_))));
    assert!(matches!(update_event(k.clone(), u.clone(), d.clone(), true, false), Some(Event::Removed(_))));
    assert!(matches!(update_event(k.clone(), u.clone(), d.clone(), false, true), Some(Event::Added(_))));
    assert!(update_event(k.clone(), u, d.clone(), false, false).is_none());
    assert!(matches!(replace_event(k.clone(), d.clone(), true, true), Some(Event::Replaced(_))));
    assert!(matches!(replace_event(k.clone(), d.clone(), true, false), Some(Event::Removed(_))));
    assert!(matches!(replace_event(k.clone(), d.clone(), false, true), Some(Event::Added(_))));
    assert!(replace_event(k, d, false, false).is_none());
}

#[test]
fn no_filter_matches_everything() {
    let (s, _rx) = subscriber(None);
    assert!(s.matches(&doc1("status", "anything")));
    assert!(s.matches(&Document::new()));
}

#[test]
fn filtered_insert_active_and_inactive() {
    let (s, mut rx) = subscriber(Some(doc1("status", "active")));
    assert!(s.handle_insert(&Arc::new(doc1("status", "active"))).is_ok());
    assert!(matches!(rx.try_recv(), Ok(Event::Added(_))));
    assert!(s.handle_insert(&Arc::new(doc1("status", "inactive"))).is_ok());
    assert!(rx.try_recv().is_err());
}

#[test]
fn update_leaving_filter_is_removal() {
    let (s, mut rx) = subscriber(Some(doc1("status", "active")));
    let key = Arc::new("doc-1".to_string());
    let upd = Arc::new(empty_update());
    s.handle_update(&key, &upd, &doc1("status", "active"), &Arc::new(doc1("status", "inactive")))
        .unwrap();
    match rx.try_recv() {
        Ok(Event::Removed(k)) => assert_eq!(*k, "doc-1"),
        other => panic!("expected Removed, got {:?}", other.is_ok()),
    }
    assert!(rx.try_recv().is_err());
}

#[test]
fn delete_and_replace_follow_filter() {
    let (s, mut rx) = subscriber(Some(doc1("status", "active")));
    let key = Arc::new("k".to_string());
    s.handle_delete(&key, &doc1("status", "inactive")).unwrap();
    assert!(rx.try_recv().is_err());
    s.handle_delete(&key, &doc1("status", "active")).unwrap();
    assert!(matches!(rx.try_recv(), Ok(Event::Removed(_))));
    s.handle_replace(&key, &doc1("status", "inactive"), &Arc::new(doc1("status", "active"))).unwrap();
    assert!(matches!(rx.try_recv(), Ok(Event::Added(_))));
    s.handle_replace(&key, &doc1("status", "active"), &Arc::new(doc1("status", "active"))).unwrap();
    assert!(matches!(rx.try_recv(), Ok(Event::Replaced(_))));
}

#[test]
fn two_subscribers_only_unfiltered_gets_other_type() {
    let mut reg: SubscriptionsManager<Subscription> = SubscriptionsManager::new();
    let (a, mut rx_a) = subscriber(None);
    let (b, mut rx_b) = subscriber(Some(doc1("type", "X")));
    reg.add(a).unwrap();
    reg.add(b).unwrap();
    let change = Change::Insert(Arc::new(doc1("type", "Y")));
    let outcomes = dispatch(&reg, &change);
    assert_eq!(outcomes.len(), 2);
    assert!(matches!(outcomes[0], Delivery::Sent));
    assert!(matches!(outcomes[1], Delivery::Suppressed));
    assert!(matches!(rx_a.try_recv(), Ok(Event::Added(_))));
    assert!(rx_b.try_recv().is_err());
}

#[test]
fn drop_reaches_every_subscriber() {
    let mut reg: SubscriptionsManager<Subscription> = SubscriptionsManager::new();
    let (a, mut rx_a) = subscriber(Some(doc1("type", "X")));
    let (b, mut rx_b) = subscriber(None);
    reg.add(a).unwrap();
    reg.add(b).unwrap();
    let outcomes = dispatch(&reg, &Change::Drop);
    assert!(outcomes.iter().all(|o| matches!(o, Delivery::Sent)));
    assert!(matches!(rx_a.try_recv(), Ok(Event::Drop)));
    assert!(matches!(rx_b.try_recv(), Ok(Event::Drop)));
}

#[test]
fn closed_channel_does_not_stop_pass() {
    let mut reg: SubscriptionsManager<Subscription> = SubscriptionsManager::new();
    let (a, rx_a) = subscriber(None);
    let (b, mut rx_b) = subscriber(None);
    drop(rx_a);
    reg.add(a).unwrap();
    reg.add(b).unwrap();
    let outcomes = dispatch(&reg, &Change::Insert(Arc::new(doc1("x", "y"))));
    assert!(matches!(outcomes[0], Delivery::Closed(_)));
    assert!(matches!(outcomes[1], Delivery::Sent));
    assert!(matches!(rx_b.try_recv(), Ok(Event::Added(_))));
}

#[test]
fn classify_reports_missing_parts() {
    let d = || Some(doc1("a", "b"));
    let k = || Some("id1".to_string());
    assert!(matches!(classify_change(OperationKind::Insert, None, None, None, d()), Ok(Change::Insert(_))));
    assert_eq!(classify_change(OperationKind::Insert, None, None, None, None).err(), Some(WatchError::MissingDocument));
    assert_eq!(classify_change(OperationKind::Delete, None, None, d(), None).err(), Some(WatchError::MissingKey));
    assert_eq!(classify_change(OperationKind::Delete, k(), None, None, None).err(), Some(WatchError::MissingBeforeImage));
    assert!(matches!(classify_change(OperationKind::Delete, k(), None, d(), None), Ok(Change::Delete(_, _))));
    assert_eq!(
        classify_change(OperationKind::Update, k(), None, d(), d()).err(),
        Some(WatchError::MissingUpdateDescription)
    );
    assert_eq!(
        classify_change(OperationKind::Update, k(), Some(empty_update()), d(), None).err(),
        Some(WatchError::MissingDocument)
    );
    assert!(matches!(
        classify_change(OperationKind::Update, k(), Some(empty_update()), d(), d()),
        Ok(Change::Update(_, _, _, _))
    ));
    assert_eq!(classify_change(OperationKind::Replace, k(), None, None, d()).err(), Some(WatchError::MissingBeforeImage));
    assert!(matches!(classify_change(OperationKind::Replace, k(), None, d(), d()), Ok(Change::Replace(_, _, _))));
    assert_eq!(classify_change(OperationKind::Other, k(), None, d(), d()).err(), Some(WatchError::Unsupported));
    for kind in [OperationKind::Drop, OperationKind::Rename, OperationKind::DropDatabase, OperationKind::Invalidate] {
        assert!(matches!(classify_change(kind, None, None, None, None), Ok(Change::Drop)));
    }
}

#[test]
fn change_event_follows_flags() {
    let change = Change::Delete(Arc::new("k".to_string()), Document::new());
    assert!(matches!(change_event(&change, true, false), Some(Event::Removed(_))));
    assert!(change_event(&change, false, true).is_none());
    assert!(matches!(change_event(&Change::Drop, false, false), Some(Event::Drop)));
}

#[test]
fn key_is_string_id() {
    assert_eq!(event_key(Some(doc1("_id", "abc"))), Some("abc".to_string()));
    assert_eq!(event_key(Some(doc1("other", "abc"))), None);
    assert_eq!(event_key(None), None);
}

#[test]
fn operator_filters_are_refused() {
    let (tx, _rx) = unbounded_channel::<Event>();
    let mut inner = Document::new();
    inner.insert("$in", vec!["a", "b"]);
    let mut d = Document::new();
    d.insert("status", inner);
    assert_eq!(Subscription::new(Some(d), tx).err(), Some(FilterError::NotPlain));
    let (tx2, _rx2) = unbounded_channel::<Event>();
    assert_eq!(Subscription::new(Some(doc1("$eq", "active")), tx2).err(), Some(FilterError::NotPlain));
}

#[test]
fn plain_filter_check() {
    let mut nested = Document::new();
    nested.insert("city", "Oslo");
    let mut d = Document::new();
    d.insert("address", nested);
    d.insert("status", "active");
    let v = Subscription::document_to_value(&d).unwrap();
    assert!(check_plain_filter(&v));
    let mut op = Document::new();
    op.insert("$ne", 1);
    let mut d2 = Document::new();
    d2.insert("n", op);
    assert!(!check_plain_filter(&Subscription::document_to_value(&d2).unwrap()));
    assert!(!check_plain_filter(&serde_json::Value::from(5)));
}

#[test]
fn documents_with_object_ids_are_matched() {
    let (tx, mut rx) = unbounded_channel::<Event>();
    let mut filter = Document::new();
    filter.insert("status", "active");
    let s = Subscription::new(Some(filter), tx).unwrap();
    let mut d = Document::new();
    d.insert("_id", mongodb::bson::oid::ObjectId::new());
    d.insert("status", "active");
    d.insert("note", "say \"hi\"");
    assert!(s.matches(&d));
    s.handle_insert(&Arc::new(d)).unwrap();
    assert!(matches!(rx.try_recv(), Ok(Event::Added(_))));
}

#[test]
fn empty_filter_matches_every_document() {
    let (s, _rx) = subscriber(Some(Document::new()));
    assert!(s.matches(&doc1("status", "x")));
    assert!(s.matches(&Document::new()));
}

#[test]
fn drop_is_sent_whatever_the_filter() {
    let (s, mut rx) = subscriber(Some(doc1("type", "never")));
    assert!(s.handle_drop().is_ok());
    assert!(matches!(rx.try_recv(), Ok(Event::Drop)));
    drop(rx);
    assert!(s.handle_drop().is_err());
    assert!(matches!(drop_event(), Some(Event::Drop)));
}

#[test]
fn outcome_to_result() {
    assert!(into_result(Delivery::Sent).is_ok());
    assert!(into_result(Delivery::Suppressed).is_ok());
}
