use std::sync::Arc;

use mongodb::bson::Document;
use mongodb::change_stream::event::{OperationType, UpdateDescription};
use vstd::prelude::*;

use crate::registry::SubscriptionsManager;
use crate::subscription::{transition_of, Delivery, Event, Subscription, Transition};

verus! {

/// The operation tag of a raw change-feed event.
#[derive(Debug, Clone, Copy, PartialEq, Eq)]
pub enum OperationKind {
    Insert,
    Update,
    Replace,
    Delete,
    Drop,
    Rename,
    DropDatabase,
    Invalidate,
    Other,
}

/// The kind that `operation_kind` gives for an operation type.
pub uninterp spec fn kind_of(op: OperationType) -> OperationKind;

/// The string `_id` of a document key, as bson's Document::get_str reads it.
pub uninterp spec fn id_of(key: Document) -> Option<Seq<char>>;

/// Relies on mongodb's `OperationType` variants: one kind for each, `Other`
/// for any other.
#[verifier::external_body]
pub fn operation_kind(op: &OperationType) -> (r: OperationKind)
    ensures
        r == kind_of(*op),
{
    match op {
        OperationType::Insert => OperationKind::Insert,
        OperationType::Update => OperationKind::Update,
        OperationType::Replace => OperationKind::Replace,
        OperationType::Delete => OperationKind::Delete,
        OperationType::Drop => OperationKind::Drop,
        OperationType::Rename => OperationKind::Rename,
        OperationType::DropDatabase => OperationKind::DropDatabase,
        OperationType::Invalidate => OperationKind::Invalidate,
        _ => OperationKind::Other,
    }
}

/// Relies on bson's Document::get_str: the string under `_id`, if there is
/// one.
#[verifier::external_body]
fn id_string(key: &Document) -> (r: Option<String>)
    ensures
        match r {
            Some(s) => id_of(*key) == Some(s@),
            None => id_of(*key) is None,
        },
{
    key.get_str("_id").ok().map(|s| s.to_string())
}

/// A change, with everything that dispatch needs of it.
#[derive(Debug)]
pub enum Change {
    Insert(Arc<Document>),
    Delete(Arc<String>, Document),
    Update(Arc<String>, Arc<UpdateDescription>, Document, Arc<Document>),
    Replace(Arc<String>, Document, Arc<Document>),
    Drop,
}

/// Why a watcher's loop stops.
#[derive(Debug, Clone, Copy, PartialEq, Eq)]
pub enum WatchError {
    /// The event has no document key, or its `_id` is not a string.
    MissingKey,
    /// Reading the change feed failed.
    FeedFailed,
    /// The event lacks the document after the change.
    MissingDocument,
    /// The event lacks the document before the change.
    MissingBeforeImage,
    /// An update lacks its change description.
    MissingUpdateDescription,
    /// The operation is not one that dispatch handles.
    Unsupported,
    /// The change feed ended.
    StreamEnded,
}

/// Is the kind one that ends the subscriptions (drop, rename, invalidate)?
pub open spec fn is_drop_class(kind: OperationKind) -> bool {
    kind == OperationKind::Drop || kind == OperationKind::Rename || kind == OperationKind::DropDatabase
        || kind == OperationKind::Invalidate
}

/// Is `r` what an event of this kind with these parts becomes: the change
/// holding those parts, or an error naming the first part that the kind
/// needs and the event lacks?
pub open spec fn classifies(
    r: Result<Change, WatchError>,
    kind: OperationKind,
    key: Option<String>,
    update: Option<UpdateDescription>,
    before: Option<Document>,
    after: Option<Document>,
) -> bool {
    match kind {
        OperationKind::Insert => match after {
            Some(d) => r matches Ok(Change::Insert(x)) && *x == d,
            None => r == Err::<Change, WatchError>(WatchError::MissingDocument),
        },
        OperationKind::Delete => match (key, before) {
            (None, _) => r == Err::<Change, WatchError>(WatchError::MissingKey),
            (Some(_), None) => r == Err::<Change, WatchError>(WatchError::MissingBeforeImage),
            (Some(k), Some(b)) => r matches Ok(Change::Delete(x, y)) && *x == k && y == b,
        },
        OperationKind::Update => match (key, update, after, before) {
            (None, _, _, _) => r == Err::<Change, WatchError>(WatchError::MissingKey),
            (Some(_), None, _, _) => r == Err::<Change, WatchError>(WatchError::MissingUpdateDescription),
            (Some(_), Some(_), None, _) => r == Err::<Change, WatchError>(WatchError::MissingDocument),
            (Some(_), Some(_), Some(_), None) => r == Err::<Change, WatchError>(WatchError::MissingBeforeImage),
            (Some(k), Some(u), Some(a), Some(b)) => r matches Ok(Change::Update(x, y, z, w)) && *x == k
                && *y == u && z == b && *w == a,
        },
        OperationKind::Replace => match (key, after, before) {
            (None, _, _) => r == Err::<Change, WatchError>(WatchError::MissingKey),
            (Some(_), None, _) => r == Err::<Change, WatchError>(WatchError::MissingDocument),
            (Some(_), Some(_), None) => r == Err::<Change, WatchError>(WatchError::MissingBeforeImage),
            (Some(k), Some(a), Some(b)) => r matches Ok(Change::Replace(x, y, z)) && *x == k && y == b
                && *z == a,
        },
        OperationKind::Other => r == Err::<Change, WatchError>(WatchError::Unsupported),
        _ => r matches Ok(Change::Drop),
    }
}

/// Turns the parts of a raw event into a change. A part that the kind needs
/// and the event lacks is an error, and so is an unsupported kind.
pub fn classify_change(
    kind: OperationKind,
    key: Option<String>,
    update: Option<UpdateDescription>,
    before: Option<Document>,
    after: Option<Document>,
) -> (r: Result<Change, WatchError>)
    ensures
        classifies(r, kind, key, update, before, after),
{
    match kind {
        OperationKind::Insert => match after {
            Some(d) => Ok(Change::Insert(Arc::new(d))),
            None => Err(WatchError::MissingDocument),
        },
        OperationKind::Delete => match (key, before) {
            (None, _) => Err(WatchError::MissingKey),
            (Some(_), None) => Err(WatchError::MissingBeforeImage),
            (Some(k), Some(b)) => Ok(Change::Delete(Arc::new(k), b)),
        },
        OperationKind::Update => match (key, update, after, before) {
            (None, _, _, _) => Err(WatchError::MissingKey),
            (Some(_), None, _, _) => Err(WatchError::MissingUpdateDescription),
            (Some(_), Some(_), None, _) => Err(WatchError::MissingDocument),
            (Some(_), Some(_), Some(_), None) => Err(WatchError::MissingBeforeImage),
            (Some(k), Some(u), Some(a), Some(b)) => Ok(
                Change::Update(Arc::new(k), Arc::new(u), b, Arc::new(a)),
            ),
        },
        OperationKind::Replace => match (key, after, before) {
            (None, _, _) => Err(WatchError::MissingKey),
            (Some(_), None, _) => Err(WatchError::MissingDocument),
            (Some(_), Some(_), None) => Err(WatchError::MissingBeforeImage),
            (Some(k), Some(a), Some(b)) => Ok(Change::Replace(Arc::new(k), b, Arc::new(a))),
        },
        OperationKind::Other => Err(WatchError::Unsupported),
        _ => Ok(Change::Drop),
    }
}

/// The string `_id` of an event's document key, if it has one.
pub fn event_key(document_key: Option<Document>) -> (r: Option<String>)
    ensures
        match document_key {
            None => r is None,
            Some(d) => match r {
                Some(s) => id_of(d) == Some(s@),
                None => id_of(d) is None,
            },
        },
{
    match document_key {
        None => None,
        Some(d) => id_string(&d),
    }
}

/// The event that a change delivers to one subscriber, given whether the
/// document matched the filter before the change (`old_matches`) and after it
/// (`new_matches`). An insert has no before, a delete no after: the other
/// flag is not read.
pub open spec fn delivered(change: Change, old_matches: bool, new_matches: bool) -> Option<Event> {
    match change {
        Change::Insert(d) => if new_matches {
            Some(Event::Added(d))
        } else {
            None
        },
        Change::Delete(k, _) => if old_matches {
            Some(Event::Removed(k))
        } else {
            None
        },
        Change::Update(k, u, _, n) => match transition_of(old_matches, new_matches) {
            Transition::PassThrough => Some(Event::Updated((k, u))),
            Transition::Left => Some(Event::Removed(k)),
            Transition::Entered => Some(Event::Added(n)),
            Transition::Unseen => None,
        },
        Change::Replace(k, _, n) => match transition_of(old_matches, new_matches) {
            Transition::PassThrough => Some(Event::Replaced((k, n))),
            Transition::Left => Some(Event::Removed(k)),
            Transition::Entered => Some(Event::Added(n)),
            Transition::Unseen => None,
        },
        Change::Drop => Some(Event::Drop),
    }
}

/// Computes `delivered` for the given match results.
pub fn change_event(change: &Change, old_matches: bool, new_matches: bool) -> (r: Option<Event>)
    ensures
        r == delivered(*change, old_matches, new_matches),
{
    match change {
        Change::Insert(d) => crate::subscription::insert_event(crate::subscription::share(d), new_matches),
        Change::Delete(k, _) => crate::subscription::delete_event(crate::subscription::share(k), old_matches),
        Change::Update(k, u, _, n) => crate::subscription::update_event(
            crate::subscription::share(k),
            crate::subscription::share(u),
            crate::subscription::share(n),
            old_matches,
            new_matches,
        ),
        Change::Replace(k, _, n) => crate::subscription::replace_event(
            crate::subscription::share(k),
            crate::subscription::share(n),
            old_matches,
            new_matches,
        ),
        Change::Drop => Some(Event::Drop),
    }
}

impl Subscription {
    /// The event that this subscription is owed for the change: `delivered`
    /// with its filter applied to the documents before and after the change.
    pub open spec fn expected_event(&self, change: Change) -> Option<Event> {
        match change {
            Change::Insert(d) => delivered(change, false, self.accepts(*d)),
            Change::Delete(_, b) => delivered(change, self.accepts(b), false),
            Change::Update(_, _, b, a) => delivered(change, self.accepts(b), self.accepts(*a)),
            Change::Replace(_, b, a) => delivered(change, self.accepts(b), self.accepts(*a)),
            Change::Drop => delivered(change, true, true),
        }
    }

    /// The event that this subscription gets for the change.
    pub fn event_for(&self, change: &Change) -> (r: Option<Event>)
        ensures
            r == self.expected_event(*change),
    {
        let (old_matches, new_matches) = match change {
            Change::Insert(d) => (false, self.matches(d)),
            Change::Delete(_, b) => (self.matches(b), false),
            Change::Update(_, _, b, a) => (self.matches(b), self.matches(a)),
            Change::Replace(_, b, a) => (self.matches(b), self.matches(a)),
            Change::Drop => (true, true),
        };
        change_event(change, old_matches, new_matches)
    }

    /// Hands this subscriber its event for the change, if it is owed one.
    pub fn handle_change(&self, change: &Change) -> (r: Delivery)
        ensures
            (r is Suppressed) <==> self.expected_event(*change) is None,
    {
        let event = self.event_for(change);
        self.deliver(event)
    }
}

/// One dispatch pass: every subscription present is offered the change, in
/// registration order, whether or not an earlier send failed. Outcome `i`
/// belongs to subscription `i`: it is `Suppressed` exactly when that
/// subscription is owed no event, and otherwise the owed event was handed
/// to its channel (`Sent`, or `Closed` when the receiver is gone).
pub fn dispatch(subscriptions: &SubscriptionsManager<Subscription>, change: &Change) -> (r: Vec<Delivery>)
    ensures
        r@.len() == subscriptions.entries().len(),
        forall|i: int|
            0 <= i < r@.len() ==> ((#[trigger] r@[i]) is Suppressed <==> subscriptions.entries()[i].1.expected_event(
                *change,
            ) is None),
{
    let mut outcomes: Vec<Delivery> = Vec::new();
    let n = subscriptions.len();
    let mut i: usize = 0;
    while i < n
        invariant
            n == subscriptions.entries().len(),
            i <= n,
            outcomes@.len() == i,
            forall|k: int|
                0 <= k < i ==> ((#[trigger] outcomes@[k]) is Suppressed <==> subscriptions.entries()[k].1.expected_event(
                    *change,
                ) is None),
        decreases n - i,
    {
        let outcome = subscriptions.get(i).handle_change(change);
        outcomes.push(outcome);
        i = i + 1;
    }
    outcomes
}

/// Each subscriber is owed `Added` of an inserted document exactly when its
/// filter accepts the document, `Removed` of a deleted document's key
/// exactly when its filter accepted the document before the delete, and
/// `Drop` for a drop-class change whatever its filter.
pub proof fn lemma_subscriber_share(s: Subscription, d: Arc<Document>, k: Arc<String>, b: Document)
    ensures
        s.expected_event(Change::Insert(d)) == (if s.accepts(*d) { Some(Event::Added(d)) } else { None }),
        s.expected_event(Change::Delete(k, b)) == (if s.accepts(b) { Some(Event::Removed(k)) } else { None }),
        s.expected_event(Change::Drop) == Some(Event::Drop),
{
}

/// A subscriber without a filter is owed an event for every change, as it
/// would be if every document matched.
pub proof fn lemma_unfiltered_sees_everything(s: Subscription, change: Change)
    requires
        !s.has_filter(),
    ensures
        s.expected_event(change) == delivered(change, true, true),
{
}

/// An insert reaches a subscriber exactly when the inserted document
/// matches its filter, and then as `Added` of that document.
pub proof fn lemma_insert_delivered_iff_matches(d: Arc<Document>, old_matches: bool, new_matches: bool)
    ensures
        delivered(Change::Insert(d), old_matches, new_matches) is Some <==> new_matches,
        new_matches ==> delivered(Change::Insert(d), old_matches, new_matches) == Some(Event::Added(d)),
{
}

/// A delete reaches a subscriber exactly when the document as it was before
/// the delete matches its filter, and then as `Removed` of its key.
pub proof fn lemma_delete_delivered_iff_matched(k: Arc<String>, before: Document, old_matches: bool, new_matches: bool)
    ensures
        delivered(Change::Delete(k, before), old_matches, new_matches) is Some <==> old_matches,
        old_matches ==> delivered(Change::Delete(k, before), old_matches, new_matches) == Some(
            Event::Removed(k),
        ),
{
}

/// An update or replacement delivers exactly one of: the change itself
/// (matched before and after), `Removed` (matched before only), `Added` of
/// the new document (matched after only), or nothing (matched neither), and
/// which one depends on the two match results alone.
pub proof fn lemma_update_replace_table(
    k: Arc<String>,
    u: Arc<UpdateDescription>,
    b: Document,
    n: Arc<Document>,
    old_matches: bool,
    new_matches: bool,
)
    ensures
        delivered(Change::Update(k, u, b, n), old_matches, new_matches) == (if old_matches && new_matches {
            Some(Event::Updated((k, u)))
        } else if old_matches {
            Some(Event::Removed(k))
        } else if new_matches {
            Some(Event::Added(n))
        } else {
            None
        }),
        delivered(Change::Replace(k, b, n), old_matches, new_matches) == (if old_matches && new_matches {
            Some(Event::Replaced((k, n)))
        } else if old_matches {
            Some(Event::Removed(k))
        } else if new_matches {
            Some(Event::Added(n))
        } else {
            None
        }),
{
}

/// A drop-class change reaches every subscriber as `Drop`, whatever its
/// filter says.
pub proof fn lemma_drop_reaches_everyone(old_matches: bool, new_matches: bool)
    ensures
        delivered(Change::Drop, old_matches, new_matches) == Some(Event::Drop),
{
}

/// Every drop-class operation becomes the drop change.
pub proof fn lemma_drop_class_classifies_as_drop(
    r: Result<Change, WatchError>,
    kind: OperationKind,
    key: Option<String>,
    update: Option<UpdateDescription>,
    before: Option<Document>,
    after: Option<Document>,
)
    requires
        is_drop_class(kind),
        classifies(r, kind, key, update, before, after),
    ensures
        r matches Ok(Change::Drop),
{
}

} // verus!
