use std::sync::Arc;

use mongodb::bson::Document;
use mongodb::change_stream::event::UpdateDescription;
use serde_json_matcher::ObjMatcher;
use tokio::sync::mpsc::error::SendError;
use tokio::sync::mpsc::UnboundedSender;
use vstd::prelude::*;

verus! {

/// What a subscriber receives.
#[derive(Debug)]
pub enum Event {
    /// A document entered the subscriber's view.
    Added(Arc<Document>),
    /// The document with this key left the subscriber's view.
    Removed(Arc<String>),
    /// A document in view was updated; the change description is passed on.
    Updated((Arc<String>, Arc<UpdateDescription>)),
    /// A document in view was replaced by the given one.
    Replaced((Arc<String>, Arc<Document>)),
    /// The collection was dropped or renamed, or the feed was invalidated:
    /// the subscription has to be removed by its owner.
    Drop,
}

/// How an update or replacement looks to one subscriber, given whether the
/// document matched its filter before and after the change.
#[derive(Debug, Clone, Copy, PartialEq, Eq)]
pub enum Transition {
    /// Matched before and after: the change itself is passed on.
    PassThrough,
    /// Matched before only: the document left the view.
    Left,
    /// Matched after only: the document entered the view.
    Entered,
    /// Matched neither time: nothing is delivered.
    Unseen,
}

/// The transition that a change with these match results is.
pub open spec fn transition_of(old_matches: bool, new_matches: bool) -> Transition {
    if old_matches && new_matches {
        Transition::PassThrough
    } else if old_matches {
        Transition::Left
    } else if new_matches {
        Transition::Entered
    } else {
        Transition::Unseen
    }
}

/// Classifies an update or replacement from the two match results.
pub fn transition(old_matches: bool, new_matches: bool) -> (r: Transition)
    ensures
        r == transition_of(old_matches, new_matches),
{
    if old_matches && new_matches {
        Transition::PassThrough
    } else if old_matches {
        Transition::Left
    } else if new_matches {
        Transition::Entered
    } else {
        Transition::Unseen
    }
}

/// The event that an insert of `document` delivers, given whether it matches.
pub fn insert_event(document: Arc<Document>, matched: bool) -> (r: Option<Event>)
    ensures
        r == (if matched { Some(Event::Added(document)) } else { None }),
{
    if matched {
        Some(Event::Added(document))
    } else {
        None
    }
}

/// The event that a delete of the document with `key` delivers, given
/// whether the document as it was before the delete matches.
pub fn delete_event(key: Arc<String>, matched: bool) -> (r: Option<Event>)
    ensures
        r == (if matched { Some(Event::Removed(key)) } else { None }),
{
    if matched {
        Some(Event::Removed(key))
    } else {
        None
    }
}

/// The event that an update delivers, given whether the document matched
/// before and after it.
pub fn update_event(
    key: Arc<String>,
    update: Arc<UpdateDescription>,
    new_doc: Arc<Document>,
    old_matches: bool,
    new_matches: bool,
) -> (r: Option<Event>)
    ensures
        r == match transition_of(old_matches, new_matches) {
            Transition::PassThrough => Some(Event::Updated((key, update))),
            Transition::Left => Some(Event::Removed(key)),
            Transition::Entered => Some(Event::Added(new_doc)),
            Transition::Unseen => None::<Event>,
        },
{
    match transition(old_matches, new_matches) {
        Transition::PassThrough => Some(Event::Updated((key, update))),
        Transition::Left => Some(Event::Removed(key)),
        Transition::Entered => Some(Event::Added(new_doc)),
        Transition::Unseen => None,
    }
}

/// The event that a replacement delivers, given whether the document matched
/// before and after it.
pub fn replace_event(key: Arc<String>, new_doc: Arc<Document>, old_matches: bool, new_matches: bool) -> (r:
    Option<Event>)
    ensures
        r == match transition_of(old_matches, new_matches) {
            Transition::PassThrough => Some(Event::Replaced((key, new_doc))),
            Transition::Left => Some(Event::Removed(key)),
            Transition::Entered => Some(Event::Added(new_doc)),
            Transition::Unseen => None::<Event>,
        },
{
    match transition(old_matches, new_matches) {
        Transition::PassThrough => Some(Event::Replaced((key, new_doc))),
        Transition::Left => Some(Event::Removed(key)),
        Transition::Entered => Some(Event::Added(new_doc)),
        Transition::Unseen => None,
    }
}

/// What serde_json::to_value makes of the document.
pub uninterp spec fn json_of(d: Document) -> Result<serde_json::Value, serde_json::Error>;

/// The keys of a JSON object, in order; `None` for any other value.
pub uninterp spec fn keys_of(v: serde_json::Value) -> Option<Seq<Seq<char>>>;

/// The member of a JSON object under a key, if there is one.
pub uninterp spec fn field_of(v: serde_json::Value, k: Seq<char>) -> Option<serde_json::Value>;

/// The matcher that serde_json_matcher::from_json builds from a value.
pub uninterp spec fn matcher_of(v: serde_json::Value) -> ObjMatcher;

/// Whether ObjMatcher::matches accepts the value.
pub uninterp spec fn accepts_of(m: ObjMatcher, v: serde_json::Value) -> bool;

/// Relies on serde_json::to_value: the document as a JSON value, through
/// bson's `Serialize`.
#[verifier::external_body]
fn document_json(document: &Document) -> (r: Result<serde_json::Value, serde_json::Error>)
    ensures
        r == json_of(*document),
{
    serde_json::to_value(document)
}

/// Relies on serde_json's Value::as_object and Map::keys: the keys of an
/// object.
#[verifier::external_body]
fn json_keys(v: &serde_json::Value) -> (r: Option<Vec<String>>)
    ensures
        match r {
            Some(ks) => keys_of(*v) == Some(ks@.map_values(|k: String| k@)),
            None => keys_of(*v) is None,
        },
{
    v.as_object().map(|o| o.keys().cloned().collect())
}

/// Relies on serde_json's Value::get: the member under a key.
#[verifier::external_body]
fn json_field<'a>(v: &'a serde_json::Value, k: &str) -> (r: Option<&'a serde_json::Value>)
    ensures
        match r {
            Some(f) => field_of(*v, k@) == Some(*f),
            None => field_of(*v, k@) is None,
        },
{
    v.get(k)
}

/// The keys that serde_json_matcher reads as operators.
pub open spec fn is_operator_key(k: Seq<char>) -> bool {
    k == "$eq"@ || k == "$in"@ || k == "$ne"@ || k == "$nin"@ || k == "$and"@ || k == "$not"@ || k
        == "$or"@ || k == "$type"@
}

/// The value is no object holding an operator key.
pub open spec fn operator_free(v: serde_json::Value) -> bool {
    match keys_of(v) {
        Some(ks) => forall|i: int| 0 <= i < ks.len() ==> !is_operator_key(#[trigger] ks[i]),
        None => true,
    }
}

/// A plain-equality filter: an object without operator keys whose members
/// hold no operator keys either. Each member is compared for equality with
/// the document's member of the same name.
pub open spec fn is_plain_filter(v: serde_json::Value) -> bool {
    match keys_of(v) {
        Some(ks) => operator_free(v) && forall|i: int|
            0 <= i < ks.len() ==> match field_of(v, #[trigger] ks[i]) {
                Some(f) => operator_free(f),
                None => true,
            },
        None => false,
    }
}

/// Relies on serde_json_matcher::from_json, which returns `Ok` on every
/// value whose top level holds no operator key (it panics on operators of
/// the wrong shape). An object filter with no keys accepts every value.
#[verifier::external_body]
fn matcher_from_json(v: serde_json::Value) -> (r: Result<ObjMatcher, serde_json::Error>)
    requires
        is_plain_filter(v),
    ensures
        r is Ok && r->Ok_0 == matcher_of(v),
        r is Ok && keys_of(v) == Some(Seq::<Seq<char>>::empty()) ==> forall|x: serde_json::Value|
            accepts_of(r->Ok_0, x),
{
    serde_json_matcher::from_json(v)
}

/// Relies on serde_json_matcher's ObjMatcher::matches. On a matcher built
/// from a plain filter it only compares members for equality, which does
/// not panic.
#[verifier::external_body]
fn matcher_accepts(matcher: &ObjMatcher, v: &serde_json::Value) -> (r: bool)
    requires
        exists|f: serde_json::Value| is_plain_filter(f) && *matcher == matcher_of(f),
    ensures
        r == accepts_of(*matcher, *v),
{
    matcher.matches(v)
}

/// Relies on tokio's UnboundedSender::send: queues the event without
/// blocking, and fails when the receiving end is gone.
#[verifier::external_body]
fn send_event(channel: &UnboundedSender<Event>, event: Event) -> (r: Result<(), SendError<Event>>) {
    channel.send(event)
}

/// Relies on `Arc::clone`: a second pointer to the same value.
#[verifier::external_body]
pub(crate) fn share<T>(a: &Arc<T>) -> (r: Arc<T>)
    ensures
        r == *a,
{
    Arc::clone(a)
}

/// Is `k` one of the operator keys?
fn operator_key(k: &String) -> (r: bool)
    ensures
        r == is_operator_key(k@),
{
    let ops: [&str; 8] = ["$eq", "$in", "$ne", "$nin", "$and", "$not", "$or", "$type"];
    proof {
        reveal_strlit("$eq");
        reveal_strlit("$in");
        reveal_strlit("$ne");
        reveal_strlit("$nin");
        reveal_strlit("$and");
        reveal_strlit("$not");
        reveal_strlit("$or");
        reveal_strlit("$type");
    }
    let mut i: usize = 0;
    while i < 8
        invariant
            i <= 8,
            ops@ == seq!["$eq", "$in", "$ne", "$nin", "$and", "$not", "$or", "$type"],
            forall|j: int| 0 <= j < i ==> k@ != (#[trigger] ops@[j])@,
        decreases 8 - i,
    {
        let o: String = ops[i].to_owned();
        if *k == o {
            return true;
        }
        i = i + 1;
    }
    false
}

/// Does the value hold no operator key at its top level?
fn check_operator_free(v: &serde_json::Value) -> (r: bool)
    ensures
        r == operator_free(*v),
{
    match json_keys(v) {
        None => true,
        Some(ks) => {
            let mut i: usize = 0;
            while i < ks.len()
                invariant
                    keys_of(*v) == Some(ks@.map_values(|k: String| k@)),
                    i <= ks.len(),
                    forall|j: int| 0 <= j < i ==> !is_operator_key(#[trigger] keys_of(*v)->Some_0[j]),
                decreases ks.len() - i,
            {
                if operator_key(&ks[i]) {
                    assert(keys_of(*v)->Some_0[i as int] == ks@[i as int]@);
                    return false;
                }
                assert(keys_of(*v)->Some_0[i as int] == ks@[i as int]@);
                i = i + 1;
            }
            true
        },
    }
}

/// Is the value a plain-equality filter?
pub fn check_plain_filter(v: &serde_json::Value) -> (r: bool)
    ensures
        r == is_plain_filter(*v),
{
    if !check_operator_free(v) {
        return false;
    }
    match json_keys(v) {
        None => false,
        Some(ks) => {
            let mut i: usize = 0;
            while i < ks.len()
                invariant
                    keys_of(*v) == Some(ks@.map_values(|k: String| k@)),
                    operator_free(*v),
                    i <= ks.len(),
                    forall|j: int|
                        0 <= j < i ==> match field_of(*v, #[trigger] keys_of(*v)->Some_0[j]) {
                            Some(f) => operator_free(f),
                            None => true,
                        },
                decreases ks.len() - i,
            {
                assert(keys_of(*v)->Some_0[i as int] == ks@[i as int]@);
                match json_field(v, ks[i].as_str()) {
                    Some(f) => {
                        if !check_operator_free(f) {
                            return false;
                        }
                    },
                    None => {},
                }
                i = i + 1;
            }
            true
        },
    }
}

/// Why a filter could not be turned into a matcher.
#[derive(Debug, Clone, Copy, PartialEq, Eq)]
pub enum FilterError {
    /// The filter could not be turned into a JSON value.
    NotJson,
    /// The filter uses operators; only plain equality of members is taken.
    NotPlain,
}

/// What happened to one subscriber's share of a change.
#[derive(Debug)]
pub enum Delivery {
    /// An event was queued on the subscriber's channel.
    Sent,
    /// The change means nothing to this subscriber.
    Suppressed,
    /// The subscriber's receiving end is gone; the event is handed back.
    Closed(SendError<Event>),
}

/// Does a subscription with this filter (none: everything) accept the
/// document? A document that cannot be turned into JSON passes no filter.
pub open spec fn filter_accepts(filter: Option<serde_json::Value>, d: Document) -> bool {
    match filter {
        None => true,
        Some(f) => match json_of(d) {
            Ok(x) => accepts_of(matcher_of(f), x),
            Err(_) => false,
        },
    }
}

/// A filter paired with the channel its events go to.
pub struct Subscription {
    selector: Option<ObjMatcher>,
    filter: Ghost<Option<serde_json::Value>>,
    channel: UnboundedSender<Event>,
}

impl Subscription {
    #[verifier::type_invariant]
    spec fn inv(&self) -> bool {
        match (self.selector, self.filter@) {
            (None, None) => true,
            (Some(m), Some(f)) => is_plain_filter(f) && m == matcher_of(f),
            _ => false,
        }
    }

    /// The filter as a JSON value; `None` when there is none.
    pub closed spec fn filter_value(&self) -> Option<serde_json::Value> {
        self.filter@
    }

    /// Does the subscription have a filter?
    pub open spec fn has_filter(&self) -> bool {
        self.filter_value() is Some
    }

    /// Does this subscription's filter accept the document?
    pub open spec fn accepts(&self, d: Document) -> bool {
        filter_accepts(self.filter_value(), d)
    }

    /// The document as a JSON value.
    pub fn document_to_value(document: &Document) -> (r: Result<serde_json::Value, serde_json::Error>)
        ensures
            r == json_of(*document),
    {
        document_json(document)
    }

    /// A subscription with the given filter; no filter matches every
    /// document. A filter must be a plain-equality filter.
    pub fn new(selector: Option<Document>, channel: UnboundedSender<Event>) -> (r: Result<Self, FilterError>)
        ensures
            match selector {
                None => r matches Ok(s) && s.filter_value() is None,
                Some(d) => match json_of(d) {
                    Err(_) => r matches Err(FilterError::NotJson),
                    Ok(v) => if is_plain_filter(v) {
                        r matches Ok(s) && s.filter_value() == Some(v)
                    } else {
                        r matches Err(FilterError::NotPlain)
                    },
                },
            },
            r matches Ok(s) ==> (s.filter_value() matches Some(v) && keys_of(v) == Some(
                Seq::<Seq<char>>::empty(),
            ) ==> forall|d: Document| json_of(d) is Ok ==> #[trigger] s.accepts(d)),
    {
        match selector {
            None => Ok(Subscription { selector: None, filter: Ghost(None), channel }),
            Some(doc) => match Subscription::document_to_value(&doc) {
                Err(_) => Err(FilterError::NotJson),
                Ok(v) => {
                    if !check_plain_filter(&v) {
                        return Err(FilterError::NotPlain);
                    }
                    let ghost gv = v;
                    match matcher_from_json(v) {
                        Err(_) => Err(FilterError::NotJson),
                        Ok(m) => Ok(Subscription { selector: Some(m), filter: Ghost(Some(gv)), channel }),
                    }
                },
            },
        }
    }

    /// Whether the document passes the filter. Without a filter every
    /// document passes; a document that cannot be turned into JSON passes
    /// no filter.
    pub fn matches(&self, document: &Document) -> (r: bool)
        ensures
            r == self.accepts(*document),
    {
        proof {
            use_type_invariant(self);
        }
        match &self.selector {
            None => true,
            Some(m) => match Subscription::document_to_value(document) {
                Ok(v) => matcher_accepts(m, &v),
                Err(_) => false,
            },
        }
    }

    /// Sends the event, if any, to the subscriber.
    pub(crate) fn deliver(&self, event: Option<Event>) -> (r: Delivery)
        ensures
            (r is Suppressed) <==> (event is None),
    {
        match event {
            None => Delivery::Suppressed,
            Some(e) => match send_event(&self.channel, e) {
                Ok(()) => Delivery::Sent,
                Err(x) => Delivery::Closed(x),
            },
        }
    }

    /// Delivers `Added` for an inserted document that passes the filter.
    pub fn handle_insert(&self, document: &Arc<Document>) -> (r: Result<(), SendError<Event>>)
        ensures
            !self.accepts(**document) ==> r is Ok,
    {
        let matched = self.matches(document);
        into_result(self.deliver(insert_event(share(document), matched)))
    }

    /// Delivers `Removed` for a deleted document that passed the filter.
    pub fn handle_delete(&self, key: &Arc<String>, document: &Document) -> (r: Result<(), SendError<Event>>)
        ensures
            !self.accepts(*document) ==> r is Ok,
    {
        let matched = self.matches(document);
        into_result(self.deliver(delete_event(share(key), matched)))
    }

    /// Delivers what an update looks like from this subscription's view.
    pub fn handle_update(
        &self,
        key: &Arc<String>,
        update: &Arc<UpdateDescription>,
        old_doc: &Document,
        new_doc: &Arc<Document>,
    ) -> (r: Result<(), SendError<Event>>)
        ensures
            transition_of(self.accepts(*old_doc), self.accepts(**new_doc)) == Transition::Unseen ==> r is Ok,
    {
        let old_matches = self.matches(old_doc);
        let new_matches = self.matches(new_doc);
        into_result(self.deliver(update_event(share(key), share(update), share(new_doc), old_matches, new_matches)))
    }

    /// Delivers what a replacement looks like from this subscription's view.
    pub fn handle_replace(&self, key: &Arc<String>, old_doc: &Document, new_doc: &Arc<Document>) -> (r: Result<
        (),
        SendError<Event>,
    >)
        ensures
            transition_of(self.accepts(*old_doc), self.accepts(**new_doc)) == Transition::Unseen ==> r is Ok,
    {
        let old_matches = self.matches(old_doc);
        let new_matches = self.matches(new_doc);
        into_result(self.deliver(replace_event(share(key), share(new_doc), old_matches, new_matches)))
    }

    /// Delivers `Drop`, whatever the filter.
    pub fn handle_drop(&self) -> (r: Result<(), SendError<Event>>) {
        into_result(self.deliver(drop_event()))
    }
}

/// The event that a drop-class change delivers to every subscriber.
pub fn drop_event() -> (r: Option<Event>)
    ensures
        r == Some(Event::Drop),
{
    Some(Event::Drop)
}

/// The outcome as the result of a send: only a closed channel is an error.
pub fn into_result(d: Delivery) -> (r: Result<(), SendError<Event>>)
    ensures
        r is Err <==> d is Closed,
{
    match d {
        Delivery::Closed(e) => Err(e),
        _ => Ok(()),
    }
}

} // verus!
