//! What the service keeps for one connected client, and how it answers.
use crate::api_error::{
    known_error, new_authorize_error, new_get_metadata_error, new_set_error, plain_error_response,
    status_error, unsubscribe_error_response, ActionError, ActionErrorResponse, Topic,
    INTERNAL_SERVER_ERROR, NOT_FOUND_INVALID_PATH, NOT_FOUND_INVALID_SUBSCRIPTION_ID,
};
use crate::api_type::{interval_of, period, Action, ActionPath, ActionSuccessResponse, Filters};
use crate::client_laws::{
    law_requests_keep_consistency, law_signals_keep_consistency, law_verdicts_keep_consistency,
};
use crate::clock::{
    millis_of, reading_at, timestamp_millis, unix_timestamp_at, unix_timestamp_ms,
};
use crate::filter::{FilterError, Verdict};
use crate::identifier::{
    law_siblings_are_v4, law_siblings_differ, ReqID, SubscriptionID, Uuid,
};
use crate::subscription::{
    notice_model, response_model, Response, ResponseModel, Subscription, SubscriptionModel,
};
use serde_json::Value;
use std::collections::HashMap;
use std::time::SystemTime;
use vstd::hash_map::StringHashMap;
use vstd::prelude::*;

verus! {

broadcast use vstd::std_specs::hash::group_hash_axioms;

/// The state of one connected client.
pub struct Client {
    /// The client's subscriptions, by the key of their identifier.
    subscriptions: HashMap<u128, Subscription>,
    /// Current signal state, by path.
    signal_cache: StringHashMap<Value>,
    /// The subscriptions to notify once a signal is updated, by path.
    path_subscriptions: StringHashMap<Vec<SubscriptionID>>,
    /// The subscriptions served at an interval, with the seconds between two
    /// notifications, by the key of their identifier.
    periodic_subscriptions: HashMap<u128, u64>,
}

/// A [`Client`] as mathematical maps.
#[verifier::ext_equal]
pub struct ClientModel {
    pub subscriptions: Map<u128, SubscriptionModel>,
    pub signal_cache: Map<Seq<char>, Value>,
    pub path_subscriptions: Map<Seq<char>, Seq<SubscriptionID>>,
    pub periodic_subscriptions: Map<u128, u64>,
}

impl View for Client {
    type V = ClientModel;

    closed spec fn view(&self) -> ClientModel {
        ClientModel {
            subscriptions: self.subscriptions@.map_values(|s: Subscription| s@),
            signal_cache: self.signal_cache@,
            path_subscriptions: self.path_subscriptions@.map_values(|ids: Vec<SubscriptionID>| ids@),
            periodic_subscriptions: self.periodic_subscriptions@,
        }
    }
}

/// A timer to start: every so many seconds it reports the subscription's identifier.
#[derive(Clone, Copy, Debug, PartialEq, Eq, Structural)]
pub struct PeriodicTask {
    pub subscription_id: SubscriptionID,
    pub interval_secs: u64,
}

/// The answer to a request, with the timer that is to be started for it.
#[derive(Debug, PartialEq)]
pub struct Answer {
    pub response: Response,
    pub task: Option<PeriodicTask>,
}

/// What can happen to a client's task.
#[derive(Debug)]
pub enum ClientEvent {
    /// The client sent a request.
    Message(Action),
    /// A signal got a new value.
    Signal(ActionPath, Value),
    /// A queued notification is due.
    SubscriptionNotify(SubscriptionID, Value),
    /// The timer of a subscription fired.
    PeriodicNotify(SubscriptionID),
}

/// What a client's task does next.
#[derive(Debug, PartialEq)]
pub enum ClientStep {
    /// Send the response to the client, and start the timer if there is one.
    Respond(Answer),
    /// Queue the notifications, in this order.
    Queue(Vec<(SubscriptionID, Value)>),
    /// Put the value to the filters of the subscription, and hand their verdict to
    /// [`Client::notify_subscriber`].
    Judge(SubscriptionID, Value),
    /// Nothing.
    Idle,
}

/// Copies a list of identifiers.
fn copy_ids(ids: &Vec<SubscriptionID>) -> (copy: Vec<SubscriptionID>)
    ensures
        copy@ == ids@,
{
    let mut copy: Vec<SubscriptionID> = Vec::new();
    for i in 0..ids.len()
        invariant
            copy@ == ids@.take(i as int),
    {
        copy.push(ids[i]);
        assert(ids@.take(i + 1) == ids@.take(i as int).push(ids@[i as int]));
    }
    assert(ids@.take(ids.len() as int) == ids@);
    copy
}

/// A list of identifiers with one left out.
pub open spec fn without(ids: Seq<SubscriptionID>, id: SubscriptionID) -> Seq<SubscriptionID> {
    ids.filter(|other: SubscriptionID| other != id)
}

/// Nothing is left of an empty list.
proof fn lemma_without_empty(ids: Seq<SubscriptionID>, id: SubscriptionID)
    requires
        ids.len() == 0,
    ensures
        without(ids, id) == Seq::<SubscriptionID>::empty(),
{
    reveal(Seq::filter);
}

/// A further identifier is kept, unless it is the one left out.
proof fn lemma_without_push(ids: Seq<SubscriptionID>, last: SubscriptionID, id: SubscriptionID)
    ensures
        without(ids.push(last), id) == (if last != id {
            without(ids, id).push(last)
        } else {
            without(ids, id)
        }),
{
    reveal(Seq::filter);
    assert(ids.push(last).drop_last() == ids);
}

/// Copies a list of identifiers, leaving one out.
fn ids_without(ids: &Vec<SubscriptionID>, id: SubscriptionID) -> (rest: Vec<SubscriptionID>)
    ensures
        rest@ == without(ids@, id),
{
    let mut rest: Vec<SubscriptionID> = Vec::new();
    proof {
        lemma_without_empty(ids@.take(0), id);
    }
    for i in 0..ids.len()
        invariant
            rest@ == without(ids@.take(i as int), id),
    {
        let other = ids[i];
        if other != id {
            rest.push(other);
        }
        proof {
            assert(ids@.take(i + 1) == ids@.take(i as int).push(other));
            lemma_without_push(ids@.take(i as int), other, id);
        }
    }
    assert(ids@.take(ids.len() as int) == ids@);
    rest
}

impl ClientModel {
    /// A client that has neither subscriptions nor signal values.
    pub open spec fn empty() -> Self {
        ClientModel {
            subscriptions: Map::empty(),
            signal_cache: Map::empty(),
            path_subscriptions: Map::empty(),
            periodic_subscriptions: Map::empty(),
        }
    }

    /// The subscriptions that are notified of each update of a path.
    pub open spec fn subscribers(self, path: Seq<char>) -> Seq<SubscriptionID> {
        if self.path_subscriptions.contains_key(path) {
            self.path_subscriptions[path]
        } else {
            Seq::empty()
        }
    }

    /// The client after a signal got a new value.
    pub open spec fn after_signal(self, path: Seq<char>, value: Value) -> Self {
        ClientModel {
            signal_cache: self.signal_cache.insert(path, value),
            subscriptions: self.subscriptions.map_values(
                |s: SubscriptionModel| s.after_signal(path, value),
            ),
            ..self
        }
    }

    /// The notifications to queue for the update of a path: one for each
    /// subscription that is notified of each update.
    pub open spec fn queued(self, path: Seq<char>, value: Value) -> Seq<(SubscriptionID, Value)> {
        self.subscribers(path).map_values(|id: SubscriptionID| (id, value))
    }

    /// The client after it subscribed to a path under the given identifier.
    pub open spec fn after_subscribe(
        self,
        id: SubscriptionID,
        path: Seq<char>,
        filters: Option<Filters>,
    ) -> Self {
        let subscriptions = self.subscriptions.insert(
            id.key(),
            SubscriptionModel::fresh(id, path, filters),
        );
        match interval_of(filters) {
            Some(interval) => ClientModel {
                subscriptions,
                periodic_subscriptions: self.periodic_subscriptions.insert(
                    id.key(),
                    period(interval),
                ),
                ..self
            },
            None => ClientModel {
                subscriptions,
                path_subscriptions: self.path_subscriptions.insert(
                    path,
                    self.subscribers(path).push(id),
                ),
                ..self
            },
        }
    }

    /// The client after it ended one of its subscriptions.
    pub open spec fn after_unsubscribe(self, id: SubscriptionID) -> Self {
        let path = self.subscriptions[id.key()].path;
        ClientModel {
            subscriptions: self.subscriptions.remove(id.key()),
            path_subscriptions: if self.path_subscriptions.contains_key(path) {
                self.path_subscriptions.insert(
                    path,
                    without(self.path_subscriptions[path], id),
                )
            } else {
                self.path_subscriptions
            },
            periodic_subscriptions: self.periodic_subscriptions.remove(id.key()),
            ..self
        }
    }

    /// The client after it ended all its subscriptions.
    pub open spec fn after_unsubscribe_all(self) -> Self {
        ClientModel { signal_cache: self.signal_cache, ..ClientModel::empty() }
    }

    /// The answer to a `Get` request.
    pub open spec fn get_response(
        self,
        path: Seq<char>,
        request_id: ReqID,
        timestamp: u128,
    ) -> ResponseModel {
        if self.signal_cache.contains_key(path) {
            Ok(
                ActionSuccessResponse::Get {
                    request_id,
                    value: self.signal_cache[path],
                    timestamp,
                },
            )
        } else {
            Err(
                plain_error_response(
                    Topic::Get,
                    request_id,
                    known_error(NOT_FOUND_INVALID_PATH),
                    timestamp,
                ),
            )
        }
    }

    /// The answer to an `Unsubscribe` request.
    pub open spec fn unsubscribe_response(
        self,
        id: SubscriptionID,
        request_id: ReqID,
        timestamp: u128,
    ) -> ResponseModel {
        if self.subscriptions.contains_key(id.key()) {
            Ok(ActionSuccessResponse::Unsubscribe { request_id, subscription_id: id, timestamp })
        } else {
            Err(
                unsubscribe_error_response(
                    request_id,
                    id,
                    known_error(NOT_FOUND_INVALID_SUBSCRIPTION_ID),
                    timestamp,
                ),
            )
        }
    }

    /// The client after a request; a new subscription is named `fresh`.
    pub open spec fn after_request(self, action: Action, fresh: SubscriptionID) -> Self {
        match action {
            Action::Subscribe { path, filters, .. } => self.after_subscribe(fresh, path@, filters),
            Action::Unsubscribe { subscription_id, .. } => {
                if self.subscriptions.contains_key(subscription_id.key()) {
                    self.after_unsubscribe(subscription_id)
                } else {
                    self
                }
            },
            Action::UnsubscribeAll { .. } => self.after_unsubscribe_all(),
            _ => self,
        }
    }

    /// The answer to a request; a new subscription is named `fresh`.
    pub open spec fn response(
        self,
        action: Action,
        fresh: SubscriptionID,
        timestamp: u128,
    ) -> ResponseModel {
        match action {
            Action::Get { path, request_id } => self.get_response(path@, request_id, timestamp),
            Action::Subscribe { request_id, .. } => Ok(
                ActionSuccessResponse::Subscribe { request_id, subscription_id: fresh, timestamp },
            ),
            Action::UnsubscribeAll { request_id } => Ok(
                ActionSuccessResponse::UnsubscribeAll { request_id, timestamp },
            ),
            Action::Unsubscribe { subscription_id, request_id } => {
                self.unsubscribe_response(subscription_id, request_id, timestamp)
            },
            Action::SetSignal { request_id, .. } => refusal(Topic::SetSignal, request_id, timestamp),
            Action::GetMetadata { request_id, .. } => {
                refusal(Topic::GetMetadata, request_id, timestamp)
            },
            Action::Authorize { request_id, .. } => {
                refusal(Topic::Authorize, request_id, timestamp)
            },
        }
    }

    /// The client after the filters of one of its subscriptions gave a verdict.
    pub open spec fn after_verdict(
        self,
        id: SubscriptionID,
        value: Value,
        verdict: Verdict,
        now: SystemTime,
    ) -> Self {
        if self.subscriptions.contains_key(id.key()) {
            ClientModel {
                subscriptions: self.subscriptions.insert(
                    id.key(),
                    self.subscriptions[id.key()].after_verdict(value, verdict, now),
                ),
                ..self
            }
        } else {
            self
        }
    }

    /// What the client is told after the filters of one of its subscriptions judged a
    /// value. Of a subscription that it does not have it is told nothing.
    pub open spec fn notice(
        self,
        id: SubscriptionID,
        value: Value,
        verdict: Verdict,
        timestamp: u128,
    ) -> Option<ResponseModel> {
        if self.subscriptions.contains_key(id.key()) {
            self.subscriptions[id.key()].notice(value, verdict, timestamp)
        } else {
            None
        }
    }

    /// The value to report when a subscription's timer fires: the current value of
    /// its signal, if the client has the subscription and the signal a value.
    pub open spec fn periodic_value(self, id: SubscriptionID) -> Option<Value> {
        if self.subscriptions.contains_key(id.key()) && self.signal_cache.contains_key(
            self.subscriptions[id.key()].path,
        ) {
            Some(self.signal_cache[self.subscriptions[id.key()].path])
        } else {
            None
        }
    }
}

/// The answer to a request that the service does not carry out.
pub open spec fn refusal(topic: Topic, request_id: ReqID, timestamp: u128) -> ResponseModel {
    Err(plain_error_response(topic, request_id, status_error(INTERNAL_SERVER_ERROR), timestamp))
}

/// The timer that a request calls for: one where it subscribes at an interval. It fires
/// at most once a second.
pub open spec fn periodic_task(action: Action, fresh: SubscriptionID) -> Option<PeriodicTask> {
    match action {
        Action::Subscribe { filters, .. } => match interval_of(filters) {
            Some(interval) => Some(
                PeriodicTask { subscription_id: fresh, interval_secs: period(interval) },
            ),
            None => None,
        },
        _ => None,
    }
}

/// Where a client has subscriptions under the first siblings of an identifier, it has at
/// least as many subscriptions.
proof fn lemma_held_siblings(id: Uuid, last: u64, held: Set<u128>)
    requires
        held.finite(),
        forall|n: u64| n <= last ==> held.contains(id.bits ^ #[trigger] Uuid::sibling_mask(n)),
    ensures
        last < held.len(),
{
    let siblings = Seq::new(
        (last + 1) as nat,
        |n: int| id.bits ^ Uuid::sibling_mask(n as u64),
    );
    assert(siblings.no_duplicates()) by {
        assert forall|i: int, j: int|
            0 <= i < siblings.len() && 0 <= j < siblings.len() && i != j implies siblings[i]
            != siblings[j] by {
            law_siblings_differ(id, i as u64, j as u64);
        }
    }
    siblings.unique_seq_to_set();
    assert(siblings.to_set().subset_of(held)) by {
        assert forall|key: u128| siblings.to_set().contains(key) implies held.contains(key) by {
            let n = choose|n: int| 0 <= n < siblings.len() && siblings[n] == key;
            assert(held.contains(id.bits ^ Uuid::sibling_mask(n as u64)));
        }
    }
    vstd::set_lib::lemma_len_subset(siblings.to_set(), held);
}

impl Client {
    /// A client that has neither subscriptions nor signal values.
    pub fn new() -> (client: Self)
        ensures
            client@ == ClientModel::empty(),
            client@.consistent(),
    {
        let client = Client {
            subscriptions: HashMap::new(),
            signal_cache: StringHashMap::new(),
            path_subscriptions: StringHashMap::new(),
            periodic_subscriptions: HashMap::new(),
        };
        proof {
            assert(client@ =~= ClientModel::empty());
        }
        client
    }

    /// Answers a `Get` request from the current signal state.
    pub fn handle_get(
        &self,
        path: ActionPath,
        request_id: ReqID,
        timestamp: u128,
    ) -> (response: Response)
        ensures
            response_model(response) == self@.get_response(path@, request_id, timestamp),
            response is Ok <==> self@.signal_cache.contains_key(path@),
            response is Ok ==> response->Ok_0 == (ActionSuccessResponse::Get {
                request_id,
                value: self@.signal_cache[path@],
                timestamp,
            }),
            response is Err ==> {
                &&& response->Err_0 is Get
                &&& response->Err_0->Get_request_id == request_id
                &&& response->Err_0->Get_timestamp == timestamp
                &&& response->Err_0->Get_error@ == known_error(NOT_FOUND_INVALID_PATH)
            },
    {
        if let Some(signal) = self.signal_cache.get(path.0.as_str()) {
            Ok(ActionSuccessResponse::Get { request_id, value: signal.clone(), timestamp })
        } else {
            Err(
                ActionErrorResponse::Get {
                    request_id,
                    error: ActionError::from(NOT_FOUND_INVALID_PATH),
                    timestamp,
                },
            )
        }
    }

    /// Ends all subscriptions; the client is no longer notified for any of them.
    pub fn handle_unsubscribe_all(&mut self, request_id: ReqID, timestamp: u128) -> (response:
        Response)
        ensures
            final(self)@ == old(self)@.after_unsubscribe_all(),
            response == Ok::<_, ActionErrorResponse>(
                ActionSuccessResponse::UnsubscribeAll { request_id, timestamp },
            ),
    {
        self.path_subscriptions.clear();
        self.periodic_subscriptions.clear();
        self.subscriptions.clear();
        proof {
            assert(self@ =~= old(self)@.after_unsubscribe_all());
        }
        Ok(ActionSuccessResponse::UnsubscribeAll { request_id, timestamp })
    }

    /// Makes a subscription to a path, under the identifier `fresh`. The client is
    /// notified of updates of the path afterwards: of each update, or, where the
    /// filters ask for an interval, whenever the timer that is handed back fires, which
    /// is at most once a second.
    pub fn handle_subscribe(
        &mut self,
        path: ActionPath,
        request_id: ReqID,
        filters: Option<Filters>,
        fresh: SubscriptionID,
        timestamp: u128,
    ) -> (answer: Answer)
        ensures
            final(self)@ == old(self)@.after_subscribe(fresh, path@, filters),
            answer.response == Ok::<_, ActionErrorResponse>(
                ActionSuccessResponse::Subscribe { request_id, subscription_id: fresh, timestamp },
            ),
            answer.task == (match interval_of(filters) {
                Some(interval) => Some(
                    PeriodicTask { subscription_id: fresh, interval_secs: period(interval) },
                ),
                None => None,
            }),
            answer.task matches Some(task) ==> task.interval_secs >= 1,
    {
        let interval: Option<u64> = match filters {
            Some(f) => f.interval,
            None => None,
        };
        let task = match interval {
            Some(interval) => {
                let interval_secs: u64 = period(interval);
                self.periodic_subscriptions.insert(fresh.key(), interval_secs);
                Some(PeriodicTask { subscription_id: fresh, interval_secs })
            },
            None => {
                let mut ids: Vec<SubscriptionID> = match self.path_subscriptions.get(
                    path.0.as_str(),
                ) {
                    Some(ids) => copy_ids(ids),
                    None => Vec::new(),
                };
                assert(ids@ == old(self)@.subscribers(path@));
                ids.push(fresh);
                self.path_subscriptions.insert(path.0.clone(), ids);
                None
            },
        };
        self.subscriptions.insert(fresh.key(), Subscription::new(fresh, path, filters));
        proof {
            assert(self@ =~= old(self)@.after_subscribe(fresh, path@, filters));
        }
        Answer {
            response: Ok(
                ActionSuccessResponse::Subscribe { request_id, subscription_id: fresh, timestamp },
            ),
            task,
        }
    }

    /// Ends one subscription; the client is no longer notified for it.
    pub fn handle_unsubscribe(
        &mut self,
        request_id: ReqID,
        subscription_id: SubscriptionID,
        timestamp: u128,
    ) -> (response: Response)
        ensures
            old(self)@.subscriptions.contains_key(subscription_id.key()) ==> final(self)@ == old(
                self,
            )@.after_unsubscribe(subscription_id),
            !old(self)@.subscriptions.contains_key(subscription_id.key()) ==> final(self)@ == old(
                self,
            )@,
            response_model(response) == old(self)@.unsubscribe_response(
                subscription_id,
                request_id,
                timestamp,
            ),
            response is Ok <==> old(self)@.subscriptions.contains_key(subscription_id.key()),
            response is Ok ==> response->Ok_0 == (ActionSuccessResponse::Unsubscribe {
                request_id,
                subscription_id,
                timestamp,
            }),
            response is Err ==> {
                &&& response->Err_0 is Unsubscribe
                &&& response->Err_0->Unsubscribe_request_id == request_id
                &&& response->Err_0->Unsubscribe_subscription_id == subscription_id
                &&& response->Err_0->Unsubscribe_timestamp == timestamp
                &&& response->Err_0->Unsubscribe_error@ == known_error(
                    NOT_FOUND_INVALID_SUBSCRIPTION_ID,
                )
            },
            !final(self)@.subscriptions.contains_key(subscription_id.key()),
    {
        if let Some(subscription) = self.subscriptions.remove(&subscription_id.key()) {
            let path = subscription.path();
            let remaining: Option<Vec<SubscriptionID>> = match self.path_subscriptions.get(
                path.0.as_str(),
            ) {
                Some(ids) => Some(ids_without(ids, subscription_id)),
                None => None,
            };
            if let Some(ids) = remaining {
                self.path_subscriptions.insert(path.0.clone(), ids);
            }
            self.periodic_subscriptions.remove(&subscription_id.key());
            proof {
                let expected = old(self)@.after_unsubscribe(subscription_id);
                assert(old(self)@.subscriptions[subscription_id.key()] == subscription@);
                assert(self@.subscriptions =~= expected.subscriptions);
                assert(self@.periodic_subscriptions =~= expected.periodic_subscriptions);
                assert(self@.path_subscriptions =~= expected.path_subscriptions);
                assert(self@ =~= expected);
            }
            Ok(ActionSuccessResponse::Unsubscribe { request_id, subscription_id, timestamp })
        } else {
            proof {
                assert(self@ =~= old(self)@);
            }
            Err(
                ActionErrorResponse::Unsubscribe {
                    request_id,
                    subscription_id,
                    error: ActionError::from(NOT_FOUND_INVALID_SUBSCRIPTION_ID),
                    timestamp,
                },
            )
        }
    }

    /// The keys of the subscriptions, each once.
    fn subscription_keys(&self) -> (keys: Vec<u128>)
        ensures
            keys@.no_duplicates(),
            keys@.to_set() == self.subscriptions@.dom(),
    {
        let mut keys: Vec<u128> = Vec::new();
        for key in it: self.subscriptions.keys()
            invariant
                keys@ == it.seq().unref().take(it.index() as int),
                it.seq().unref().to_set() == self.subscriptions@.dom(),
                it.seq().no_duplicates(),
                it.index() == it.seq().len() ==> keys@ == it.seq().unref(),
        {
            keys.push(*key);
        }
        keys
    }

    /// Stores a new value of a signal, and hands back the notifications to queue for
    /// it.
    pub fn handle_signal(&mut self, path: ActionPath, value: Value) -> (queue: Vec<
        (SubscriptionID, Value),
    >)
        ensures
            final(self)@ == old(self)@.after_signal(path@, value),
            queue@ == old(self)@.queued(path@, value),
            old(self)@.consistent() ==> final(self)@.consistent(),
    {
        self.signal_cache.insert(path.0.clone(), value.clone());
        let keys = self.subscription_keys();
        let ghost before = self.subscriptions@;
        for i in 0..keys.len()
            invariant
                keys@.no_duplicates(),
                keys@.to_set() == before.dom(),
                self.subscriptions@.dom() == before.dom(),
                self.signal_cache@ == old(self).signal_cache@.insert(path@, value),
                self.path_subscriptions == old(self).path_subscriptions,
                self.periodic_subscriptions == old(self).periodic_subscriptions,
                forall|j: int|
                    0 <= j < i ==> self.subscriptions@[#[trigger] keys@[j]]@
                        == before[keys@[j]]@.after_signal(path@, value),
                forall|j: int|
                    i <= j < keys@.len() ==> self.subscriptions@[#[trigger] keys@[j]]
                        == before[keys@[j]],
        {
            let key: u128 = keys[i];
            assert(keys@.to_set().contains(key));
            if let Some(mut subscription) = self.subscriptions.remove(&key) {
                subscription.observe(&path, &value);
                self.subscriptions.insert(key, subscription);
            }
        }
        let mut queue: Vec<(SubscriptionID, Value)> = Vec::new();
        if let Some(ids) = self.path_subscriptions.get(path.0.as_str()) {
            for i in 0..ids.len()
                invariant
                    queue@ == ids@.take(i as int).map_values(|id: SubscriptionID| (id, value)),
            {
                queue.push((ids[i], value.clone()));
            }
        }
        proof {
            assert(self@ =~= old(self)@.after_signal(path@, value));
            if old(self)@.consistent() {
                law_signals_keep_consistency(old(self)@, path@, value);
            }
        }
        queue
    }

    /// Answers a request, with the identifier for a new subscription and the
    /// timestamp given. Requests that the service does not carry out are refused.
    pub fn dispatch_message_at(
        &mut self,
        action: Action,
        fresh: SubscriptionID,
        timestamp: u128,
    ) -> (answer: Answer)
        ensures
            final(self)@ == old(self)@.after_request(action, fresh),
            response_model(answer.response) == old(self)@.response(action, fresh, timestamp),
            answer.task == periodic_task(action, fresh),
    {
        let response = match action {
            Action::Get { path, request_id } => self.handle_get(path, request_id, timestamp),
            Action::Subscribe { path, request_id, filters } => {
                return self.handle_subscribe(path, request_id, filters, fresh, timestamp);
            },
            Action::UnsubscribeAll { request_id } => {
                self.handle_unsubscribe_all(request_id, timestamp)
            },
            Action::Unsubscribe { request_id, subscription_id } => {
                self.handle_unsubscribe(request_id, subscription_id, timestamp)
            },
            Action::SetSignal { request_id, .. } => Err(
                new_set_error(
                    request_id,
                    ActionError::from_status(INTERNAL_SERVER_ERROR),
                    timestamp,
                ),
            ),
            Action::GetMetadata { request_id, .. } => Err(
                new_get_metadata_error(
                    request_id,
                    ActionError::from_status(INTERNAL_SERVER_ERROR),
                    timestamp,
                ),
            ),
            Action::Authorize { request_id, .. } => Err(
                new_authorize_error(
                    request_id,
                    ActionError::from_status(INTERNAL_SERVER_ERROR),
                    timestamp,
                ),
            ),
        };
        Answer { response, task: None }
    }

    /// Names a new subscription: by the identifier drawn, or, where the client has a
    /// subscription under it already, by the first of its siblings that is free.
    fn free_identifier(&self, drawn: Uuid) -> (free: SubscriptionID)
        requires
            drawn.is_v4(),
        ensures
            !self@.subscriptions.contains_key(free.key()),
            free->SubscriptionIDUUID_0.is_v4(),
            !self@.subscriptions.contains_key(drawn.bits) ==> free
                == SubscriptionID::SubscriptionIDUUID(drawn),
    {
        let ghost held = self.subscriptions@.dom();
        let count: usize = self.subscriptions.len();
        let mut number: u64 = 0;
        let mut candidate = drawn.sibling(number);
        proof {
            law_siblings_differ(drawn, 0, 0);
            law_siblings_are_v4(drawn, 0);
        }
        while self.subscriptions.contains_key(&candidate.bits)
            invariant
                held == self.subscriptions@.dom(),
                held.finite(),
                count == held.len(),
                number <= count,
                candidate.bits == drawn.bits ^ Uuid::sibling_mask(number),
                candidate.is_v4(),
                drawn.is_v4(),
                number == 0 ==> candidate == drawn,
                number > 0 ==> held.contains(drawn.bits),
                forall|n: u64|
                    n < number ==> held.contains(drawn.bits ^ #[trigger] Uuid::sibling_mask(n)),
            decreases count - number,
        {
            proof {
                lemma_held_siblings(drawn, number, held);
                law_siblings_are_v4(drawn, (number + 1) as u64);
            }
            number = number + 1;
            candidate = drawn.sibling(number);
        }
        SubscriptionID::SubscriptionIDUUID(candidate)
    }

    /// Answers a request: a new subscription gets a randomly drawn identifier that the
    /// client has no subscription under, and the response is stamped with the current
    /// time.
    pub fn dispatch_message(&mut self, action: Action) -> (answer: Answer)
        ensures
            exists|fresh: SubscriptionID, timestamp: u128, now: SystemTime|
                {
                    &&& timestamp == millis_of(#[trigger] reading_at(now))
                    &&& (action is Subscribe ==> fresh->SubscriptionIDUUID_0.is_v4())
                    &&& (action is Subscribe ==> !old(self)@.subscriptions.contains_key(
                        fresh.key(),
                    ))
                    &&& final(self)@ == old(self)@.after_request(action, fresh)
                    &&& response_model(answer.response) == #[trigger] old(self)@.response(
                        action,
                        fresh,
                        timestamp,
                    )
                    &&& answer.task == periodic_task(action, fresh)
                },
            old(self)@.consistent() ==> final(self)@.consistent(),
            action is Subscribe ==> {
                &&& forall|key: u128| #[trigger]
                    old(self)@.subscriptions.contains_key(key) ==> {
                        &&& final(self)@.subscriptions.contains_key(key)
                        &&& final(self)@.subscriptions[key] == old(self)@.subscriptions[key]
                    }
                &&& answer.response is Ok
                &&& answer.response->Ok_0 is Subscribe
                &&& !old(self)@.subscriptions.contains_key(
                    answer.response->Ok_0->Subscribe_subscription_id.key(),
                )
                &&& final(self)@.subscriptions.contains_key(
                    answer.response->Ok_0->Subscribe_subscription_id.key(),
                )
            },
    {
        let fresh = match action {
            Action::Subscribe { .. } => self.free_identifier(Uuid::new_v4()),
            _ => SubscriptionID::SubscriptionIDUUID(Uuid::nil()),
        };
        proof {
            if old(self)@.consistent() {
                law_requests_keep_consistency(old(self)@, action, fresh);
            }
        }
        let timestamp: u128 = unix_timestamp_ms();
        self.dispatch_message_at(action, fresh, timestamp)
    }

    /// The subscription of that name, if the client has it.
    pub fn subscription(&self, id: SubscriptionID) -> (subscription: Option<&Subscription>)
        ensures
            match subscription {
                Some(s) => self@.subscriptions.contains_key(id.key()) && s@
                    == self@.subscriptions[id.key()],
                None => !self@.subscriptions.contains_key(id.key()),
            },
    {
        self.subscriptions.get(&id.key())
    }

    /// The current value of a subscription's signal, if the client has the
    /// subscription and the signal a value.
    pub fn periodic_value(&self, id: SubscriptionID) -> (value: Option<Value>)
        ensures
            value == self@.periodic_value(id),
    {
        match self.subscriptions.get(&id.key()) {
            Some(subscription) => match self.signal_cache.get(subscription.path().0.as_str()) {
                Some(value) => Some(value.clone()),
                None => None,
            },
            None => None,
        }
    }

    /// Turns the verdict of a subscription's filters on `value` into what the client
    /// is told, with the moment and the timestamp given.
    pub fn notify_subscriber_at(
        &mut self,
        id: SubscriptionID,
        value: &Value,
        verdict: Verdict,
        now: SystemTime,
        timestamp: u128,
    ) -> (notice: Option<Response>)
        ensures
            final(self)@ == old(self)@.after_verdict(id, *value, verdict, now),
            notice_model(notice) == old(self)@.notice(id, *value, verdict, timestamp),
            notice is None <==> (verdict == Ok::<bool, FilterError>(false) || !old(
                self,
            )@.subscriptions.contains_key(id.key())),
            notice is Some && notice->0 is Err <==> (verdict is Err && old(
                self,
            )@.subscriptions.contains_key(id.key())),
            old(self)@.consistent() ==> final(self)@.consistent(),
    {
        proof {
            if old(self)@.consistent() {
                law_verdicts_keep_consistency(old(self)@, id, *value, verdict, now);
            }
        }
        if let Some(mut subscription) = self.subscriptions.remove(&id.key()) {
            let notice = subscription.notify_at(value, verdict, now, timestamp);
            self.subscriptions.insert(id.key(), subscription);
            proof {
                assert(self@ =~= old(self)@.after_verdict(id, *value, verdict, now));
            }
            notice
        } else {
            proof {
                assert(self@ =~= old(self)@);
            }
            None
        }
    }

    /// Turns the verdict of a subscription's filters on `value` into what the client
    /// is told now. The moment that is remembered is the one that is told.
    pub fn notify_subscriber(
        &mut self,
        id: SubscriptionID,
        value: &Value,
        verdict: Verdict,
    ) -> (notice: Option<Response>)
        ensures
            exists|now: SystemTime, timestamp: u128|
                {
                    &&& timestamp == millis_of(reading_at(now))
                    &&& final(self)@ == #[trigger] old(self)@.after_verdict(
                        id,
                        *value,
                        verdict,
                        now,
                    )
                    &&& notice_model(notice) == #[trigger] old(self)@.notice(
                        id,
                        *value,
                        verdict,
                        timestamp,
                    )
                },
            notice is None <==> (verdict == Ok::<bool, FilterError>(false) || !old(
                self,
            )@.subscriptions.contains_key(id.key())),
            notice is Some && notice->0 is Err <==> (verdict is Err && old(
                self,
            )@.subscriptions.contains_key(id.key())),
            old(self)@.consistent() ==> final(self)@.consistent(),
    {
        let now = SystemTime::now();
        let timestamp: u128 = timestamp_millis(unix_timestamp_at(now));
        self.notify_subscriber_at(id, value, verdict, now, timestamp)
    }

    /// Takes one event of the client's task and tells what to do next.
    pub fn step(&mut self, event: ClientEvent) -> (step: ClientStep)
        ensures
            match event {
                ClientEvent::Message(action) => step matches ClientStep::Respond(answer) && exists|
                    fresh: SubscriptionID,
                    timestamp: u128,
                    now: SystemTime,
                |
                    {
                        &&& timestamp == millis_of(#[trigger] reading_at(now))
                        &&& (action is Subscribe ==> fresh->SubscriptionIDUUID_0.is_v4())
                        &&& (action is Subscribe ==> !old(self)@.subscriptions.contains_key(
                            fresh.key(),
                        ))
                        &&& final(self)@ == old(self)@.after_request(action, fresh)
                        &&& response_model(answer.response) == #[trigger] old(self)@.response(
                            action,
                            fresh,
                            timestamp,
                        )
                        &&& answer.task == periodic_task(action, fresh)
                    },
                ClientEvent::Signal(path, value) => {
                    &&& final(self)@ == old(self)@.after_signal(path@, value)
                    &&& step matches ClientStep::Queue(queue) && queue@ == old(self)@.queued(
                        path@,
                        value,
                    )
                },
                ClientEvent::SubscriptionNotify(id, value) => {
                    &&& final(self)@ == old(self)@
                    &&& step == (if old(self)@.subscriptions.contains_key(id.key()) {
                        ClientStep::Judge(id, value)
                    } else {
                        ClientStep::Idle
                    })
                },
                ClientEvent::PeriodicNotify(id) => {
                    &&& final(self)@ == old(self)@
                    &&& step == (match old(self)@.periodic_value(id) {
                        Some(value) => ClientStep::Judge(id, value),
                        None => ClientStep::Idle,
                    })
                },
            },
            old(self)@.consistent() ==> final(self)@.consistent(),
    {
        match event {
            ClientEvent::Message(action) => ClientStep::Respond(self.dispatch_message(action)),
            ClientEvent::Signal(path, value) => ClientStep::Queue(self.handle_signal(path, value)),
            ClientEvent::SubscriptionNotify(id, value) => {
                if self.subscription(id).is_some() {
                    ClientStep::Judge(id, value)
                } else {
                    ClientStep::Idle
                }
            },
            ClientEvent::PeriodicNotify(id) => match self.periodic_value(id) {
                Some(value) => ClientStep::Judge(id, value),
                None => ClientStep::Idle,
            },
        }
    }
}

} // verus!
