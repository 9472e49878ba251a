//! What holds of a client throughout its life.
use crate::api_error::{
    known_error, status_error, ErrorResponseModel, Topic, INTERNAL_SERVER_ERROR,
    NOT_FOUND_INVALID_SUBSCRIPTION_ID,
};
use crate::api_type::{interval_of, period, Action, ActionSuccessResponse, Filters};
use crate::client::{periodic_task, without, ClientModel, PeriodicTask};
use crate::filter::{FilterError, Verdict};
use crate::identifier::{ReqID, SubscriptionID, Uuid};
use crate::subscription::ResponseModel;
use serde_json::Value;
use std::time::SystemTime;
use vstd::prelude::*;

verus! {

impl ClientModel {
    /// Each subscription is filed under its own identifier.
    pub open spec fn filed_by_identifier(self) -> bool {
        forall|key: u128| #[trigger]
            self.subscriptions.contains_key(key) ==> self.subscriptions[key].subscription_id.key()
                == key
    }

    /// The lists of subscribers hold exactly the subscriptions that are notified of
    /// each update, each under its path and each once.
    pub open spec fn lists_match_subscriptions(self) -> bool {
        &&& forall|path: Seq<char>| (#[trigger] self.subscribers(path)).no_duplicates()
        &&& forall|path: Seq<char>, id: SubscriptionID| #[trigger]
            self.subscribers(path).contains(id) <==> {
                &&& self.subscriptions.contains_key(id.key())
                &&& self.subscriptions[id.key()].path == path
                &&& !self.subscriptions[id.key()].is_periodic()
            }
    }

    /// The timers belong to exactly the subscriptions that are served at an interval.
    pub open spec fn timers_match_subscriptions(self) -> bool {
        forall|key: u128|
            {
                &&& (#[trigger] self.periodic_subscriptions.contains_key(key) <==> {
                    &&& self.subscriptions.contains_key(key)
                    &&& self.subscriptions[key].is_periodic()
                })
                &&& (self.periodic_subscriptions.contains_key(key)
                    ==> self.periodic_subscriptions[key] == period(
                    interval_of(self.subscriptions[key].filters)->0,
                ))
            }
    }

    /// The latest value that a subscription knows is the current one of its signal.
    pub open spec fn latest_values_are_current(self) -> bool {
        forall|key: u128| #[trigger]
            self.subscriptions.contains_key(key) ==> (
            self.subscriptions[key].latest_signal_value matches Some(value) ==> {
                &&& self.signal_cache.contains_key(self.subscriptions[key].path)
                &&& self.signal_cache[self.subscriptions[key].path] == value
            })
    }

    /// The parts of a client's state agree with each other.
    pub open spec fn consistent(self) -> bool {
        &&& self.filed_by_identifier()
        &&& self.lists_match_subscriptions()
        &&& self.timers_match_subscriptions()
    }
}

/// Leaving one identifier out keeps every other one, and keeps each once.
proof fn lemma_without(ids: Seq<SubscriptionID>, id: SubscriptionID)
    ensures
        forall|other: SubscriptionID| #[trigger]
            without(ids, id).contains(other) <==> ids.contains(other) && other != id,
        ids.no_duplicates() ==> without(ids, id).no_duplicates(),
    decreases ids.len(),
{
    reveal(Seq::filter);
    if ids.len() == 0 {
        assert(without(ids, id) == Seq::<SubscriptionID>::empty());
    } else {
        let init = ids.drop_last();
        let last = ids.last();
        lemma_without(init, id);
        assert(ids == init.push(last));
        let rest = without(init, id);
        if last != id {
            assert(without(ids, id) == rest.push(last));
            assert forall|other: SubscriptionID| #[trigger]
                without(ids, id).contains(other) <==> ids.contains(other) && other != id by {
                if rest.contains(other) {
                    let i = choose|i: int| 0 <= i < rest.len() && rest[i] == other;
                    assert(rest.push(last)[i] == other);
                }
                if other == last {
                    assert(rest.push(last)[rest.len() as int] == other);
                    assert(ids[ids.len() - 1] == other);
                }
                if init.contains(other) {
                    let i = choose|i: int| 0 <= i < init.len() && init[i] == other;
                    assert(ids[i] == other);
                }
                if ids.contains(other) && other != last {
                    let i = choose|i: int| 0 <= i < ids.len() && ids[i] == other;
                    assert(init[i] == other);
                }
            }
            if ids.no_duplicates() {
                assert(!rest.contains(last)) by {
                    if init.contains(last) {
                        let i = choose|i: int| 0 <= i < init.len() && init[i] == last;
                        assert(ids[i] == last && ids[ids.len() - 1] == last);
                    }
                }
                assert(init.no_duplicates());
                assert(rest.push(last).no_duplicates());
            }
        } else {
            assert(without(ids, id) == rest);
            assert forall|other: SubscriptionID| #[trigger]
                without(ids, id).contains(other) <==> ids.contains(other) && other != id by {
                if init.contains(other) {
                    let i = choose|i: int| 0 <= i < init.len() && init[i] == other;
                    assert(ids[i] == other);
                }
                if ids.contains(other) && other != last {
                    let i = choose|i: int| 0 <= i < ids.len() && ids[i] == other;
                    assert(init[i] == other);
                }
            }
            if ids.no_duplicates() {
                assert(init.no_duplicates());
            }
        }
    }
}

/// A new client is consistent.
pub proof fn law_new_client_is_consistent()
    ensures
        ClientModel::empty().consistent(),
{
}

/// A signal leaves a client consistent.
pub proof fn law_signals_keep_consistency(client: ClientModel, path: Seq<char>, value: Value)
    requires
        client.consistent(),
    ensures
        client.after_signal(path, value).consistent(),
{
    let after = client.after_signal(path, value);
    assert forall|key: u128| after.subscriptions.contains_key(key) ==
        client.subscriptions.contains_key(key) by {}
    assert forall|p: Seq<char>| #[trigger] after.subscribers(p) == client.subscribers(p) by {}
}

/// A new subscription leaves a client consistent, if its identifier is a new one.
pub proof fn law_subscribing_keeps_consistency(
    client: ClientModel,
    id: SubscriptionID,
    path: Seq<char>,
    filters: Option<Filters>,
)
    requires
        client.consistent(),
        !client.subscriptions.contains_key(id.key()),
    ensures
        client.after_subscribe(id, path, filters).consistent(),
{
    let after = client.after_subscribe(id, path, filters);
    assert(!client.subscribers(path).contains(id));
    assert forall|p: Seq<char>| (#[trigger] after.subscribers(p)).no_duplicates() by {
        assert(client.subscribers(p).no_duplicates());
    }
    assert forall|p: Seq<char>, other: SubscriptionID| #[trigger]
        after.subscribers(p).contains(other) <==> {
            &&& after.subscriptions.contains_key(other.key())
            &&& after.subscriptions[other.key()].path == p
            &&& !after.subscriptions[other.key()].is_periodic()
        } by {
        let before = client.subscribers(p);
        assert(before.contains(other) <==> {
            &&& client.subscriptions.contains_key(other.key())
            &&& client.subscriptions[other.key()].path == p
            &&& !client.subscriptions[other.key()].is_periodic()
        });
        if interval_of(filters) is None && p == path {
            assert(after.subscribers(p) == before.push(id));
            assert(before.push(id)[before.len() as int] == id);
            if before.contains(other) {
                let i = choose|i: int| 0 <= i < before.len() && before[i] == other;
                assert(before.push(id)[i] == other);
            }
        } else {
            assert(after.subscribers(p) == before);
        }
        assert(other.key() == id.key() ==> other == id);
    }
}

/// Ending a subscription leaves a client consistent.
pub proof fn law_unsubscribing_keeps_consistency(client: ClientModel, id: SubscriptionID)
    requires
        client.consistent(),
        client.subscriptions.contains_key(id.key()),
    ensures
        client.after_unsubscribe(id).consistent(),
{
    let after = client.after_unsubscribe(id);
    let path = client.subscriptions[id.key()].path;
    assert forall|p: Seq<char>| (#[trigger] after.subscribers(p)).no_duplicates() by {
        assert(client.subscribers(p).no_duplicates());
        lemma_without(client.subscribers(p), id);
    }
    assert forall|p: Seq<char>, other: SubscriptionID| #[trigger]
        after.subscribers(p).contains(other) <==> {
            &&& after.subscriptions.contains_key(other.key())
            &&& after.subscriptions[other.key()].path == p
            &&& !after.subscriptions[other.key()].is_periodic()
        } by {
        lemma_without(client.subscribers(p), id);
        assert(client.subscribers(p).contains(other) <==> {
            &&& client.subscriptions.contains_key(other.key())
            &&& client.subscriptions[other.key()].path == p
            &&& !client.subscriptions[other.key()].is_periodic()
        });
        assert(other.key() == id.key() ==> other == id);
    }
}

/// Every request leaves a client consistent, if the identifier drawn for a new
/// subscription is a new one.
pub proof fn law_requests_keep_consistency(
    client: ClientModel,
    action: Action,
    fresh: SubscriptionID,
)
    requires
        client.consistent(),
        action is Subscribe ==> !client.subscriptions.contains_key(fresh.key()),
    ensures
        client.after_request(action, fresh).consistent(),
{
    match action {
        Action::Subscribe { path, filters, .. } => {
            law_subscribing_keeps_consistency(client, fresh, path@, filters);
        },
        Action::Unsubscribe { subscription_id, .. } => {
            if client.subscriptions.contains_key(subscription_id.key()) {
                law_unsubscribing_keeps_consistency(client, subscription_id);
            }
        },
        _ => {},
    }
}

/// A verdict of a subscription's filters leaves a client consistent.
pub proof fn law_verdicts_keep_consistency(
    client: ClientModel,
    id: SubscriptionID,
    value: Value,
    verdict: Verdict,
    now: SystemTime,
)
    requires
        client.consistent(),
    ensures
        client.after_verdict(id, value, verdict, now).consistent(),
{
    let after = client.after_verdict(id, value, verdict, now);
    assert forall|p: Seq<char>| #[trigger] after.subscribers(p) == client.subscribers(p) by {}
}

/// Something that changes a client's state.
pub enum Happening {
    /// The client made a request; the identifier is the one drawn for a subscription.
    Request(Action, SubscriptionID),
    /// A signal got a new value.
    Signal(Seq<char>, Value),
    /// The filters of a subscription gave a verdict on a value.
    Judged(SubscriptionID, Value, Verdict, SystemTime),
}

/// The identifier that was drawn for a new subscription, where one was made.
pub open spec fn drawn(happening: Happening) -> Option<SubscriptionID> {
    match happening {
        Happening::Request(Action::Subscribe { .. }, fresh) => Some(fresh),
        _ => None,
    }
}

impl ClientModel {
    /// The client after something happened.
    pub open spec fn after(self, happening: Happening) -> Self {
        match happening {
            Happening::Request(action, fresh) => self.after_request(action, fresh),
            Happening::Signal(path, value) => self.after_signal(path, value),
            Happening::Judged(id, value, verdict, now) => {
                self.after_verdict(id, value, verdict, now)
            },
        }
    }

    /// The client after a history, oldest first.
    pub open spec fn after_all(self, history: Seq<Happening>) -> Self
        decreases history.len(),
    {
        if history.len() == 0 {
            self
        } else {
            self.after_all(history.drop_last()).after(history.last())
        }
    }
}

/// The latest value that a history gives to a path, if it gives one.
pub open spec fn last_signal(history: Seq<Happening>, path: Seq<char>) -> Option<Value>
    decreases history.len(),
{
    if history.len() == 0 {
        None
    } else {
        match history.last() {
            Happening::Signal(p, value) => if p == path {
                Some(value)
            } else {
                last_signal(history.drop_last(), path)
            },
            _ => last_signal(history.drop_last(), path),
        }
    }
}

/// A history in which each subscription gets an identifier that the client has no
/// subscription under at that time.
pub open spec fn draws_new_identifiers(client: ClientModel, history: Seq<Happening>) -> bool {
    forall|i: int|
        0 <= i < history.len() ==> (drawn(#[trigger] history[i]) matches Some(fresh)
            ==> !client.after_all(history.take(i)).subscriptions.contains_key(fresh.key()))
}

/// Whatever happens to a consistent client, it stays consistent, as long as each new
/// subscription gets a new identifier.
pub proof fn law_clients_stay_consistent(client: ClientModel, history: Seq<Happening>)
    requires
        client.consistent(),
        draws_new_identifiers(client, history),
    ensures
        client.after_all(history).consistent(),
    decreases history.len(),
{
    if history.len() > 0 {
        let init = history.drop_last();
        let last = history.last();
        assert forall|i: int| 0 <= i < init.len() implies (
        drawn(#[trigger] init[i]) matches Some(fresh)
            ==> !client.after_all(init.take(i)).subscriptions.contains_key(fresh.key())) by {
            assert(history[i] == init[i]);
            assert(history.take(i) == init.take(i));
        }
        law_clients_stay_consistent(client, init);
        assert(history[history.len() - 1] == last);
        assert(history.take(history.len() - 1) == init);
        let before = client.after_all(init);
        match last {
            Happening::Request(action, fresh) => {
                law_requests_keep_consistency(before, action, fresh);
            },
            Happening::Signal(path, value) => {
                law_signals_keep_consistency(before, path, value);
            },
            Happening::Judged(id, value, verdict, now) => {
                law_verdicts_keep_consistency(before, id, value, verdict, now);
            },
        }
    }
}

/// A signal's current value is the last one that was reported for its path.
pub(crate) proof fn lemma_cache_holds_last_signals(
    client: ClientModel,
    history: Seq<Happening>,
    path: Seq<char>,
)
    ensures
        match last_signal(history, path) {
            Some(value) => {
                &&& client.after_all(history).signal_cache.contains_key(path)
                &&& client.after_all(history).signal_cache[path] == value
            },
            None => {
                &&& client.after_all(history).signal_cache.contains_key(path)
                    == client.signal_cache.contains_key(path)
                &&& client.after_all(history).signal_cache[path] == client.signal_cache[path]
            },
        },
    decreases history.len(),
{
    if history.len() > 0 {
        lemma_cache_holds_last_signals(client, history.drop_last(), path);
    }
}

/// A `Get` request gives back the value that was last reported for its path since the
/// client connected, whatever else happened; it is refused with the
/// error for an unknown path where none was reported.
pub proof fn law_get_gives_back_the_last_signal(
    history: Seq<Happening>,
    path: Seq<char>,
    request_id: ReqID,
    timestamp: u128,
)
    ensures
        ({
            let response = ClientModel::empty().after_all(history).get_response(
                path,
                request_id,
                timestamp,
            );
            match last_signal(history, path) {
                Some(value) => response == Ok::<_, ErrorResponseModel>(
                    ActionSuccessResponse::Get { request_id, value, timestamp },
                ),
                None => {
                    &&& response is Err
                    &&& response->Err_0.topic == Topic::Get
                    &&& response->Err_0.answers == Some(request_id)
                    &&& response->Err_0.error.number == 404
                    &&& response->Err_0.error.reason == "invalid_path"@
                    &&& response->Err_0.error.message == "The specified data path does not exist."@
                },
            }
        }),
{
    lemma_cache_holds_last_signals(ClientModel::empty(), history, path);
}

/// A signal changes no other signal's value.
pub proof fn law_signals_are_independent(
    client: ClientModel,
    path: Seq<char>,
    value: Value,
    other: Seq<char>,
    request_id: ReqID,
    timestamp: u128,
)
    requires
        other != path,
    ensures
        client.after_signal(path, value).get_response(other, request_id, timestamp)
            == client.get_response(other, request_id, timestamp),
{
}

/// The request that a response answers; a notification answers none.
pub open spec fn answered_request(response: ResponseModel) -> Option<ReqID> {
    match response {
        Ok(success) => success.answers(),
        Err(error) => error.answers,
    }
}

/// Every request is answered, and the response carries the request's identifier.
pub proof fn law_responses_carry_the_request_id(
    client: ClientModel,
    action: Action,
    fresh: SubscriptionID,
    timestamp: u128,
)
    ensures
        answered_request(client.response(action, fresh, timestamp)) == Some(action.request_id()),
{
}

/// `SetSignal`, `GetMetadata` and `Authorize` are refused as a failure of the
/// service, and change nothing.
pub proof fn law_unsupported_requests_are_refused(
    client: ClientModel,
    action: Action,
    fresh: SubscriptionID,
    timestamp: u128,
)
    requires
        action is SetSignal || action is GetMetadata || action is Authorize,
    ensures
        client.after_request(action, fresh) == client,
        client.response(action, fresh, timestamp) is Err,
        client.response(action, fresh, timestamp)->Err_0.error == status_error(
            INTERNAL_SERVER_ERROR,
        ),
        client.response(action, fresh, timestamp)->Err_0.error.number == 500,
{
}

/// An update of a path is queued once for each subscription to the path that is
/// notified of each update, and for no other.
pub proof fn law_updates_reach_each_subscriber_once(
    client: ClientModel,
    path: Seq<char>,
    value: Value,
)
    requires
        client.consistent(),
    ensures
        client.queued(path, value).no_duplicates(),
        forall|id: SubscriptionID, v: Value| #[trigger]
            client.queued(path, value).contains((id, v)) <==> {
                &&& v == value
                &&& client.subscriptions.contains_key(id.key())
                &&& client.subscriptions[id.key()].path == path
                &&& !client.subscriptions[id.key()].is_periodic()
            },
{
    let ids = client.subscribers(path);
    let queue = client.queued(path, value);
    assert forall|i: int, j: int| 0 <= i < queue.len() && 0 <= j < queue.len() && i != j implies
        queue[i] != queue[j] by {
        assert(queue[i].0 == ids[i] && queue[j].0 == ids[j]);
    }
    assert forall|id: SubscriptionID, v: Value| #[trigger] queue.contains((id, v)) <==> {
        &&& v == value
        &&& client.subscriptions.contains_key(id.key())
        &&& client.subscriptions[id.key()].path == path
        &&& !client.subscriptions[id.key()].is_periodic()
    } by {
        assert(ids.contains(id) <==> {
            &&& client.subscriptions.contains_key(id.key())
            &&& client.subscriptions[id.key()].path == path
            &&& !client.subscriptions[id.key()].is_periodic()
        });
        if queue.contains((id, v)) {
            let i = choose|i: int| 0 <= i < queue.len() && queue[i] == (id, v);
            assert(ids[i] == id);
        }
        if ids.contains(id) && v == value {
            let i = choose|i: int| 0 <= i < ids.len() && ids[i] == id;
            assert(queue[i] == (id, v));
        }
    }
}

/// Whether something that happened ends a subscription.
pub open spec fn ends(happening: Happening, id: SubscriptionID) -> bool {
    match happening {
        Happening::Request(Action::Unsubscribe { subscription_id, .. }, _) => subscription_id == id,
        Happening::Request(Action::UnsubscribeAll { .. }, _) => true,
        _ => false,
    }
}

/// A subscription keeps its name, path and filters until it is ended.
proof fn lemma_subscription_persists(
    client: ClientModel,
    history: Seq<Happening>,
    id: SubscriptionID,
)
    requires
        client.subscriptions.contains_key(id.key()),
        draws_new_identifiers(client, history),
        forall|i: int| 0 <= i < history.len() ==> !ends(#[trigger] history[i], id),
    ensures
        ({
            let before = client.subscriptions[id.key()];
            let after = client.after_all(history).subscriptions[id.key()];
            &&& client.after_all(history).subscriptions.contains_key(id.key())
            &&& after.subscription_id == before.subscription_id
            &&& after.path == before.path
            &&& after.filters == before.filters
        }),
    decreases history.len(),
{
    if history.len() > 0 {
        let init = history.drop_last();
        assert forall|i: int| 0 <= i < init.len() implies (
        drawn(#[trigger] init[i]) matches Some(fresh)
            ==> !client.after_all(init.take(i)).subscriptions.contains_key(fresh.key())) by {
            assert(history[i] == init[i]);
            assert(history.take(i) == init.take(i));
        }
        assert forall|i: int| 0 <= i < init.len() implies !ends(#[trigger] init[i], id) by {
            assert(history[i] == init[i]);
        }
        lemma_subscription_persists(client, init, id);
        let last = history[history.len() - 1];
        assert(history.take(history.len() - 1) == init);
        assert(!ends(last, id));
        if let Happening::Request(Action::Unsubscribe { subscription_id, .. }, _) = last {
            assert(subscription_id.key() != id.key());
        }
    }
}

/// After subscribing without an interval, each update of the path is queued for the
/// subscription until it is ended, and a verdict that lets the update through tells
/// it to the client.
pub proof fn law_subscribers_are_notified(
    client: ClientModel,
    id: SubscriptionID,
    path: Seq<char>,
    filters: Option<Filters>,
    history: Seq<Happening>,
    value: Value,
    timestamp: u128,
)
    requires
        client.consistent(),
        !client.subscriptions.contains_key(id.key()),
        interval_of(filters) is None,
        draws_new_identifiers(client.after_subscribe(id, path, filters), history),
        forall|i: int| 0 <= i < history.len() ==> !ends(#[trigger] history[i], id),
    ensures
        ({
            let later = client.after_subscribe(id, path, filters).after_all(history);
            &&& later.queued(path, value).contains((id, value))
            &&& later.after_signal(path, value).notice(id, value, Ok(true), timestamp) == Some(
                Ok::<_, ErrorResponseModel>(
                    ActionSuccessResponse::Subscription { subscription_id: id, value, timestamp },
                ),
            )
        }),
{
    let subscribed = client.after_subscribe(id, path, filters);
    let later = subscribed.after_all(history);
    law_subscribing_keeps_consistency(client, id, path, filters);
    law_clients_stay_consistent(subscribed, history);
    lemma_subscription_persists(subscribed, history, id);
    law_updates_reach_each_subscriber_once(later, path, value);
    assert(later.subscriptions[id.key()].subscription_id == id);
}

/// After subscribing at an interval, a timer of that interval is started, of one second at
/// least; until the
/// subscription is ended no update is queued for it, and whenever the timer fires the
/// value last reported for the path is due.
pub proof fn law_periodic_subscribers_get_the_current_value(
    client: ClientModel,
    id: SubscriptionID,
    action: Action,
    history: Seq<Happening>,
)
    requires
        client.consistent(),
        !client.subscriptions.contains_key(id.key()),
        action is Subscribe,
        interval_of(action->Subscribe_filters) is Some,
        draws_new_identifiers(client.after_request(action, id), history),
        forall|i: int| 0 <= i < history.len() ==> !ends(#[trigger] history[i], id),
    ensures
        periodic_task(action, id) == Some(
            PeriodicTask {
                subscription_id: id,
                interval_secs: period(interval_of(action->Subscribe_filters)->0),
            },
        ),
        periodic_task(action, id)->0.interval_secs >= 1,
        ({
            let path = action->Subscribe_path@;
            let later = client.after_request(action, id).after_all(history);
            &&& forall|p: Seq<char>| !(#[trigger] later.subscribers(p)).contains(id)
            &&& later.periodic_value(id) == (match last_signal(history, path) {
                Some(value) => Some(value),
                None => if client.signal_cache.contains_key(path) {
                    Some(client.signal_cache[path])
                } else {
                    None
                },
            })
        }),
{
    let path = action->Subscribe_path@;
    let filters = action->Subscribe_filters;
    let subscribed = client.after_request(action, id);
    let later = subscribed.after_all(history);
    law_subscribing_keeps_consistency(client, id, path, filters);
    law_clients_stay_consistent(subscribed, history);
    lemma_subscription_persists(subscribed, history, id);
    lemma_cache_holds_last_signals(subscribed, history, path);
    assert(later.subscriptions[id.key()].is_periodic());
}

/// A subscription that was just ended is not notified any more: nothing is queued for
/// it, its timer brings up no value, and a notification that is already queued tells
/// the client nothing.
pub proof fn law_ended_subscriptions_are_silent(
    client: ClientModel,
    id: SubscriptionID,
    path: Seq<char>,
    value: Value,
    verdict: Verdict,
    timestamp: u128,
)
    requires
        client.consistent(),
        client.subscriptions.contains_key(id.key()),
    ensures
        !client.after_unsubscribe(id).queued(path, value).contains((id, value)),
        client.after_unsubscribe(id).periodic_value(id) is None,
        client.after_unsubscribe(id).notice(id, value, verdict, timestamp) is None,
{
    law_unsubscribing_keeps_consistency(client, id);
    law_updates_reach_each_subscriber_once(client.after_unsubscribe(id), path, value);
}

/// After ending all subscriptions the client is notified of nothing; the current
/// signal values stay readable.
pub proof fn law_unsubscribing_all_silences_the_client(
    client: ClientModel,
    id: SubscriptionID,
    path: Seq<char>,
    value: Value,
    verdict: Verdict,
    request_id: ReqID,
    timestamp: u128,
)
    ensures
        client.after_unsubscribe_all().queued(path, value).len() == 0,
        client.after_unsubscribe_all().periodic_value(id) is None,
        client.after_unsubscribe_all().notice(id, value, verdict, timestamp) is None,
        client.after_unsubscribe_all().get_response(path, request_id, timestamp)
            == client.get_response(path, request_id, timestamp),
{
}

/// A client that does not have a subscription never hears of it, whatever happens, as
/// long as no new subscription gets that identifier. Nothing is queued for it either, if
/// the client is consistent and each new subscription gets a new identifier.
pub proof fn law_unknown_subscriptions_stay_silent(
    client: ClientModel,
    history: Seq<Happening>,
    id: SubscriptionID,
    path: Seq<char>,
    value: Value,
    verdict: Verdict,
    timestamp: u128,
)
    requires
        !client.subscriptions.contains_key(id.key()),
        forall|i: int| 0 <= i < history.len() ==> drawn(#[trigger] history[i]) != Some(id),
    ensures
        client.after_all(history).periodic_value(id) is None,
        client.after_all(history).notice(id, value, verdict, timestamp) is None,
        client.consistent() && draws_new_identifiers(client, history) ==> !client.after_all(
            history,
        ).queued(path, value).contains((id, value)),
{
    lemma_absence_persists(client, history, id);
    if client.consistent() && draws_new_identifiers(client, history) {
        law_clients_stay_consistent(client, history);
        law_updates_reach_each_subscriber_once(client.after_all(history), path, value);
    }
}

/// A subscription that the client does not have stays absent, as long as no new
/// subscription gets its identifier.
proof fn lemma_absence_persists(
    client: ClientModel,
    history: Seq<Happening>,
    id: SubscriptionID,
)
    requires
        !client.subscriptions.contains_key(id.key()),
        forall|i: int| 0 <= i < history.len() ==> drawn(#[trigger] history[i]) != Some(id),
    ensures
        !client.after_all(history).subscriptions.contains_key(id.key()),
    decreases history.len(),
{
    if history.len() > 0 {
        let init = history.drop_last();
        assert forall|i: int| 0 <= i < init.len() implies drawn(#[trigger] init[i]) != Some(
            id,
        ) by {
            assert(history[i] == init[i]);
        }
        lemma_absence_persists(client, init, id);
        assert(history[history.len() - 1] == history.last());
        let before = client.after_all(init);
        match history.last() {
            Happening::Request(action, fresh) => {
                if action is Subscribe {
                    assert(fresh.key() != id.key());
                }
            },
            _ => {},
        }
    }
}

/// Ending a subscription that the client does not have is refused and changes
/// nothing.
pub proof fn law_unknown_subscriptions_cannot_be_ended(
    client: ClientModel,
    action: Action,
    fresh: SubscriptionID,
    timestamp: u128,
)
    requires
        action matches Action::Unsubscribe { subscription_id, .. }
            && !client.subscriptions.contains_key(subscription_id.key()),
    ensures
        client.after_request(action, fresh) == client,
        ({
            let response = client.response(action, fresh, timestamp);
            &&& response is Err
            &&& response->Err_0.topic == Topic::Unsubscribe
            &&& response->Err_0.error == known_error(NOT_FOUND_INVALID_SUBSCRIPTION_ID)
            &&& response->Err_0.error.number == 404
            &&& response->Err_0.subscription_id == Some(action->Unsubscribe_subscription_id)
        }),
{
}

/// Unsubscribing undoes subscribing: the same subscriptions, timers and signal values
/// are there as before, and each update is queued for the same subscriptions in the
/// same order.
pub proof fn law_unsubscribing_undoes_subscribing(
    client: ClientModel,
    id: SubscriptionID,
    path: Seq<char>,
    filters: Option<Filters>,
)
    requires
        client.consistent(),
        !client.subscriptions.contains_key(id.key()),
    ensures
        ({
            let back = client.after_subscribe(id, path, filters).after_unsubscribe(id);
            &&& back.subscriptions == client.subscriptions
            &&& back.periodic_subscriptions == client.periodic_subscriptions
            &&& back.signal_cache == client.signal_cache
            &&& forall|p: Seq<char>| #[trigger] back.subscribers(p) == client.subscribers(p)
        }),
{
    let subscribed = client.after_subscribe(id, path, filters);
    let back = subscribed.after_unsubscribe(id);
    assert(!client.periodic_subscriptions.contains_key(id.key()));
    assert(back.subscriptions =~= client.subscriptions);
    assert(back.periodic_subscriptions =~= client.periodic_subscriptions);
    assert forall|p: Seq<char>| #[trigger] back.subscribers(p) == client.subscribers(p) by {
        let ids = client.subscribers(p);
        assert(!ids.contains(id));
        lemma_without_absent(ids, id);
        if interval_of(filters) is None && p == path {
            lemma_without_last(ids, id);
        }
    }
}

/// Leaving out an identifier that is not there changes nothing.
proof fn lemma_without_absent(ids: Seq<SubscriptionID>, id: SubscriptionID)
    requires
        !ids.contains(id),
    ensures
        without(ids, id) == ids,
    decreases ids.len(),
{
    reveal(Seq::filter);
    if ids.len() > 0 {
        let init = ids.drop_last();
        assert(!init.contains(id)) by {
            if init.contains(id) {
                let i = choose|i: int| 0 <= i < init.len() && init[i] == id;
                assert(ids[i] == id);
            }
        }
        assert(ids[ids.len() - 1] != id);
        lemma_without_absent(init, id);
        assert(init.push(ids.last()) == ids);
    }
}

/// Leaving out an identifier that was just added gives back the list.
proof fn lemma_without_last(ids: Seq<SubscriptionID>, id: SubscriptionID)
    requires
        !ids.contains(id),
    ensures
        without(ids.push(id), id) == ids,
{
    reveal(Seq::filter);
    assert(ids.push(id).drop_last() == ids);
    lemma_without_absent(ids, id);
}

/// A value counts as sent exactly when the client is told of it.
pub proof fn law_sent_values_are_remembered(
    client: ClientModel,
    id: SubscriptionID,
    value: Value,
    verdict: Verdict,
    now: SystemTime,
    timestamp: u128,
)
    requires
        client.consistent(),
        client.subscriptions.contains_key(id.key()),
    ensures
        client.notice(id, value, verdict, timestamp) == Some(
            Ok::<_, ErrorResponseModel>(
                ActionSuccessResponse::Subscription { subscription_id: id, value, timestamp },
            ),
        ) <==> verdict == Ok::<bool, FilterError>(true),
        verdict == Ok::<bool, FilterError>(true) ==> client.after_verdict(
            id,
            value,
            verdict,
            now,
        ).subscriptions[id.key()].last_signal_value_client == Some((now, value)),
        verdict != Ok::<bool, FilterError>(true) ==> client.after_verdict(
            id,
            value,
            verdict,
            now,
        ).subscriptions[id.key()].last_signal_value_client
            == client.subscriptions[id.key()].last_signal_value_client,
{
    assert(client.subscriptions[id.key()].subscription_id == id);
}

/// Once the filters of a subscription judged the current value of its signal, the
/// subscription knows that value, whatever they said. One that knew a later value than
/// the one judged goes on knowing it.
pub proof fn law_judged_values_are_known(
    client: ClientModel,
    id: SubscriptionID,
    value: Value,
    verdict: Verdict,
    now: SystemTime,
)
    requires
        client.latest_values_are_current(),
        client.subscriptions.contains_key(id.key()),
    ensures
        ({
            let before = client.subscriptions[id.key()];
            let after = client.after_verdict(id, value, verdict, now);
            let latest = after.subscriptions[id.key()].latest_signal_value;
            &&& client.periodic_value(id) == Some(value) ==> {
                &&& latest == Some(value)
                &&& after.latest_values_are_current()
            }
            &&& before.latest_signal_value is None ==> latest == Some(value)
            &&& before.latest_signal_value is Some ==> {
                &&& latest == before.latest_signal_value
                &&& after.latest_values_are_current()
            }
        }),
{
}

/// A history in which a value is judged only where it is the current one of the
/// subscription's signal, or the subscription knows a value already.
pub open spec fn judges_known_values(client: ClientModel, history: Seq<Happening>) -> bool {
    forall|i: int|
        0 <= i < history.len() ==> judges_known_value(
            client.after_all(history.take(i)),
            #[trigger] history[i],
        )
}

/// Whether a value is judged only where it is the current one of the subscription's
/// signal, or the subscription knows a value already.
pub open spec fn judges_known_value(client: ClientModel, happening: Happening) -> bool {
    match happening {
        Happening::Judged(id, value, _, _) => {
            ||| !client.subscriptions.contains_key(id.key())
            ||| client.subscriptions[id.key()].latest_signal_value is Some
            ||| client.periodic_value(id) == Some(value)
        },
        _ => true,
    }
}

/// The latest values that subscriptions know stay the current ones of their signals,
/// whatever happens, as long as what is judged is a current value wherever the
/// subscription knows none yet.
pub proof fn law_latest_values_stay_current(client: ClientModel, history: Seq<Happening>)
    requires
        client.latest_values_are_current(),
        judges_known_values(client, history),
    ensures
        client.after_all(history).latest_values_are_current(),
    decreases history.len(),
{
    if history.len() > 0 {
        let init = history.drop_last();
        assert forall|i: int| 0 <= i < init.len() implies judges_known_value(
            client.after_all(init.take(i)),
            #[trigger] init[i],
        ) by {
            assert(history[i] == init[i]);
            assert(history.take(i) == init.take(i));
        }
        law_latest_values_stay_current(client, init);
        assert(history[history.len() - 1] == history.last());
        assert(history.take(history.len() - 1) == init);
    }
}

/// The client after it ended some of its subscriptions, one request after the other. A
/// subscription that it does not have is left alone.
pub open spec fn after_ending_each(client: ClientModel, ids: Seq<SubscriptionID>) -> ClientModel
    decreases ids.len(),
{
    if ids.len() == 0 {
        client
    } else {
        let before = after_ending_each(client, ids.drop_last());
        if before.subscriptions.contains_key(ids.last().key()) {
            before.after_unsubscribe(ids.last())
        } else {
            before
        }
    }
}

/// Ending subscriptions one by one ends exactly those, keeps the signal values, and
/// leaves a client consistent.
proof fn lemma_ending_each(client: ClientModel, ids: Seq<SubscriptionID>)
    requires
        client.consistent(),
    ensures
        after_ending_each(client, ids).consistent(),
        after_ending_each(client, ids).signal_cache == client.signal_cache,
        forall|i: int|
            0 <= i < ids.len() ==> !after_ending_each(client, ids).subscriptions.contains_key(
                (#[trigger] ids[i]).key(),
            ),
        after_ending_each(client, ids).subscriptions.dom().subset_of(client.subscriptions.dom()),
    decreases ids.len(),
{
    if ids.len() > 0 {
        let init = ids.drop_last();
        let before = after_ending_each(client, init);
        lemma_ending_each(client, init);
        if before.subscriptions.contains_key(ids.last().key()) {
            law_unsubscribing_keeps_consistency(before, ids.last());
        }
        assert forall|i: int| 0 <= i < ids.len() implies !after_ending_each(
            client,
            ids,
        ).subscriptions.contains_key((#[trigger] ids[i]).key()) by {
            if i < init.len() {
                assert(init[i] == ids[i]);
            }
        }
    }
}

/// Ending all subscriptions comes to the same as ending each one in turn, in any order:
/// the same subscriptions, timers and signal values are left, and the same subscriptions
/// are notified of each update.
pub proof fn law_ending_all_ends_each(client: ClientModel, ids: Seq<SubscriptionID>)
    requires
        client.consistent(),
        forall|id: SubscriptionID| #[trigger]
            client.subscriptions.contains_key(id.key()) ==> ids.contains(id),
    ensures
        ({
            let all = client.after_unsubscribe_all();
            let each = after_ending_each(client, ids);
            &&& each.subscriptions == all.subscriptions
            &&& each.periodic_subscriptions == all.periodic_subscriptions
            &&& each.signal_cache == all.signal_cache
            &&& forall|path: Seq<char>| #[trigger] each.subscribers(path) == all.subscribers(path)
        }),
{
    let all = client.after_unsubscribe_all();
    let each = after_ending_each(client, ids);
    lemma_ending_each(client, ids);
    assert forall|key: u128| !each.subscriptions.contains_key(key) by {
        let id = SubscriptionID::SubscriptionIDUUID(Uuid { bits: key });
        assert(id.key() == key);
        if client.subscriptions.contains_key(id.key()) {
            let i = choose|i: int| 0 <= i < ids.len() && ids[i] == id;
            assert(!each.subscriptions.contains_key(ids[i].key()));
        }
    }
    assert(each.subscriptions =~= all.subscriptions);
    assert(each.periodic_subscriptions =~= all.periodic_subscriptions);
    assert forall|path: Seq<char>| #[trigger] each.subscribers(path) == all.subscribers(path) by {
        let left = each.subscribers(path);
        if left.len() > 0 {
            assert(left.contains(left[0]));
            assert(each.subscriptions.contains_key(left[0].key()));
        }
        assert(left =~= all.subscribers(path));
    }
}

/// Ending all subscriptions a second time changes nothing and succeeds again.
pub proof fn law_ending_all_twice_is_ending_all_once(
    client: ClientModel,
    request_id: ReqID,
    fresh: SubscriptionID,
    timestamp: u128,
)
    ensures
        ({
            let action = Action::UnsubscribeAll { request_id };
            let once = client.after_request(action, fresh);
            &&& once.after_request(action, fresh) == once
            &&& once.response(action, fresh, timestamp) == Ok::<_, ErrorResponseModel>(
                ActionSuccessResponse::UnsubscribeAll { request_id, timestamp },
            )
        }),
{
}

/// After a signal every subscription to its path knows the new value, also one that
/// is served at an interval.
pub proof fn law_subscriptions_know_the_latest_value(
    client: ClientModel,
    path: Seq<char>,
    value: Value,
    key: u128,
)
    requires
        client.subscriptions.contains_key(key),
        client.subscriptions[key].path == path,
    ensures
        client.after_signal(path, value).subscriptions[key].latest_signal_value == Some(value),
{
}

} // verus!
