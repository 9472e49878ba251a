//! What each operation of a client tells, changes and leaves alone.
use crate::api_error::{status_error, ErrorResponseModel, Topic};
use crate::api_type::{Action, ActionSuccessResponse, Filters};
use crate::client::{periodic_task, without, ClientModel};
use crate::filter::{FilterError, Verdict};
use crate::identifier::{ReqID, SubscriptionID};
use crate::subscription::{ResponseModel, SubscriptionModel};
use serde_json::Value;
use std::time::SystemTime;
use vstd::prelude::*;

verus! {

/// Whether a response is the error with this topic, these names, this number and these
/// texts.
pub open spec fn is_error(
    response: ResponseModel,
    topic: Topic,
    answers: Option<ReqID>,
    subscription_id: Option<SubscriptionID>,
    number: int,
    reason: Seq<char>,
    message: Seq<char>,
    timestamp: u128,
) -> bool {
    &&& response is Err
    &&& response->Err_0.topic == topic
    &&& response->Err_0.answers == answers
    &&& response->Err_0.subscription_id == subscription_id
    &&& response->Err_0.error.number == number
    &&& response->Err_0.error.reason == reason
    &&& response->Err_0.error.message == message
    &&& response->Err_0.timestamp == timestamp
}

/// What a subscriber is told depends on the verdict alone, whatever was sent before and
/// whatever the filters are: nothing exactly where the value is held back, the value under
/// the subscription's name exactly where it passes, and an error under that name exactly
/// where there is no verdict.
pub proof fn law_verdicts_decide_what_a_subscriber_is_told(
    subscription: SubscriptionModel,
    value: Value,
    verdict: Verdict,
    timestamp: u128,
)
    ensures
        ({
            let notice = subscription.notice(value, verdict, timestamp);
            let name = subscription.subscription_id;
            &&& notice is None <==> verdict == Ok::<bool, FilterError>(false)
            &&& notice == Some(
                Ok::<_, ErrorResponseModel>(
                    ActionSuccessResponse::Subscription { subscription_id: name, value, timestamp },
                ),
            ) <==> verdict == Ok::<bool, FilterError>(true)
            &&& notice is Some && notice->0 is Err <==> verdict is Err
            &&& verdict is Err ==> is_error(
                notice->0,
                Topic::Subscription,
                None,
                Some(name),
                400,
                "filter_invalid"@,
                "Filter requested on non-primitive type."@,
                timestamp,
            )
        }),
{
}

/// Two subscriptions of the same name are told the same of the same verdict, whatever else
/// they differ in.
pub proof fn law_history_does_not_change_what_is_told(
    one: SubscriptionModel,
    other: SubscriptionModel,
    value: Value,
    verdict: Verdict,
    timestamp: u128,
)
    requires
        one.subscription_id == other.subscription_id,
    ensures
        one.notice(value, verdict, timestamp) == other.notice(value, verdict, timestamp),
{
}

/// A client is told of a value exactly what the subscription is told, if it has the
/// subscription: nothing exactly where the value is held back or the subscription is not
/// there, and an error exactly where it is there and its filters give no verdict.
pub proof fn law_verdicts_decide_what_a_client_is_told(
    client: ClientModel,
    id: SubscriptionID,
    value: Value,
    verdict: Verdict,
    timestamp: u128,
)
    requires
        client.filed_by_identifier(),
    ensures
        ({
            let notice = client.notice(id, value, verdict, timestamp);
            let held = client.subscriptions.contains_key(id.key());
            &&& notice is None <==> !held || verdict == Ok::<bool, FilterError>(false)
            &&& notice == Some(
                Ok::<_, ErrorResponseModel>(
                    ActionSuccessResponse::Subscription { subscription_id: id, value, timestamp },
                ),
            ) <==> held && verdict == Ok::<bool, FilterError>(true)
            &&& notice is Some && notice->0 is Err <==> held && verdict is Err
            &&& held && verdict is Err ==> is_error(
                notice->0,
                Topic::Subscription,
                None,
                Some(id),
                400,
                "filter_invalid"@,
                "Filter requested on non-primitive type."@,
                timestamp,
            )
        }),
{
    if client.subscriptions.contains_key(id.key()) {
        assert(client.subscriptions[id.key()].subscription_id.key() == id.key());
        law_verdicts_decide_what_a_subscriber_is_told(
            client.subscriptions[id.key()],
            value,
            verdict,
            timestamp,
        );
    }
}

/// A verdict on one subscription leaves everything else as it was, and of that subscription
/// changes nothing but what was sent last, where the value passes, and the latest known
/// value, where none was known.
pub proof fn law_verdicts_change_one_subscription_only(
    client: ClientModel,
    id: SubscriptionID,
    value: Value,
    verdict: Verdict,
    now: SystemTime,
    key: u128,
)
    ensures
        ({
            let after = client.after_verdict(id, value, verdict, now);
            let old_one = client.subscriptions[key];
            let new_one = after.subscriptions[key];
            &&& after.signal_cache == client.signal_cache
            &&& after.path_subscriptions == client.path_subscriptions
            &&& after.periodic_subscriptions == client.periodic_subscriptions
            &&& after.subscriptions.contains_key(key) == client.subscriptions.contains_key(key)
            &&& client.subscriptions.contains_key(key) ==> {
                &&& key != id.key() ==> new_one == old_one
                &&& new_one.subscription_id == old_one.subscription_id
                &&& new_one.path == old_one.path
                &&& new_one.filters == old_one.filters
                &&& key == id.key() && verdict == Ok::<bool, FilterError>(true)
                    ==> new_one.last_signal_value_client == Some((now, value))
                &&& verdict != Ok::<bool, FilterError>(true) ==> new_one.last_signal_value_client
                    == old_one.last_signal_value_client
                &&& key == id.key() ==> new_one.latest_signal_value is Some
                &&& key == id.key() && old_one.latest_signal_value is None
                    ==> new_one.latest_signal_value == Some(value)
                &&& old_one.latest_signal_value is Some ==> new_one.latest_signal_value
                    == old_one.latest_signal_value
            }
        }),
{
}

/// A new client has nothing.
pub proof fn law_new_clients_have_nothing(key: u128, path: Seq<char>)
    ensures
        !ClientModel::empty().subscriptions.contains_key(key),
        !ClientModel::empty().signal_cache.contains_key(path),
        !ClientModel::empty().path_subscriptions.contains_key(path),
        !ClientModel::empty().periodic_subscriptions.contains_key(key),
{
}

/// A signal changes the current value of its own path and the latest value that the
/// subscriptions to that path know, and nothing else.
pub proof fn law_signals_change_their_path_only(
    client: ClientModel,
    path: Seq<char>,
    value: Value,
    other: Seq<char>,
    key: u128,
)
    ensures
        ({
            let after = client.after_signal(path, value);
            let old_one = client.subscriptions[key];
            let new_one = after.subscriptions[key];
            &&& after.signal_cache.contains_key(path)
            &&& after.signal_cache[path] == value
            &&& other != path ==> {
                &&& after.signal_cache.contains_key(other) == client.signal_cache.contains_key(
                    other,
                )
                &&& after.signal_cache[other] == client.signal_cache[other]
            }
            &&& after.path_subscriptions == client.path_subscriptions
            &&& after.periodic_subscriptions == client.periodic_subscriptions
            &&& after.subscriptions.contains_key(key) == client.subscriptions.contains_key(key)
            &&& client.subscriptions.contains_key(key) ==> {
                &&& new_one.subscription_id == old_one.subscription_id
                &&& new_one.path == old_one.path
                &&& new_one.filters == old_one.filters
                &&& new_one.last_signal_value_client == old_one.last_signal_value_client
                &&& old_one.path == path ==> new_one.latest_signal_value == Some(value)
                &&& old_one.path != path ==> new_one.latest_signal_value
                    == old_one.latest_signal_value
            }
        }),
{
}

/// An update is queued for the subscriptions in the list of its path, in the order of the
/// list and with its value; for none where the path has no list.
pub proof fn law_updates_are_queued_as_listed(
    client: ClientModel,
    path: Seq<char>,
    value: Value,
    i: int,
)
    ensures
        ({
            let queue = client.queued(path, value);
            let ids = client.path_subscriptions[path];
            &&& client.path_subscriptions.contains_key(path) ==> {
                &&& queue.len() == ids.len()
                &&& 0 <= i < ids.len() ==> queue[i] == (ids[i], value)
            }
            &&& !client.path_subscriptions.contains_key(path) ==> queue.len() == 0
        }),
{
}

/// A subscription is added as it was asked for: it is filed under its name, with its path
/// and filters and without a value. Every other subscription, every signal value and the
/// lists of all other paths stay. Without an interval its name goes to the end of the
/// path's list and no timer starts; with one the list stays and a timer of that interval
/// starts, of one second at least.
pub proof fn law_subscribing_adds_what_was_asked_for(
    client: ClientModel,
    path: Seq<char>,
    filters: Option<Filters>,
    fresh: SubscriptionID,
    key: u128,
    other: Seq<char>,
)
    ensures
        ({
            let after = client.after_subscribe(fresh, path, filters);
            let made = after.subscriptions[fresh.key()];
            let list = if client.path_subscriptions.contains_key(path) {
                client.path_subscriptions[path]
            } else {
                Seq::empty()
            };
            &&& after.subscriptions.contains_key(fresh.key())
            &&& made.subscription_id == fresh
            &&& made.path == path
            &&& made.filters == filters
            &&& made.latest_signal_value is None
            &&& made.last_signal_value_client is None
            &&& key != fresh.key() ==> {
                &&& after.subscriptions.contains_key(key) == client.subscriptions.contains_key(key)
                &&& after.subscriptions[key] == client.subscriptions[key]
                &&& after.periodic_subscriptions.contains_key(key)
                    == client.periodic_subscriptions.contains_key(key)
                &&& after.periodic_subscriptions[key] == client.periodic_subscriptions[key]
            }
            &&& after.signal_cache == client.signal_cache
            &&& other != path ==> {
                &&& after.path_subscriptions.contains_key(other)
                    == client.path_subscriptions.contains_key(other)
                &&& after.path_subscriptions[other] == client.path_subscriptions[other]
            }
            &&& filters is None || filters->0.interval is None ==> {
                &&& after.path_subscriptions.contains_key(path)
                &&& after.path_subscriptions[path].len() == list.len() + 1
                &&& after.path_subscriptions[path].last() == fresh
                &&& after.path_subscriptions[path].drop_last() == list
                &&& after.periodic_subscriptions == client.periodic_subscriptions
            }
            &&& filters is Some && filters->0.interval is Some ==> {
                &&& after.path_subscriptions == client.path_subscriptions
                &&& after.periodic_subscriptions.contains_key(fresh.key())
                &&& after.periodic_subscriptions[fresh.key()] >= 1
                &&& filters->0.interval->0 >= 1 ==> after.periodic_subscriptions[fresh.key()]
                    == filters->0.interval->0
                &&& filters->0.interval->0 == 0 ==> after.periodic_subscriptions[fresh.key()] == 1
            }
        }),
{
}

/// A request asks for a timer exactly where it subscribes at an interval; the timer names
/// the new subscription and keeps to the interval, down to one second.
pub proof fn law_timers_keep_to_the_interval(action: Action, fresh: SubscriptionID)
    ensures
        periodic_task(action, fresh) is Some <==> {
            &&& action is Subscribe
            &&& action->Subscribe_filters is Some
            &&& action->Subscribe_filters->0.interval is Some
        },
        periodic_task(action, fresh) is Some ==> {
            let task = periodic_task(action, fresh)->0;
            let interval = action->Subscribe_filters->0.interval->0;
            &&& task.subscription_id == fresh
            &&& task.interval_secs >= 1
            &&& interval >= 1 ==> task.interval_secs == interval
            &&& interval == 0 ==> task.interval_secs == 1
        },
{
}

/// Ending a subscription takes it away, its timer and its name in the list of its path;
/// every other subscription, timer, list and name in a list stays, and so do the signal
/// values.
pub proof fn law_unsubscribing_takes_one_subscription_away(
    client: ClientModel,
    id: SubscriptionID,
    key: u128,
    path: Seq<char>,
)
    requires
        client.subscriptions.contains_key(id.key()),
    ensures
        ({
            let after = client.after_unsubscribe(id);
            let own = client.subscriptions[id.key()].path;
            &&& !after.subscriptions.contains_key(id.key())
            &&& !after.periodic_subscriptions.contains_key(id.key())
            &&& key != id.key() ==> {
                &&& after.subscriptions.contains_key(key) == client.subscriptions.contains_key(key)
                &&& after.subscriptions[key] == client.subscriptions[key]
                &&& after.periodic_subscriptions.contains_key(key)
                    == client.periodic_subscriptions.contains_key(key)
                &&& after.periodic_subscriptions[key] == client.periodic_subscriptions[key]
            }
            &&& after.signal_cache == client.signal_cache
            &&& after.path_subscriptions.contains_key(path)
                == client.path_subscriptions.contains_key(path)
            &&& path != own ==> after.path_subscriptions[path] == client.path_subscriptions[path]
            &&& client.path_subscriptions.contains_key(own) ==> after.path_subscriptions[own]
                == without(client.path_subscriptions[own], id)
        }),
{
}

/// Leaving a name out of a list leaves the others in it, in their order: of two lists put
/// together it is left out of each, and of a list of one it leaves that one or none.
pub proof fn law_names_are_left_out_in_place(
    first: Seq<SubscriptionID>,
    second: Seq<SubscriptionID>,
    one: SubscriptionID,
    id: SubscriptionID,
)
    ensures
        without(first + second, id) == without(first, id) + without(second, id),
        without(seq![one], id) == (if one == id {
            Seq::<SubscriptionID>::empty()
        } else {
            seq![one]
        }),
        without(Seq::<SubscriptionID>::empty(), id) == Seq::<SubscriptionID>::empty(),
    decreases second.len(),
{
    reveal(Seq::filter);
    assert(seq![one].drop_last() == Seq::<SubscriptionID>::empty());
    reveal_with_fuel(Seq::filter, 2);
    if second.len() == 0 {
        assert(first + second == first);
        assert(without(first, id) + without(second, id) == without(first, id));
    } else {
        law_names_are_left_out_in_place(first, second.drop_last(), one, id);
        assert((first + second).drop_last() == first + second.drop_last());
        assert((first + second).last() == second.last());
        assert(without(first + second, id) == without(first, id) + without(second, id));
    }
}

/// Ending all subscriptions leaves no subscription, list or timer, and all signal values.
pub proof fn law_unsubscribing_all_leaves_the_signals(
    client: ClientModel,
    key: u128,
    path: Seq<char>,
)
    ensures
        ({
            let after = client.after_unsubscribe_all();
            &&& !after.subscriptions.contains_key(key)
            &&& !after.periodic_subscriptions.contains_key(key)
            &&& !after.path_subscriptions.contains_key(path)
            &&& after.signal_cache == client.signal_cache
        }),
{
}

/// A `Get` request succeeds exactly where the path has a value, whatever else the client
/// has, and then with that value.
pub proof fn law_gets_succeed_where_there_is_a_value(
    client: ClientModel,
    path: Seq<char>,
    request_id: ReqID,
    timestamp: u128,
    value: Value,
)
    ensures
        ({
            let response = client.get_response(path, request_id, timestamp);
            &&& response == Ok::<_, ErrorResponseModel>(
                ActionSuccessResponse::Get { request_id, value, timestamp },
            ) <==> client.signal_cache.contains_key(path) && client.signal_cache[path] == value
            &&& is_error(
                response,
                Topic::Get,
                Some(request_id),
                None,
                404,
                "invalid_path"@,
                "The specified data path does not exist."@,
                timestamp,
            ) <==> !client.signal_cache.contains_key(path)
            &&& response is Ok <==> client.signal_cache.contains_key(path)
        }),
{
}

/// Ending a subscription succeeds exactly where the client has it, whatever was sent for
/// it, and is then confirmed under the names of the request and the subscription.
pub proof fn law_unsubscribing_succeeds_where_there_is_a_subscription(
    client: ClientModel,
    id: SubscriptionID,
    request_id: ReqID,
    timestamp: u128,
)
    ensures
        ({
            let response = client.unsubscribe_response(id, request_id, timestamp);
            let held = client.subscriptions.contains_key(id.key());
            &&& response == Ok::<_, ErrorResponseModel>(
                ActionSuccessResponse::Unsubscribe { request_id, subscription_id: id, timestamp },
            ) <==> held
            &&& is_error(
                response,
                Topic::Unsubscribe,
                Some(request_id),
                Some(id),
                404,
                "invalid_subscriptionId"@,
                "The specified subscription was not found."@,
                timestamp,
            ) <==> !held
        }),
{
}

/// Two clients that both have a subscription of a name, or both have none, answer the
/// request to end it alike, whatever else they differ in.
pub proof fn law_history_does_not_change_how_unsubscribing_is_answered(
    one: ClientModel,
    other: ClientModel,
    id: SubscriptionID,
    request_id: ReqID,
    timestamp: u128,
)
    requires
        one.subscriptions.contains_key(id.key()) == other.subscriptions.contains_key(id.key()),
    ensures
        one.unsubscribe_response(id, request_id, timestamp) == other.unsubscribe_response(
            id,
            request_id,
            timestamp,
        ),
{
}

/// Each kind of request gets its own kind of answer: reading, subscribing and ending
/// subscriptions are carried out, and all else is refused with status code 500.
pub proof fn law_requests_are_answered_by_kind(
    client: ClientModel,
    action: Action,
    fresh: SubscriptionID,
    timestamp: u128,
)
    ensures
        ({
            let response = client.response(action, fresh, timestamp);
            let refused = |topic: Topic, request_id: ReqID|
                {
                    &&& response is Err
                    &&& response->Err_0.topic == topic
                    &&& response->Err_0.answers == Some(request_id)
                    &&& response->Err_0.subscription_id is None
                    &&& response->Err_0.error == status_error(500)
                    &&& response->Err_0.error.number == 500
                    &&& response->Err_0.timestamp == timestamp
                };
            match action {
                Action::Get { path, request_id } => response == client.get_response(
                    path@,
                    request_id,
                    timestamp,
                ),
                Action::Subscribe { request_id, .. } => response == Ok::<_, ErrorResponseModel>(
                    ActionSuccessResponse::Subscribe {
                        request_id,
                        subscription_id: fresh,
                        timestamp,
                    },
                ),
                Action::Unsubscribe { subscription_id, request_id } => response
                    == client.unsubscribe_response(subscription_id, request_id, timestamp),
                Action::UnsubscribeAll { request_id } => response == Ok::<_, ErrorResponseModel>(
                    ActionSuccessResponse::UnsubscribeAll { request_id, timestamp },
                ),
                Action::SetSignal { request_id, .. } => refused(Topic::SetSignal, request_id),
                Action::GetMetadata { request_id, .. } => refused(Topic::GetMetadata, request_id),
                Action::Authorize { request_id, .. } => refused(Topic::Authorize, request_id),
            }
        }),
{
}

/// Only requests to subscribe and to end subscriptions change a client, and a request to
/// end a subscription only where the client has it.
pub proof fn law_requests_change_clients_by_kind(
    client: ClientModel,
    action: Action,
    fresh: SubscriptionID,
)
    ensures
        ({
            let after = client.after_request(action, fresh);
            match action {
                Action::Subscribe { path, filters, .. } => after == client.after_subscribe(
                    fresh,
                    path@,
                    filters,
                ),
                Action::Unsubscribe { subscription_id, .. } => {
                    &&& client.subscriptions.contains_key(subscription_id.key()) ==> after
                        == client.after_unsubscribe(subscription_id)
                    &&& !client.subscriptions.contains_key(subscription_id.key()) ==> after
                        == client
                },
                Action::UnsubscribeAll { .. } => after == client.after_unsubscribe_all(),
                _ => after == client,
            }
        }),
{
}

/// The identifier drawn for a new subscription matters to no other request.
pub proof fn law_drawn_identifiers_name_new_subscriptions_only(
    client: ClientModel,
    action: Action,
    one: SubscriptionID,
    other: SubscriptionID,
    timestamp: u128,
)
    requires
        !(action is Subscribe),
    ensures
        client.after_request(action, one) == client.after_request(action, other),
        client.response(action, one, timestamp) == client.response(action, other, timestamp),
        periodic_task(action, one) is None,
{
}

/// Under an identifier that the client has no subscription under, subscribing gives it one
/// subscription more, of that name and as it was asked for, and all its earlier
/// subscriptions are still there, unchanged; a consistent client stays consistent.
pub proof fn law_new_subscriptions_leave_the_earlier_ones(
    client: ClientModel,
    action: Action,
    fresh: SubscriptionID,
    key: u128,
)
    requires
        client.consistent(),
        action is Subscribe,
        !client.subscriptions.contains_key(fresh.key()),
    ensures
        ({
            let after = client.after_request(action, fresh);
            &&& after.consistent()
            &&& after.subscriptions.contains_key(key) <==> client.subscriptions.contains_key(key)
                || key == fresh.key()
            &&& client.subscriptions.contains_key(key) ==> after.subscriptions[key]
                == client.subscriptions[key]
            &&& after.subscriptions[fresh.key()].path == action->Subscribe_path@
            &&& after.subscriptions[fresh.key()].filters == action->Subscribe_filters
        }),
{
    crate::client_laws::law_requests_keep_consistency(client, action, fresh);
}

/// Two subscriptions made one after the other, each under an identifier that was free then,
/// have different names and are both there, each with its own path and filters; an update
/// of a path is queued for each of the two exactly if it is a subscription to that path
/// without an interval.
pub proof fn law_subscriptions_do_not_displace_each_other(
    client: ClientModel,
    first: Action,
    one: SubscriptionID,
    second: Action,
    other: SubscriptionID,
    path: Seq<char>,
    value: Value,
)
    requires
        client.consistent(),
        first is Subscribe,
        second is Subscribe,
        !client.subscriptions.contains_key(one.key()),
        !client.after_request(first, one).subscriptions.contains_key(other.key()),
    ensures
        ({
            let both = client.after_request(first, one).after_request(second, other);
            let by_update = |filters: Option<Filters>|
                filters is None || filters->0.interval is None;
            &&& one != other
            &&& both.subscriptions.contains_key(one.key())
            &&& both.subscriptions[one.key()].subscription_id == one
            &&& both.subscriptions[one.key()].path == first->Subscribe_path@
            &&& both.subscriptions[one.key()].filters == first->Subscribe_filters
            &&& both.subscriptions.contains_key(other.key())
            &&& both.subscriptions[other.key()].subscription_id == other
            &&& both.subscriptions[other.key()].path == second->Subscribe_path@
            &&& both.subscriptions[other.key()].filters == second->Subscribe_filters
            &&& both.queued(path, value).contains((one, value)) <==> path == first->Subscribe_path@
                && by_update(first->Subscribe_filters)
            &&& both.queued(path, value).contains((other, value)) <==> path
                == second->Subscribe_path@ && by_update(second->Subscribe_filters)
        }),
{
    let after = client.after_request(first, one);
    let both = after.after_request(second, other);
    law_new_subscriptions_leave_the_earlier_ones(client, first, one, one.key());
    law_new_subscriptions_leave_the_earlier_ones(after, second, other, one.key());
    crate::client_laws::law_updates_reach_each_subscriber_once(both, path, value);
}

/// When a timer fires, a value is due exactly where the client has the subscription and its
/// signal has a value, and then that value.
pub proof fn law_timers_bring_up_the_current_value(
    client: ClientModel,
    id: SubscriptionID,
    value: Value,
)
    ensures
        client.periodic_value(id) == Some(value) <==> {
            &&& client.subscriptions.contains_key(id.key())
            &&& client.signal_cache.contains_key(client.subscriptions[id.key()].path)
            &&& client.signal_cache[client.subscriptions[id.key()].path] == value
        },
        client.periodic_value(id) is None <==> {
            ||| !client.subscriptions.contains_key(id.key())
            ||| !client.signal_cache.contains_key(client.subscriptions[id.key()].path)
        },
{
}

/// A subscription is served at an interval exactly where its filters hold one.
pub proof fn law_intervals_make_subscriptions_periodic(subscription: SubscriptionModel)
    ensures
        subscription.is_periodic() <==> {
            &&& subscription.filters is Some
            &&& subscription.filters->0.interval is Some
        },
{
}

} // verus!
