//! What holds between a client's requests and the service that answers them.
use crate::api_error::ActionErrorResponse;
use crate::api_type::{Action, ActionSuccessResponse};
use crate::client::ClientModel;
use crate::identifier::{ReqID, SubscriptionID};
use crate::outside::json_document;
use crate::vis_client::{
    error_read, error_text, get_step, raw_step_on, unsubscribe_all_step, GetStep, PendingSubscribe,
    RawStep, ServerFrame, SubscribeStep, UnsubscribeAllStep, VISClientError,
};
use serde_json::Value;
use vstd::prelude::*;

verus! {

/// Whether a frame decides a waiting `Get` request: a failure of the connection, a text
/// that is no successful response, or the response to the request itself.
pub open spec fn decides_get(request_id: ReqID, frame: ServerFrame) -> bool {
    match frame {
        ServerFrame::Failed(_) => true,
        ServerFrame::Text { parsed: Err(_), .. } => true,
        ServerFrame::Text { parsed: Ok(response), .. } => {
            response is Get && response.answers() == Some(request_id)
        },
        ServerFrame::Other => false,
    }
}

/// How a waiting `Get` request ends, given the frames that come in, in order: with the
/// first step that is not to wait; nothing if it still waits.
pub open spec fn get_outcome(request_id: ReqID, frames: Seq<ServerFrame>) -> Option<GetStep>
    decreases frames.len(),
{
    if frames.len() == 0 {
        None
    } else {
        match get_step(request_id, frames.first()) {
            GetStep::Wait => get_outcome(request_id, frames.drop_first()),
            step => Some(step),
        }
    }
}

/// A `Get` request is ended by the first frame that decides it: how it ends is fixed by
/// that frame alone, whatever comes before that does not decide, and whatever comes after.
pub proof fn law_first_deciding_frame_ends_a_get(
    request_id: ReqID,
    before: Seq<ServerFrame>,
    deciding: ServerFrame,
    after: Seq<ServerFrame>,
)
    requires
        forall|i: int| 0 <= i < before.len() ==> !decides_get(request_id, #[trigger] before[i]),
        decides_get(request_id, deciding),
    ensures
        get_outcome(request_id, before + seq![deciding] + after) == Some(
            get_step(request_id, deciding),
        ),
        get_step(request_id, deciding) != GetStep::Wait,
    decreases before.len(),
{
    let all = before + seq![deciding] + after;
    if before.len() == 0 {
        assert(all.first() == deciding);
    } else {
        let rest = before.drop_first();
        assert(all.first() == before[0]);
        assert(!decides_get(request_id, before[0]));
        assert forall|i: int| 0 <= i < rest.len() implies !decides_get(
            request_id,
            #[trigger] rest[i],
        ) by {
            assert(rest[i] == before[i + 1]);
        }
        law_first_deciding_frame_ends_a_get(request_id, rest, deciding, after);
        assert(all.drop_first() == rest + seq![deciding] + after);
    }
}

/// A `Get` request waits as long as no frame decides it; responses to other requests,
/// notifications and messages that are no text do not.
pub proof fn law_get_ignores_other_frames(request_id: ReqID, frames: Seq<ServerFrame>)
    requires
        forall|i: int| 0 <= i < frames.len() ==> !decides_get(request_id, #[trigger] frames[i]),
    ensures
        get_outcome(request_id, frames) is None,
    decreases frames.len(),
{
    if frames.len() > 0 {
        let rest = frames.drop_first();
        assert(!decides_get(request_id, frames[0]));
        assert forall|i: int| 0 <= i < rest.len() implies !decides_get(
            request_id,
            #[trigger] rest[i],
        ) by {
            assert(rest[i] == frames[i + 1]);
        }
        law_get_ignores_other_frames(request_id, rest);
    }
}

/// A `Get` request gives the client the value that the service answers it with, however
/// many frames that do not decide it come in before, and whatever comes in after.
pub proof fn law_get_delivers_the_answer(
    client: ClientModel,
    action: Action,
    fresh: SubscriptionID,
    timestamp: u128,
    text: String,
    before: Seq<ServerFrame>,
    after: Seq<ServerFrame>,
)
    requires
        action is Get,
        client.signal_cache.contains_key(action->Get_path@),
        forall|i: int|
            0 <= i < before.len() ==> !decides_get(action.request_id(), #[trigger] before[i]),
    ensures
        ({
            let response = client.response(action, fresh, timestamp);
            let answer = ServerFrame::Text { text, parsed: Ok(response->Ok_0) };
            &&& response is Ok
            &&& get_outcome(action.request_id(), before + seq![answer] + after) == Some(
                GetStep::Done(client.signal_cache[action->Get_path@]),
            )
        }),
{
    let response = client.response(action, fresh, timestamp);
    let answer = ServerFrame::Text { text, parsed: Ok(response->Ok_0) };
    law_first_deciding_frame_ends_a_get(action.request_id(), before, answer, after);
}

/// The subscription after successful responses, oldest first.
pub open spec fn subscription_after(
    pending: PendingSubscribe,
    responses: Seq<ActionSuccessResponse>,
) -> PendingSubscribe
    decreases responses.len(),
{
    if responses.len() == 0 {
        pending
    } else {
        subscription_after(pending, responses.drop_last()).after_success(responses.last())
    }
}

/// A subscription is named by the responses to its own request, and hands out
/// nothing before it is named.
pub proof fn law_subscriptions_wait_for_their_name(
    request_id: ReqID,
    responses: Seq<ActionSuccessResponse>,
    next: ActionSuccessResponse,
)
    requires
        forall|i: int|
            0 <= i < responses.len() ==> (#[trigger] responses[i]).answers() != Some(request_id),
    ensures
        ({
            let pending = subscription_after(
                PendingSubscribe { request_id, subscription_id: None },
                responses,
            );
            &&& pending == (PendingSubscribe { request_id, subscription_id: None })
            &&& pending.step_on_success(next) == SubscribeStep::Wait
        }),
    decreases responses.len(),
{
    if responses.len() > 0 {
        let init = responses.drop_last();
        assert forall|i: int| 0 <= i < init.len() implies (#[trigger] init[i]).answers() != Some(
            request_id,
        ) by {
            assert(init[i] == responses[i]);
        }
        law_subscriptions_wait_for_their_name(request_id, init, next);
        assert(responses[responses.len() - 1].answers() != Some(request_id));
    }
}

/// A subscription hands out exactly the notifications that carry its own name.
pub proof fn law_subscriptions_hand_out_their_own_notifications(
    pending: PendingSubscribe,
    response: ActionSuccessResponse,
    id: SubscriptionID,
    value: Value,
)
    ensures
        pending.step_on_success(response) == SubscribeStep::Yield(id, value) <==> {
            &&& pending.subscription_id == Some(id)
            &&& response is Subscription
            &&& response->Subscription_subscription_id == id
            &&& response->Subscription_value == value
        },
{
}

/// The values that a subscription hands out over a run of frames, in order.
pub open spec fn handed_out(pending: PendingSubscribe, frames: Seq<ServerFrame>) -> Seq<
    (SubscriptionID, Value),
>
    decreases frames.len(),
{
    if frames.len() == 0 {
        Seq::empty()
    } else {
        let rest = handed_out(pending.after_frame(frames.first()), frames.drop_first());
        match pending.step_on_frame(frames.first()) {
            SubscribeStep::Yield(id, value) => seq![(id, value)] + rest,
            _ => rest,
        }
    }
}

/// The notifications among the responses that are handed out over a run of frames where
/// every response is of interest, in order.
pub open spec fn raw_notifications(frames: Seq<ServerFrame>) -> Seq<(SubscriptionID, Value)>
    decreases frames.len(),
{
    if frames.len() == 0 {
        Seq::empty()
    } else {
        let rest = raw_notifications(frames.drop_first());
        match raw_step_on(frames.first()) {
            RawStep::Yield(ActionSuccessResponse::Subscription { subscription_id, value, .. }) => {
                seq![(subscription_id, value)] + rest
            },
            _ => rest,
        }
    }
}

/// The name that a frame gives to the subscription made by a request, if it gives one.
pub open spec fn names(request_id: ReqID, frame: ServerFrame) -> Option<SubscriptionID> {
    match frame {
        ServerFrame::Text {
            parsed: Ok(ActionSuccessResponse::Subscribe { request_id: answered, subscription_id, .. }),
            ..
        } => if answered == request_id {
            Some(subscription_id)
        } else {
            None
        },
        _ => None,
    }
}

/// Whether some elements of a sequence, in their order, are the other sequence; `at` says
/// which.
pub open spec fn picks<T>(part: Seq<T>, whole: Seq<T>, at: Seq<int>) -> bool {
    &&& at.len() == part.len()
    &&& forall|i: int| 0 <= i < at.len() ==> 0 <= #[trigger] at[i] < whole.len()
    &&& forall|i: int, j: int| 0 <= i < j < at.len() ==> #[trigger] at[i] < #[trigger] at[j]
    &&& forall|i: int| 0 <= i < at.len() ==> #[trigger] part[i] == whole[at[i]]
}

/// Whether a sequence is another one with some elements left out.
pub open spec fn is_subsequence<T>(part: Seq<T>, whole: Seq<T>) -> bool {
    exists|at: Seq<int>| picks(part, whole, at)
}

/// A further element in front of the whole leaves a subsequence one.
proof fn lemma_subsequence_skip<T>(part: Seq<T>, whole: Seq<T>, first: T)
    requires
        is_subsequence(part, whole),
    ensures
        is_subsequence(part, seq![first] + whole),
{
    let at = choose|at: Seq<int>| picks(part, whole, at);
    let shifted = at.map_values(|i: int| i + 1);
    assert forall|i: int| 0 <= i < shifted.len() implies #[trigger] part[i] == (seq![first]
        + whole)[shifted[i]] by {
        assert(shifted[i] == at[i] + 1);
    }
    assert(picks(part, seq![first] + whole, shifted));
}

/// The same element in front of both leaves a subsequence one.
proof fn lemma_subsequence_take<T>(part: Seq<T>, whole: Seq<T>, first: T)
    requires
        is_subsequence(part, whole),
    ensures
        is_subsequence(seq![first] + part, seq![first] + whole),
{
    let at = choose|at: Seq<int>| picks(part, whole, at);
    let shifted = seq![0int] + at.map_values(|i: int| i + 1);
    let longer = seq![first] + part;
    assert forall|i: int| 0 <= i < shifted.len() implies #[trigger] longer[i] == (seq![first]
        + whole)[shifted[i]] by {
        if i > 0 {
            assert(shifted[i] == at[i - 1] + 1);
            assert(longer[i] == part[i - 1]);
        }
    }
    assert forall|i: int| 0 <= i < shifted.len() implies 0 <= #[trigger] shifted[i] < (
    seq![first] + whole).len() by {
        if i > 0 {
            assert(shifted[i] == at[i - 1] + 1);
        }
    }
    assert forall|i: int, j: int| 0 <= i < j < shifted.len() implies #[trigger] shifted[i]
        < #[trigger] shifted[j] by {
        assert(shifted[j] == at[j - 1] + 1);
        if i > 0 {
            assert(shifted[i] == at[i - 1] + 1);
        }
    }
    assert(picks(longer, seq![first] + whole, shifted));
}

/// Over any run of frames, what a subscription hands out is what is handed out where
/// every response is of interest, with some notifications left out.
pub proof fn law_subscriptions_hand_out_some_of_the_notifications(
    pending: PendingSubscribe,
    frames: Seq<ServerFrame>,
)
    ensures
        is_subsequence(handed_out(pending, frames), raw_notifications(frames)),
    decreases frames.len(),
{
    if frames.len() == 0 {
        assert(picks(handed_out(pending, frames), raw_notifications(frames), Seq::empty()));
    } else {
        let next = pending.after_frame(frames.first());
        let rest = frames.drop_first();
        law_subscriptions_hand_out_some_of_the_notifications(next, rest);
        match raw_step_on(frames.first()) {
            RawStep::Yield(ActionSuccessResponse::Subscription { subscription_id, value, .. }) => {
                if pending.step_on_frame(frames.first()) is Yield {
                    lemma_subsequence_take(
                        handed_out(next, rest),
                        raw_notifications(rest),
                        (subscription_id, value),
                    );
                } else {
                    lemma_subsequence_skip(
                        handed_out(next, rest),
                        raw_notifications(rest),
                        (subscription_id, value),
                    );
                }
            },
            _ => {},
        }
    }
}

/// Where the confirmations of its request all give a subscription the same name, all that
/// it hands out over a run of frames carries that name.
pub proof fn law_subscriptions_hand_out_one_name(
    request_id: ReqID,
    frames: Seq<ServerFrame>,
    name: SubscriptionID,
)
    requires
        forall|i: int|
            0 <= i < frames.len() ==> (names(request_id, #[trigger] frames[i]) matches Some(given)
                ==> given == name),
    ensures
        ({
            let out = handed_out(PendingSubscribe { request_id, subscription_id: None }, frames);
            forall|i: int| 0 <= i < out.len() ==> (#[trigger] out[i]).0 == name
        }),
{
    lemma_hands_out_one_name(
        PendingSubscribe { request_id, subscription_id: None },
        frames,
        name,
    );
}

/// A subscription that has no other name than the one its confirmations give it hands
/// out what carries that name.
proof fn lemma_hands_out_one_name(
    pending: PendingSubscribe,
    frames: Seq<ServerFrame>,
    name: SubscriptionID,
)
    requires
        pending.subscription_id matches Some(given) ==> given == name,
        forall|i: int|
            0 <= i < frames.len() ==> (names(pending.request_id, #[trigger] frames[i]) matches Some(
                given,
            ) ==> given == name),
    ensures
        forall|i: int|
            0 <= i < handed_out(pending, frames).len() ==> (#[trigger] handed_out(
                pending,
                frames,
            )[i]).0 == name,
    decreases frames.len(),
{
    if frames.len() > 0 {
        let first = frames[0];
        let next = pending.after_frame(first);
        let rest = frames.drop_first();
        assert(names(pending.request_id, first) matches Some(given) ==> given == name);
        assert forall|i: int| 0 <= i < rest.len() implies (
        names(next.request_id, #[trigger] rest[i]) matches Some(given) ==> given == name) by {
            assert(rest[i] == frames[i + 1]);
        }
        lemma_hands_out_one_name(next, rest, name);
        let tail = handed_out(next, rest);
        assert forall|i: int| 0 <= i < handed_out(pending, frames).len() implies (
        #[trigger] handed_out(pending, frames)[i]).0 == name by {
            if pending.step_on_frame(first) is Yield {
                if i > 0 {
                    assert(handed_out(pending, frames)[i] == tail[i - 1]);
                }
            } else {
                assert(handed_out(pending, frames)[i] == tail[i]);
            }
        }
    }
}

/// The notifications that carry a name.
pub open spec fn under_name(
    notifications: Seq<(SubscriptionID, Value)>,
    name: SubscriptionID,
) -> Seq<(SubscriptionID, Value)>
    decreases notifications.len(),
{
    if notifications.len() == 0 {
        Seq::empty()
    } else if notifications.first().0 == name {
        seq![notifications.first()] + under_name(notifications.drop_first(), name)
    } else {
        under_name(notifications.drop_first(), name)
    }
}

/// Once a subscription is named, and as long as it is given no other name, it hands out
/// exactly the notifications that carry its name, all of them and in order.
pub proof fn law_named_subscriptions_miss_nothing(
    request_id: ReqID,
    frames: Seq<ServerFrame>,
    name: SubscriptionID,
)
    requires
        forall|i: int|
            0 <= i < frames.len() ==> (names(request_id, #[trigger] frames[i]) matches Some(given)
                ==> given == name),
    ensures
        handed_out(PendingSubscribe { request_id, subscription_id: Some(name) }, frames)
            == under_name(raw_notifications(frames), name),
    decreases frames.len(),
{
    if frames.len() > 0 {
        let first = frames[0];
        let rest = frames.drop_first();
        let pending = PendingSubscribe { request_id, subscription_id: Some(name) };
        assert(names(request_id, first) matches Some(given) ==> given == name);
        assert(pending.after_frame(first) == pending);
        assert forall|i: int| 0 <= i < rest.len() implies (
        names(request_id, #[trigger] rest[i]) matches Some(given) ==> given == name) by {
            assert(rest[i] == frames[i + 1]);
        }
        law_named_subscriptions_miss_nothing(request_id, rest, name);
        let whole = raw_notifications(frames);
        match raw_step_on(first) {
            RawStep::Yield(ActionSuccessResponse::Subscription { subscription_id, value, .. }) => {
                assert(whole.first() == (subscription_id, value));
                assert(whole.drop_first() == raw_notifications(rest));
            },
            _ => {},
        }
    }
}

/// A subscription hands out the same errors as where every response is of interest.
pub proof fn law_subscriptions_hand_out_every_error(
    pending: PendingSubscribe,
    frame: ServerFrame,
    error: VISClientError,
)
    ensures
        pending.step_on_frame(frame) == SubscribeStep::Fail(error) <==> raw_step_on(frame)
            == RawStep::Fail(error),
{
}

/// The service and the client's side of a subscription fit together: the answer to the
/// request names the subscription, and each notification that the service then sends
/// for it is handed out with its value.
pub proof fn law_subscriptions_deliver_notifications(
    client: ClientModel,
    action: Action,
    fresh: SubscriptionID,
    value: Value,
    timestamp: u128,
    notified: u128,
)
    requires
        action is Subscribe,
    ensures
        ({
            let pending = PendingSubscribe {
                request_id: action.request_id(),
                subscription_id: None,
            };
            let answer = client.response(action, fresh, timestamp);
            let subscribed = client.after_request(action, fresh);
            let notice = subscribed.notice(fresh, value, Ok(true), notified);
            &&& answer is Ok
            &&& notice is Some
            &&& notice->0 is Ok
            &&& pending.step_on_success(answer->Ok_0) == SubscribeStep::Wait
            &&& pending.after_success(answer->Ok_0).subscription_id == Some(fresh)
            &&& pending.after_success(answer->Ok_0).step_on_success(notice->0->Ok_0)
                == SubscribeStep::Yield(fresh, value)
        }),
{
}

/// The service's answer to an `UnsubscribeAll` request ends the client's waiting, and
/// no other successful response does.
pub proof fn law_unsubscribe_all_is_confirmed(
    client: ClientModel,
    request_id: ReqID,
    fresh: SubscriptionID,
    timestamp: u128,
    text: String,
    response: ActionSuccessResponse,
)
    ensures
        ({
            let answer = client.response(
                Action::UnsubscribeAll { request_id },
                fresh,
                timestamp,
            );
            &&& answer is Ok
            &&& unsubscribe_all_step(
                request_id,
                Some(ServerFrame::Text { text, parsed: Ok(answer->Ok_0) }),
            ) == UnsubscribeAllStep::Done
        }),
        !(response is UnsubscribeAll && response.answers() == Some(request_id))
            ==> unsubscribe_all_step(
            request_id,
            Some(ServerFrame::Text { text, parsed: Ok(response) }),
        ) == UnsubscribeAllStep::Wait,
{
}

/// A text that is no successful response is read as a document, whatever request waits and
/// whatever the text was first refused for: the document is to be read as an error response
/// exactly where the text spells one, and otherwise the request fails with the document's
/// own error.
pub proof fn law_other_texts_are_read_as_documents(
    request_id: ReqID,
    text: String,
    unread: serde_json::Error,
    document: Value,
    error: serde_json::Error,
)
    ensures
        ({
            let step = get_step(request_id, ServerFrame::Text { text, parsed: Err(unread) });
            &&& step == GetStep::ReadError(document) <==> json_document(text@) == Ok::<
                _,
                serde_json::Error,
            >(document)
            &&& step == GetStep::Fail(VISClientError::SerdeError(error)) <==> json_document(text@)
                == Err::<Value, _>(error)
        }),
{
}

/// Two waiting requests make the same of every frame that answers neither of them: what a
/// frame other than an own answer leads to does not depend on the request.
pub proof fn law_requests_wait_alike(one: ReqID, other: ReqID, frame: ServerFrame)
    requires
        frame is Text && frame->parsed is Ok ==> {
            &&& frame->parsed->Ok_0.answers() != Some(one)
            &&& frame->parsed->Ok_0.answers() != Some(other)
        },
    ensures
        get_step(one, frame) == get_step(other, frame),
{
}

/// A waiting request is done exactly with the response that carries its identifier, and
/// with the value in it; it fails with the connection's own error; and it waits at all else
/// but texts that are no successful response.
pub proof fn law_gets_end_with_their_own_response(
    request_id: ReqID,
    frame: ServerFrame,
    value: Value,
    error: tungstenite::Error,
)
    ensures
        get_step(request_id, frame) == GetStep::Done(value) <==> {
            &&& frame is Text
            &&& frame->parsed is Ok
            &&& frame->parsed->Ok_0 is Get
            &&& frame->parsed->Ok_0->Get_request_id == request_id
            &&& frame->parsed->Ok_0->Get_value == value
        },
        get_step(request_id, frame) == GetStep::Fail(VISClientError::WebSocketError(error)) <==> {
            &&& frame is Failed
            &&& frame->Failed_0 == error
        },
        get_step(request_id, frame) == GetStep::Wait <==> {
            ||| frame is Other
            ||| frame is Text && frame->parsed is Ok && !(frame->parsed->Ok_0 is Get
                && frame->parsed->Ok_0->Get_request_id == request_id)
        },
{
}

/// The service's refusal of a `Get` request reaches the caller: whatever comes in before that
/// does not decide, the text of the refusal is read as an error response, and the request
/// fails with that refusal, as the service gave it.
pub proof fn law_refusals_reach_the_caller(
    client: ClientModel,
    path: Seq<char>,
    request_id: ReqID,
    timestamp: u128,
    refusal: ActionErrorResponse,
    text: String,
    unread: serde_json::Error,
    document: Value,
    before: Seq<ServerFrame>,
    after: Seq<ServerFrame>,
)
    requires
        !client.signal_cache.contains_key(path),
        client.get_response(path, request_id, timestamp) == Err::<ActionSuccessResponse, _>(
            refusal@,
        ),
        json_document(text@) == Ok::<_, serde_json::Error>(document),
        forall|i: int| 0 <= i < before.len() ==> !decides_get(request_id, #[trigger] before[i]),
    ensures
        get_outcome(
            request_id,
            before + seq![ServerFrame::Text { text, parsed: Err(unread) }] + after,
        ) == Some(GetStep::ReadError(document)),
        error_read(Ok(refusal)) == VISClientError::VisError(refusal),
        refusal@.answers == Some(request_id),
        refusal@.error.number == 404,
        refusal@.error.reason == "invalid_path"@,
{
    law_first_deciding_frame_ends_a_get(
        request_id,
        before,
        ServerFrame::Text { text, parsed: Err(unread) },
        after,
    );
}

/// A document that is no error response fails the request with the reading's own error.
pub proof fn law_unread_documents_fail(error: serde_json::Error)
    ensures
        error_read(Err(error)) == VISClientError::SerdeError(error),
{
}

/// A frame names a subscription exactly where it confirms the subscription's own request,
/// and by the name in it; no other frame changes anything.
pub proof fn law_frames_name_their_own_subscription(pending: PendingSubscribe, frame: ServerFrame)
    ensures
        ({
            let after = pending.after_frame(frame);
            let confirms = {
                &&& frame is Text
                &&& frame->parsed is Ok
                &&& frame->parsed->Ok_0 is Subscribe
                &&& frame->parsed->Ok_0->Subscribe_request_id == pending.request_id
            };
            &&& after.request_id == pending.request_id
            &&& confirms ==> after.subscription_id == Some(
                frame->parsed->Ok_0->Subscribe_subscription_id,
            )
            &&& !confirms ==> after.subscription_id == pending.subscription_id
        }),
{
}

/// Of a frame a subscription hands out a value exactly where it is a notification under the
/// subscription's name, and that value; an error exactly where the connection failed or the
/// text is no successful response, and that error; and nothing otherwise.
pub proof fn law_subscriptions_hand_out_by_frame(
    pending: PendingSubscribe,
    frame: ServerFrame,
    id: SubscriptionID,
    value: Value,
    error: VISClientError,
)
    ensures
        pending.step_on_frame(frame) == SubscribeStep::Yield(id, value) <==> {
            &&& frame is Text
            &&& frame->parsed is Ok
            &&& frame->parsed->Ok_0 is Subscription
            &&& frame->parsed->Ok_0->Subscription_subscription_id == id
            &&& frame->parsed->Ok_0->Subscription_value == value
            &&& pending.subscription_id == Some(id)
        },
        pending.step_on_frame(frame) == SubscribeStep::Fail(error) <==> {
            ||| frame is Failed && error == VISClientError::WebSocketError(frame->Failed_0)
            ||| frame is Text && frame->parsed is Err && error == VISClientError::SerdeError(
                frame->parsed->Err_0,
            )
        },
{
}

/// Where every response is of interest, a frame brings exactly the response that it is, the
/// error that it is, or nothing where it is no text.
pub proof fn law_raw_subscriptions_hand_out_by_frame(
    frame: ServerFrame,
    response: ActionSuccessResponse,
    error: VISClientError,
)
    ensures
        raw_step_on(frame) == RawStep::Yield(response) <==> {
            &&& frame is Text
            &&& frame->parsed == Ok::<_, serde_json::Error>(response)
        },
        raw_step_on(frame) == RawStep::Fail(error) <==> {
            ||| frame is Failed && error == VISClientError::WebSocketError(frame->Failed_0)
            ||| frame is Text && frame->parsed is Err && error == VISClientError::SerdeError(
                frame->parsed->Err_0,
            )
        },
        raw_step_on(frame) is Wait <==> frame is Other,
{
}

/// A request to end all subscriptions is done exactly with the response that carries its
/// identifier, fails with the text's own error or with the loss of the connection, and waits
/// at all else.
pub proof fn law_ending_all_ends_with_its_own_response(
    request_id: ReqID,
    frame: Option<ServerFrame>,
    error: VISClientError,
)
    ensures
        unsubscribe_all_step(request_id, frame) is Done <==> {
            &&& frame is Some
            &&& frame->0 is Text
            &&& frame->0->parsed is Ok
            &&& frame->0->parsed->Ok_0 is UnsubscribeAll
            &&& frame->0->parsed->Ok_0->UnsubscribeAll_request_id == request_id
        },
        unsubscribe_all_step(request_id, frame) == UnsubscribeAllStep::Fail(error) <==> {
            ||| (frame is None || frame->0 is Failed) && error
                == VISClientError::LostConnectionWithoutResponse
            ||| frame is Some && frame->0 is Text && frame->0->parsed is Err && error
                == VISClientError::SerdeError(frame->0->parsed->Err_0)
        },
{
}

/// Each kind of error has its own sentence.
pub proof fn law_errors_have_their_sentences(error: VISClientError)
    ensures
        error is WebSocketError ==> error_text(error) == "WebsocketError"@,
        error is SerdeError ==> error_text(error) == "SerdeError"@,
        error is IoError ==> error_text(error) == "IoError"@,
        error is UrlParseError ==> error_text(error) == "Url parsing error"@,
        error is VisError ==> error_text(error) == "VIS error"@,
        error is LostConnectionWithoutResponse ==> error_text(error)
            == "Websocket connection lost while waiting for result"@,
{
}

} // verus!
