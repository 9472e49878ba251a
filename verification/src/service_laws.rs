//! What holds between the signals of the service and what its clients read.
use crate::api_error::ErrorResponseModel;
use crate::api_type::ActionSuccessResponse;
use crate::client::ClientModel;
use crate::client_laws::{last_signal, lemma_cache_holds_last_signals, Happening};
use crate::identifier::ReqID;
use crate::signal_server::{distributes, recipients, Delivery, SocketAddr};
use serde_json::Value;
use vstd::prelude::*;

verus! {

/// The signals that a list of deliveries hands to one address, in order.
pub open spec fn handed_to(deliveries: Seq<Delivery>, addr: SocketAddr) -> Seq<(Seq<char>, Value)>
    decreases deliveries.len(),
{
    if deliveries.len() == 0 {
        Seq::empty()
    } else {
        let before = handed_to(deliveries.drop_last(), addr);
        let last = deliveries.last();
        if last.socket_addr == addr {
            before.push((last.path@, last.value))
        } else {
            before
        }
    }
}

/// The signals that one address gets from several lists of deliveries, in order.
pub open spec fn received(rounds: Seq<Seq<Delivery>>, addr: SocketAddr) -> Seq<(Seq<char>, Value)>
    decreases rounds.len(),
{
    if rounds.len() == 0 {
        Seq::empty()
    } else {
        received(rounds.drop_last(), addr) + handed_to(rounds.last(), addr)
    }
}

/// Whether lists of deliveries hand signals, one after the other, to the clients.
pub open spec fn distributes_all<C>(
    rounds: Seq<Seq<Delivery>>,
    clients: Map<SocketAddr, C>,
    signals: Seq<(Seq<char>, Value)>,
) -> bool {
    &&& rounds.len() == signals.len()
    &&& forall|i: int|
        0 <= i < rounds.len() ==> distributes(
            #[trigger] rounds[i],
            clients,
            signals[i].0,
            signals[i].1,
        )
}

/// The value that signals last give to a path, if they give one.
pub open spec fn last_value(signals: Seq<(Seq<char>, Value)>, path: Seq<char>) -> Option<Value>
    decreases signals.len(),
{
    if signals.len() == 0 {
        None
    } else if signals.last().0 == path {
        Some(signals.last().1)
    } else {
        last_value(signals.drop_last(), path)
    }
}

/// The signals in a client's history, in order.
pub open spec fn signals_of(history: Seq<Happening>) -> Seq<(Seq<char>, Value)>
    decreases history.len(),
{
    if history.len() == 0 {
        Seq::empty()
    } else {
        let before = signals_of(history.drop_last());
        match history.last() {
            Happening::Signal(path, value) => before.push((path, value)),
            _ => before,
        }
    }
}

/// A list of deliveries of one signal, to each address once, hands an address the signal
/// once if it is among the recipients, and nothing else.
proof fn lemma_handed_once(
    deliveries: Seq<Delivery>,
    addr: SocketAddr,
    path: Seq<char>,
    value: Value,
)
    requires
        recipients(deliveries).no_duplicates(),
        forall|i: int|
            0 <= i < deliveries.len() ==> {
                &&& (#[trigger] deliveries[i]).path@ == path
                &&& deliveries[i].value == value
            },
    ensures
        handed_to(deliveries, addr) == (if recipients(deliveries).contains(addr) {
            seq![(path, value)]
        } else {
            Seq::empty()
        }),
    decreases deliveries.len(),
{
    let addrs = recipients(deliveries);
    if deliveries.len() == 0 {
        assert(!addrs.contains(addr));
    } else {
        let init = deliveries.drop_last();
        let before = recipients(init);
        assert(before == addrs.drop_last());
        assert(addrs.last() == deliveries.last().socket_addr);
        assert(deliveries[deliveries.len() - 1] == deliveries.last());
        assert forall|i: int| 0 <= i < init.len() implies {
            &&& (#[trigger] init[i]).path@ == path
            &&& init[i].value == value
        } by {
            assert(init[i] == deliveries[i]);
        }
        lemma_handed_once(init, addr, path, value);
        if before.contains(addr) {
            let i = choose|i: int| 0 <= i < before.len() && before[i] == addr;
            assert(addrs[i] == addr);
            assert(addrs[addrs.len() - 1] != addr);
        } else if addrs.last() == addr {
            assert(addrs[addrs.len() - 1] == addr);
            assert(handed_to(deliveries, addr) == seq![(path, value)]);
        } else if addrs.contains(addr) {
            let i = choose|i: int| 0 <= i < addrs.len() && addrs[i] == addr;
            assert(before[i] == addr);
        }
    }
}

/// Every connected client gets the signals that the service takes, each once, in order
/// and unchanged; at an address where nobody is connected nothing arrives.
pub proof fn law_clients_receive_every_signal_in_order<C>(
    rounds: Seq<Seq<Delivery>>,
    clients: Map<SocketAddr, C>,
    signals: Seq<(Seq<char>, Value)>,
    addr: SocketAddr,
)
    requires
        distributes_all(rounds, clients, signals),
    ensures
        received(rounds, addr) == (if clients.contains_key(addr) {
            signals
        } else {
            Seq::empty()
        }),
    decreases rounds.len(),
{
    if rounds.len() > 0 {
        let init = rounds.drop_last();
        let taken = signals.drop_last();
        assert forall|i: int| 0 <= i < init.len() implies distributes(
            #[trigger] init[i],
            clients,
            taken[i].0,
            taken[i].1,
        ) by {
            assert(init[i] == rounds[i]);
            assert(taken[i] == signals[i]);
        }
        law_clients_receive_every_signal_in_order(init, clients, taken, addr);
        let deliveries = rounds[rounds.len() - 1];
        let (path, value) = signals.last();
        assert(distributes(deliveries, clients, path, value));
        lemma_handed_once(deliveries, addr, path, value);
        assert(recipients(deliveries).contains(addr) == recipients(deliveries).to_set().contains(
            addr,
        ));
        assert(taken + seq![signals.last()] == signals);
    }
}

/// The last signal of a path in a history is the last value that the history's signals
/// give to the path.
proof fn lemma_last_signal_of_history(history: Seq<Happening>, path: Seq<char>)
    ensures
        last_signal(history, path) == last_value(signals_of(history), path),
    decreases history.len(),
{
    if history.len() > 0 {
        let init = history.drop_last();
        lemma_last_signal_of_history(init, path);
        match history.last() {
            Happening::Signal(p, value) => {
                assert(signals_of(history).drop_last() == signals_of(init));
            },
            _ => {},
        }
    }
}

/// What a connected client reads is what the service was last told: after the service took
/// signals and the client worked through those it received, whatever requests and
/// notifications came in between, a `Get` request gives the value of the last signal of
/// its path. A path without a signal reads as it did before.
pub proof fn law_clients_read_the_last_signal<C>(
    rounds: Seq<Seq<Delivery>>,
    clients: Map<SocketAddr, C>,
    signals: Seq<(Seq<char>, Value)>,
    addr: SocketAddr,
    client: ClientModel,
    history: Seq<Happening>,
    path: Seq<char>,
    request_id: ReqID,
    timestamp: u128,
)
    requires
        distributes_all(rounds, clients, signals),
        clients.contains_key(addr),
        signals_of(history) == received(rounds, addr),
    ensures
        client.after_all(history).get_response(path, request_id, timestamp) == (match last_value(
            signals,
            path,
        ) {
            Some(value) => Ok::<_, ErrorResponseModel>(
                ActionSuccessResponse::Get { request_id, value, timestamp },
            ),
            None => client.get_response(path, request_id, timestamp),
        }),
{
    law_clients_receive_every_signal_in_order(rounds, clients, signals, addr);
    lemma_last_signal_of_history(history, path);
    lemma_cache_holds_last_signals(client, history, path);
}

} // verus!
