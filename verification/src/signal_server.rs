//! The connected clients: who gets which message and which signal.
use crate::api_type::{Action, ActionPath};
use serde_json::Value;
use vstd::prelude::*;

verus! {

/// The address of a connection's other end.
#[derive(Clone, Copy, Debug, PartialEq, Eq, Hash, Structural)]
pub enum SocketAddr {
    /// An IP version 4 address; its bits in big-endian order.
    V4 { ipv4: u32, port: u16 },
    /// An IP version 6 address; its bits in big-endian order.
    V6 { ipv6: u128, port: u16, flowinfo: u32, scope_id: u32 },
}

/// Something that a connection reports. `C` is what messages for the client are
/// handed to.
#[derive(Debug)]
pub enum ClientAction<C> {
    /// A client connected.
    Connected { socket_addr: SocketAddr, client: C },
    /// A client disconnected.
    Disconnected { socket_addr: SocketAddr },
    /// A client sent a request.
    Message { socket_addr: SocketAddr, action: Action },
}

/// The currently connected clients, by address.
pub struct SignalServer<C> {
    clients: Vec<(SocketAddr, C)>,
}

/// Whether a list has an entry for an address.
spec fn has_entry<C>(entries: Seq<(SocketAddr, C)>, addr: SocketAddr) -> bool {
    exists|i: int| 0 <= i < entries.len() && #[trigger] entries[i].0 == addr
}

/// Where a list has its entry for an address.
spec fn entry_index<C>(entries: Seq<(SocketAddr, C)>, addr: SocketAddr) -> int {
    choose|i: int| 0 <= i < entries.len() && #[trigger] entries[i].0 == addr
}

/// The map that a list of entries stands for.
spec fn entry_map<C>(entries: Seq<(SocketAddr, C)>) -> Map<SocketAddr, C> {
    Map::new(
        |addr: SocketAddr| has_entry(entries, addr),
        |addr: SocketAddr| entries[entry_index(entries, addr)].1,
    )
}

/// Whether no address has two entries.
spec fn entries_distinct<C>(entries: Seq<(SocketAddr, C)>) -> bool {
    forall|i: int, j: int|
        0 <= i < j < entries.len() ==> #[trigger] entries[i].0 != #[trigger] entries[j].0
}

impl<C> View for SignalServer<C> {
    type V = Map<SocketAddr, C>;

    closed spec fn view(&self) -> Map<SocketAddr, C> {
        entry_map(self.clients@)
    }
}

/// The connected clients after what a connection reported.
pub open spec fn clients_after<C>(
    clients: Map<SocketAddr, C>,
    client_action: ClientAction<C>,
) -> Map<SocketAddr, C> {
    match client_action {
        ClientAction::Connected { socket_addr, client } => clients.insert(socket_addr, client),
        ClientAction::Disconnected { socket_addr } => clients.remove(socket_addr),
        ClientAction::Message { .. } => clients,
    }
}

/// The connected clients after several reports, oldest first.
pub open spec fn clients_after_all<C>(
    clients: Map<SocketAddr, C>,
    client_actions: Seq<ClientAction<C>>,
) -> Map<SocketAddr, C>
    decreases client_actions.len(),
{
    if client_actions.len() == 0 {
        clients
    } else {
        clients_after(
            clients_after_all(clients, client_actions.drop_last()),
            client_actions.last(),
        )
    }
}

/// The request to forward after what a connection reported: one of a client that is
/// connected.
pub open spec fn forwarded<C>(
    clients: Map<SocketAddr, C>,
    client_action: ClientAction<C>,
) -> Option<(SocketAddr, Action)> {
    match client_action {
        ClientAction::Message { socket_addr, action } => if clients.contains_key(socket_addr) {
            Some((socket_addr, action))
        } else {
            None
        },
        _ => None,
    }
}

/// A signal for one client.
#[derive(Debug, PartialEq)]
pub struct Delivery {
    pub socket_addr: SocketAddr,
    pub path: ActionPath,
    pub value: Value,
}

/// What can happen to the server.
#[derive(Debug)]
pub enum ServerEvent<C> {
    /// A signal got a new value.
    Signal(ActionPath, Value),
    /// A connection reported something.
    Client(ClientAction<C>),
}

/// What the server does next.
#[derive(Debug, PartialEq)]
pub enum ServerStep {
    /// Hand the signals to their clients.
    Distribute(Vec<Delivery>),
    /// Hand the request to its client.
    Forward(SocketAddr, Action),
    /// Nothing.
    Idle,
}

/// Whether a list of deliveries hands a value of a signal to each client once, and to
/// nobody else.
pub open spec fn distributes<C>(
    deliveries: Seq<Delivery>,
    clients: Map<SocketAddr, C>,
    path: Seq<char>,
    value: Value,
) -> bool {
    &&& recipients(deliveries).no_duplicates()
    &&& recipients(deliveries).to_set() == clients.dom()
    &&& forall|i: int|
        0 <= i < deliveries.len() ==> {
            &&& (#[trigger] deliveries[i]).path@ == path
            &&& deliveries[i].value == value
        }
}

/// The addresses that a list of deliveries goes to.
pub open spec fn recipients(deliveries: Seq<Delivery>) -> Seq<SocketAddr> {
    deliveries.map_values(|delivery: Delivery| delivery.socket_addr)
}

impl<C> SignalServer<C> {
    /// No address has two entries.
    pub closed spec fn wf(&self) -> bool {
        entries_distinct(self.clients@)
    }

    /// A server without clients.
    pub fn new() -> (server: Self)
        ensures
            server.wf(),
            server@ == Map::<SocketAddr, C>::empty(),
    {
        let server = SignalServer { clients: Vec::new() };
        proof {
            assert(server@ =~= Map::<SocketAddr, C>::empty());
        }
        server
    }

    /// The index of the entry for an address.
    fn position(&self, addr: SocketAddr) -> (index: Option<usize>)
        requires
            self.wf(),
        ensures
            match index {
                Some(i) => {
                    &&& i < self.clients@.len()
                    &&& self.clients@[i as int].0 == addr
                    &&& self@.contains_key(addr)
                    &&& self@[addr] == self.clients@[i as int].1
                },
                None => !self@.contains_key(addr),
            },
    {
        for i in 0..self.clients.len()
            invariant
                forall|j: int| 0 <= j < i ==> #[trigger] self.clients@[j].0 != addr,
                self.wf(),
        {
            if self.clients[i].0 == addr {
                proof {
                    let at = entry_index(self.clients@, addr);
                    assert(self.clients@[i as int].0 == addr);
                    assert(self.clients@[at].0 == addr);
                }
                return Some(i);
            }
        }
        None
    }

    /// How many clients are connected.
    pub fn len(&self) -> (len: usize)
        requires
            self.wf(),
        ensures
            len == self@.dom().len(),
            self@.dom().finite(),
    {
        proof {
            let keys = self.clients@.map_values(|entry: (SocketAddr, C)| entry.0);
            assert(keys.no_duplicates());
            keys.unique_seq_to_set();
            assert(keys.to_set() =~= self@.dom()) by {
                assert forall|addr: SocketAddr| keys.to_set().contains(addr)
                    == self@.dom().contains(addr) by {
                    if has_entry(self.clients@, addr) {
                        let i = entry_index(self.clients@, addr);
                        assert(keys[i] == addr);
                    }
                    if keys.contains(addr) {
                        let i = choose|i: int| 0 <= i < keys.len() && keys[i] == addr;
                        assert(self.clients@[i].0 == addr);
                    }
                }
            }
        }
        self.clients.len()
    }

    /// Takes note of what a connection reported, and hands back the request to
    /// forward, if there is one. A client that connects anew under an address takes
    /// the place of the one that was there.
    pub fn process_client_requests(&mut self, client_action: ClientAction<C>) -> (forward: Option<
        (SocketAddr, Action),
    >)
        requires
            old(self).wf(),
        ensures
            final(self).wf(),
            final(self)@ == clients_after(old(self)@, client_action),
            forward == forwarded(old(self)@, client_action),
    {
        match client_action {
            ClientAction::Connected { socket_addr, client } => {
                match self.position(socket_addr) {
                    Some(i) => {
                        self.clients.set(i, (socket_addr, client));
                        proof {
                            let before = old(self).clients@;
                            let after = self.clients@;
                            assert(after == before.update(i as int, (socket_addr, client)));
                            lemma_replaced(before, i as int, socket_addr, client);
                        }
                    },
                    None => {
                        self.clients.push((socket_addr, client));
                        proof {
                            lemma_added(old(self).clients@, socket_addr, client);
                        }
                    },
                }
                None
            },
            ClientAction::Disconnected { socket_addr } => {
                if let Some(i) = self.position(socket_addr) {
                    let _ = self.clients.remove(i);
                    proof {
                        lemma_removed(old(self).clients@, i as int);
                    }
                } else {
                    proof {
                        assert(old(self)@.remove(socket_addr) =~= old(self)@);
                    }
                }
                None
            },
            ClientAction::Message { socket_addr, action } => {
                if self.position(socket_addr).is_some() {
                    Some((socket_addr, action))
                } else {
                    None
                }
            },
        }
    }

    /// What messages for a connected client are handed to.
    pub fn client_mut(&mut self, addr: SocketAddr) -> (client: Option<&mut C>)
        requires
            old(self).wf(),
        ensures
            final(self).wf(),
            match client {
                Some(c) => {
                    &&& old(self)@.contains_key(addr)
                    &&& *c == old(self)@[addr]
                    &&& final(self)@ == old(self)@.insert(addr, *final(c))
                },
                None => !old(self)@.contains_key(addr) && final(self)@ == old(self)@,
            },
    {
        match self.position(addr) {
            Some(i) => {
                let entry = &mut self.clients[i];
                proof {
                    lemma_replaced(old(self).clients@, i as int, addr, final(entry).1);
                }
                Some(&mut entry.1)
            },
            None => None,
        }
    }

    /// Hands a new value of a signal to every connected client, to each once.
    pub fn distribute(&self, path: &ActionPath, value: &Value) -> (deliveries: Vec<Delivery>)
        requires
            self.wf(),
        ensures
            distributes(deliveries@, self@, path@, *value),
    {
        let mut deliveries: Vec<Delivery> = Vec::new();
        for i in 0..self.clients.len()
            invariant
                deliveries@.len() == i,
                forall|j: int|
                    0 <= j < i ==> {
                        &&& (#[trigger] deliveries@[j]).socket_addr == self.clients@[j].0
                        &&& deliveries@[j].path@ == path@
                        &&& deliveries@[j].value == *value
                    },
        {
            deliveries.push(
                Delivery {
                    socket_addr: self.clients[i].0,
                    path: path.clone(),
                    value: value.clone(),
                },
            );
        }
        proof {
            let addrs = recipients(deliveries@);
            assert forall|addr: SocketAddr| addrs.to_set().contains(addr) == self@.dom().contains(
                addr,
            ) by {
                if has_entry(self.clients@, addr) {
                    let i = entry_index(self.clients@, addr);
                    assert(addrs[i] == addr);
                }
                if addrs.contains(addr) {
                    let i = choose|i: int| 0 <= i < addrs.len() && addrs[i] == addr;
                    assert(self.clients@[i].0 == addr);
                }
            }
            assert(addrs.to_set() =~= self@.dom());
        }
        deliveries
    }

    /// Takes one event of the server's task and tells what to do next.
    pub fn step(&mut self, event: ServerEvent<C>) -> (step: ServerStep)
        requires
            old(self).wf(),
        ensures
            final(self).wf(),
            match event {
                ServerEvent::Signal(path, value) => {
                    &&& final(self)@ == old(self)@
                    &&& step matches ServerStep::Distribute(deliveries) && distributes(
                        deliveries@,
                        old(self)@,
                        path@,
                        value,
                    )
                },
                ServerEvent::Client(client_action) => {
                    &&& final(self)@ == clients_after(old(self)@, client_action)
                    &&& step == (match forwarded(old(self)@, client_action) {
                        Some((socket_addr, action)) => ServerStep::Forward(socket_addr, action),
                        None => ServerStep::Idle,
                    })
                },
            },
    {
        match event {
            ServerEvent::Signal(path, value) => {
                ServerStep::Distribute(self.distribute(&path, &value))
            },
            ServerEvent::Client(client_action) => {
                match self.process_client_requests(client_action) {
                    Some((socket_addr, action)) => ServerStep::Forward(socket_addr, action),
                    None => ServerStep::Idle,
                }
            },
        }
    }
}

/// Once a client disconnected, none of its requests is forwarded and no signal is handed
/// to its address, whatever is reported, until a client connects there again.
pub proof fn law_disconnected_clients_get_nothing<C>(
    clients: Map<SocketAddr, C>,
    socket_addr: SocketAddr,
    later: Seq<ClientAction<C>>,
    action: Action,
    deliveries: Seq<Delivery>,
    path: Seq<char>,
    value: Value,
)
    requires
        forall|i: int|
            0 <= i < later.len() ==> !((#[trigger] later[i]) is Connected
                && later[i]->Connected_socket_addr == socket_addr),
        distributes(
            deliveries,
            clients_after_all(
                clients_after(clients, ClientAction::<C>::Disconnected { socket_addr }),
                later,
            ),
            path,
            value,
        ),
    ensures
        ({
            let rest = clients_after_all(
                clients_after(clients, ClientAction::<C>::Disconnected { socket_addr }),
                later,
            );
            &&& !rest.contains_key(socket_addr)
            &&& forwarded(rest, ClientAction::<C>::Message { socket_addr, action }) is None
        }),
        forall|i: int|
            0 <= i < deliveries.len() ==> (#[trigger] deliveries[i]).socket_addr != socket_addr,
{
    let gone = clients_after(clients, ClientAction::<C>::Disconnected { socket_addr });
    lemma_nobody_connects(gone, socket_addr, later);
    assert forall|i: int| 0 <= i < deliveries.len() implies (#[trigger] deliveries[i]).socket_addr
        != socket_addr by {
        let addrs = recipients(deliveries);
        assert(addrs[i] == deliveries[i].socket_addr);
        assert(addrs.to_set().contains(addrs[i]));
    }
}

/// Nobody is at an address where nobody was and nobody connects.
proof fn lemma_nobody_connects<C>(
    clients: Map<SocketAddr, C>,
    socket_addr: SocketAddr,
    later: Seq<ClientAction<C>>,
)
    requires
        !clients.contains_key(socket_addr),
        forall|i: int|
            0 <= i < later.len() ==> !((#[trigger] later[i]) is Connected
                && later[i]->Connected_socket_addr == socket_addr),
    ensures
        !clients_after_all(clients, later).contains_key(socket_addr),
    decreases later.len(),
{
    if later.len() > 0 {
        let init = later.drop_last();
        assert forall|i: int| 0 <= i < init.len() implies !((#[trigger] init[i]) is Connected
            && init[i]->Connected_socket_addr == socket_addr) by {
            assert(init[i] == later[i]);
        }
        lemma_nobody_connects(clients, socket_addr, init);
        assert(later[later.len() - 1] == later.last());
    }
}

/// A request of a connected client reaches that client as it is, and no other one.
pub proof fn law_requests_reach_their_client<C>(
    clients: Map<SocketAddr, C>,
    socket_addr: SocketAddr,
    client: C,
    action: Action,
)
    ensures
        ({
            let connected = clients_after(
                clients,
                ClientAction::Connected { socket_addr, client },
            );
            &&& connected[socket_addr] == client
            &&& forwarded(connected, ClientAction::<C>::Message { socket_addr, action }) == Some(
                (socket_addr, action),
            )
        }),
{
}

/// What one connection reports changes nothing for the clients at other addresses.
pub proof fn law_clients_are_independent<C>(
    clients: Map<SocketAddr, C>,
    client_action: ClientAction<C>,
    other: SocketAddr,
)
    requires
        match client_action {
            ClientAction::Connected { socket_addr, .. } => socket_addr != other,
            ClientAction::Disconnected { socket_addr } => socket_addr != other,
            ClientAction::Message { .. } => true,
        },
    ensures
        ({
            let after = clients_after(clients, client_action);
            &&& after.contains_key(other) == clients.contains_key(other)
            &&& clients.contains_key(other) ==> after[other] == clients[other]
        }),
{
}

/// In a list without two entries for an address, the map holds each entry.
proof fn lemma_entry<C>(entries: Seq<(SocketAddr, C)>, i: int)
    requires
        entries_distinct(entries),
        0 <= i < entries.len(),
    ensures
        entry_map(entries).contains_key(entries[i].0),
        entry_map(entries)[entries[i].0] == entries[i].1,
{
    let addr = entries[i].0;
    assert(has_entry(entries, addr));
    let at = entry_index(entries, addr);
    assert(entries[at].0 == addr);
}

/// Replacing an entry replaces what the map holds for its address.
proof fn lemma_replaced<C>(entries: Seq<(SocketAddr, C)>, i: int, addr: SocketAddr, client: C)
    requires
        entries_distinct(entries),
        0 <= i < entries.len(),
        entries[i].0 == addr,
    ensures
        entries_distinct(entries.update(i, (addr, client))),
        entry_map(entries.update(i, (addr, client))) == entry_map(entries).insert(addr, client),
{
    let after = entries.update(i, (addr, client));
    assert forall|j: int| 0 <= j < entries.len() implies #[trigger] after[j].0 == entries[j].0 by {}
    assert forall|other: SocketAddr| has_entry(after, other) == has_entry(entries, other) by {
        if has_entry(after, other) {
            let j = entry_index(after, other);
            assert(entries[j].0 == other);
        }
        if has_entry(entries, other) {
            let j = entry_index(entries, other);
            assert(after[j].0 == other);
        }
    }
    assert forall|other: SocketAddr| has_entry(after, other) implies entry_map(after)[other]
        == entry_map(entries).insert(addr, client)[other] by {
        let j = entry_index(after, other);
        assert(after[j].0 == other);
        lemma_entry(after, j);
        lemma_entry(entries, j);
    }
    assert(entry_map(after) =~= entry_map(entries).insert(addr, client));
}

/// Adding an entry for a new address adds it to the map.
proof fn lemma_added<C>(entries: Seq<(SocketAddr, C)>, addr: SocketAddr, client: C)
    requires
        entries_distinct(entries),
        !entry_map(entries).contains_key(addr),
    ensures
        entries_distinct(entries.push((addr, client))),
        entry_map(entries.push((addr, client))) == entry_map(entries).insert(addr, client),
{
    let after = entries.push((addr, client));
    assert(!has_entry(entries, addr));
    assert(after[entries.len() as int] == (addr, client));
    assert forall|other: SocketAddr| has_entry(after, other) == (has_entry(entries, other) || other
        == addr) by {
        if has_entry(entries, other) {
            let j = entry_index(entries, other);
            assert(after[j].0 == other);
        }
        assert(after[entries.len() as int].0 == addr);
        if has_entry(after, other) && other != addr {
            let j = entry_index(after, other);
            assert(entries[j].0 == other);
        }
    }
    assert forall|other: SocketAddr| has_entry(after, other) implies entry_map(after)[other]
        == entry_map(entries).insert(addr, client)[other] by {
        let j = entry_index(after, other);
        assert(after[j].0 == other);
        lemma_entry(after, j);
        if j < entries.len() {
            assert(entries[j].0 == other);
            lemma_entry(entries, j);
        }
    }
    assert(entry_map(after) =~= entry_map(entries).insert(addr, client));
}

/// Removing an entry removes its address from the map.
proof fn lemma_removed<C>(entries: Seq<(SocketAddr, C)>, i: int)
    requires
        entries_distinct(entries),
        0 <= i < entries.len(),
    ensures
        entries_distinct(entries.remove(i)),
        entry_map(entries.remove(i)) == entry_map(entries).remove(entries[i].0),
{
    let addr = entries[i].0;
    let after = entries.remove(i);
    assert forall|j: int| 0 <= j < after.len() implies #[trigger] after[j] == entries[if j < i {
        j
    } else {
        j + 1
    }] by {}
    assert forall|other: SocketAddr| has_entry(after, other) == (has_entry(entries, other) && other
        != addr) by {
        if has_entry(entries, other) && other != addr {
            let j = entry_index(entries, other);
            assert(entries[j].0 == other);
            let k = if j < i { j } else { j - 1 };
            assert(after[k].0 == other);
        }
        if has_entry(after, other) {
            let k = entry_index(after, other);
            assert(after[k].0 == other);
            let j = if k < i { k } else { k + 1 };
            assert(entries[j].0 == other);
        }
    }
    assert forall|other: SocketAddr| has_entry(after, other) implies entry_map(after)[other]
        == entry_map(entries).remove(addr)[other] by {
        let k = entry_index(after, other);
        assert(after[k].0 == other);
        let j = if k < i { k } else { k + 1 };
        assert(entries[j].0 == other);
        lemma_entry(after, k);
        lemma_entry(entries, j);
    }
    assert(entry_map(after) =~= entry_map(entries).remove(addr));
}

/// A report changes who is at its own address and nobody else: a client that connects is
/// there, one that disconnects is not, and a request changes nothing.
pub proof fn law_reports_change_their_address_only<C>(
    clients: Map<SocketAddr, C>,
    client_action: ClientAction<C>,
    addr: SocketAddr,
)
    ensures
        ({
            let after = clients_after(clients, client_action);
            let same = after.contains_key(addr) == clients.contains_key(addr) && after[addr]
                == clients[addr];
            match client_action {
                ClientAction::Connected { socket_addr, client } => {
                    &&& after.contains_key(socket_addr)
                    &&& after[socket_addr] == client
                    &&& addr != socket_addr ==> same
                },
                ClientAction::Disconnected { socket_addr } => {
                    &&& !after.contains_key(socket_addr)
                    &&& addr != socket_addr ==> same
                },
                ClientAction::Message { .. } => same,
            }
        }),
{
}

/// A report is forwarded exactly where it is a request from an address where a client is
/// connected, and then that request, to that address.
pub proof fn law_exactly_the_requests_of_clients_are_forwarded<C>(
    clients: Map<SocketAddr, C>,
    client_action: ClientAction<C>,
    addr: SocketAddr,
    action: Action,
)
    ensures
        forwarded(clients, client_action) == Some((addr, action)) <==> {
            &&& client_action == (ClientAction::<C>::Message { socket_addr: addr, action })
            &&& clients.contains_key(addr)
        },
        forwarded(clients, client_action) is None <==> !(client_action is Message
            && clients.contains_key(client_action->Message_socket_addr)),
{
}

/// The deliveries of a signal go to exactly the connected clients, to each once, and each
/// carries the signal's path and value.
pub proof fn law_deliveries_reach_exactly_the_clients<C>(
    deliveries: Seq<Delivery>,
    clients: Map<SocketAddr, C>,
    path: Seq<char>,
    value: Value,
    addr: SocketAddr,
)
    requires
        distributes(deliveries, clients, path, value),
    ensures
        clients.contains_key(addr) <==> exists|i: int|
            0 <= i < deliveries.len() && #[trigger] deliveries[i].socket_addr == addr,
        forall|i: int, j: int|
            0 <= i < j < deliveries.len() ==> #[trigger] deliveries[i].socket_addr
                != #[trigger] deliveries[j].socket_addr,
        forall|i: int|
            0 <= i < deliveries.len() ==> (#[trigger] deliveries[i]).path@ == path
                && deliveries[i].value == value,
{
    let addrs = recipients(deliveries);
    assert(forall|i: int|
        0 <= i < deliveries.len() ==> #[trigger] addrs[i] == deliveries[i].socket_addr);
    assert(addrs.to_set().contains(addr) == clients.contains_key(addr));
    if addrs.contains(addr) {
        let i = choose|i: int| 0 <= i < addrs.len() && addrs[i] == addr;
        assert(deliveries[i].socket_addr == addr);
    }
    if exists|i: int| 0 <= i < deliveries.len() && #[trigger] deliveries[i].socket_addr == addr {
        let i = choose|i: int|
            0 <= i < deliveries.len() && #[trigger] deliveries[i].socket_addr == addr;
        assert(addrs[i] == addr);
    }
    assert forall|i: int, j: int| 0 <= i < j < deliveries.len() implies #[trigger] deliveries[i].socket_addr
        != #[trigger] deliveries[j].socket_addr by {
        assert(addrs[i] != addrs[j]);
    }
}

} // verus!
