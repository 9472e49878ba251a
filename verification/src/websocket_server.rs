//! What a websocket connection reports to the service.
use crate::api_type::Action;
use crate::signal_server::{clients_after_all, ClientAction, SocketAddr};
use vstd::prelude::*;

verus! {

/// The address to listen on where none is given.
pub const DEFAULT_ADDRESS: &'static str = "127.0.0.1:8080";

/// Accepts websocket connections and reports what their clients do.
pub struct WebsocketServer;

/// The next thing that a connection brings.
#[derive(Debug)]
pub enum Incoming {
    /// A ping; the connection answers it by itself.
    Ping,
    /// A pong.
    Pong,
    /// A binary message.
    Binary,
    /// The client announced that it closes the connection.
    Close,
    /// A text message, read as a request.
    Text(Result<Action, serde_json::Error>),
    /// The connection failed.
    Failed(tungstenite::Error),
    /// The connection ended.
    Ended,
}

/// What to do with what a connection brought.
#[derive(Debug)]
pub enum IncomingStep<C> {
    /// Report it to the service.
    Report(ClientAction<C>),
    /// Nothing; wait for the next.
    Ignore,
    /// Stop reading.
    Stop,
}

/// What to do with what a connection brought: requests are reported, a failure or
/// the end of the connection stops the reading, and all else is ignored, a text that
/// is no request too.
pub open spec fn incoming_step<C>(socket_addr: SocketAddr, incoming: Incoming) -> IncomingStep<C> {
    match incoming {
        Incoming::Text(Ok(action)) => IncomingStep::Report(
            ClientAction::Message { socket_addr, action },
        ),
        Incoming::Failed(_) => IncomingStep::Stop,
        Incoming::Ended => IncomingStep::Stop,
        _ => IncomingStep::Ignore,
    }
}

impl WebsocketServer {
    /// The address to listen on: the first argument of the program, if there is one.
    pub fn listen_address(first_argument: Option<String>) -> (address: String)
        ensures
            address@ == (match first_argument {
                Some(given) => given@,
                None => DEFAULT_ADDRESS@,
            }),
    {
        match first_argument {
            Some(given) => given,
            None => DEFAULT_ADDRESS.to_string(),
        }
    }

    /// What to report when a connection is established.
    pub fn connection_opened<C>(socket_addr: SocketAddr, client: C) -> (client_action: ClientAction<
        C,
    >)
        ensures
            client_action == (ClientAction::Connected { socket_addr, client }),
    {
        ClientAction::Connected { socket_addr, client }
    }

    /// What to do with what a connection brought.
    pub fn handle_incoming_client_message<C>(
        socket_addr: SocketAddr,
        incoming: Incoming,
    ) -> (step: IncomingStep<C>)
        ensures
            step == incoming_step::<C>(socket_addr, incoming),
    {
        match incoming {
            Incoming::Ping | Incoming::Pong | Incoming::Binary | Incoming::Close => {
                IncomingStep::Ignore
            },
            Incoming::Text(Ok(action)) => IncomingStep::Report(
                ClientAction::Message { socket_addr, action },
            ),
            Incoming::Text(Err(_)) => IncomingStep::Ignore,
            Incoming::Failed(_) => IncomingStep::Stop,
            Incoming::Ended => IncomingStep::Stop,
        }
    }

    /// What to report when a connection is over.
    pub fn connection_closed<C>(socket_addr: SocketAddr) -> (client_action: ClientAction<C>)
        ensures
            client_action == (ClientAction::<C>::Disconnected { socket_addr }),
    {
        ClientAction::Disconnected { socket_addr }
    }
}

/// How far a connection is.
#[derive(Clone, Copy, Debug, PartialEq, Eq, Structural)]
pub enum Phase {
    /// Not established yet.
    New,
    /// Established.
    Open,
    /// Over.
    Closed,
}

/// Something that happens to a connection.
#[derive(Debug)]
pub enum ConnectionEvent<C> {
    /// It was established; messages for its client are handed to `C`.
    Opened(C),
    /// It brought something.
    Brought(Incoming),
    /// Nothing more can be sent to its client.
    OutgoingEnded,
}

/// One websocket connection, from the moment when it is accepted.
#[derive(Debug)]
pub struct Connection {
    pub socket_addr: SocketAddr,
    pub phase: Phase,
}

impl Connection {
    /// A connection that is not established yet.
    pub open spec fn fresh(socket_addr: SocketAddr) -> Self {
        Connection { socket_addr, phase: Phase::New }
    }

    /// The connection after something happened to it.
    pub open spec fn after<C>(self, event: ConnectionEvent<C>) -> Self {
        let phase = match (self.phase, event) {
            (Phase::New, ConnectionEvent::Opened(_)) => Phase::Open,
            (Phase::Open, ConnectionEvent::OutgoingEnded) => Phase::Closed,
            (Phase::Open, ConnectionEvent::Brought(incoming)) => if incoming_step::<C>(
                self.socket_addr,
                incoming,
            ) is Stop {
                Phase::Closed
            } else {
                Phase::Open
            },
            (phase, _) => phase,
        };
        Connection { phase, ..self }
    }

    /// What is reported when something happens to the connection.
    pub open spec fn report<C>(self, event: ConnectionEvent<C>) -> Option<ClientAction<C>> {
        let socket_addr = self.socket_addr;
        match (self.phase, event) {
            (Phase::New, ConnectionEvent::Opened(client)) => Some(
                ClientAction::Connected { socket_addr, client },
            ),
            (Phase::Open, ConnectionEvent::OutgoingEnded) => Some(
                ClientAction::Disconnected { socket_addr },
            ),
            (Phase::Open, ConnectionEvent::Brought(incoming)) => match incoming_step::<C>(
                socket_addr,
                incoming,
            ) {
                IncomingStep::Report(client_action) => Some(client_action),
                IncomingStep::Ignore => None,
                IncomingStep::Stop => Some(ClientAction::Disconnected { socket_addr }),
            },
            _ => None,
        }
    }

    /// A connection that is not established yet.
    pub fn new(socket_addr: SocketAddr) -> (connection: Self)
        ensures
            connection == Connection::fresh(socket_addr),
    {
        Connection { socket_addr, phase: Phase::New }
    }

    /// Whether the connection is over.
    pub fn is_closed(&self) -> (closed: bool)
        ensures
            closed == (self.phase == Phase::Closed),
    {
        self.phase == Phase::Closed
    }

    /// Takes one event of the connection and tells what to report.
    pub fn step<C>(&mut self, event: ConnectionEvent<C>) -> (report: Option<ClientAction<C>>)
        ensures
            *final(self) == old(self).after(event),
            report == old(self).report(event),
    {
        match (self.phase, event) {
            (Phase::New, ConnectionEvent::Opened(client)) => {
                self.phase = Phase::Open;
                Some(WebsocketServer::connection_opened(self.socket_addr, client))
            },
            (Phase::Open, ConnectionEvent::OutgoingEnded) => {
                self.phase = Phase::Closed;
                Some(WebsocketServer::connection_closed(self.socket_addr))
            },
            (Phase::Open, ConnectionEvent::Brought(incoming)) => {
                match WebsocketServer::handle_incoming_client_message(self.socket_addr, incoming) {
                    IncomingStep::Report(client_action) => Some(client_action),
                    IncomingStep::Ignore => None,
                    IncomingStep::Stop => {
                        self.phase = Phase::Closed;
                        Some(WebsocketServer::connection_closed(self.socket_addr))
                    },
                }
            },
            _ => None,
        }
    }
}

/// What a connection reports while it is read, up to the first thing that stops it.
pub open spec fn reports<C>(socket_addr: SocketAddr, incoming: Seq<Incoming>) -> Seq<
    ClientAction<C>,
>
    decreases incoming.len(),
{
    if incoming.len() == 0 {
        Seq::empty()
    } else {
        match incoming_step::<C>(socket_addr, incoming.first()) {
            IncomingStep::Report(client_action) => seq![client_action] + reports(
                socket_addr,
                incoming.drop_first(),
            ),
            IncomingStep::Ignore => reports(socket_addr, incoming.drop_first()),
            IncomingStep::Stop => Seq::empty(),
        }
    }
}

/// All that a connection reports over its life.
pub open spec fn connection_reports<C>(
    socket_addr: SocketAddr,
    client: C,
    incoming: Seq<Incoming>,
) -> Seq<ClientAction<C>> {
    seq![ClientAction::Connected { socket_addr, client }] + reports(socket_addr, incoming) + seq![
        ClientAction::<C>::Disconnected { socket_addr },
    ]
}

/// What a connection reports over a run of events, in order.
pub open spec fn reported<C>(connection: Connection, events: Seq<ConnectionEvent<C>>) -> Seq<
    ClientAction<C>,
>
    decreases events.len(),
{
    if events.len() == 0 {
        Seq::empty()
    } else {
        let rest = reported(connection.after(events.first()), events.drop_first());
        match connection.report(events.first()) {
            Some(client_action) => seq![client_action] + rest,
            None => rest,
        }
    }
}

/// The events of a connection that is established, brings what it brings, and is over at
/// the latest when nothing more can be sent.
pub open spec fn connection_events<C>(client: C, incoming: Seq<Incoming>) -> Seq<
    ConnectionEvent<C>,
> {
    seq![ConnectionEvent::Opened(client)] + brought_and_ended(incoming)
}

/// The events of an established connection that brings what it brings, and is over at the
/// latest when nothing more can be sent.
pub open spec fn brought_and_ended<C>(incoming: Seq<Incoming>) -> Seq<ConnectionEvent<C>> {
    incoming.map_values(|brought: Incoming| ConnectionEvent::<C>::Brought(brought)).push(
        ConnectionEvent::OutgoingEnded,
    )
}

/// A connection that is over reports nothing.
proof fn lemma_closed_reports_nothing<C>(
    connection: Connection,
    events: Seq<ConnectionEvent<C>>,
)
    requires
        connection.phase == Phase::Closed,
    ensures
        reported(connection, events) == Seq::<ClientAction<C>>::empty(),
    decreases events.len(),
{
    if events.len() > 0 {
        lemma_closed_reports_nothing(connection.after(events.first()), events.drop_first());
    }
}

/// An established connection reports its requests, and then once that it is over.
proof fn lemma_open_connection_reports<C>(socket_addr: SocketAddr, incoming: Seq<Incoming>)
    ensures
        reported::<C>(
            Connection { socket_addr, phase: Phase::Open },
            brought_and_ended(incoming),
        ) == reports::<C>(socket_addr, incoming) + seq![
            ClientAction::<C>::Disconnected { socket_addr },
        ],
    decreases incoming.len(),
{
    let open = Connection { socket_addr, phase: Phase::Open };
    let events = brought_and_ended::<C>(incoming);
    let rest = events.drop_first();
    if incoming.len() == 0 {
        assert(events.first() == ConnectionEvent::<C>::OutgoingEnded);
        lemma_closed_reports_nothing(open.after(events.first()), rest);
        assert(reported(open, events) == seq![ClientAction::<C>::Disconnected { socket_addr }]);
    } else {
        let first = incoming.first();
        assert(events.first() == ConnectionEvent::<C>::Brought(first));
        assert(rest == brought_and_ended::<C>(incoming.drop_first()));
        match incoming_step::<C>(socket_addr, first) {
            IncomingStep::Stop => {
                lemma_closed_reports_nothing(open.after(events.first()), rest);
                assert(reported(open, events) == seq![
                    ClientAction::<C>::Disconnected { socket_addr },
                ]);
            },
            _ => {
                lemma_open_connection_reports::<C>(socket_addr, incoming.drop_first());
                assert(open.after(events.first()) == open);
                assert(reported(open, events) == reports::<C>(socket_addr, incoming) + seq![
                    ClientAction::<C>::Disconnected { socket_addr },
                ]);
            },
        }
    }
}

/// A connection reports first that its client connected, then its requests up to the
/// first thing that stops it, and then once that the client disconnected.
pub proof fn law_connections_report_their_whole_life<C>(
    socket_addr: SocketAddr,
    client: C,
    incoming: Seq<Incoming>,
)
    ensures
        reported(Connection::fresh(socket_addr), connection_events(client, incoming))
            == connection_reports(socket_addr, client, incoming),
{
    let fresh = Connection::fresh(socket_addr);
    let events = connection_events(client, incoming);
    assert(events.first() == ConnectionEvent::Opened(client));
    assert(events.drop_first() == brought_and_ended::<C>(incoming));
    lemma_open_connection_reports::<C>(socket_addr, incoming);
    assert(reported(fresh, events) == connection_reports(socket_addr, client, incoming));
}

/// Whether reports come in the order of a connection's life, from the phase that it is in:
/// that the client connected comes first, and only of a new connection; that it
/// disconnected comes last; and all carry the connection's address.
pub open spec fn in_order<C>(connection: Connection, client_actions: Seq<ClientAction<C>>) -> bool {
    forall|i: int|
        0 <= i < client_actions.len() ==> match #[trigger] client_actions[i] {
            ClientAction::Connected { socket_addr, .. } => {
                &&& socket_addr == connection.socket_addr
                &&& i == 0
                &&& connection.phase == Phase::New
            },
            ClientAction::Message { socket_addr, .. } => {
                &&& socket_addr == connection.socket_addr
                &&& connection.phase == Phase::New ==> i > 0
            },
            ClientAction::Disconnected { socket_addr } => {
                &&& socket_addr == connection.socket_addr
                &&& i == client_actions.len() - 1
                &&& connection.phase == Phase::New ==> i > 0
            },
        }
}

/// Whatever happens to a connection, in whatever order, its reports come in the order of
/// its life: at most once and first that the client connected, at most once and last that
/// it disconnected, and its own requests in between.
pub proof fn law_connections_report_in_order<C>(
    connection: Connection,
    events: Seq<ConnectionEvent<C>>,
)
    ensures
        in_order(connection, reported(connection, events)),
    decreases events.len(),
{
    if events.len() > 0 {
        let next = connection.after(events.first());
        let rest = events.drop_first();
        let later = reported(next, rest);
        law_connections_report_in_order(next, rest);
        if next.phase == Phase::Closed {
            lemma_closed_reports_nothing(next, rest);
        }
        if let Some(client_action) = connection.report(events.first()) {
            let all = seq![client_action] + later;
            assert forall|i: int| 1 <= i < all.len() implies #[trigger] all[i] == later[i - 1] by {}
            assert(in_order(connection, all));
        }
    }
}

/// While a connection is read it reports nothing but requests from its own address.
pub proof fn law_connections_report_their_own_requests<C>(
    socket_addr: SocketAddr,
    incoming: Seq<Incoming>,
)
    ensures
        forall|i: int|
            0 <= i < reports::<C>(socket_addr, incoming).len() ==> {
                &&& #[trigger] reports::<C>(socket_addr, incoming)[i] is Message
                &&& reports::<C>(socket_addr, incoming)[i]->Message_socket_addr == socket_addr
            },
    decreases incoming.len(),
{
    if incoming.len() > 0 {
        law_connections_report_their_own_requests::<C>(socket_addr, incoming.drop_first());
        let rest = reports::<C>(socket_addr, incoming.drop_first());
        match incoming_step::<C>(socket_addr, incoming.first()) {
            IncomingStep::Report(client_action) => {
                assert forall|i: int| 0 <= i < (seq![client_action] + rest).len() implies {
                    &&& #[trigger] (seq![client_action] + rest)[i] is Message
                    &&& (seq![client_action] + rest)[i]->Message_socket_addr == socket_addr
                } by {
                    if i > 0 {
                        assert((seq![client_action] + rest)[i] == rest[i - 1]);
                    }
                }
            },
            _ => {},
        }
    }
}

/// Requests do not change who is connected.
proof fn lemma_requests_change_no_client<C>(
    clients: Map<SocketAddr, C>,
    client_actions: Seq<ClientAction<C>>,
)
    requires
        forall|i: int| 0 <= i < client_actions.len() ==> #[trigger] client_actions[i] is Message,
    ensures
        clients_after_all(clients, client_actions) == clients,
    decreases client_actions.len(),
{
    if client_actions.len() > 0 {
        let init = client_actions.drop_last();
        assert forall|i: int| 0 <= i < init.len() implies #[trigger] init[i] is Message by {
            assert(init[i] == client_actions[i]);
        }
        lemma_requests_change_no_client(clients, init);
        assert(client_actions[client_actions.len() - 1] is Message);
    }
}

/// Reports taken together are reports taken one after the other.
proof fn lemma_clients_after_concat<C>(
    clients: Map<SocketAddr, C>,
    first: Seq<ClientAction<C>>,
    second: Seq<ClientAction<C>>,
)
    ensures
        clients_after_all(clients, first + second) == clients_after_all(
            clients_after_all(clients, first),
            second,
        ),
    decreases second.len(),
{
    if second.len() == 0 {
        assert(first + second == first);
    } else {
        assert((first + second).drop_last() == first + second.drop_last());
        assert((first + second).last() == second.last());
        lemma_clients_after_concat(clients, first, second.drop_last());
    }
}

/// Whatever a connection brings, its client is connected while it is read, and once it
/// is over nobody is connected at its address and all other clients are as before.
pub proof fn law_connections_clean_up<C>(
    clients: Map<SocketAddr, C>,
    socket_addr: SocketAddr,
    client: C,
    incoming: Seq<Incoming>,
)
    ensures
        ({
            let opened = seq![ClientAction::Connected { socket_addr, client }];
            &&& clients_after_all(clients, opened + reports(socket_addr, incoming))
                == clients.insert(socket_addr, client)
            &&& clients_after_all(clients, connection_reports(socket_addr, client, incoming))
                == clients.remove(socket_addr)
        }),
{
    let opened = seq![ClientAction::Connected { socket_addr, client }];
    let requests = reports::<C>(socket_addr, incoming);
    let closed = seq![ClientAction::<C>::Disconnected { socket_addr }];
    assert(opened.drop_last() == Seq::<ClientAction<C>>::empty());
    assert(closed.drop_last() == Seq::<ClientAction<C>>::empty());
    reveal_with_fuel(clients_after_all, 2);
    law_connections_report_their_own_requests::<C>(socket_addr, incoming);
    lemma_clients_after_concat(clients, opened, requests);
    lemma_requests_change_no_client(clients.insert(socket_addr, client), requests);
    lemma_clients_after_concat(clients, opened + requests, closed);
    assert(clients.insert(socket_addr, client).remove(socket_addr) =~= clients.remove(socket_addr));
}

/// Every text that is a request is reported, whichever request it is, as it is and under
/// the connection's address, and nothing else is; reading stops exactly at a failure or the
/// end.
pub proof fn law_exactly_the_requests_are_reported<C>(
    socket_addr: SocketAddr,
    incoming: Incoming,
    client_action: ClientAction<C>,
)
    ensures
        incoming_step::<C>(socket_addr, incoming) == IncomingStep::Report(client_action) <==> {
            &&& incoming is Text
            &&& incoming->Text_0 is Ok
            &&& client_action == (ClientAction::<C>::Message {
                socket_addr,
                action: incoming->Text_0->Ok_0,
            })
        },
        incoming_step::<C>(socket_addr, incoming) is Stop <==> incoming is Failed || incoming
            is Ended,
{
}

/// An established connection reports every request that it brings, whichever it is, and
/// stays established.
pub proof fn law_open_connections_report_every_request<C>(connection: Connection, action: Action)
    requires
        connection.phase == Phase::Open,
    ensures
        ({
            let event = ConnectionEvent::<C>::Brought(Incoming::Text(Ok(action)));
            &&& connection.report(event) == Some(
                ClientAction::<C>::Message { socket_addr: connection.socket_addr, action },
            )
            &&& connection.after(event) == connection
        }),
{
}

/// A connection is established once, by being opened, and over once it was established and
/// then failed, ended or can send no more; it keeps its address.
pub proof fn law_connections_open_and_close_once<C>(
    connection: Connection,
    event: ConnectionEvent<C>,
)
    ensures
        ({
            let after = connection.after(event);
            let report = connection.report(event);
            let ends = {
                ||| event is OutgoingEnded
                ||| event is Brought && (event->Brought_0 is Failed || event->Brought_0 is Ended)
            };
            &&& after.socket_addr == connection.socket_addr
            &&& after.phase == Phase::New <==> connection.phase == Phase::New && !(event is Opened)
            &&& after.phase == Phase::Closed <==> connection.phase == Phase::Closed || (
            connection.phase == Phase::Open && ends)
            &&& report is Some && report->0 is Connected <==> connection.phase == Phase::New
                && event is Opened
            &&& report is Some && report->0 is Connected ==> report->0
                == (ClientAction::<C>::Connected {
                socket_addr: connection.socket_addr,
                client: event->Opened_0,
            })
            &&& report == Some(
                ClientAction::<C>::Disconnected { socket_addr: connection.socket_addr },
            ) <==> connection.phase == Phase::Open && ends
            &&& report is Some && report->0 is Message <==> {
                &&& connection.phase == Phase::Open
                &&& event is Brought
                &&& event->Brought_0 is Text
                &&& event->Brought_0->Text_0 is Ok
            }
        }),
{
}

/// The requests that a connection brings before it first fails or ends, in order.
pub open spec fn requests_before_the_end(incoming: Seq<Incoming>) -> Seq<Action>
    decreases incoming.len(),
{
    if incoming.len() == 0 || incoming.first() is Failed || incoming.first() is Ended {
        Seq::empty()
    } else if incoming.first() is Text && incoming.first()->Text_0 is Ok {
        seq![incoming.first()->Text_0->Ok_0] + requests_before_the_end(incoming.drop_first())
    } else {
        requests_before_the_end(incoming.drop_first())
    }
}

/// The reports while a connection is read are the requests that it brings before it first
/// fails or ends, all of them, as they are and in order.
pub proof fn law_reports_are_the_requests_in_order<C>(
    socket_addr: SocketAddr,
    incoming: Seq<Incoming>,
)
    ensures
        ({
            let requests = requests_before_the_end(incoming);
            let told = reports::<C>(socket_addr, incoming);
            &&& told.len() == requests.len()
            &&& forall|i: int|
                0 <= i < told.len() ==> #[trigger] told[i] == (ClientAction::<C>::Message {
                    socket_addr,
                    action: requests[i],
                })
        }),
    decreases incoming.len(),
{
    if incoming.len() > 0 {
        law_reports_are_the_requests_in_order::<C>(socket_addr, incoming.drop_first());
    }
}

/// Where no address is given the service listens on its own machine, on port 8080.
pub proof fn law_default_address()
    ensures
        DEFAULT_ADDRESS@ == "127.0.0.1:8080"@,
{
}

} // verus!
