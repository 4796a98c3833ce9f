//! Server configuration.

use vstd::prelude::*;

use crate::error::{Error, Result};
use crate::map::VecMap;
use crate::net::{Encoding, Transport};
use crate::query::Query;
use crate::text::string_of;
use crate::time::Duration;

verus! {

/// Configuration settings for server.
#[derive(Debug, Clone)]
pub struct Config {
    /// Name of the server
    pub name: String,
    /// Description of the server
    pub description: String,
    /// Time since last traffic from any client until server is shutdown,
    /// set to none to keep alive forever
    pub self_keepalive: Option<Duration>,
    /// Time between polls in the main loop
    pub poll_wait: Duration,
    /// Delay between polling for new incoming client connections
    pub accept_delay: Duration,
    /// Time since last traffic from client until connection is terminated
    pub client_keepalive: Option<Duration>,
    /// Compress outgoing messages
    pub use_compression: bool,
    /// Whether to require authorization of incoming clients
    pub use_auth: bool,
    /// User and password pairs for client authorization
    pub auth_pairs: Vec<(String, String)>,
    /// List of transports supported for client connections
    pub transports: Vec<Transport>,
    /// List of encodings supported for client connections
    pub encodings: Vec<Encoding>,
}

impl Default for Config {
    /// Unnamed server that is kept alive, polls every millisecond, accepts
    /// connections every 200 milliseconds, drops clients after four silent
    /// seconds, and speaks framed TCP with bincode, without compression or
    /// authorization.
    fn default() -> (res: Self)
        ensures
            res.name@ == ""@,
            res.description@ == ""@,
            res.self_keepalive is None,
            res.poll_wait.micros == 1_000,
            res.accept_delay.micros == 200_000,
            res.client_keepalive == Some(Duration { micros: 4_000_000 }),
            !res.use_compression,
            !res.use_auth,
            res.auth_pairs@.len() == 0,
            res.transports@ == seq![Transport::FramedTcp],
            res.encodings@ == seq![Encoding::Bincode],
    {
        Config {
            name: string_of(""),
            description: string_of(""),
            self_keepalive: None,
            poll_wait: Duration::from_millis(1),
            accept_delay: Duration::from_millis(200),
            client_keepalive: Some(Duration::from_secs(4)),
            use_compression: false,
            use_auth: false,
            auth_pairs: Vec::new(),
            transports: vec![Transport::FramedTcp],
            encodings: vec![Encoding::Bincode],
        }
    }
}

/// Handle of a running HTTP interface of a server.
#[derive(Debug, Clone, Copy)]
pub struct HttpServerHandler {}

/// Identifier of a client connected to a server.
pub type ClientId = u128;

/// Connected client as seen by server.
#[derive(Debug, Clone)]
pub struct Client {
    pub id: ClientId,
    /// Address of the client
    pub addr: Option<String>,
    /// Currently applied encoding as negotiated with the client
    pub encoding: Encoding,
    /// Blocking client has to explicitly agree to let server continue to next
    /// turn, while non-blocking client is more of a passive observer
    pub is_blocking: bool,
    /// Furthest simulation step client has announced it's ready to proceed
    /// to.
    pub furthest_step: usize,
    /// Client-specific keepalive value, if none server config value applies
    pub keepalive: Option<Duration>,
    /// Authentication pair used by the client
    pub auth_pair: Option<(String, String)>,
    /// Self-assigned name
    pub name: String,
    /// Clock step on which client needs to be notified of step advance
    /// success
    pub scheduled_advance_response: Option<usize>,
}

/// Whether the client is the one at the address `addr`.
pub open spec fn client_at(c: Client, addr: Seq<char>) -> bool {
    c.addr matches Some(a) && a@ == addr
}

/// Clients known to a server, and whether the server blocks stepping.
#[derive(Debug)]
pub struct ServerState {
    pub clients: VecMap<ClientId, Client>,
    /// Last value published on the blocked watch
    pub blocked: bool,
}

/// Message from a client that the server handles.
#[derive(Debug)]
pub enum ClientMessage {
    RegisterClientRequest { name: String, is_blocking: bool },
    Disconnect,
    StatusRequest(String),
    AdvanceRequest(u32),
    QueryRequest(Query),
    EntityListRequest,
    PingRequest(Vec<u8>),
}

/// What the server does with a client message.
#[derive(Debug)]
pub enum ServerAction {
    /// Answer that the client is registered under the id, to be spoken to
    /// with the encoding over the transport.
    Registered { client_id: ClientId, encoding: Encoding, transport: Transport },
    /// Answer that the client is disconnected; the blocked watch is to be
    /// published.
    Disconnected,
    /// Answer the ping with the same bytes.
    Pong(Vec<u8>),
    /// Answer with the status of the simulation, for the client.
    Status(ClientId, String),
    /// Advance the simulation on the client's behalf.
    Advance(ClientId, u32),
    /// Run the query on the worker.
    Query(Query),
    /// List the worker's entities.
    EntityList,
}

/// What handling a client message does: who the client is, what changes in
/// the server state, and what is done or answered.
pub open spec fn handle_message_spec(
    client_id: Option<ClientId>,
    peer_addr: Option<String>,
    msg: ClientMessage,
    new_id: ClientId,
    pre: ServerState,
    post: ServerState,
    res: Result<ServerAction>,
) -> bool {
    match msg {
        ClientMessage::RegisterClientRequest { name, is_blocking } => {
            &&& res matches Ok(ServerAction::Registered { client_id, encoding, transport }) && client_id == new_id
                && encoding == Encoding::Bincode && transport == Transport::FramedTcp
            &&& post.clients@.dom() == pre.clients@.dom().insert(new_id)
            &&& post.clients@[new_id] == (Client {
                id: new_id,
                addr: peer_addr,
                encoding: Encoding::Bincode,
                is_blocking,
                furthest_step: 0,
                keepalive: None,
                auth_pair: None,
                name,
                scheduled_advance_response: None,
            })
            &&& forall|k: ClientId| k != new_id && #[trigger] pre.clients@.contains_key(k) ==> post.clients@[k]
                == pre.clients@[k]
            &&& post.blocked == pre.blocked
        },
        _ => match client_id {
            None => {
                &&& res matches Err(Error::Forbidden(m)) && m@ == "client not recognized"@
                &&& post == pre
            },
            Some(id) => match msg {
                ClientMessage::Disconnect => {
                    &&& res matches Ok(ServerAction::Disconnected)
                    &&& post.clients@ == pre.clients@.remove(id)
                    &&& !post.blocked
                },
                ClientMessage::StatusRequest(f) => res == Ok::<ServerAction, Error>(ServerAction::Status(id, f))
                    && post == pre,
                ClientMessage::AdvanceRequest(n) => res == Ok::<ServerAction, Error>(ServerAction::Advance(id, n))
                    && post == pre,
                ClientMessage::QueryRequest(q) => res == Ok::<ServerAction, Error>(ServerAction::Query(q))
                    && post == pre,
                ClientMessage::EntityListRequest => res == Ok::<ServerAction, Error>(ServerAction::EntityList)
                    && post == pre,
                ClientMessage::PingRequest(v) => (res matches Ok(ServerAction::Pong(w)) && w@ == v@) && post == pre,
                ClientMessage::RegisterClientRequest { .. } => false,
            },
        },
    }
}

/// Handles a message from a client: registers a new client under the fresh
/// id `new_id`, refuses messages of unknown clients, and otherwise names
/// what is to be done for the client.
pub fn handle_message(
    client_id: Option<ClientId>,
    peer_addr: Option<String>,
    msg: ClientMessage,
    new_id: ClientId,
    server: &mut ServerState,
) -> (res: Result<ServerAction>)
    ensures
        handle_message_spec(client_id, peer_addr, msg, new_id, *old(server), *final(server), res),
{
    match msg {
        ClientMessage::RegisterClientRequest { name, is_blocking } => {
            let client = Client {
                id: new_id,
                addr: peer_addr,
                encoding: Encoding::Bincode,
                is_blocking,
                furthest_step: 0,
                keepalive: None,
                auth_pair: None,
                name,
                scheduled_advance_response: None,
            };
            let ghost before = server.clients@;
            server.clients.insert(new_id, client);
            assert(server.clients@.dom() =~= before.dom().insert(new_id));
            Ok(ServerAction::Registered { client_id: new_id, encoding: Encoding::Bincode, transport: Transport::FramedTcp })
        },
        _ => {
            let id = match client_id {
                Some(id) => id,
                None => return Err(Error::Forbidden(string_of("client not recognized"))),
            };
            match msg {
                ClientMessage::Disconnect => {
                    server.clients.remove(&id);
                    server.blocked = false;
                    Ok(ServerAction::Disconnected)
                },
                ClientMessage::StatusRequest(format) => Ok(ServerAction::Status(id, format)),
                ClientMessage::AdvanceRequest(n) => Ok(ServerAction::Advance(id, n)),
                ClientMessage::QueryRequest(q) => Ok(ServerAction::Query(q)),
                ClientMessage::EntityListRequest => Ok(ServerAction::EntityList),
                ClientMessage::PingRequest(v) => Ok(ServerAction::Pong(v)),
                ClientMessage::RegisterClientRequest { .. } => Err(Error::Forbidden(string_of("client not recognized"))),
            }
        },
    }
}

/// A registered client is known to the server until it disconnects: after
/// registering under `id` the server holds the client, and after the client
/// disconnects it does not.
pub proof fn lemma_register_then_disconnect(
    name: String,
    is_blocking: bool,
    peer: Option<String>,
    id: ClientId,
    s0: ServerState,
    s1: ServerState,
    r1: Result<ServerAction>,
    other_id: ClientId,
    s2: ServerState,
    r2: Result<ServerAction>,
)
    requires
        handle_message_spec(None, peer, ClientMessage::RegisterClientRequest { name, is_blocking }, id, s0, s1, r1),
        handle_message_spec(Some(id), None, ClientMessage::Disconnect, other_id, s1, s2, r2),
    ensures
        s1.clients@.contains_key(id),
        s1.clients@[id].name == name,
        !s2.clients@.contains_key(id),
        r2 matches Ok(ServerAction::Disconnected),
{
    assert(s1.clients@.dom().contains(id));
}

impl ServerState {
    /// Names of the connected clients, one for each client, in the order
    /// they are held.
    pub fn connected_clients(&self) -> (res: Vec<String>)
        ensures
            res@.len() == self.clients@.len(),
            forall|i: int| 0 <= i < res@.len() ==> #[trigger] res@[i] == self.clients.entries()[i].1.name,
    {
        let n = self.clients.len();
        let mut names: Vec<String> = Vec::new();
        let mut i: usize = 0;
        while i < n
            invariant
                n == self.clients.entries().len(),
                n == self.clients@.len(),
                i <= n,
                names@.len() == i,
                forall|j: int| 0 <= j < i ==> #[trigger] names@[j] == self.clients.entries()[j].1.name,
            decreases n - i,
        {
            let e = self.clients.entry(i);
            names.push(e.1.name.clone());
            i = i + 1;
        }
        names
    }

    /// The client that messages from the address `addr` come from, with the
    /// encoding to read them in: the first client with that address, or no
    /// client and JSON.
    pub fn client_by_addr(&self, addr: &str) -> (res: (Encoding, Option<ClientId>))
        ensures
            res.1 is None ==> res.0 == Encoding::Json,
            res.1 is None <==> forall|i: int| 0 <= i < self.clients.entries().len() ==> !client_at(
                #[trigger] self.clients.entries()[i].1,
                addr@,
            ),
            res.1 matches Some(id) ==> exists|i: int|
                0 <= i < self.clients.entries().len() && client_at(#[trigger] self.clients.entries()[i].1, addr@)
                    && self.clients.entries()[i].0 == id && res.0 == self.clients.entries()[i].1.encoding
                    && forall|j: int| 0 <= j < i ==> !client_at(self.clients.entries()[j].1, addr@),
    {
        let n = self.clients.len();
        let mut i: usize = 0;
        while i < n
            invariant
                n == self.clients.entries().len(),
                i <= n,
                forall|j: int| 0 <= j < i ==> !client_at(#[trigger] self.clients.entries()[j].1, addr@),
            decreases n - i,
        {
            let e = self.clients.entry(i);
            match &e.1.addr {
                Some(a) => {
                    if crate::text::str_eq(a.as_str(), addr) {
                        return (e.1.encoding, Some(e.0));
                    }
                },
                None => {},
            }
            i = i + 1;
        }
        (Encoding::Json, None)
    }

    /// What a status request needs before the worker is asked: the client
    /// must be known and a worker attached; then the names of the connected
    /// clients go into the status.
    pub fn status_check(&self, client_id: ClientId, worker_attached: bool) -> (res: Result<Vec<String>>)
        ensures
            !self.clients@.contains_key(client_id) ==> (res matches Err(Error::Other(m)) && m@ == "client not available"@),
            self.clients@.contains_key(client_id) && !worker_attached ==> (res matches Err(Error::WorkerNotConnected(m))
                && m@ == ""@),
            self.clients@.contains_key(client_id) && worker_attached ==> (res matches Ok(names) && names@.len()
                == self.clients@.len() && forall|i: int|
                0 <= i < names@.len() ==> #[trigger] names@[i] == self.clients.entries()[i].1.name),
    {
        let names = self.connected_clients();
        if !self.clients.contains_key(&client_id) {
            return Err(Error::Other(string_of("client not available")));
        }
        if !worker_attached {
            return Err(Error::WorkerNotConnected(string_of("")));
        }
        Ok(names)
    }
}


/// Whether the server blocks stepping, given whether each of its clients
/// is blocked: it does while any of them is.
pub fn any_client_blocked(clients_blocked: &Vec<bool>) -> (res: bool)
    ensures
        res == exists|i: int| 0 <= i < clients_blocked@.len() && clients_blocked@[i],
{
    let mut i: usize = 0;
    while i < clients_blocked.len()
        invariant
            i <= clients_blocked@.len(),
            forall|j: int| 0 <= j < i ==> !clients_blocked@[j],
        decreases clients_blocked@.len() - i,
    {
        if clients_blocked[i] {
            return true;
        }
        i = i + 1;
    }
    false
}

} // verus!
