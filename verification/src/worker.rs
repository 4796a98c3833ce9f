//! Worker: holds a part of the simulation and answers requests about it.
//!
//! The worker's state is kept by a manager task that answers one request at
//! a time. `handle_request` decides, for each request, how the state
//! changes and what is answered, or which outside work (talking to peers,
//! loading behaviors, publishing on watch channels) the task must do.

use vstd::prelude::*;

use crate::address::Address;
use crate::entity::{built_from_prefab, prefab_buildable, prefab_error, Entity};
use crate::error::{Error, Result};
use crate::leader::WorkerId;
use crate::map::VecMap;
use crate::model::Model;
use crate::query::Query;
use crate::text::string_of;
use crate::var::Var;
use crate::EntityName;

verus! {

/// Identifier of a server attached to a worker.
pub type ServerId = u128;

/// Worker configuration.
#[derive(Debug, Clone)]
pub struct Config {
    pub addr: Option<String>,
    /// Topology strategy for the worker to follow
    pub topo_strategy: TopoStrategy,
    /// Maximum allowed memory use
    pub max_ram_mb: usize,
    /// Maximum allowed disk use
    pub max_disk_mb: usize,
    /// Maximum allowed network transfer use
    pub max_transfer_mb: usize,
    /// Whether the worker uses a password to authorize connecting comrade
    /// workers
    pub use_auth: bool,
    /// Password used for incoming connection authorization
    pub passwd_list: Vec<String>,
}

impl Default for Config {
    /// No address, connections to all workers, no limits and no
    /// authorization.
    fn default() -> (res: Self)
        ensures
            res.addr is None,
            res.topo_strategy == TopoStrategy::ConnectToAll,
            res.max_ram_mb == 0,
            res.max_disk_mb == 0,
            res.max_transfer_mb == 0,
            !res.use_auth,
            res.passwd_list@.len() == 0,
    {
        Config {
            addr: None,
            topo_strategy: TopoStrategy::default(),
            max_ram_mb: 0,
            max_disk_mb: 0,
            max_transfer_mb: 0,
            use_auth: false,
            passwd_list: Vec::new(),
        }
    }
}

/// Strategy the worker will pursue in terms of connecting directly to other
/// workers.
#[derive(Debug, Clone, Copy, PartialEq, Eq, Structural)]
pub enum TopoStrategy {
    /// Maintain connection to only one remote worker
    ConnectToOne,
    /// Maintain connections with `n` remote workers selected at random
    ConnectToRandom(u8),
    /// Maintain connections with `n` closest remote workers, selected by ping
    ConnectToClosest(u8),
    /// Maintain connections to all workers in the cluster
    ConnectToAll,
}

impl Default for TopoStrategy {
    fn default() -> (res: Self)
        ensures
            res == TopoStrategy::ConnectToAll,
    {
        TopoStrategy::ConnectToAll
    }
}

/// Part of the simulation held by a worker: its entities, and the sender
/// `B` through which its behaviors are reached.
#[derive(Debug)]
pub struct Part<B> {
    pub entities: VecMap<EntityName, Entity>,
    pub behavior_broadcast: B,
}

/// Worker state. `L`, `S` and `R` are the handles through which the
/// leader, the attached servers and the remote workers are reached; `B` the
/// behavior sender of the part.
#[derive(Debug)]
pub struct WorkerState<L, S, R, B> {
    /// Identifier unique across the cluster
    pub id: WorkerId,
    /// Worker configuration
    pub config: Config,
    /// Addresses that can be used to contact this worker
    pub listeners: Vec<String>,
    /// Simulation model kept up to date with leader
    pub model: Option<Model>,
    /// Worker-held part of the simulation, once initialized
    pub part: Option<Part<B>>,
    /// Cluster leader as seen by the worker
    pub leader: Option<L>,
    pub servers: VecMap<ServerId, S>,
    /// Remote workers from the same cluster as seen by this worker
    pub remote_workers: VecMap<WorkerId, R>,
    /// Last value published on the blocked watch
    pub blocked: bool,
    /// Last value published on the clock watch
    pub clock: usize,
}

/// Request to the worker manager.
#[derive(Debug)]
pub enum Request<L, S, R> {
    GetMeta,
    GetClock,
    GetBlockedWatch,
    SetBlockedWatch(bool),
    GetClockWatch,
    SetClockWatch(usize),
    GetServers,
    GetRemoteWorkers,
    AddRemoteWorker(WorkerId, R),
    GetEntities,
    GetBehaviorTx,
    MemorySize,
    GetLeader,
    SetLeader(Option<L>),
    InsertServer(ServerId, S),
    ProcessQuery(Query),
    SetModel(Model),
    SetVar(Address, Var),
    GetVar(Address),
    Initialize,
    SpawnMachine,
    Shutdown,
    SpawnEntity(String, String),
    GetListeners,
}

/// Response of the worker manager.
#[derive(Debug)]
pub enum Response<L, S, R> {
    GetMeta(WorkerId),
    GetServers(VecMap<ServerId, S>),
    GetRemoteWorkers(VecMap<WorkerId, R>),
    GetLeader(L),
    GetListeners(Vec<String>),
    GetVar(Var),
    Entities(Vec<EntityName>),
    Empty,
}

/// Outside work that answering a request takes; the manager task performs
/// it and answers with its outcome.
#[derive(Debug)]
pub enum Action {
    /// Nothing more: the answer is given.
    Answer,
    /// Ask the remote workers for the leader's address and connect to it.
    QueryPeersForLeader,
    /// Publish the value on the blocked watch.
    PublishBlocked(bool),
    /// Publish the value on the clock watch.
    PublishClock(usize),
    /// Hand out a receiver of the blocked watch.
    GiveBlockedWatch,
    /// Hand out a receiver of the clock watch.
    GiveClockWatch,
    /// Hand out the part's behavior sender.
    GiveBehaviorTx,
    /// Run the query against the part.
    ProcessQuery(Query),
    /// Build the part from the model, loading its behaviors.
    InitializePart,
    /// Tell the part's behaviors to shut down.
    BroadcastShutdown,
}

/// Whether a `SetVar` of `var` at `address` can be applied: when the part
/// holds the addressed entity, the entity stores the addressed variable.
pub open spec fn set_var_ok<B>(part: Option<Part<B>>, address: Address) -> bool {
    match part {
        Some(p) => p.entities@.contains_key(address.entity@) ==> p.entities@[address.entity@].storage.map@.contains_key(
            (address.component@, address.var_name@),
        ),
        None => true,
    }
}

/// Whether the worker manager can handle the request in the given state:
/// the clock, machine and memory requests are not served on an initialized
/// part, and a variable is only set where it is stored.
pub open spec fn request_ok<L, S, R, B>(req: Request<L, S, R>, state: WorkerState<L, S, R, B>) -> bool {
    match req {
        Request::GetClock => false,
        Request::SpawnMachine => false,
        Request::MemorySize => state.part is None,
        Request::SetVar(address, _) => set_var_ok(state.part, address),
        _ => true,
    }
}

/// Whether two states differ at most in the fields that the request may
/// change: `a` and `b` agree on everything else.
pub open spec fn same_except_part_and_model<L, S, R, B>(a: WorkerState<L, S, R, B>, b: WorkerState<L, S, R, B>) -> bool {
    &&& a.id == b.id
    &&& a.config == b.config
    &&& a.listeners == b.listeners
    &&& a.leader == b.leader
    &&& a.servers == b.servers
    &&& a.remote_workers == b.remote_workers
    &&& a.blocked == b.blocked
    &&& a.clock == b.clock
}

/// The request is answered at once with a `WorkerNotInitialized` error
/// carrying `text`.
pub open spec fn not_initialized<L, S, R>(res: Result<Response<L, S, R>>, action: Action, text: Seq<char>) -> bool {
    &&& action is Answer
    &&& (res matches Err(Error::WorkerNotInitialized(m)) && m@ == text)
}

/// What handling a request does to the worker state, what it answers and
/// which outside work it asks for.
pub open spec fn handle_request_spec<L: Clone, S: Clone, R: Clone, B>(
    req: Request<L, S, R>,
    pre: WorkerState<L, S, R, B>,
    post: WorkerState<L, S, R, B>,
    res: Result<Response<L, S, R>>,
    action: Action,
) -> bool {
    match req {
        Request::GetMeta => {
            &&& (res matches Ok(Response::GetMeta(id)) && id == pre.id)
            &&& post == pre
            &&& action is Answer
        },
        Request::GetLeader => {
            &&& post == pre
            &&& match pre.leader {
                Some(l) => action is Answer && (res matches Ok(Response::GetLeader(r)) && cloned(l, r)),
                None => action is QueryPeersForLeader,
            }
        },
        Request::SetLeader(l) => {
            &&& res matches Ok(Response::Empty)
            &&& action is Answer
            &&& post.leader == l
            &&& post.part == pre.part
            &&& post.model == pre.model
            &&& post.servers == pre.servers
            &&& post.remote_workers == pre.remote_workers
            &&& post.id == pre.id
            &&& post.clock == pre.clock
            &&& post.blocked == pre.blocked
        },
        Request::InsertServer(id, server) => {
            &&& res matches Ok(Response::Empty)
            &&& action is Answer
            &&& post.servers@ == pre.servers@.insert(id, server)
            &&& post.leader == pre.leader
            &&& post.part == pre.part
            &&& post.model == pre.model
            &&& post.remote_workers == pre.remote_workers
        },
        Request::GetBlockedWatch => post == pre && action is GiveBlockedWatch,
        Request::SetBlockedWatch(v) => {
            &&& res matches Ok(Response::Empty)
            &&& action == Action::PublishBlocked(v)
            &&& post.blocked == v
            &&& post.clock == pre.clock
            &&& post.part == pre.part
            &&& post.model == pre.model
        },
        Request::GetClockWatch => post == pre && action is GiveClockWatch,
        Request::SetClockWatch(v) => {
            &&& res matches Ok(Response::Empty)
            &&& action == Action::PublishClock(v)
            &&& post.clock == v
            &&& post.blocked == pre.blocked
            &&& post.part == pre.part
            &&& post.model == pre.model
        },
        Request::GetServers => {
            &&& post == pre
            &&& action is Answer
            &&& (res matches Ok(Response::GetServers(s)) && s@.dom() == pre.servers@.dom()
                && forall|k: ServerId| #[trigger] pre.servers@.contains_key(k) ==> cloned(pre.servers@[k], s@[k]))
        },
        Request::GetEntities => {
            &&& post == pre
            &&& match pre.part {
                Some(p) => action is Answer && (res matches Ok(Response::Entities(names)) && names@.len()
                    == p.entities@.len() && forall|n: Seq<char>| p.entities@.contains_key(n) <==> exists|i: int|
                    0 <= i < names@.len() && #[trigger] names@[i]@ == n),
                None => not_initialized(res, action, "node object is none"@),
            }
        },
        Request::GetBehaviorTx => {
            &&& post == pre
            &&& match pre.part {
                Some(_) => action is GiveBehaviorTx,
                None => not_initialized(res, action, "part object is none"@),
            }
        },
        Request::MemorySize => {
            &&& post == pre
            &&& action is Answer
            &&& (res matches Err(Error::LeaderNotInitialized(m)) && m@ == "sim part not available"@)
        },
        Request::GetClock | Request::SpawnMachine => false,
        Request::ProcessQuery(q) => {
            &&& post == pre
            &&& match pre.part {
                Some(_) => action == Action::ProcessQuery(q),
                None => not_initialized(res, action, "node not available, was simulation model loaded onto the cluster?"@),
            }
        },
        Request::SetModel(m) => {
            &&& res matches Ok(Response::Empty)
            &&& action is Answer
            &&& post.model == Some(m)
            &&& post.part == pre.part
            &&& same_except_part_and_model(pre, post)
        },
        Request::Initialize => {
            &&& post == pre
            &&& match pre.model {
                Some(_) => action is InitializePart,
                None => not_initialized(res, action, "model is not set"@),
            }
        },
        Request::Shutdown => {
            &&& post == pre
            &&& match pre.part {
                Some(_) => action is BroadcastShutdown,
                None => not_initialized(res, action, "can't shutdown items on worker part"@),
            }
        },
        Request::SpawnEntity(name, prefab) => match (pre.model, pre.part) {
            (Some(m), Some(p)) => if prefab_buildable(m, prefab@) {
                &&& res matches Ok(Response::Empty)
                &&& action is Answer
                &&& post.model == pre.model
                &&& same_except_part_and_model(pre, post)
                &&& post.part matches Some(q) && q.behavior_broadcast == p.behavior_broadcast
                    && q.entities@.contains_key(name@) && built_from_prefab(m, prefab@, q.entities@[name@])
                    && q.entities@ == p.entities@.insert(name@, q.entities@[name@])
            } else {
                &&& post == pre
                &&& action is Answer
                &&& res matches Err(e) && prefab_error(m, prefab@, e)
            },
            (Some(_), None) => post == pre && not_initialized(res, action, "worker part unavailable"@),
            (None, _) => post == pre && not_initialized(res, action, "worker model unavailable"@),
        },
        Request::GetRemoteWorkers => {
            &&& post == pre
            &&& action is Answer
            &&& (res matches Ok(Response::GetRemoteWorkers(w)) && w@.dom() == pre.remote_workers@.dom()
                && forall|k: WorkerId| #[trigger] pre.remote_workers@.contains_key(k) ==> cloned(pre.remote_workers@[k], w@[k]))
        },
        Request::AddRemoteWorker(id, r) => {
            &&& res matches Ok(Response::Empty)
            &&& action is Answer
            &&& post.remote_workers@ == pre.remote_workers@.insert(id, r)
            &&& post.leader == pre.leader
            &&& post.part == pre.part
            &&& post.model == pre.model
            &&& post.servers == pre.servers
        },
        Request::GetListeners => {
            &&& post == pre
            &&& action is Answer
            &&& (res matches Ok(Response::GetListeners(l)) && l@ == pre.listeners@)
        },
        Request::SetVar(address, var) => {
            &&& res matches Ok(Response::Empty)
            &&& action is Answer
            &&& post.model == pre.model
            &&& same_except_part_and_model(pre, post)
            &&& match pre.part {
                Some(p) => (post.part matches Some(q) && q.behavior_broadcast == p.behavior_broadcast
                    && q.entities@.dom() == p.entities@.dom()
                    && forall|n: Seq<char>| #[trigger] p.entities@.contains_key(n) ==> if n == address.entity@ {
                        q.entities@[n].storage.map@ == p.entities@[n].storage.map@.insert(
                            (address.component@, address.var_name@),
                            var,
                        )
                    } else {
                        q.entities@[n] == p.entities@[n]
                    }),
                None => post.part is None,
            }
        },
        Request::GetVar(address) => {
            &&& post == pre
            &&& action is Answer
            &&& match pre.part {
                Some(p) => if p.entities@.contains_key(address.entity@) {
                    let st = p.entities@[address.entity@].storage.map@;
                    let idx = (address.component@, address.var_name@);
                    if st.contains_key(idx) {
                        res matches Ok(Response::GetVar(v)) && v == st[idx]
                    } else {
                        res matches Err(Error::FailedGettingVarFromEntityStorage(i)) && i.0 == address.component
                            && i.1 == address.var_name
                    }
                } else {
                    res matches Err(Error::FailedGettingVar(a)) && a == address
                },
                None => res matches Err(Error::WorkerNotInitialized(m)) && m@ == "part not available"@,
            }
        },
    }
}

/// Names of the entities held by a part.
fn entity_names<B>(part: &Part<B>) -> (res: Vec<EntityName>)
    ensures
        res@.len() == part.entities@.len(),
        forall|n: Seq<char>| part.entities@.contains_key(n) <==> exists|i: int| 0 <= i < res@.len() && #[trigger] res@[i]@ == n,
{
    let n = part.entities.len();
    let mut names: Vec<EntityName> = Vec::new();
    let mut i: usize = 0;
    while i < n
        invariant
            n == part.entities.entries().len(),
            i <= n,
            names@.len() == i,
            forall|j: int| 0 <= j < i ==> #[trigger] part.entities@.contains_key(names@[j]@),
            forall|j: int| 0 <= j < i ==> names@[j]@ == (#[trigger] part.entities.entries()[j]).0@,
        decreases n - i,
    {
        let e = part.entities.entry(i);
        names.push(e.0.clone());
        i = i + 1;
    }
    proof {
        crate::map::lemma_map_of_keys(part.entities.entries());
        assert forall|k: Seq<char>| part.entities@.contains_key(k) implies exists|i: int| 0 <= i < names@.len() && #[trigger] names@[i]@ == k by {
            let j = choose|j: int| 0 <= j < part.entities.entries().len() && part.entities.entries()[j].0@ == k;
            assert(names@[j]@ == k);
        }
    }
    names
}

/// Handles one request to the worker manager: answers it from the state,
/// updates the state, or names the outside work it takes.
pub fn handle_request<L: Clone, S: Clone, R: Clone, B>(
    req: Request<L, S, R>,
    worker: &mut WorkerState<L, S, R, B>,
) -> (res: (Result<Response<L, S, R>>, Action))
    requires
        request_ok(req, *old(worker)),
    ensures
        handle_request_spec(req, *old(worker), *final(worker), res.0, res.1),
{
    match req {
        Request::GetMeta => (Ok(Response::GetMeta(worker.id)), Action::Answer),
        Request::GetLeader => match &worker.leader {
            Some(leader) => (Ok(Response::GetLeader(leader.clone())), Action::Answer),
            None => (Ok(Response::Empty), Action::QueryPeersForLeader),
        },
        Request::SetLeader(leader) => {
            worker.leader = leader;
            (Ok(Response::Empty), Action::Answer)
        },
        Request::InsertServer(id, server) => {
            worker.servers.insert(id, server);
            (Ok(Response::Empty), Action::Answer)
        },
        Request::GetBlockedWatch => (Ok(Response::Empty), Action::GiveBlockedWatch),
        Request::SetBlockedWatch(value) => {
            worker.blocked = value;
            (Ok(Response::Empty), Action::PublishBlocked(value))
        },
        Request::GetClockWatch => (Ok(Response::Empty), Action::GiveClockWatch),
        Request::SetClockWatch(value) => {
            worker.clock = value;
            (Ok(Response::Empty), Action::PublishClock(value))
        },
        Request::GetServers => (Ok(Response::GetServers(worker.servers.clone())), Action::Answer),
        Request::GetEntities => match &worker.part {
            Some(part) => (Ok(Response::Entities(entity_names(part))), Action::Answer),
            None => (Err(Error::WorkerNotInitialized(string_of("node object is none"))), Action::Answer),
        },
        Request::GetBehaviorTx => match &worker.part {
            Some(_) => (Ok(Response::Empty), Action::GiveBehaviorTx),
            None => (Err(Error::WorkerNotInitialized(string_of("part object is none"))), Action::Answer),
        },
        Request::MemorySize => (
            Err(Error::LeaderNotInitialized(string_of("sim part not available"))),
            Action::Answer,
        ),
        Request::GetClock => (Ok(Response::Empty), Action::Answer),
        Request::SpawnMachine => (Ok(Response::Empty), Action::Answer),
        Request::ProcessQuery(query) => match &worker.part {
            Some(_) => (Ok(Response::Empty), Action::ProcessQuery(query)),
            None => (
                Err(
                    Error::WorkerNotInitialized(
                        string_of("node not available, was simulation model loaded onto the cluster?"),
                    ),
                ),
                Action::Answer,
            ),
        },
        Request::SetModel(model) => {
            worker.model = Some(model);
            (Ok(Response::Empty), Action::Answer)
        },
        Request::Initialize => match &worker.model {
            Some(_) => (Ok(Response::Empty), Action::InitializePart),
            None => (Err(Error::WorkerNotInitialized(string_of("model is not set"))), Action::Answer),
        },
        Request::Shutdown => match &worker.part {
            Some(_) => (Ok(Response::Empty), Action::BroadcastShutdown),
            None => (
                Err(Error::WorkerNotInitialized(string_of("can't shutdown items on worker part"))),
                Action::Answer,
            ),
        },
        Request::SpawnEntity(name, prefab) => match &worker.model {
            None => (Err(Error::WorkerNotInitialized(string_of("worker model unavailable"))), Action::Answer),
            Some(model) => match &mut worker.part {
                None => (Err(Error::WorkerNotInitialized(string_of("worker part unavailable"))), Action::Answer),
                Some(part) => match Entity::from_prefab_name(&prefab, model) {
                    Err(e) => (Err(e), Action::Answer),
                    Ok(entity) => {
                        part.entities.insert(name, entity);
                        (Ok(Response::Empty), Action::Answer)
                    },
                },
            },
        },
        Request::GetRemoteWorkers => (Ok(Response::GetRemoteWorkers(worker.remote_workers.clone())), Action::Answer),
        Request::AddRemoteWorker(id, remote) => {
            worker.remote_workers.insert(id, remote);
            (Ok(Response::Empty), Action::Answer)
        },
        Request::GetListeners => {
            let listeners = worker.listeners.clone();
            assert(listeners@ =~= worker.listeners@);
            (Ok(Response::GetListeners(listeners)), Action::Answer)
        },
        Request::SetVar(address, var) => {
            match &mut worker.part {
                Some(part) => {
                    let ghost p0 = part.entities@;
                    match part.entities.remove(&address.entity) {
                        Some(entity) => {
                            let mut entity = entity;
                            entity.storage.set_from_var(&address, None, &var);
                            part.entities.insert(address.entity.clone(), entity);
                            assert(part.entities@.dom() =~= p0.dom());
                        },
                        None => {
                            assert(part.entities@ =~= p0);
                        },
                    }
                },
                None => {},
            }
            (Ok(Response::Empty), Action::Answer)
        },
        Request::GetVar(address) => match &worker.part {
            Some(part) => match part.entities.get(&address.entity) {
                Some(entity) => match entity.storage.get_var(&address.storage_index()) {
                    Ok(var) => (Ok(Response::GetVar(var.clone())), Action::Answer),
                    Err(e) => (Err(e), Action::Answer),
                },
                None => (Err(Error::FailedGettingVar(address)), Action::Answer),
            },
            None => (Err(Error::WorkerNotInitialized(string_of("part not available"))), Action::Answer),
        },
    }
}

/// A variable reads back as it was set: on a worker whose part holds the
/// addressed entity and variable, `SetVar(address, var)` followed by
/// `GetVar(address)` answers with `var`.
pub proof fn lemma_set_then_get_var<L: Clone, S: Clone, R: Clone, B>(
    address: Address,
    var: Var,
    s0: WorkerState<L, S, R, B>,
    s1: WorkerState<L, S, R, B>,
    r1: Result<Response<L, S, R>>,
    a1: Action,
    s2: WorkerState<L, S, R, B>,
    r2: Result<Response<L, S, R>>,
    a2: Action,
)
    requires
        s0.part matches Some(p) && p.entities@.contains_key(address.entity@),
        handle_request_spec(Request::SetVar(address, var), s0, s1, r1, a1),
        handle_request_spec(Request::GetVar(address), s1, s2, r2, a2),
    ensures
        r2 matches Ok(Response::GetVar(v)) && v == var,
{
    let p = s0.part->Some_0;
    let q = s1.part->Some_0;
    assert(p.entities@.contains_key(address.entity@));
    assert(q.entities@.contains_key(address.entity@));
}

/// A worker that was given a model goes on to build its part when asked to
/// initialize; one without a model refuses.
pub proof fn lemma_set_model_then_initialize<L: Clone, S: Clone, R: Clone, B>(
    m: Model,
    s0: WorkerState<L, S, R, B>,
    s1: WorkerState<L, S, R, B>,
    r1: Result<Response<L, S, R>>,
    a1: Action,
    s2: WorkerState<L, S, R, B>,
    r2: Result<Response<L, S, R>>,
    a2: Action,
)
    requires
        handle_request_spec(Request::SetModel(m), s0, s1, r1, a1),
        handle_request_spec(Request::<L, S, R>::Initialize, s1, s2, r2, a2),
    ensures
        a2 is InitializePart,
{
}


/// An entity spawned from a prefab that can be built is among the entities
/// the worker lists afterwards.
pub proof fn lemma_spawn_then_list<L: Clone, S: Clone, R: Clone, B>(
    name: String,
    prefab: String,
    s0: WorkerState<L, S, R, B>,
    s1: WorkerState<L, S, R, B>,
    r1: Result<Response<L, S, R>>,
    a1: Action,
    s2: WorkerState<L, S, R, B>,
    r2: Result<Response<L, S, R>>,
    a2: Action,
)
    requires
        s0.model matches Some(m) && prefab_buildable(m, prefab@),
        s0.part is Some,
        handle_request_spec(Request::SpawnEntity(name, prefab), s0, s1, r1, a1),
        handle_request_spec(Request::<L, S, R>::GetEntities, s1, s2, r2, a2),
    ensures
        r1 matches Ok(Response::Empty),
        r2 matches Ok(Response::Entities(names)) && exists|i: int| 0 <= i < names@.len() && #[trigger] names@[i]@ == name@,
{
    let q = s1.part->Some_0;
    assert(q.entities@.contains_key(name@));
}

/// Request to a worker from the network: from the leader, from other
/// workers, or from servers.
#[derive(Debug)]
pub enum WorkerRequest {
    /// Connect to the leader at the address, or over the connection the
    /// request came on.
    ConnectToLeader(Option<String>),
    /// Reach out to the remote worker at the address.
    ConnectToWorker(String),
    /// A remote worker introduces itself.
    IntroduceWorker(WorkerId),
    GetLeader,
    GetListeners,
    Status,
    Ping(Vec<u8>),
    MemorySize,
    Clock,
    Initialize,
    Step,
    IsBlocking { wait: bool },
    EntityList,
    Query(Query),
    SetBlocking(bool),
    GetModel,
    PullModel(Model),
    SetModel(Model),
    GetVar(Address),
    SetVar(Address, Var),
    SpawnEntity { name: String, prefab: String },
}

/// One piece of work that answering a network request takes, carried out
/// in order by the worker's network task.
#[derive(Debug)]
pub enum WorkerStep {
    /// Connect to the leader, introduce this worker and keep the leader.
    ConnectToLeader(Option<String>),
    /// Connect to the remote worker, introduce this worker and keep it.
    ConnectToWorker(String),
    /// Keep the introducing remote worker, over the connection the request
    /// came on, and answer with this worker's id.
    AddRemoteWorker(WorkerId),
    /// Answer with the leader's address.
    LeaderAddress,
    /// Answer with the worker's listener addresses.
    ReadListeners,
    /// Answer with the size of the worker's part in memory.
    ReadMemorySize,
    /// Ask the leader for the clock and answer with it.
    ClockFromLeader,
    /// Publish the value on the clock watch.
    SetClock(usize),
    /// Tell each attached server that the clock changed to the value.
    NotifyServers(usize),
    /// Trigger the event on the part's behaviors.
    TriggerBehaviors(String),
    /// Build the worker's part from its model.
    InitializePart,
    /// Wait until the worker is not blocked.
    WaitUnblocked,
    /// Answer with the names of the part's entities.
    ListEntities,
    /// Run the query on the local part and answer with its product.
    QueryLocal(Query),
    /// Run the query on the remote workers and the local part, and answer
    /// with the products merged in the order they arrive, the local one
    /// last.
    QueryCluster(Query),
    /// Publish the value on the blocked watch.
    SetBlocked(bool),
    /// Ask the leader for the model and answer with it.
    ModelFromLeader,
    /// Hand the model on to the leader.
    PullModelToLeader(Model),
    /// Keep the model as the worker's model.
    SetModel(Model),
    /// Answer with the variable at the address.
    ReadVar(Address),
    /// Overwrite the variable at the address.
    WriteVar(Address, Var),
    /// Spawn an entity of the prefab (second) under the name (first).
    SpawnEntity(String, String),
}

/// Reply to a network request that is known before its steps are carried
/// out; given once they all succeed.
#[derive(Debug, PartialEq, Eq)]
pub enum WorkerReply {
    Empty,
    Ping(Vec<u8>),
    Step,
    IsBlocking(bool),
    PullProject,
    Status { uptime: usize, worker_count: u32 },
}

/// Whether the worker's network handler can serve the request: a query is
/// scoped to the whole cluster or to the worker.
pub open spec fn worker_request_ok(req: WorkerRequest) -> bool {
    req matches WorkerRequest::Query(q) ==> (q.scope is Global || q.scope is Local)
}

/// The steps that answering a network request takes, and the reply given
/// when they succeed; without a reply, the last step's outcome is the
/// answer. A step advances the clock by one: the new clock is published,
/// sent to each server, and the `step` event is triggered on the behaviors.
pub open spec fn worker_plan(req: WorkerRequest, clock: usize, steps: Seq<WorkerStep>, reply: Option<WorkerReply>) -> bool {
    match req {
        WorkerRequest::ConnectToLeader(a) => steps =~= seq![WorkerStep::ConnectToLeader(a)] && reply == Some(
            WorkerReply::Empty,
        ),
        WorkerRequest::ConnectToWorker(a) => steps =~= seq![WorkerStep::ConnectToWorker(a)] && reply == Some(
            WorkerReply::Empty,
        ),
        WorkerRequest::IntroduceWorker(id) => steps =~= seq![WorkerStep::AddRemoteWorker(id)] && reply is None,
        WorkerRequest::GetLeader => steps =~= seq![WorkerStep::LeaderAddress] && reply is None,
        WorkerRequest::GetListeners => steps =~= seq![WorkerStep::ReadListeners] && reply is None,
        WorkerRequest::Status => steps.len() == 0 && reply == Some(WorkerReply::Status { uptime: 0, worker_count: 1 }),
        WorkerRequest::Ping(b) => steps.len() == 0 && reply == Some(WorkerReply::Ping(b)),
        WorkerRequest::MemorySize => steps =~= seq![WorkerStep::ReadMemorySize] && reply is None,
        WorkerRequest::Clock => steps =~= seq![WorkerStep::ClockFromLeader] && reply is None,
        WorkerRequest::Initialize => steps =~= seq![WorkerStep::SetClock(0), WorkerStep::InitializePart] && reply == Some(
            WorkerReply::Empty,
        ),
        WorkerRequest::Step => {
            &&& steps.len() == 3
            &&& steps[0] == WorkerStep::SetClock((clock + 1) as usize)
            &&& steps[1] == WorkerStep::NotifyServers((clock + 1) as usize)
            &&& steps[2] matches WorkerStep::TriggerBehaviors(e) && e@ == "step"@
            &&& reply == Some(WorkerReply::Step)
        },
        WorkerRequest::IsBlocking { wait: _ } => steps =~= seq![WorkerStep::WaitUnblocked] && reply == Some(
            WorkerReply::IsBlocking(false),
        ),
        WorkerRequest::EntityList => steps =~= seq![WorkerStep::ListEntities] && reply is None,
        WorkerRequest::Query(q) => reply is None && if q.scope is Global {
            steps =~= seq![WorkerStep::QueryCluster(q)]
        } else {
            steps =~= seq![WorkerStep::QueryLocal(q)]
        },
        WorkerRequest::SetBlocking(b) => steps =~= seq![WorkerStep::SetBlocked(b)] && reply == Some(WorkerReply::Empty),
        WorkerRequest::GetModel => steps =~= seq![WorkerStep::ModelFromLeader] && reply is None,
        WorkerRequest::PullModel(m) => steps =~= seq![WorkerStep::PullModelToLeader(m)] && reply == Some(
            WorkerReply::PullProject,
        ),
        WorkerRequest::SetModel(m) => steps =~= seq![WorkerStep::SetModel(m)] && reply == Some(WorkerReply::Empty),
        WorkerRequest::GetVar(a) => steps =~= seq![WorkerStep::ReadVar(a)] && reply is None,
        WorkerRequest::SetVar(a, v) => steps =~= seq![WorkerStep::WriteVar(a, v)] && reply == Some(WorkerReply::Empty),
        WorkerRequest::SpawnEntity { name, prefab } => steps =~= seq![WorkerStep::SpawnEntity(name, prefab)] && reply
            == Some(WorkerReply::Empty),
    }
}

/// Blocking a worker publishes exactly the value asked for: the plan of
/// `SetBlocking(b)` is one step, which carried out on the worker manager
/// leaves the worker blocked exactly when `b`, publishes `b` on the blocked
/// watch, and is answered with an empty reply.
pub proof fn lemma_set_blocking_publishes<L: Clone, S: Clone, R: Clone, B>(
    b: bool,
    clock: usize,
    steps: Seq<WorkerStep>,
    reply: Option<WorkerReply>,
    v: bool,
    s0: WorkerState<L, S, R, B>,
    s1: WorkerState<L, S, R, B>,
    r1: Result<Response<L, S, R>>,
    a1: Action,
)
    requires
        worker_plan(WorkerRequest::SetBlocking(b), clock, steps, reply),
        steps.len() > 0 && steps[0] == WorkerStep::SetBlocked(v),
        handle_request_spec(Request::<L, S, R>::SetBlockedWatch(v), s0, s1, r1, a1),
    ensures
        steps.len() == 1,
        s1.blocked == b,
        a1 == Action::PublishBlocked(b),
        reply == Some(WorkerReply::Empty),
{
}

/// A step advances the clock by exactly one: the plan of `Step` at clock
/// `clock` publishes `clock + 1`, tells the servers about that same value,
/// and the worker manager then holds it.
pub proof fn lemma_step_advances_clock<L: Clone, S: Clone, R: Clone, B>(
    clock: usize,
    steps: Seq<WorkerStep>,
    reply: Option<WorkerReply>,
    v: usize,
    s0: WorkerState<L, S, R, B>,
    s1: WorkerState<L, S, R, B>,
    r1: Result<Response<L, S, R>>,
    a1: Action,
)
    requires
        clock < usize::MAX,
        worker_plan(WorkerRequest::Step, clock, steps, reply),
        steps[0] == WorkerStep::SetClock(v),
        handle_request_spec(Request::<L, S, R>::SetClockWatch(v), s0, s1, r1, a1),
    ensures
        s1.clock == clock + 1,
        steps[1] == WorkerStep::NotifyServers(s1.clock),
        reply == Some(WorkerReply::Step),
{
}

/// Plans the answer to a network request: the steps it takes, in order,
/// and the reply given once they succeed. `clock` is the value last
/// published on the clock watch.
pub fn plan_worker_request(req: WorkerRequest, clock: usize) -> (res: (Vec<WorkerStep>, Option<WorkerReply>))
    requires
        clock < usize::MAX,
        worker_request_ok(req),
    ensures
        worker_plan(req, clock, res.0@, res.1),
{
    match req {
        WorkerRequest::ConnectToLeader(a) => (vec![WorkerStep::ConnectToLeader(a)], Some(WorkerReply::Empty)),
        WorkerRequest::ConnectToWorker(a) => (vec![WorkerStep::ConnectToWorker(a)], Some(WorkerReply::Empty)),
        WorkerRequest::IntroduceWorker(id) => (vec![WorkerStep::AddRemoteWorker(id)], None),
        WorkerRequest::GetLeader => (vec![WorkerStep::LeaderAddress], None),
        WorkerRequest::GetListeners => (vec![WorkerStep::ReadListeners], None),
        WorkerRequest::Status => (Vec::new(), Some(WorkerReply::Status { uptime: 0, worker_count: 1 })),
        WorkerRequest::Ping(b) => (Vec::new(), Some(WorkerReply::Ping(b))),
        WorkerRequest::MemorySize => (vec![WorkerStep::ReadMemorySize], None),
        WorkerRequest::Clock => (vec![WorkerStep::ClockFromLeader], None),
        WorkerRequest::Initialize => (vec![WorkerStep::SetClock(0), WorkerStep::InitializePart], Some(WorkerReply::Empty)),
        WorkerRequest::Step => {
            let new_clock = clock + 1;
            (
                vec![
                    WorkerStep::SetClock(new_clock),
                    WorkerStep::NotifyServers(new_clock),
                    WorkerStep::TriggerBehaviors(string_of("step")),
                ],
                Some(WorkerReply::Step),
            )
        },
        WorkerRequest::IsBlocking { wait: _ } => (vec![WorkerStep::WaitUnblocked], Some(WorkerReply::IsBlocking(false))),
        WorkerRequest::EntityList => (vec![WorkerStep::ListEntities], None),
        WorkerRequest::Query(q) => {
            let global = match q.scope {
                crate::query::Scope::Global => true,
                _ => false,
            };
            if global {
                (vec![WorkerStep::QueryCluster(q)], None)
            } else {
                (vec![WorkerStep::QueryLocal(q)], None)
            }
        },
        WorkerRequest::SetBlocking(b) => (vec![WorkerStep::SetBlocked(b)], Some(WorkerReply::Empty)),
        WorkerRequest::GetModel => (vec![WorkerStep::ModelFromLeader], None),
        WorkerRequest::PullModel(m) => (vec![WorkerStep::PullModelToLeader(m)], Some(WorkerReply::PullProject)),
        WorkerRequest::SetModel(m) => (vec![WorkerStep::SetModel(m)], Some(WorkerReply::Empty)),
        WorkerRequest::GetVar(a) => (vec![WorkerStep::ReadVar(a)], None),
        WorkerRequest::SetVar(a, v) => (vec![WorkerStep::WriteVar(a, v)], Some(WorkerReply::Empty)),
        WorkerRequest::SpawnEntity { name, prefab } => (vec![WorkerStep::SpawnEntity(name, prefab)], Some(WorkerReply::Empty)),
    }
}

/// The leader's address as the remote workers answer, in the order their
/// answers arrive: the first error, or the first address given, before any
/// later answer; `None` when no answer gives either.
pub open spec fn leader_from_answers_spec(answers: Seq<Result<Option<String>>>) -> Option<Result<String>>
    decreases answers.len(),
{
    if answers.len() == 0 {
        None
    } else {
        match answers[0] {
            Err(e) => Some(Err(e)),
            Ok(Some(a)) => Some(Ok(a)),
            Ok(None) => leader_from_answers_spec(answers.drop_first()),
        }
    }
}

/// Decides the leader's address from the remote workers' answers, taken in
/// the order they arrive: the first error is passed on, the first address
/// given is the leader's; without either, no leader is selected and the
/// error carries an empty message.
pub fn leader_from_answers(answers: Vec<Result<Option<String>>>) -> (res: Result<String>)
    ensures
        match leader_from_answers_spec(answers@) {
            Some(r) => res == r,
            None => res matches Err(Error::LeaderNotSelected(m)) && m@.len() == 0,
        },
{
    let mut rest = answers;
    let ghost all = rest@;
    let ghost mut k: int = 0;
    while rest.len() > 0
        invariant
            all == answers@,
            0 <= k <= all.len(),
            rest@ == all.subrange(k, all.len() as int),
            leader_from_answers_spec(all) == leader_from_answers_spec(all.subrange(k, all.len() as int)),
        decreases rest@.len(),
    {
        let next = rest.remove(0);
        proof {
            let tail = all.subrange(k, all.len() as int);
            assert(tail[0] == next);
            assert(tail.drop_first() =~= all.subrange(k + 1, all.len() as int));
            k = k + 1;
        }
        match next {
            Err(e) => return Err(e),
            Ok(Some(a)) => return Ok(a),
            Ok(None) => {},
        }
    }
    Err(Error::LeaderNotSelected(String::new()))
}


/// Leader as a worker holds it: the handle `E` through which it is
/// reached, and the id under which this worker is known to it.
#[derive(Debug, Clone)]
pub struct LeaderLink<E> {
    pub handle: E,
    pub worker_id: WorkerId,
}

/// Server attached to a worker: the handle `E` through which it is
/// reached, and the id under which the server knows this worker, once
/// registered.
#[derive(Debug, Clone)]
pub struct ServerLink<E> {
    pub handle: E,
    pub worker_id: Option<WorkerId>,
}

/// The leader a worker keeps when a leader introduces itself through
/// `handle`: the known leader, if any, reached through `handle` from now on;
/// otherwise a new one, knowing this worker by its own id `my_id`.
pub fn introduce_leader<E>(known: Option<LeaderLink<E>>, handle: E, my_id: WorkerId) -> (res: LeaderLink<E>)
    ensures
        res.handle == handle,
        res.worker_id == match known {
            Some(l) => l.worker_id,
            None => my_id,
        },
{
    match known {
        Some(l) => LeaderLink { handle, worker_id: l.worker_id },
        None => LeaderLink { handle, worker_id: my_id },
    }
}

/// The server a worker keeps after asking the server reached through
/// `handle` to register it: `registered` is the worker id the server answered
/// with, `None` when it answered otherwise, which is an unexpected
/// response with an empty message.
pub fn server_from_registration<E>(handle: E, registered: Option<WorkerId>) -> (res: Result<ServerLink<E>>)
    ensures
        match registered {
            Some(id) => res matches Ok(s) && s.handle == handle && s.worker_id == Some(id),
            None => res matches Err(Error::UnexpectedResponse(m)) && m@.len() == 0,
        },
{
    match registered {
        Some(id) => Ok(ServerLink { handle, worker_id: Some(id) }),
        None => Err(Error::UnexpectedResponse(String::new())),
    }
}

/// A server that registered itself with the worker through `handle`: the
/// worker is not yet known to it.
pub fn server_registering<E>(handle: E) -> (res: ServerLink<E>)
    ensures
        res.handle == handle,
        res.worker_id is None,
{
    ServerLink { handle, worker_id: None }
}
} // verus!
