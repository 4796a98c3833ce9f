//! Leader: the cluster's central authority, holding the model, the clock
//! and the list of workers, and answering requests about them.
//!
//! The leader's state is kept by a manager task that answers one request
//! at a time; `handle_request` is what it does with each.

use vstd::prelude::*;

use crate::error::{Error, Result};
use crate::map::VecMap;
use crate::model::{Model, ModelView};
use crate::text::string_of;
use crate::time::Duration;
use crate::EntityId;

verus! {

/// Identifier of a worker, unique across the cluster.
pub type WorkerId = u128;

/// Leader configuration.
#[derive(Debug, Clone, Copy)]
pub struct Config {
    /// Perform automatic stepping through the simulation, initiated on the
    /// leader level.
    pub autostep: Option<Duration>,
    /// Policy for entity distribution.
    pub distribution: DistributionPolicy,
}

impl Default for Config {
    /// No automatic stepping, random distribution.
    fn default() -> (res: Self)
        ensures
            res.autostep is None,
            res.distribution == DistributionPolicy::Random,
    {
        Config { autostep: None, distribution: DistributionPolicy::Random }
    }
}

/// Entity distribution policy.
#[derive(Debug, Clone, Copy, PartialEq, Eq, Structural)]
pub enum DistributionPolicy {
    /// Random distribution
    Random,
    /// Optimize for processing speed, e.g. using the most capable nodes first
    MaxSpeed,
    /// Optimize for lowest network traffic, grouping together entities
    /// that tend to cause most inter-machine chatter
    LowTraffic,
    /// Balanced approach, sane default policy for most cases
    Balanced,
    /// Focus on similar memory usage across nodes, relative to capability
    SimilarMemoryUsage,
    /// Focus on similar processor usage across nodes, relative to capability
    SimilarProcessorUsage,
    /// Spatial distribution using an octree for automatic subdivision of
    /// space to be handled by different workers.
    Spatial,
}

/// Single worker as seen by the leader, with the handle `E` through which
/// it is reached.
#[derive(Debug)]
pub struct Worker<E> {
    pub id: WorkerId,
    pub entities: Vec<EntityId>,
    /// Whether the worker blocks processing of further steps.
    pub is_blocking_step: bool,
    pub furthest_agreed_step: usize,
    pub handle: E,
}

impl<E> Worker<E> {
    /// A worker that holds no entities and blocks nothing yet.
    pub fn new(id: WorkerId, handle: E) -> (res: Self)
        ensures
            res.id == id,
            res.entities@.len() == 0,
            !res.is_blocking_step,
            res.furthest_agreed_step == 0,
            res.handle == handle,
    {
        Worker { id, entities: Vec::new(), is_blocking_step: false, furthest_agreed_step: 0, handle }
    }
}

impl<E: Clone> Clone for Worker<E> {
    fn clone(&self) -> (res: Self)
        ensures
            res.id == self.id,
            res.entities@ == self.entities@,
            res.is_blocking_step == self.is_blocking_step,
            res.furthest_agreed_step == self.furthest_agreed_step,
            cloned(self.handle, res.handle),
    {
        let entities = self.entities.clone();
        assert(entities@ =~= self.entities@);
        Worker {
            id: self.id,
            entities,
            is_blocking_step: self.is_blocking_step,
            furthest_agreed_step: self.furthest_agreed_step,
            handle: self.handle.clone(),
        }
    }
}

/// Leader state: configuration, connected workers, the loaded model and the
/// simulation clock.
#[derive(Debug)]
pub struct State<E> {
    /// Starting configuration.
    pub config: Config,
    /// Map of connected workers by their id.
    pub workers: VecMap<WorkerId, Worker<E>>,
    /// Map of worker addresses to worker ids.
    pub workers_by_addr: VecMap<String, WorkerId>,
    /// Currently loaded model.
    pub model: Option<Model>,
    /// Current simulation clock.
    pub clock: usize,
}

impl<E> State<E> {
    /// State of a leader that knows no workers, holds no model, and starts
    /// the clock at zero.
    pub fn new(config: Config) -> (res: Self)
        ensures
            res.config == config,
            res.workers@ == Map::<WorkerId, Worker<E>>::empty(),
            res.workers_by_addr@ == Map::<Seq<char>, WorkerId>::empty(),
            res.model is None,
            res.clock == 0,
    {
        State { config, workers: VecMap::new(), workers_by_addr: VecMap::new(), model: None, clock: 0 }
    }
}

/// Request to the leader manager.
#[derive(Debug)]
pub enum Request<E> {
    GetClock,
    IncrementClock,
    GetWorkers,
    AddWorker(Worker<E>),
    WorkerCount,
    PullModel(Model),
    GetModel,
    SetModel(Model),
}

/// Response of the leader manager.
#[derive(Debug)]
pub enum Response<E> {
    Empty,
    Clock(usize),
    Workers(VecMap<WorkerId, Worker<E>>),
    WorkerCount(usize),
    GetModel(Model),
}

/// Whether the leader manager can handle the request in the given state:
/// it does not count workers, and the clock must have room to advance.
pub open spec fn request_ok<E: Clone>(req: Request<E>, state: State<E>) -> bool {
    &&& !(req is WorkerCount)
    &&& req is IncrementClock ==> state.clock < usize::MAX
}

/// The model held by an optional model, by its view.
pub open spec fn model_view_of(m: Option<Model>) -> Option<ModelView> {
    match m {
        Some(model) => Some(model@),
        None => None,
    }
}

/// What handling a request does to the leader state and what it answers.
pub open spec fn handle_request_spec<E: Clone>(req: Request<E>, pre: State<E>, post: State<E>, res: Result<Response<E>>) -> bool {
    match req {
        Request::GetClock => {
            &&& res matches Ok(Response::Clock(c)) && c == pre.clock
            &&& post == pre
        },
        Request::IncrementClock => {
            &&& res matches Ok(Response::Clock(c)) && c == pre.clock + 1
            &&& post.clock == pre.clock + 1
            &&& post.workers == pre.workers
            &&& post.model == pre.model
            &&& post.config == pre.config
            &&& post.workers_by_addr == pre.workers_by_addr
        },
        Request::GetWorkers => {
            &&& res matches Ok(Response::Workers(w)) && w@.dom() == pre.workers@.dom()
                && forall|k: WorkerId| #[trigger] pre.workers@.contains_key(k) ==> cloned(pre.workers@[k], w@[k])
            &&& post == pre
        },
        Request::AddWorker(worker) => {
            &&& res matches Ok(Response::Empty)
            &&& post.workers@ == pre.workers@.insert(worker.id, worker)
            &&& post.clock == pre.clock
            &&& post.model == pre.model
            &&& post.config == pre.config
            &&& post.workers_by_addr == pre.workers_by_addr
        },
        Request::WorkerCount => false,
        Request::PullModel(model) | Request::SetModel(model) => {
            &&& res matches Ok(Response::Empty)
            &&& post.model == Some(model)
            &&& post.clock == pre.clock
            &&& post.workers == pre.workers
            &&& post.config == pre.config
            &&& post.workers_by_addr == pre.workers_by_addr
        },
        Request::GetModel => {
            &&& match pre.model {
                Some(m) => res matches Ok(Response::GetModel(r)) && r@ == m@,
                None => res matches Err(Error::LeaderNotInitialized(msg)) && msg@ == "model not available"@,
            }
            &&& post == pre
        },
    }
}

/// Handles one request to the leader manager: reads or updates the clock,
/// the workers and the model.
pub fn handle_request<E: Clone>(req: Request<E>, leader: &mut State<E>) -> (res: Result<Response<E>>)
    requires
        request_ok(req, *old(leader)),
    ensures
        handle_request_spec(req, *old(leader), *final(leader), res),
{
    match req {
        Request::GetClock => Ok(Response::Clock(leader.clock)),
        Request::IncrementClock => {
            leader.clock = leader.clock + 1;
            Ok(Response::Clock(leader.clock))
        },
        Request::GetWorkers => Ok(Response::Workers(leader.workers.clone())),
        Request::AddWorker(worker) => {
            let id = worker.id;
            leader.workers.insert(id, worker);
            Ok(Response::Empty)
        },
        Request::WorkerCount => Ok(Response::WorkerCount(leader.workers.len())),
        Request::PullModel(model) => {
            leader.model = Some(model);
            Ok(Response::Empty)
        },
        Request::GetModel => {
            match &leader.model {
                Some(model) => Ok(Response::GetModel(model.clone())),
                None => Err(Error::LeaderNotInitialized(string_of("model not available"))),
            }
        },
        Request::SetModel(model) => {
            leader.model = Some(model);
            Ok(Response::Empty)
        },
    }
}

/// A model that is set on the leader is the model the leader gives back:
/// after `SetModel(m)` (or `PullModel(m)`), `GetModel` answers with a model
/// equal to `m`, and leaves the leader as it was.
pub proof fn lemma_set_then_get_model<E: Clone>(
    s0: State<E>,
    m: Model,
    s1: State<E>,
    r1: Result<Response<E>>,
    s2: State<E>,
    r2: Result<Response<E>>,
)
    requires
        handle_request_spec(Request::SetModel(m), s0, s1, r1),
        handle_request_spec(Request::<E>::GetModel, s1, s2, r2),
    ensures
        r2 matches Ok(Response::GetModel(g)) && g@ == m@,
        s2 == s1,
{
}

/// The clock only moves by one step at a time: incrementing answers with
/// the new clock, and reading it afterwards gives that same value.
pub proof fn lemma_increment_then_get_clock<E: Clone>(
    s0: State<E>,
    s1: State<E>,
    r1: Result<Response<E>>,
    s2: State<E>,
    r2: Result<Response<E>>,
)
    requires
        handle_request_spec(Request::<E>::IncrementClock, s0, s1, r1),
        handle_request_spec(Request::<E>::GetClock, s1, s2, r2),
    ensures
        r1 matches Ok(Response::Clock(c1)) && c1 == s0.clock + 1,
        r2 matches Ok(Response::Clock(c2)) && c2 == s0.clock + 1,
{
}

/// A worker that is added is among the workers the leader lists afterwards.
pub proof fn lemma_add_then_get_workers<E: Clone>(
    s0: State<E>,
    w: Worker<E>,
    s1: State<E>,
    r1: Result<Response<E>>,
    s2: State<E>,
    r2: Result<Response<E>>,
)
    requires
        handle_request_spec(Request::AddWorker(w), s0, s1, r1),
        handle_request_spec(Request::<E>::GetWorkers, s1, s2, r2),
    ensures
        r2 matches Ok(Response::Workers(ws)) && ws@.contains_key(w.id),
{
    assert(s1.workers@.contains_key(w.id));
}

/// Name of a response's variant, as it displays.
pub open spec fn response_name<E>(resp: Response<E>) -> Seq<char> {
    match resp {
        Response::Empty => "Empty"@,
        Response::Clock(_) => "Clock"@,
        Response::Workers(_) => "Workers"@,
        Response::WorkerCount(_) => "WorkerCount"@,
        Response::GetModel(_) => "GetModel"@,
    }
}

impl<E> Response<E> {
    /// Displays the response by its variant's name.
    pub fn to_string(&self) -> (res: String)
        ensures
            res@ == response_name(*self),
    {
        match self {
            Response::Empty => string_of("Empty"),
            Response::Clock(_) => string_of("Clock"),
            Response::Workers(_) => string_of("Workers"),
            Response::WorkerCount(_) => string_of("WorkerCount"),
            Response::GetModel(_) => string_of("GetModel"),
        }
    }
}

/// The clock that a response to `GetClock` carries; any other response is
/// unexpected.
pub fn clock_of<E>(resp: Response<E>) -> (res: Result<usize>)
    ensures
        match resp {
            Response::Clock(c) => res == Ok::<usize, Error>(c),
            _ => res matches Err(Error::UnexpectedResponse(m)) && m@ == ""@,
        },
{
    match resp {
        Response::Clock(clock) => Ok(clock),
        _ => Err(Error::UnexpectedResponse(string_of(""))),
    }
}

/// The workers that a response to `GetWorkers` carries; any other response
/// is unexpected, and named in the error.
pub fn workers_of<E>(resp: Response<E>) -> (res: Result<VecMap<WorkerId, Worker<E>>>)
    ensures
        match resp {
            Response::Workers(w) => res matches Ok(r) && r == w,
            _ => res matches Err(Error::UnexpectedResponse(m)) && m@ == response_name(resp),
        },
{
    match resp {
        Response::Workers(workers) => Ok(workers),
        _ => Err(Error::UnexpectedResponse(resp.to_string())),
    }
}

/// Acknowledgement of an added worker: an empty response; any other
/// response is unexpected, and named in the error.
pub fn added_of<E>(resp: Response<E>) -> (res: Result<()>)
    ensures
        resp is Empty ==> res is Ok,
        !(resp is Empty) ==> (res matches Err(Error::UnexpectedResponse(m)) && m@ == response_name(resp)),
{
    match resp {
        Response::Empty => Ok(()),
        _ => Err(Error::UnexpectedResponse(resp.to_string())),
    }
}

/// The model that a response to `GetModel` carries; any other response is
/// unexpected, and named in the error.
pub fn model_of<E>(resp: Response<E>) -> (res: Result<Model>)
    ensures
        match resp {
            Response::GetModel(m) => res matches Ok(r) && r == m,
            _ => res matches Err(Error::UnexpectedResponse(t)) && t@ == response_name(resp),
        },
{
    match resp {
        Response::GetModel(model) => Ok(model),
        _ => Err(Error::UnexpectedResponse(resp.to_string())),
    }
}

} // verus!
