use bigworlds::address::Address;
use bigworlds::entity::{Entity, Storage};
use bigworlds::error::Error;
use bigworlds::leader::{self, DistributionPolicy};
use bigworlds::map::VecMap;
use bigworlds::model::{Component, Model, PrefabModel, Var as VarModel};
use bigworlds::net::{Encoding, Transport};
use bigworlds::node::{NodeConfig, Permissions};
use bigworlds::part::Node;
use bigworlds::query::{combine_products, merge_products, Description, Filter, Mapping, Query, QueryProduct, Scope, Trigger};
use bigworlds::server;
use bigworlds::server::{handle_message, ClientMessage, ServerAction, ServerState};
use bigworlds::interactive::{change_counts, run_target, watch_action, OnChangeAction, RunTarget};
use bigworlds::var::{Var, VarType};
use bigworlds::worker::{self, Action, Part, TopoStrategy, WorkerReply, WorkerRequest, WorkerState, WorkerStep};

fn s(x: &str) -> String {
    x.to_string()
}

fn addr(entity: &str, comp: &str, var: &str) -> Address {
    Address { entity: s(entity), component: s(comp), var_type: VarType::Int, var_name: s(var) }
}

type Worker = WorkerState<u8, u8, u8, u8>;

fn worker_state() -> Worker {
    WorkerState {
        id: 7,
        config: worker::Config::default(),
        listeners: vec![s("tcp://127.0.0.1:9000")],
        model: None,
        part: None,
        leader: None,
        servers: VecMap::new(),
        remote_workers: VecMap::new(),
        blocked: false,
        clock: 0,
    }
}

#[test]
fn storage_reads_back_what_was_written() {
    let mut st = Storage::new();
    st.insert((s("pos"), s("x")), Var::Int(3));
    assert!(matches!(st.get_var(&(s("pos"), s("x"))), Ok(Var::Int(3))));
    st.set_from_var(&addr("e", "pos", "x"), None, &Var::Int(9));
    assert!(matches!(st.get_var(&(s("pos"), s("x"))), Ok(Var::Int(9))));
    match st.get_var(&(s("pos"), s("y"))) {
        Err(Error::FailedGettingVarFromEntityStorage((c, v))) => {
            assert_eq!(c, "pos");
            assert_eq!(v, "y");
        }
        other => panic!("unexpected: {:?}", other),
    }
    st.insert((s("pos"), s("y")), Var::Int(1));
    st.insert((s("hp"), s("val")), Var::Int(100));
    let comp = Component {
        name: s("pos"),
        vars: vec![
            VarModel { name: s("x"), type_: VarType::Int, default: None },
            VarModel { name: s("y"), type_: VarType::Int, default: None },
        ],
    };
    st.remove_comp_vars(&s("pos"), &comp);
    assert!(st.get_var(&(s("pos"), s("x"))).is_err());
    assert!(st.get_var(&(s("pos"), s("y"))).is_err());
    assert!(st.get_var(&(s("hp"), s("val"))).is_ok());
}

#[test]
fn vec_map_keeps_one_value_per_key() {
    let mut m: VecMap<String, i32> = VecMap::new();
    assert_eq!(m.insert(s("a"), 1), None);
    assert_eq!(m.insert(s("b"), 2), None);
    assert_eq!(m.insert(s("a"), 3), Some(1));
    assert_eq!(m.len(), 2);
    assert_eq!(m.get(&s("a")), Some(&3));
    assert_eq!(m.remove(&s("a")), Some(3));
    assert!(!m.contains_key(&s("a")));
    assert_eq!(m.len(), 1);
}

#[test]
fn query_builders_and_defaults() {
    let q = Query::default();
    assert!(matches!(q.trigger, Trigger::Immediate));
    assert_eq!(q.description, Description::Undescribed);
    assert!(q.filters.is_empty());
    assert!(matches!(q.mappings.as_slice(), [Mapping::All]));
    assert_eq!(q.scope, Scope::Global);
    let q = q
        .description(Description::Addressed)
        .filter(Filter::Component(s("pos")))
        .map(Mapping::components(vec!["pos", "hp"]));
    assert_eq!(q.description, Description::Addressed);
    assert_eq!(q.filters.len(), 1);
    match &q.mappings[1] {
        Mapping::Components(c) => assert_eq!(c, &vec![s("pos"), s("hp")]),
        other => panic!("unexpected: {:?}", other),
    }
}

#[test]
fn products_merge_and_combine() {
    let mut p = QueryProduct::Empty;
    p.merge(QueryProduct::Var(vec![Var::Int(1)])).unwrap();
    p.merge(QueryProduct::Var(vec![Var::Int(2)])).unwrap();
    let v = p.to_vec();
    assert_eq!(v.len(), 2);

    let mut first = VecMap::new();
    first.insert(addr("a", "pos", "x"), Var::Int(1));
    first.insert(addr("b", "pos", "x"), Var::Int(2));
    let mut last = VecMap::new();
    last.insert(addr("a", "pos", "x"), Var::Int(10));
    let combined = combine_products(vec![QueryProduct::AddressedVar(first), QueryProduct::AddressedVar(last)]);
    let map = combined.to_map().unwrap();
    assert_eq!(map.len(), 2);
    assert!(matches!(map.get(&addr("a", "pos", "x")), Some(Var::Int(10))));
    assert!(matches!(map.get(&addr("b", "pos", "x")), Some(Var::Int(2))));
    assert!(matches!(combine_products(vec![]), QueryProduct::Empty));
    match QueryProduct::Var(vec![]).to_map() {
        Err(Error::FailedConversion(m)) => {
            assert_eq!(m, "can't make query product into a map, lacking address information")
        }
        other => panic!("unexpected: {:?}", other),
    }
}

#[test]
fn configuration_defaults() {
    let p = Permissions::root();
    assert!(p.create_workers && !p.create_leaders);
    let n = NodeConfig::default();
    assert!(!n.single_threaded);
    assert_eq!(n.max_memory, 1000);
    assert_eq!(n.workers_per_thread, 2);
    assert_eq!(n.acl.get(&s("root")), Some(&Permissions { create_workers: true, create_leaders: false }));
    let sc = server::Config::default();
    assert_eq!(sc.poll_wait.micros, 1_000);
    assert_eq!(sc.accept_delay.micros, 200_000);
    assert_eq!(sc.client_keepalive.map(|d| d.micros), Some(4_000_000));
    assert_eq!(sc.transports, vec![Transport::FramedTcp]);
    assert_eq!(sc.encodings, vec![Encoding::Bincode]);
    let wc = worker::Config::default();
    assert_eq!(wc.topo_strategy, TopoStrategy::ConnectToAll);
    assert_eq!(wc.max_ram_mb, 0);
    let lc = leader::Config::default();
    assert!(lc.autostep.is_none());
    assert_eq!(lc.distribution, DistributionPolicy::Random);
}

#[test]
fn leader_keeps_clock_model_and_workers() {
    let mut st: leader::State<u8> = leader::State::new(leader::Config::default());
    assert_eq!(leader::clock_of(leader::handle_request(leader::Request::GetClock, &mut st).unwrap()).unwrap(), 0);
    assert_eq!(leader::clock_of(leader::handle_request(leader::Request::IncrementClock, &mut st).unwrap()).unwrap(), 1);
    assert_eq!(st.clock, 1);
    match leader::handle_request(leader::Request::GetModel, &mut st) {
        Err(Error::LeaderNotInitialized(m)) => assert_eq!(m, "model not available"),
        other => panic!("unexpected: {:?}", other),
    }
    let mut model = Model::default();
    model.events.push(bigworlds::model::EventModel { id: s("step") });
    let r = leader::handle_request(leader::Request::SetModel(model), &mut st).unwrap();
    assert!(leader::added_of(r).is_ok());
    let got = leader::model_of(leader::handle_request(leader::Request::GetModel, &mut st).unwrap()).unwrap();
    assert_eq!(got.events[0].id, "step");
    let r = leader::handle_request(leader::Request::AddWorker(leader::Worker::new(42, 5u8)), &mut st).unwrap();
    assert!(leader::added_of(r).is_ok());
    let ws = leader::workers_of(leader::handle_request(leader::Request::GetWorkers, &mut st).unwrap()).unwrap();
    assert_eq!(ws.len(), 1);
    assert_eq!(ws.get(&42).map(|w| w.handle), Some(5));
    match leader::clock_of::<u8>(leader::Response::Empty) {
        Err(Error::UnexpectedResponse(m)) => assert_eq!(m, ""),
        other => panic!("unexpected: {:?}", other),
    }
    match leader::workers_of::<u8>(leader::Response::Clock(3)) {
        Err(Error::UnexpectedResponse(m)) => assert_eq!(m, "Clock"),
        other => panic!("unexpected: {:?}", other),
    }
}

#[test]
fn worker_answers_from_its_state() {
    let mut w = worker_state();
    assert!(matches!(worker::handle_request(worker::Request::GetMeta, &mut w), (Ok(worker::Response::GetMeta(7)), Action::Answer)));
    assert!(matches!(worker::handle_request(worker::Request::GetLeader, &mut w).1, Action::QueryPeersForLeader));
    worker::handle_request(worker::Request::SetLeader(Some(3)), &mut w);
    assert!(matches!(worker::handle_request(worker::Request::GetLeader, &mut w), (Ok(worker::Response::GetLeader(3)), Action::Answer)));
    match worker::handle_request(worker::Request::Initialize, &mut w) {
        (Err(Error::WorkerNotInitialized(m)), Action::Answer) => assert_eq!(m, "model is not set"),
        other => panic!("unexpected: {:?}", other),
    }
    worker::handle_request(worker::Request::SetModel(Model::default()), &mut w);
    assert!(matches!(worker::handle_request(worker::Request::Initialize, &mut w).1, Action::InitializePart));
    match worker::handle_request(worker::Request::SpawnEntity(s("e"), s("tree")), &mut w) {
        (Err(Error::WorkerNotInitialized(m)), _) => assert_eq!(m, "worker part unavailable"),
        other => panic!("unexpected: {:?}", other),
    }
    assert!(matches!(worker::handle_request(worker::Request::SetClockWatch(5), &mut w).1, Action::PublishClock(5)));
    assert_eq!(w.clock, 5);
    match worker::handle_request(worker::Request::GetListeners, &mut w) {
        (Ok(worker::Response::GetListeners(l)), _) => assert_eq!(l, vec![s("tcp://127.0.0.1:9000")]),
        other => panic!("unexpected: {:?}", other),
    }
}

#[test]
fn worker_sets_and_gets_vars() {
    let mut w = worker_state();
    match worker::handle_request(worker::Request::GetVar(addr("e", "pos", "x")), &mut w) {
        (Err(Error::WorkerNotInitialized(m)), _) => assert_eq!(m, "part not available"),
        other => panic!("unexpected: {:?}", other),
    }
    let mut storage = Storage::new();
    storage.insert((s("pos"), s("x")), Var::Int(0));
    let mut entities = VecMap::new();
    entities.insert(s("e"), Entity { storage });
    w.part = Some(Part { entities, behavior_broadcast: 0u8 });
    worker::handle_request(worker::Request::SetVar(addr("e", "pos", "x"), Var::Int(12)), &mut w);
    assert!(matches!(
        worker::handle_request(worker::Request::GetVar(addr("e", "pos", "x")), &mut w),
        (Ok(worker::Response::GetVar(Var::Int(12))), Action::Answer)
    ));
    match worker::handle_request(worker::Request::GetVar(addr("ghost", "pos", "x")), &mut w) {
        (Err(Error::FailedGettingVar(a)), _) => assert_eq!(a.entity, "ghost"),
        other => panic!("unexpected: {:?}", other),
    }
    match worker::handle_request(worker::Request::GetEntities, &mut w) {
        (Ok(worker::Response::Entities(names)), _) => assert_eq!(names, vec![s("e")]),
        other => panic!("unexpected: {:?}", other),
    }
}

#[test]
fn worker_spawns_entities_from_prefabs() {
    let mut w = worker_state();
    let mut model = Model::default();
    model.prefabs.push(PrefabModel { name: s("tree"), components: vec![s("pos"), s("label")] });
    model.components.push(Component {
        name: s("pos"),
        vars: vec![
            VarModel { name: s("x"), type_: VarType::Int, default: Some(Var::Int(4)) },
            VarModel { name: s("y"), type_: VarType::Int, default: None },
            VarModel { name: s("w"), type_: VarType::Float, default: None },
        ],
    });
    model.components.push(Component {
        name: s("label"),
        vars: vec![VarModel { name: s("text"), type_: VarType::String, default: None }],
    });
    worker::handle_request(worker::Request::SetModel(model), &mut w);
    w.part = Some(Part { entities: VecMap::new(), behavior_broadcast: 0u8 });
    assert!(matches!(
        worker::handle_request(worker::Request::SpawnEntity(s("oak"), s("tree")), &mut w),
        (Ok(worker::Response::Empty), Action::Answer)
    ));
    assert!(matches!(
        worker::handle_request(worker::Request::GetVar(addr("oak", "pos", "x")), &mut w),
        (Ok(worker::Response::GetVar(Var::Int(4))), _)
    ));
    assert!(matches!(
        worker::handle_request(worker::Request::GetVar(addr("oak", "pos", "y")), &mut w),
        (Ok(worker::Response::GetVar(Var::Int(0))), _)
    ));
    match worker::handle_request(worker::Request::GetVar(addr("oak", "label", "text")), &mut w) {
        (Ok(worker::Response::GetVar(Var::String(t))), _) => assert_eq!(t, ""),
        other => panic!("unexpected: {:?}", other),
    }
    assert!(matches!(
        worker::handle_request(worker::Request::GetVar(addr("oak", "pos", "w")), &mut w),
        (Err(Error::FailedGettingVarFromEntityStorage(_)), _)
    ));
    match worker::handle_request(worker::Request::SpawnEntity(s("x"), s("rock")), &mut w) {
        (Err(Error::NoEntityPrefab(n)), Action::Answer) => assert_eq!(n, "rock"),
        other => panic!("unexpected: {:?}", other),
    }
    let m = w.model.as_mut().unwrap();
    m.prefabs.push(PrefabModel { name: s("cloud"), components: vec![s("pos"), s("sky"), s("wind")] });
    match worker::handle_request(worker::Request::SpawnEntity(s("c"), s("cloud")), &mut w) {
        (Err(Error::NoComponentModel(n)), Action::Answer) => assert_eq!(n, "sky"),
        other => panic!("unexpected: {:?}", other),
    }
    match worker::handle_request(worker::Request::GetEntities, &mut w) {
        (Ok(worker::Response::Entities(names)), _) => assert_eq!(names, vec![s("oak")]),
        other => panic!("unexpected: {:?}", other),
    }
}

#[test]
fn worker_plans_network_requests() {
    let (steps, reply) = worker::plan_worker_request(WorkerRequest::Step, 41);
    assert_eq!(steps.len(), 3);
    assert!(matches!(steps[0], WorkerStep::SetClock(42)));
    assert!(matches!(steps[1], WorkerStep::NotifyServers(42)));
    match &steps[2] {
        WorkerStep::TriggerBehaviors(e) => assert_eq!(e, "step"),
        other => panic!("unexpected: {:?}", other),
    }
    assert_eq!(reply, Some(WorkerReply::Step));
    let (steps, reply) = worker::plan_worker_request(WorkerRequest::Initialize, 7);
    assert!(matches!(steps[..], [WorkerStep::SetClock(0), WorkerStep::InitializePart]));
    assert_eq!(reply, Some(WorkerReply::Empty));
    let (steps, reply) = worker::plan_worker_request(WorkerRequest::Ping(vec![1, 2, 3]), 0);
    assert!(steps.is_empty());
    assert_eq!(reply, Some(WorkerReply::Ping(vec![1, 2, 3])));
    let (steps, reply) = worker::plan_worker_request(WorkerRequest::Status, 0);
    assert!(steps.is_empty());
    assert_eq!(reply, Some(WorkerReply::Status { uptime: 0, worker_count: 1 }));
    let (steps, reply) = worker::plan_worker_request(WorkerRequest::Query(Query::default()), 0);
    assert!(matches!(steps[..], [WorkerStep::QueryCluster(_)]));
    assert!(reply.is_none());
    let mut local = Query::default();
    local.scope = Scope::Local;
    let (steps, _) = worker::plan_worker_request(WorkerRequest::Query(local), 0);
    assert!(matches!(steps[..], [WorkerStep::QueryLocal(_)]));
    let (steps, reply) = worker::plan_worker_request(WorkerRequest::SpawnEntity { name: s("oak"), prefab: s("tree") }, 0);
    match &steps[..] {
        [WorkerStep::SpawnEntity(n, p)] => assert_eq!((n.as_str(), p.as_str()), ("oak", "tree")),
        other => panic!("unexpected: {:?}", other),
    }
    assert_eq!(reply, Some(WorkerReply::Empty));
}

#[test]
fn worker_takes_the_first_leader_address() {
    assert_eq!(worker::leader_from_answers(vec![Ok(None), Ok(Some(s("10.0.0.1:9000"))), Ok(Some(s("x")))]).unwrap(), "10.0.0.1:9000");
    match worker::leader_from_answers(vec![Ok(None), Ok(None)]) {
        Err(Error::LeaderNotSelected(m)) => assert_eq!(m, ""),
        other => panic!("unexpected: {:?}", other),
    }
    match worker::leader_from_answers(vec![Ok(None), Err(Error::Other(s("down"))), Ok(Some(s("x")))]) {
        Err(Error::Other(m)) => assert_eq!(m, "down"),
        other => panic!("unexpected: {:?}", other),
    }
}

#[test]
fn registration_decisions() {
    assert!(!server::any_client_blocked(&vec![]));
    assert!(!server::any_client_blocked(&vec![false, false]));
    assert!(server::any_client_blocked(&vec![false, true]));
    let known = worker::LeaderLink { handle: 1u8, worker_id: 5 };
    let l = worker::introduce_leader(Some(known), 2u8, 9);
    assert_eq!((l.handle, l.worker_id), (2, 5));
    let l = worker::introduce_leader(None, 3u8, 9);
    assert_eq!((l.handle, l.worker_id), (3, 9));
    let sl = worker::server_from_registration(4u8, Some(11)).unwrap();
    assert_eq!((sl.handle, sl.worker_id), (4, Some(11)));
    match worker::server_from_registration(4u8, None) {
        Err(Error::UnexpectedResponse(m)) => assert_eq!(m, ""),
        other => panic!("unexpected: {:?}", other),
    }
    let sl = worker::server_registering(6u8);
    assert_eq!((sl.handle, sl.worker_id), (6, None));
}

#[test]
fn node_steps_the_clock() {
    let mut n = Node::from_model(Model::default(), false).unwrap();
    n.add_event(s("rain")).unwrap();
    n.step().unwrap();
    n.step().unwrap();
    assert_eq!(n.clock, 2);
    assert_eq!(n.event_queue, vec![s("step")]);
    assert_eq!(n.model.events[0].id, "rain");
}

#[test]
fn server_registers_and_forgets_clients() {
    let mut st = ServerState { clients: VecMap::new(), blocked: true };
    match handle_message(None, Some(s("10.0.0.1:5000")), ClientMessage::RegisterClientRequest { name: s("viewer"), is_blocking: true }, 77, &mut st) {
        Ok(ServerAction::Registered { client_id, encoding, transport }) => {
            assert_eq!(client_id, 77);
            assert_eq!(encoding, Encoding::Bincode);
            assert_eq!(transport, Transport::FramedTcp);
        }
        other => panic!("unexpected: {:?}", other),
    }
    assert_eq!(st.clients.get(&77).map(|c| c.name.as_str()), Some("viewer"));
    assert_eq!(st.connected_clients(), vec![s("viewer")]);
    assert!(matches!(st.status_check(77, true), Ok(ref n) if n == &vec![s("viewer")]));
    match st.status_check(77, false) {
        Err(Error::WorkerNotConnected(m)) => assert_eq!(m, ""),
        other => panic!("unexpected: {:?}", other),
    }
    match st.status_check(5, true) {
        Err(Error::Other(m)) => assert_eq!(m, "client not available"),
        other => panic!("unexpected: {:?}", other),
    }
    match handle_message(None, None, ClientMessage::PingRequest(vec![1]), 1, &mut st) {
        Err(Error::Forbidden(m)) => assert_eq!(m, "client not recognized"),
        other => panic!("unexpected: {:?}", other),
    }
    match handle_message(Some(77), None, ClientMessage::PingRequest(vec![1, 2]), 1, &mut st) {
        Ok(ServerAction::Pong(v)) => assert_eq!(v, vec![1, 2]),
        other => panic!("unexpected: {:?}", other),
    }
    assert!(matches!(handle_message(Some(77), None, ClientMessage::Disconnect, 1, &mut st), Ok(ServerAction::Disconnected)));
    assert!(!st.clients.contains_key(&77));
    assert!(!st.blocked);
}

#[test]
fn command_line_decisions() {
    assert_eq!(watch_action(None), Ok(OnChangeAction::Restart));
    assert_eq!(watch_action(Some("update")), Ok(OnChangeAction::UpdateModel));
    assert_eq!(watch_action(Some("wait")), Err(s("not recognized change action for `watch`: wait")));
    assert!(change_counts(&vec![s("proj/model.toml")]));
    assert!(!change_counts(&vec![s("proj/model.toml"), s("proj/target/debug/x")]));
    assert_eq!(run_target(false, true, true, false), RunTarget::Model);
    assert_eq!(run_target(true, false, true, true), RunTarget::Snapshot);
    assert_eq!(run_target(true, true, true, true), RunTarget::Model);
    assert_eq!(run_target(true, true, false, true), RunTarget::ModelRoot);
}

#[test]
fn server_ping() {
    let mut st = ServerState { clients: VecMap::new(), blocked: false };
    let id = match handle_message(None, None, ClientMessage::RegisterClientRequest { name: s("sim"), is_blocking: false }, 1, &mut st) {
        Ok(ServerAction::Registered { client_id, .. }) => client_id,
        other => panic!("unexpected: {:?}", other),
    };
    match handle_message(Some(id), None, ClientMessage::PingRequest(vec![1; 5]), 2, &mut st) {
        Ok(ServerAction::Pong(v)) => assert_eq!(v, vec![1; 5]),
        other => panic!("unexpected: {:?}", other),
    }
}

#[test]
fn server_finds_clients_by_address() {
    let mut st = ServerState { clients: VecMap::new(), blocked: false };
    handle_message(None, Some(s("10.0.0.2:1")), ClientMessage::RegisterClientRequest { name: s("a"), is_blocking: false }, 3, &mut st).unwrap();
    assert_eq!(st.client_by_addr("10.0.0.2:1"), (Encoding::Bincode, Some(3)));
    assert_eq!(st.client_by_addr("10.0.0.9:1"), (Encoding::Json, None));
}

#[test]
fn worker_gathers_query_answers() {
    let merged = merge_products(vec![
        QueryProduct::Empty,
        QueryProduct::Var(vec![Var::Int(1)]),
        QueryProduct::Var(vec![Var::Int(2), Var::Int(3)]),
    ])
    .unwrap();
    match merged {
        QueryProduct::Var(v) => assert_eq!(v.len(), 3),
        other => panic!("unexpected: {:?}", other),
    }
    assert!(matches!(merge_products(vec![]), Ok(QueryProduct::Empty)));
    let mut m = VecMap::new();
    m.insert(addr("a", "pos", "x"), Var::Int(1));
    match merge_products(vec![QueryProduct::Empty, QueryProduct::AddressedVar(m)]) {
        Ok(QueryProduct::AddressedVar(r)) => assert_eq!(r.len(), 1),
        other => panic!("unexpected: {:?}", other),
    }
}
