use bigworlds::error::Error;
use bigworlds::machine::cmd::goto::Goto;
use bigworlds::machine::cmd::Command;
use bigworlds::machine::LocationInfo;
use bigworlds::model::LogicModel;
use bigworlds::map::VecMap;
use bigworlds::model::archive::{archive_files, files_from_entries};
use bigworlds::model::deser;
use bigworlds::model::intermediate::{self, path_join, IncludeWalk, Meta};
use bigworlds::model::module::{Module, ModuleManifest};
use bigworlds::model::project::{Project, ProjectManifest};
use bigworlds::model::scenario::{ModuleReq, Scenario, ScenarioManifest};
use bigworlds::model::toml_value::TomlValue;
use bigworlds::model::{Component, EventModel, Model, PrefabModel};

fn s(x: &str) -> String {
    x.to_string()
}

fn empty_meta() -> Meta {
    Meta { name: None, description: None, author: None, includes: vec![] }
}

fn intermediate_model(includes: Vec<String>) -> intermediate::Model {
    intermediate::Model {
        meta: Meta { name: None, description: None, author: None, includes },
        dependencies: VecMap::new(),
        scenarios: vec![],
        behaviors: vec![],
        components: vec![],
        data: VecMap::new(),
    }
}

fn scenario_deser(engine: &str, mods: Vec<(&str, TomlValue)>) -> deser::ScenarioManifest {
    let mut m = VecMap::new();
    for (k, v) in mods {
        m.insert(s(k), v);
    }
    let mut settings = VecMap::new();
    settings.insert(s("speed"), TomlValue::Integer(3));
    settings.insert(s("title"), TomlValue::String(s("big")));
    deser::ScenarioManifest {
        scenario: deser::ScenarioManifestScenario {
            name: s("main"),
            version: s("0.1.0"),
            engine: s(engine),
            title: s("Main scenario"),
            desc: s(""),
            desc_long: s(""),
            author: s("someone"),
            website: s(""),
        },
        mods: m,
        settings,
        services: VecMap::new(),
    }
}

fn module_with(name: &str, events: &[&str]) -> Module {
    let mut model = Model::default();
    for e in events {
        model.events.push(EventModel { id: s(e) });
    }
    let manifest = ModuleManifest::from_deser("mods/x", module_deser(name));
    Module { manifest, model }
}

fn module_deser(name: &str) -> deser::ModuleManifest {
    deser::ModuleManifest {
        _mod: deser::ModuleManifestMod {
            name: s(name),
            version: s("0.1.0"),
            engine: TomlValue::String(s("*")),
            title: s(""),
            desc: s(""),
            desc_long: s(""),
            author: s(""),
            website: s(""),
        },
        dependencies: VecMap::new(),
        reqs: vec![],
        libraries: VecMap::new(),
        services: VecMap::new(),
    }
}

#[test]
fn model_merge_appends_contents() {
    let mut a = Model::default();
    a.events.push(EventModel { id: s("step") });
    let mut b = Model::default();
    b.events.push(EventModel { id: s("init") });
    b.prefabs.push(PrefabModel { name: s("tree"), components: vec![s("wood")] });
    assert!(a.merge(b).is_ok());
    assert_eq!(a.events.len(), 2);
    assert_eq!(a.events[1].id, "init");
    assert_eq!(a.prefabs[0].name, "tree");
}

#[test]
fn model_lookups() {
    let mut m = Model::default();
    m.prefabs.push(PrefabModel { name: s("tree"), components: vec![] });
    m.components.push(Component { name: s("wood"), vars: vec![] });
    assert!(m.get_prefab(&s("tree")).is_some());
    assert!(m.get_prefab(&s("rock")).is_none());
    assert!(m.get_component(&s("wood")).is_ok());
    match m.get_component(&s("stone")) {
        Err(Error::NoComponentModel(n)) => assert_eq!(n, "stone"),
        other => panic!("unexpected: {:?}", other),
    }
}

#[test]
fn meta_merge_fills_missing_fields() {
    let mut a = Meta { name: Some(s("a")), description: None, author: None, includes: vec![s("x.toml")] };
    let b = Meta { name: Some(s("b")), description: Some(s("desc")), author: None, includes: vec![s("y.toml")] };
    a.merge(b);
    assert_eq!(a.name.as_deref(), Some("a"));
    assert_eq!(a.description.as_deref(), Some("desc"));
    assert_eq!(a.includes, vec![s("x.toml"), s("y.toml")]);
}

#[test]
fn intermediate_model_converts() {
    let mut im = intermediate_model(vec![]);
    let mut vars = VecMap::new();
    vars.insert(s("height"), s("float"));
    im.components.push(intermediate::Component { name: s("tree"), vars });
    im.scenarios.push(intermediate::Scenario { name: s("main"), data: VecMap::new() });
    let m = Model::try_from(im).unwrap();
    assert_eq!(m.components.len(), 1);
    assert_eq!(m.components[0].vars[0].name, "height");
    assert_eq!(m.scenarios[0].name, "main");
}

#[test]
fn include_walk_normalizes_paths() {
    let mut walk = IncludeWalk::new(intermediate_model(vec![s("parts/a.toml")]));
    let next = walk.next_file().unwrap();
    assert_eq!(next, "parts/a.toml");
    let included = intermediate_model(vec![s("b.toml")]);
    walk.absorb_file(&next, included);
    assert_eq!(walk.to_include, vec![s("parts/b.toml")]);
    assert_eq!(walk.model.meta.includes, vec![s("parts/a.toml"), s("parts/b.toml")]);
    assert_eq!(walk.next_file().as_deref(), Some("parts/b.toml"));
    assert!(walk.next_file().is_none());
    assert!(!walk.try_absorb_file("/", intermediate_model(vec![])));
}

#[test]
fn include_walk_try_absorb_merges_the_file() {
    let mut walk = IncludeWalk::new(intermediate_model(vec![]));
    let mut included = intermediate_model(vec![s("c.toml")]);
    included.scenarios.push(intermediate::Scenario { name: s("second"), data: VecMap::new() });
    included.meta.name = Some(s("inner"));
    assert!(walk.try_absorb_file("models/m.toml", included));
    assert_eq!(walk.to_include, vec![s("models/c.toml")]);
    assert_eq!(walk.model.meta.includes, vec![s("models/c.toml")]);
    assert_eq!(walk.model.scenarios.len(), 1);
    assert_eq!(walk.model.scenarios[0].name, "second");
}

#[test]
fn archive_lists_regular_files_from_the_root() {
    let mut builder = tar::Builder::new(Vec::new());
    let mut dir = tar::Header::new_gnu();
    dir.set_entry_type(tar::EntryType::Directory);
    dir.set_size(0);
    dir.set_mode(0o755);
    builder.append_data(&mut dir, "scenarios/", std::io::empty()).unwrap();
    let data = b"[project]\nname = \"demo\"\n";
    let mut file = tar::Header::new_gnu();
    file.set_size(data.len() as u64);
    file.set_mode(0o644);
    builder.append_data(&mut file, "project.toml", &data[..]).unwrap();
    let mut file = tar::Header::new_gnu();
    file.set_size(3);
    file.set_mode(0o644);
    builder.append_data(&mut file, "scenarios/a.toml", &b"x=1"[..]).unwrap();
    let bytes = builder.into_inner().unwrap();
    let files = archive_files(&bytes).unwrap();
    assert_eq!(files.len(), 2);
    assert_eq!(files[0].0, "/project.toml");
    assert_eq!(files[0].1, data.to_vec());
    assert_eq!(files[1].0, "/scenarios/a.toml");
    assert_eq!(files[1].1, b"x=1".to_vec());
    assert!(archive_files(&vec![]).unwrap().is_empty());
    match archive_files(&vec![1u8; 700]) {
        Err(Error::Other(_)) => (),
        other => panic!("unexpected: {:?}", other),
    }
}

#[test]
fn module_req_from_toml_value() {
    let name = s("trees");
    let r = ModuleReq::from_toml_value(&name, &TomlValue::String(s("1.2"))).unwrap();
    assert_eq!(r.name, "trees");
    assert_eq!(r.version_req, "^1.2");
    assert!(r.git_address.is_none());
    let r = ModuleReq::from_toml_value(&name, &TomlValue::String(s("not a version"))).unwrap();
    assert_eq!(r.version_req, "*");
    assert!(ModuleReq::from_toml_value(&name, &TomlValue::Integer(1)).is_none());
}

#[test]
fn scenario_manifest_from_deser() {
    let d = scenario_deser("*", vec![("trees", TomlValue::String(s(">=0.2")))]);
    let m = ScenarioManifest::from_deser(d);
    assert_eq!(m.name, "main");
    assert_eq!(m.engine, "*");
    assert_eq!(m.mods.len(), 1);
    assert_eq!(m.mods[0].version_req, ">=0.2");
    assert_eq!(m.title.as_deref(), Some("Main scenario"));
    assert!(m.desc.is_none());
    assert_eq!(m.settings.get(&s("speed")).map(|v| v.as_str()), Some("3"));
    assert_eq!(m.settings.get(&s("title")).map(|v| v.as_str()), Some("\"big\""));
}

#[test]
fn scenario_project_root() {
    assert_eq!(Scenario::project_root("proj/scenarios/main.toml").unwrap(), "proj");
    assert_eq!(Scenario::project_root("proj/main.toml").unwrap(), "proj");
    match Scenario::project_root("main.toml") {
        Err(Error::Other(m)) => assert_eq!(m, "unable to get stem of path: main.toml"),
        other => panic!("unexpected: {:?}", other),
    }
    match Scenario::project_root("/") {
        Err(Error::Other(m)) => assert_eq!(m, "unable to get parent of path: /"),
        other => panic!("unexpected: {:?}", other),
    }
}

#[test]
fn scenario_checks_engine_version() {
    let ok = ScenarioManifest::from_deser(scenario_deser("*", vec![("trees", TomlValue::String(s("1")))]));
    let sc = Scenario::from_manifest(ok, "0.1.0").unwrap();
    assert_eq!(sc.name, "main");
    assert_eq!(sc.modules.len(), 1);
    assert_eq!(sc.modules[0].name, "trees");

    let newer = ScenarioManifest::from_deser(scenario_deser(">=1.0", vec![]));
    match Scenario::from_manifest(newer, "0.1.0") {
        Err(Error::Other(m)) => assert_eq!(m, "engine version does not match module requirement"),
        other => panic!("unexpected: {:?}", other),
    }
    let bad = ScenarioManifest::from_deser(scenario_deser("bogus", vec![]));
    assert!(matches!(Scenario::from_manifest(bad, "0.1.0"), Err(Error::SemverError(_))));
}

#[test]
fn scenario_root_and_engine_check_from_given_results() {
    assert_eq!(Scenario::root_from("p/scenarios/m.toml", Some(s("p/scenarios")), Some(s("scenarios")), Some(s("p"))).unwrap(), "p");
    assert_eq!(Scenario::root_from("p/m.toml", Some(s("p")), Some(s("p")), None).unwrap(), "p");
    match Scenario::root_from("x/scenarios/m.toml", Some(s("scenarios")), Some(s("scenarios")), None) {
        Err(Error::Other(m)) => assert_eq!(m, "unable to get parent of path: x/scenarios/m.toml"),
        other => panic!("unexpected: {:?}", other),
    }
    let m = ScenarioManifest::from_deser(scenario_deser("*", vec![]));
    match Scenario::from_checked_manifest(m.clone(), Ok(s("*")), Some(s("bad version")), false) {
        Err(Error::SemverError(e)) => assert_eq!(e, "bad version"),
        other => panic!("unexpected: {:?}", other),
    }
    match Scenario::from_checked_manifest(m.clone(), Ok(s("*")), None, false) {
        Err(Error::Other(e)) => assert_eq!(e, "engine version does not match module requirement"),
        other => panic!("unexpected: {:?}", other),
    }
    assert_eq!(Scenario::from_checked_manifest(m, Ok(s("*")), None, true).unwrap().name, "main");
    let r = ModuleReq::from_parsed_req(&s("trees"), Ok(s("^1.2")));
    assert_eq!(r.version_req, "^1.2");
    let r = ModuleReq::from_parsed_req(&s("trees"), Err(s("unexpected end")));
    assert_eq!(r.version_req, "*");
}

#[test]
fn archive_files_from_given_entries() {
    let entries = vec![
        (s("dir/"), true, vec![]),
        (s("//a.toml"), false, b"a".to_vec()),
        (s("dir/b.toml"), false, b"b".to_vec()),
    ];
    let files = files_from_entries(entries);
    assert_eq!(files, vec![(s("/a.toml"), b"a".to_vec()), (s("/dir/b.toml"), b"b".to_vec())]);
}

#[test]
fn paths_join_like_std() {
    assert_eq!(path_join("a", "b.toml"), "a/b.toml");
    assert_eq!(path_join("a/", "b.toml"), "a/b.toml");
    assert_eq!(path_join("", "b.toml"), "b.toml");
    assert_eq!(path_join("a", "/abs/b.toml"), "/abs/b.toml");
    for (base, path) in [("a", "b"), ("a/", "b"), ("", "b"), ("a", "/b"), ("a", ""), ("/", "x/y")] {
        let expected = std::path::Path::new(base).join(path).to_string_lossy().to_string();
        assert_eq!(path_join(base, path), expected);
    }
}

#[test]
fn module_manifest_from_deser() {
    let mut d = module_deser("trees");
    let mut engine = Vec::new();
    engine.push((s("version"), TomlValue::String(s(">=0.1"))));
    engine.push((s("features"), TomlValue::Array(vec![TomlValue::String(s("machine"))])));
    d._mod.engine = TomlValue::Table(engine);
    d._mod.title = s("Trees");
    d.libraries.insert(s("growth"), TomlValue::String(s("libgrowth.so")));
    d.services.insert(s("web"), TomlValue::Table(vec![
        (s("executable"), TomlValue::String(s("bin/web"))),
        (s("args"), TomlValue::Array(vec![TomlValue::String(s("--port")), TomlValue::String(s("80"))])),
    ]));
    let m = ModuleManifest::try_from_deser("mods/trees", d).unwrap();
    assert_eq!(m.name, "trees");
    assert_eq!(m.engine_version_req, ">=0.1");
    assert_eq!(m.engine_features, vec![s("machine")]);
    assert_eq!(m.title.as_deref(), Some("Trees"));
    assert_eq!(m.libraries.len(), 1);
    assert_eq!(m.libraries[0].name, "growth");
    assert_eq!(m.libraries[0].path.as_deref(), Some("libgrowth.so"));
    assert_eq!(m.services.len(), 1);
    assert_eq!(m.services[0].executable.as_deref(), Some("mods/trees/bin/web"));
    assert_eq!(m.services[0].args, vec![s("--port"), s("80")]);

    let mut bad = module_deser("broken");
    bad._mod.engine = TomlValue::Table(vec![(s("version"), TomlValue::Integer(1))]);
    assert!(ModuleManifest::try_from_deser("mods/broken", bad).is_none());
}

#[test]
fn project_extracts_scenario_model() {
    let manifest = ProjectManifest::from_deser(deser::ProjectManifest {
        project: deser::ProjectManifestMeta { name: s("proj"), description: None, author: None, website: None },
    });
    let sm = ScenarioManifest::from_deser(scenario_deser(
        "*",
        vec![("trees", TomlValue::String(s("*"))), ("rocks", TomlValue::String(s("*")))],
    ));
    let scenario = Scenario::from_manifest(sm, "0.1.0").unwrap();
    let project = Project::new(
        manifest,
        vec![scenario],
        vec![module_with("rocks", &["roll"]), module_with("trees", &["grow"])],
    );
    assert_eq!(project.name, "proj");
    let model = project.extract_model("main").unwrap();
    let events: Vec<&str> = model.events.iter().map(|e| e.id.as_str()).collect();
    assert_eq!(events, vec!["grow", "roll"]);
    match project.extract_model("other") {
        Err(Error::Other(m)) => assert_eq!(m, "Scenario not found in project: other"),
        other => panic!("unexpected: {:?}", other),
    }

    let sm = ScenarioManifest::from_deser(scenario_deser("*", vec![("water", TomlValue::String(s("*")))]));
    let lonely = Project::new(
        ProjectManifest { name: s("p2"), description: None, author: None, website: None },
        vec![Scenario::from_manifest(sm, "0.1.0").unwrap()],
        vec![],
    );
    match lonely.extract_model("main") {
        Err(Error::ScenarioMissingModule(n)) => assert_eq!(n, "water"),
        other => panic!("unexpected: {:?}", other),
    }
    let _ = empty_meta();
}

#[test]
fn model_mutable_lookups() {
    let mut m = Model::default();
    m.prefabs.push(PrefabModel { name: s("tree"), components: vec![] });
    m.components.push(Component { name: s("wood"), vars: vec![] });
    m.get_entity_mut(&s("tree")).unwrap().components.push(s("wood"));
    assert_eq!(m.prefabs[0].components, vec![s("wood")]);
    assert!(m.get_entity_mut(&s("rock")).is_none());
    m.get_component_mut(&s("wood")).unwrap().name = s("oak");
    assert_eq!(m.components[0].name, "oak");
    assert!(m.get_component_mut(&s("wood")).is_none());
}

#[test]
fn logic_subset_copies_commands() {
    let mut logic = LogicModel::empty();
    for state in ["a", "b", "c"] {
        logic.commands.push(Command::Goto(Goto { target_state: s(state) }));
        logic.cmd_location_map.push(LocationInfo::empty());
    }
    let sub = logic.get_subset(1, 3);
    assert_eq!(sub.commands.len(), 2);
    match &sub.commands[0] {
        Command::Goto(g) => assert_eq!(g.target_state, "b"),
        other => panic!("unexpected: {:?}", other),
    }
    assert_eq!(sub.start_state, "start");
}
