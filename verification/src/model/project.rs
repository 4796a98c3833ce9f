//! Projects: the scenarios and modules that a project directory holds.

use vstd::prelude::*;
use vstd::string::*;

use crate::error::{Error, Result};
use crate::model::deser;
use crate::model::module::Module;
use crate::model::scenario::{ModuleReq, Scenario};
use crate::model::{empty_model_view, model_concat, Model, ModelView};
use crate::text::string_of;

verus! {

/// Top-level model structure describing project contents.
///
/// Project itself cannot be fed into the simulation engine. Proper model must
/// first be extracted. Extraction here means selecting one of the scenarios
/// available in the project, which then also defines what modules are loaded
/// and in what order.
#[derive(Debug)]
pub struct Project {
    pub name: String,
    pub scenarios: Vec<Scenario>,
    pub modules: Vec<Module>,
}

/// Position of the first name equal to `name`.
pub open spec fn first_match(names: Seq<Seq<char>>, name: Seq<char>) -> Option<int>
    decreases names.len(),
{
    if names.len() == 0 {
        None
    } else if names[0] == name {
        Some(0)
    } else {
        match first_match(names.drop_first(), name) {
            Some(i) => Some(i + 1),
            None => None,
        }
    }
}

/// Names of scenarios.
pub open spec fn scenario_names(s: Seq<Scenario>) -> Seq<Seq<char>> {
    s.map_values(|x: Scenario| x.name@)
}

/// Names of modules, as their manifests give them.
pub open spec fn module_names(m: Seq<Module>) -> Seq<Seq<char>> {
    m.map_values(|x: Module| x.manifest.name@)
}

/// Merges, in order, the models of the modules that the requirements name
/// into `acc`; each requirement takes the first module of its name. `Err`
/// names the first requirement that no module meets.
pub open spec fn merge_reqs(reqs: Seq<ModuleReq>, modules: Seq<Module>, acc: ModelView) -> core::result::Result<
    ModelView,
    Seq<char>,
>
    decreases reqs.len(),
{
    if reqs.len() == 0 {
        Ok(acc)
    } else {
        match first_match(module_names(modules), reqs[0].name@) {
            None => Err(reqs[0].name@),
            Some(j) => merge_reqs(reqs.drop_first(), modules, model_concat(acc, modules[j].model@)),
        }
    }
}

/// Outcome of extracting the model of scenario `name` from a project.
pub enum Extraction {
    /// No scenario of that name
    NoScenario,
    /// A required module is missing
    MissingModule(Seq<char>),
    /// The extracted model
    Extracted(ModelView),
}

/// The model of scenario `name`: the models of the modules its first
/// scenario of that name requires, merged in order.
pub open spec fn extract_spec(scenarios: Seq<Scenario>, modules: Seq<Module>, name: Seq<char>) -> Extraction {
    match first_match(scenario_names(scenarios), name) {
        None => Extraction::NoScenario,
        Some(i) => match merge_reqs(scenarios[i].modules@, modules, empty_model_view()) {
            Err(m) => Extraction::MissingModule(m),
            Ok(v) => Extraction::Extracted(v),
        },
    }
}

proof fn lemma_first_match_found(names: Seq<Seq<char>>, name: Seq<char>, i: int)
    requires
        0 <= i < names.len(),
        names[i] == name,
        forall|j: int| 0 <= j < i ==> names[j] != name,
    ensures
        first_match(names, name) == Some(i),
    decreases names.len(),
{
    if i > 0 {
        lemma_first_match_found(names.drop_first(), name, i - 1);
    }
}

proof fn lemma_first_match_none(names: Seq<Seq<char>>, name: Seq<char>)
    requires
        forall|j: int| 0 <= j < names.len() ==> names[j] != name,
    ensures
        first_match(names, name) is None,
    decreases names.len(),
{
    if names.len() > 0 {
        lemma_first_match_none(names.drop_first(), name);
    }
}

/// Position of the first scenario named `name`.
fn find_scenario(scenarios: &Vec<Scenario>, name: &str) -> (res: Option<usize>)
    ensures
        match res {
            Some(i) => first_match(scenario_names(scenarios@), name@) == Some(i as int) && i < scenarios@.len(),
            None => first_match(scenario_names(scenarios@), name@) is None,
        },
{
    let ghost names = scenario_names(scenarios@);
    let mut i: usize = 0;
    while i < scenarios.len()
        invariant
            names == scenario_names(scenarios@),
            i <= scenarios@.len(),
            forall|j: int| 0 <= j < i ==> names[j] != name@,
        decreases scenarios@.len() - i,
    {
        if crate::text::str_eq(scenarios[i].name.as_str(), name) {
            proof {
                lemma_first_match_found(names, name@, i as int);
            }
            return Some(i);
        }
        i = i + 1;
    }
    proof {
        lemma_first_match_none(names, name@);
    }
    None
}

/// Position of the first module named `name`.
fn find_module(modules: &Vec<Module>, name: &str) -> (res: Option<usize>)
    ensures
        match res {
            Some(i) => first_match(module_names(modules@), name@) == Some(i as int) && i < modules@.len(),
            None => first_match(module_names(modules@), name@) is None,
        },
{
    let ghost names = module_names(modules@);
    let mut i: usize = 0;
    while i < modules.len()
        invariant
            names == module_names(modules@),
            i <= modules@.len(),
            forall|j: int| 0 <= j < i ==> names[j] != name@,
        decreases modules@.len() - i,
    {
        if crate::text::str_eq(modules[i].manifest.name.as_str(), name) {
            proof {
                lemma_first_match_found(names, name@, i as int);
            }
            return Some(i);
        }
        i = i + 1;
    }
    proof {
        lemma_first_match_none(names, name@);
    }
    None
}

impl Project {
    /// Extracts runnable simulation model from the project using provided
    /// scenario name: the models of the modules that the scenario requires,
    /// merged in the order of the requirements.
    pub fn extract_model(&self, scenario: &str) -> (res: Result<Model>)
        ensures
            match extract_spec(self.scenarios@, self.modules@, scenario@) {
                Extraction::NoScenario => res matches Err(Error::Other(m))
                    && m@ == "Scenario not found in project: "@ + scenario@,
                Extraction::MissingModule(n) => res matches Err(Error::ScenarioMissingModule(m)) && m@ == n,
                Extraction::Extracted(v) => res matches Ok(model) && model@ == v,
            },
    {
        let si = match find_scenario(&self.scenarios, scenario) {
            Some(i) => i,
            None => {
                let mut m = string_of("Scenario not found in project: ");
                m.append(scenario);
                return Err(Error::Other(m));
            },
        };
        let reqs = &self.scenarios[si].modules;
        let ghost all = reqs@;
        let mut model = Model::default();
        let mut i: usize = 0;
        assert(all.skip(0) =~= all);
        while i < reqs.len()
            invariant
                all == reqs@,
                si < self.scenarios@.len(),
                all == self.scenarios@[si as int].modules@,
                first_match(scenario_names(self.scenarios@), scenario@) == Some(si as int),
                i <= all.len(),
                merge_reqs(all, self.modules@, empty_model_view()) == merge_reqs(
                    all.skip(i as int),
                    self.modules@,
                    model@,
                ),
            decreases all.len() - i,
        {
            let req = &reqs[i];
            assert(all.skip(i as int).drop_first() =~= all.skip(i + 1));
            match find_module(&self.modules, req.name.as_str()) {
                Some(j) => {
                    let module_model = self.modules[j].model.clone();
                    let merged = model.merge(module_model);
                },
                None => {
                    return Err(Error::ScenarioMissingModule(req.name.clone()));
                },
            }
            i = i + 1;
        }
        assert(all.skip(all.len() as int) =~= Seq::<ModuleReq>::empty());
        Ok(model)
    }
}

/// Project manifest.
#[derive(Debug, Clone)]
pub struct ProjectManifest {
    pub name: String,
    /// Module description
    pub description: Option<String>,
    /// Author information
    pub author: Option<String>,
    /// Website information
    pub website: Option<String>,
}

impl ProjectManifest {
    /// Creates the project manifest from its deserialized form.
    pub fn from_deser(deser: deser::ProjectManifest) -> (res: ProjectManifest)
        ensures
            res.name == deser.project.name,
            res.description == deser.project.description,
            res.author == deser.project.author,
            res.website == deser.project.website,
    {
        let deser::ProjectManifest { project } = deser;
        ProjectManifest {
            name: project.name,
            description: project.description,
            author: project.author,
            website: project.website,
        }
    }
}

impl Project {
    /// Assembles a project from its manifest, modules and scenarios.
    pub fn new(manifest: ProjectManifest, scenarios: Vec<Scenario>, modules: Vec<Module>) -> (res: Project)
        ensures
            res.name == manifest.name,
            res.scenarios@ == scenarios@,
            res.modules@ == modules@,
    {
        Project { name: manifest.name, scenarios, modules }
    }
}

} // verus!
