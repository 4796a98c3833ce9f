//! Model content definitions, logic for turning deserialized data into
//! model objects.

pub mod archive;
pub mod deser;
pub mod intermediate;
pub mod module;
pub mod project;
pub mod scenario;
pub mod toml_value;

use vstd::prelude::*;

use crate::error::{Error, Result};
use crate::machine::cmd::{same_command, Command, ExtCommand};
use crate::machine::LocationInfo;
use crate::map::VecMap;
use crate::var::VarType;
use crate::{string, CompName, EventName, PrefabName, ShortString, StringId, VarName};

verus! {

/// Scenario as it stands in a model.
#[derive(Debug)]
pub struct Scenario {
    pub name: String,
}

impl Clone for Scenario {
    fn clone(&self) -> (res: Self)
        ensures
            res == *self,
    {
        Scenario { name: self.name.clone() }
    }
}

/// Dynamic library behavior.
#[derive(Debug)]
pub struct Behavior {
    pub lib_path: String,
    /// Name of the entry function
    pub entry: String,
}

impl Clone for Behavior {
    fn clone(&self) -> (res: Self)
        ensures
            res == *self,
    {
        Behavior { lib_path: self.lib_path.clone(), entry: self.entry.clone() }
    }
}

/// The behavior made from an intermediate behavior.
pub open spec fn behavior_of(i: intermediate::Behavior) -> Behavior {
    Behavior { lib_path: i.lib, entry: i.entry }
}

impl From<intermediate::Behavior> for Behavior {
    fn from(i: intermediate::Behavior) -> (res: Self)
        ensures
            res.lib_path == i.lib,
            res.entry == i.entry,
    {
        Behavior { lib_path: i.lib, entry: i.entry }
    }
}

impl vstd::std_specs::convert::FromSpecImpl<intermediate::Behavior> for Behavior {
    open spec fn obeys_from_spec() -> bool {
        true
    }

    open spec fn from_spec(i: intermediate::Behavior) -> Self {
        Behavior { lib_path: i.lib, entry: i.entry }
    }
}

/// Collection of all the information defining an actionable simulation.
#[derive(Debug)]
pub struct Model {
    pub scenarios: Vec<Scenario>,
    pub events: Vec<EventModel>,
    pub prefabs: Vec<PrefabModel>,
    pub components: Vec<Component>,
    pub behaviors: Vec<Behavior>,
    pub data: Vec<DataEntry>,
    pub data_files: Vec<DataFileEntry>,
}

impl Default for Model {
    fn default() -> (res: Self)
        ensures
            res.scenarios@.len() == 0,
            res.events@.len() == 0,
            res.prefabs@.len() == 0,
            res.components@.len() == 0,
            res.behaviors@.len() == 0,
            res.data@.len() == 0,
            res.data_files@.len() == 0,
            res@ == empty_model_view(),
    {
        let res = Model {
            scenarios: Vec::new(),
            events: Vec::new(),
            prefabs: Vec::new(),
            components: Vec::new(),
            behaviors: Vec::new(),
            data: Vec::new(),
            data_files: Vec::new(),
        };
        assert(res@.prefabs =~= Seq::empty());
        assert(res@.components =~= Seq::empty());
        assert(res@.data =~= Seq::empty());
        res
    }
}

/// Contents of a model.
pub struct ModelView {
    pub scenarios: Seq<Scenario>,
    pub events: Seq<EventModel>,
    pub prefabs: Seq<(PrefabName, Seq<CompName>)>,
    pub components: Seq<(CompName, Seq<Var>)>,
    pub behaviors: Seq<Behavior>,
    pub data: Seq<DataEntryView>,
    pub data_files: Seq<DataFileEntry>,
}

impl View for Model {
    type V = ModelView;

    open spec fn view(&self) -> ModelView {
        ModelView {
            scenarios: self.scenarios@,
            events: self.events@,
            prefabs: self.prefabs@.map_values(|p: PrefabModel| p@),
            components: self.components@.map_values(|c: Component| c@),
            behaviors: self.behaviors@,
            data: self.data@.map_values(|d: DataEntry| d@),
            data_files: self.data_files@,
        }
    }
}

/// A model with no content.
pub open spec fn empty_model_view() -> ModelView {
    ModelView {
        scenarios: Seq::empty(),
        events: Seq::empty(),
        prefabs: Seq::empty(),
        components: Seq::empty(),
        behaviors: Seq::empty(),
        data: Seq::empty(),
        data_files: Seq::empty(),
    }
}

/// The contents of `a` followed by those of `b`, collection by collection.
pub open spec fn model_concat(a: ModelView, b: ModelView) -> ModelView {
    ModelView {
        scenarios: a.scenarios + b.scenarios,
        events: a.events + b.events,
        prefabs: a.prefabs + b.prefabs,
        components: a.components + b.components,
        behaviors: a.behaviors + b.behaviors,
        data: a.data + b.data,
        data_files: a.data_files + b.data_files,
    }
}

impl Clone for Model {
    fn clone(&self) -> (res: Self)
        ensures
            res@ == self@,
    {
        let scenarios = self.scenarios.clone();
        assert(scenarios@ =~= self.scenarios@);
        let events = self.events.clone();
        assert(events@ =~= self.events@);
        let prefabs = self.prefabs.clone();
        assert(prefabs@.map_values(|p: PrefabModel| p@) =~= self.prefabs@.map_values(|p: PrefabModel| p@));
        let components = self.components.clone();
        assert(components@.map_values(|c: Component| c@) =~= self.components@.map_values(|c: Component| c@));
        let behaviors = self.behaviors.clone();
        assert(behaviors@ =~= self.behaviors@);
        let data = self.data.clone();
        assert(data@.map_values(|d: DataEntry| d@) =~= self.data@.map_values(|d: DataEntry| d@));
        let data_files = self.data_files.clone();
        assert(data_files@ =~= self.data_files@);
        Model { scenarios, events, prefabs, components, behaviors, data, data_files }
    }
}

/// Key views of a sequence of map entries.
pub open spec fn entry_keys<V>(entries: Seq<(StringId, V)>) -> Seq<Seq<char>> {
    entries.map_values(|e: (StringId, V)| e.0@)
}

/// Names of a sequence of component variables.
pub open spec fn var_names(vars: Seq<Var>) -> Seq<Seq<char>> {
    vars.map_values(|v: Var| v.name@)
}

/// The component made from an intermediate component: the same name,
/// and a string variable without default for each of its variables, in the
/// order they are held.
pub open spec fn component_from_intermediate(ic: intermediate::Component, c: Component) -> bool {
    &&& c.name == ic.name
    &&& var_names(c.vars@) == entry_keys(ic.vars.entries())
    &&& forall|j: int| 0 <= j < c.vars@.len() ==> (#[trigger] c.vars@[j]).type_ == VarType::String && c.vars@[j].default is None
}

/// The model made from an intermediate model: its scenarios by name,
/// its components with string variables named after the intermediate
/// component's variables, and its behaviors; nothing else.
pub open spec fn model_from_intermediate(im: intermediate::Model, m: Model) -> bool {
    &&& m.scenarios@.len() == im.scenarios@.len()
    &&& forall|i: int| 0 <= i < im.scenarios@.len() ==> #[trigger] m.scenarios@[i].name == im.scenarios@[i].name
    &&& m.components@.len() == im.components@.len()
    &&& forall|i: int| 0 <= i < im.components@.len() ==> component_from_intermediate(im.components@[i], #[trigger] m.components@[i])
    &&& m.behaviors@.len() == im.behaviors@.len()
    &&& forall|i: int| 0 <= i < im.behaviors@.len() ==> #[trigger] m.behaviors@[i] == behavior_of(im.behaviors@[i])
    &&& m.events@.len() == 0
    &&& m.prefabs@.len() == 0
    &&& m.data@.len() == 0
    &&& m.data_files@.len() == 0
}

impl vstd::std_specs::convert::TryFromSpecImpl<intermediate::Model> for Model {
    open spec fn obeys_try_from_spec() -> bool {
        false
    }

    open spec fn try_from_spec(im: intermediate::Model) -> core::result::Result<Self, Error> {
        arbitrary()
    }
}

impl TryFrom<intermediate::Model> for Model {
    type Error = Error;

    /// Makes the regular model definition of an intermediate one.
    #[verifier::loop_isolation(false)]
    fn try_from(im: intermediate::Model) -> (res: Result<Self>)
        ensures
            res matches Ok(m) && model_from_intermediate(im, m),
    {
        let ghost im0 = im;
        let mut model = Model::default();
        let intermediate::Model { meta, dependencies, scenarios, behaviors, components, data } = im;
        let mut i: usize = 0;
        while i < scenarios.len()
            invariant
                scenarios == im0.scenarios,
                components == im0.components,
                behaviors == im0.behaviors,
                i <= scenarios@.len(),
                model.scenarios@.len() == i,
                forall|k: int| 0 <= k < i ==> #[trigger] model.scenarios@[k].name == scenarios@[k].name,
                model.events@.len() == 0,
                model.prefabs@.len() == 0,
                model.components@.len() == 0,
                model.behaviors@.len() == 0,
                model.data@.len() == 0,
                model.data_files@.len() == 0,
            decreases scenarios@.len() - i,
        {
            model.scenarios.push(Scenario { name: scenarios[i].name.clone() });
            i = i + 1;
        }
        let mut i: usize = 0;
        while i < components.len()
            invariant
                scenarios == im0.scenarios,
                components == im0.components,
                behaviors == im0.behaviors,
                i <= components@.len(),
                model.scenarios@.len() == scenarios@.len(),
                forall|k: int| 0 <= k < scenarios@.len() ==> #[trigger] model.scenarios@[k].name == scenarios@[k].name,
                model.components@.len() == i,
                forall|k: int| 0 <= k < i ==> component_from_intermediate(components@[k], #[trigger] model.components@[k]),
                model.events@.len() == 0,
                model.prefabs@.len() == 0,
                model.behaviors@.len() == 0,
                model.data@.len() == 0,
                model.data_files@.len() == 0,
            decreases components@.len() - i,
        {
            let im_component = &components[i];
            let mut component = Component { name: im_component.name.clone(), vars: Vec::new() };
            let mut j: usize = 0;
            let n = im_component.vars.len();
            while j < n
                invariant
                    n == im_component.vars.entries().len(),
                    j <= n,
                    component.name == im_component.name,
                    component.vars@.len() == j,
                    forall|k: int| 0 <= k < j ==> #[trigger] component.vars@[k].name@ == im_component.vars.entries()[k].0@,
                    forall|k: int| 0 <= k < j ==> #[trigger] component.vars@[k].type_ == VarType::String,
                    forall|k: int| 0 <= k < j ==> #[trigger] component.vars@[k].default is None,
                decreases n - j,
            {
                let entry = im_component.vars.entry(j);
                component.vars.push(Var { name: entry.0.clone(), type_: VarType::String, default: None });
                assert(component.vars@[j as int].name@ == im_component.vars.entries()[j as int].0@);
                j = j + 1;
            }
            assert(var_names(component.vars@) =~= entry_keys(im_component.vars.entries()));
            let ghost c = component;
            assert(component_from_intermediate(components@[i as int], c));
            model.components.push(component);
            i = i + 1;
        }
        let mut behaviors = behaviors;
        let ghost bs = behaviors@;
        let mut out: Vec<Behavior> = Vec::new();
        let mut i: usize = 0;
        while behaviors.len() > 0
            invariant
                bs == im0.behaviors@,
                bs.len() == im0.behaviors.len(),
                i + behaviors@.len() == bs.len(),
                behaviors@ == bs.subrange(i as int, bs.len() as int),
                out@.len() == i,
                forall|k: int| 0 <= k < i ==> #[trigger] out@[k] == behavior_of(bs[k]),
            decreases behaviors@.len(),
        {
            let b = behaviors.remove(0);
            out.push(Behavior::from(b));
            i = i + 1;
        }
        model.behaviors = out;
        proof {
            assert(model.scenarios@.len() == im0.scenarios@.len());
            assert(model.components@.len() == im0.components@.len());
            assert(model.behaviors@.len() == im0.behaviors@.len());
        }
        Ok(model)
    }
}

impl Model {
    /// Merges another `Model` into `self`: each collection of `other` is
    /// appended to the matching collection of `self`.
    pub fn merge(&mut self, other: Self) -> (res: Result<()>)
        ensures
            res is Ok,
            final(self).scenarios@ == old(self).scenarios@ + other.scenarios@,
            final(self).events@ == old(self).events@ + other.events@,
            final(self).prefabs@ == old(self).prefabs@ + other.prefabs@,
            final(self).components@ == old(self).components@ + other.components@,
            final(self).behaviors@ == old(self).behaviors@ + other.behaviors@,
            final(self).data@ == old(self).data@ + other.data@,
            final(self).data_files@ == old(self).data_files@ + other.data_files@,
            final(self)@ == model_concat(old(self)@, other@),
    {
        let ghost a = self@;
        let ghost b = other@;
        let mut other = other;
        self.scenarios.append(&mut other.scenarios);
        self.events.append(&mut other.events);
        self.prefabs.append(&mut other.prefabs);
        self.components.append(&mut other.components);
        self.behaviors.append(&mut other.behaviors);
        self.data.append(&mut other.data);
        self.data_files.append(&mut other.data_files);
        assert(self@.prefabs =~= a.prefabs + b.prefabs);
        assert(self@.components =~= a.components + b.components);
        assert(self@.data =~= a.data + b.data);
        Ok(())
    }

    /// Get reference to entity prefab by name: the first one so named.
    pub fn get_prefab(&self, name: &StringId) -> (res: Option<&PrefabModel>)
        ensures
            match res {
                Some(p) => exists|i: int|
                    0 <= i < self.prefabs@.len() && self.prefabs@[i] == *p && p.name@ == name@
                        && forall|j: int| 0 <= j < i ==> #[trigger] self.prefabs@[j].name@ != name@,
                None => forall|j: int| 0 <= j < self.prefabs@.len() ==> #[trigger] self.prefabs@[j].name@ != name@,
            },
    {
        let mut i: usize = 0;
        while i < self.prefabs.len()
            invariant
                i <= self.prefabs@.len(),
                forall|j: int| 0 <= j < i ==> #[trigger] self.prefabs@[j].name@ != name@,
            decreases self.prefabs@.len() - i,
        {
            if self.prefabs[i].name == *name {
                return Some(&self.prefabs[i]);
            }
            i = i + 1;
        }
        None
    }

    /// Position of the first prefab named `name`.
    fn find_prefab(&self, name: &StringId) -> (res: Option<usize>)
        ensures
            match res {
                Some(i) => i < self.prefabs@.len() && self.prefabs@[i as int].name@ == name@
                    && forall|j: int| 0 <= j < i ==> #[trigger] self.prefabs@[j].name@ != name@,
                None => forall|j: int| 0 <= j < self.prefabs@.len() ==> #[trigger] self.prefabs@[j].name@ != name@,
            },
    {
        let mut i: usize = 0;
        while i < self.prefabs.len()
            invariant
                i <= self.prefabs@.len(),
                forall|j: int| 0 <= j < i ==> #[trigger] self.prefabs@[j].name@ != name@,
            decreases self.prefabs@.len() - i,
        {
            if self.prefabs[i].name == *name {
                return Some(i);
            }
            i = i + 1;
        }
        None
    }

    /// Get mutable reference to the first entity prefab named `name`.
    pub fn get_entity_mut(&mut self, name: &StringId) -> (res: Option<&mut PrefabModel>)
        ensures
            match res {
                Some(p) => exists|i: int|
                    0 <= i < old(self).prefabs@.len() && old(self).prefabs@[i] == *p && p.name@ == name@
                        && (forall|j: int| 0 <= j < i ==> #[trigger] old(self).prefabs@[j].name@ != name@)
                        && final(self).prefabs@ == old(self).prefabs@.update(i, *final(p)),
                None => (forall|j: int| 0 <= j < old(self).prefabs@.len() ==> #[trigger] old(self).prefabs@[j].name@ != name@)
                    && final(self).prefabs == old(self).prefabs,
            },
            final(self).components == old(self).components,
            final(self).events == old(self).events,
            final(self).scenarios == old(self).scenarios,
            final(self).behaviors == old(self).behaviors,
            final(self).data == old(self).data,
            final(self).data_files == old(self).data_files,
    {
        match self.find_prefab(name) {
            Some(i) => Some(&mut self.prefabs[i]),
            None => None,
        }
    }

    /// Position of the first component named `name`.
    fn find_component(&self, name: &StringId) -> (res: Option<usize>)
        ensures
            match res {
                Some(i) => i < self.components@.len() && self.components@[i as int].name@ == name@
                    && forall|j: int| 0 <= j < i ==> #[trigger] self.components@[j].name@ != name@,
                None => forall|j: int| 0 <= j < self.components@.len() ==> #[trigger] self.components@[j].name@ != name@,
            },
    {
        let mut i: usize = 0;
        while i < self.components.len()
            invariant
                i <= self.components@.len(),
                forall|j: int| 0 <= j < i ==> #[trigger] self.components@[j].name@ != name@,
            decreases self.components@.len() - i,
        {
            if self.components[i].name == *name {
                return Some(i);
            }
            i = i + 1;
        }
        None
    }

    /// Get mutable reference to the first component model named `name`.
    pub fn get_component_mut(&mut self, name: &StringId) -> (res: Option<&mut Component>)
        ensures
            match res {
                Some(c) => exists|i: int|
                    0 <= i < old(self).components@.len() && old(self).components@[i] == *c && c.name@ == name@
                        && (forall|j: int| 0 <= j < i ==> #[trigger] old(self).components@[j].name@ != name@)
                        && final(self).components@ == old(self).components@.update(i, *final(c)),
                None => (forall|j: int| 0 <= j < old(self).components@.len() ==> #[trigger] old(self).components@[j].name@ != name@)
                    && final(self).components == old(self).components,
            },
            final(self).prefabs == old(self).prefabs,
            final(self).events == old(self).events,
            final(self).scenarios == old(self).scenarios,
            final(self).behaviors == old(self).behaviors,
            final(self).data == old(self).data,
            final(self).data_files == old(self).data_files,
    {
        match self.find_component(name) {
            Some(i) => Some(&mut self.components[i]),
            None => None,
        }
    }

    /// Get reference to component model by name: the first one so named.
    pub fn get_component(&self, name: &CompName) -> (res: Result<&Component>)
        ensures
            match res {
                Ok(c) => exists|i: int|
                    0 <= i < self.components@.len() && self.components@[i] == *c && c.name@ == name@
                        && forall|j: int| 0 <= j < i ==> #[trigger] self.components@[j].name@ != name@,
                Err(e) => e matches Error::NoComponentModel(n) && n@ == name@
                    && forall|j: int| 0 <= j < self.components@.len() ==> #[trigger] self.components@[j].name@ != name@,
            },
    {
        let mut i: usize = 0;
        while i < self.components.len()
            invariant
                i <= self.components@.len(),
                forall|j: int| 0 <= j < i ==> #[trigger] self.components@[j].name@ != name@,
            decreases self.components@.len() - i,
        {
            if self.components[i].name == *name {
                return Ok(&self.components[i]);
            }
            i = i + 1;
        }
        Err(Error::NoComponentModel(name.clone()))
    }
}

/// Service declared by a module.
#[derive(Debug, Clone)]
pub struct ServiceModel {
    /// Unique name for the service
    pub name: String,
    pub type_: Option<String>,
    pub type_args: Option<String>,
    /// Path to executable relative to module root
    pub executable: Option<String>,
    /// Path to buildable project
    pub project: Option<String>,
    /// Defines the nature of the service
    pub managed: bool,
    /// Arguments string passed to the executable
    pub args: Vec<String>,
    pub output: Option<String>,
}

/// Event declared by a model.
#[derive(Debug)]
pub struct EventModel {
    pub id: EventName,
}

impl Clone for EventModel {
    fn clone(&self) -> (res: Self)
        ensures
            res == *self,
    {
        EventModel { id: self.id.clone() }
    }
}

/// Entity prefab: a named set of components.
#[derive(Debug)]
pub struct PrefabModel {
    pub name: PrefabName,
    pub components: Vec<CompName>,
}

impl View for PrefabModel {
    type V = (PrefabName, Seq<CompName>);

    open spec fn view(&self) -> (PrefabName, Seq<CompName>) {
        (self.name, self.components@)
    }
}

impl Clone for PrefabModel {
    fn clone(&self) -> (res: Self)
        ensures
            res@ == self@,
    {
        let components = self.components.clone();
        assert(components@ =~= self.components@);
        PrefabModel { name: self.name.clone(), components }
    }
}

/// Entity spawn request model.
#[derive(Debug, Clone)]
pub struct EntitySpawnRequestModel {
    pub prefab: String,
    pub name: Option<String>,
}

/// Component model.
///
/// Components are primarily referenced by their name. Other than that
/// each component defines a list of variables.
#[derive(Debug)]
pub struct Component {
    /// String identifier of the component
    pub name: CompName,
    /// List of variables that define the component's interface
    pub vars: Vec<Var>,
}

impl View for Component {
    type V = (CompName, Seq<Var>);

    open spec fn view(&self) -> (CompName, Seq<Var>) {
        (self.name, self.vars@)
    }
}

impl Clone for Component {
    fn clone(&self) -> (res: Self)
        ensures
            res@ == self@,
    {
        let vars = self.vars.clone();
        assert(vars@ =~= self.vars@);
        Component { name: self.name.clone(), vars }
    }
}

impl From<intermediate::Component> for Component {
    fn from(im: intermediate::Component) -> (res: Self)
        ensures
            res.name == im.name,
            res.vars@.len() == 0,
    {
        Component { name: im.name, vars: Vec::new() }
    }
}

impl vstd::std_specs::convert::FromSpecImpl<intermediate::Component> for Component {
    open spec fn obeys_from_spec() -> bool {
        false
    }

    open spec fn from_spec(im: intermediate::Component) -> Self {
        arbitrary()
    }
}

/// Component-bound state machine logic model.
#[derive(Debug)]
pub struct LogicModel {
    /// Name of the starting state
    pub start_state: StringId,
    /// List of local phase commands
    pub commands: Vec<Command>,
    /// List of pre phase commands
    pub pre_commands: VecMap<ShortString, Vec<ExtCommand>>,
    /// Mapping of state procedure names to their start and end lines
    pub states: VecMap<StringId, (usize, usize)>,
    /// Mapping of non-state procedure names to their start and end lines
    pub procedures: VecMap<ShortString, (usize, usize)>,
    /// Location info mapped for each command on the list by index
    pub cmd_location_map: Vec<LocationInfo>,
}

impl LogicModel {
    /// Logic with no commands, starting in the start state.
    pub fn empty() -> (res: LogicModel)
        ensures
            res.start_state@ == crate::machine::START_STATE_NAME@,
            res.commands@.len() == 0,
            res.pre_commands@.len() == 0,
            res.states@.len() == 0,
            res.procedures@.len() == 0,
            res.cmd_location_map@.len() == 0,
    {
        LogicModel {
            start_state: string::new_truncate(crate::machine::START_STATE_NAME),
            commands: Vec::new(),
            pre_commands: VecMap::new(),
            states: VecMap::new(),
            procedures: VecMap::new(),
            cmd_location_map: Vec::new(),
        }
    }

    /// Logic made of the commands, and their locations, from `start_line` up
    /// to, not including, `last_line`.
    pub fn get_subset(&self, start_line: usize, last_line: usize) -> (res: LogicModel)
        requires
            start_line <= last_line,
            last_line <= self.commands@.len(),
            last_line <= self.cmd_location_map@.len(),
        ensures
            res.start_state@ == crate::machine::START_STATE_NAME@,
            res.commands@.len() == last_line - start_line,
            forall|k: int| 0 <= k < res.commands@.len() ==> same_command(self.commands@[start_line + k], #[trigger] res.commands@[k]),
            res.cmd_location_map@ == self.cmd_location_map@.subrange(start_line as int, last_line as int),
            res.pre_commands@.len() == 0,
            res.states@.len() == 0,
            res.procedures@.len() == 0,
    {
        let mut new_logic = LogicModel::empty();
        let mut i = start_line;
        while i < last_line
            invariant
                start_line <= i <= last_line,
                last_line <= self.commands@.len(),
                last_line <= self.cmd_location_map@.len(),
                new_logic.start_state@ == crate::machine::START_STATE_NAME@,
                new_logic.commands@.len() == i - start_line,
                forall|k: int| 0 <= k < new_logic.commands@.len() ==> same_command(self.commands@[start_line + k], #[trigger] new_logic.commands@[k]),
                new_logic.cmd_location_map@ == self.cmd_location_map@.subrange(start_line as int, i as int),
                new_logic.pre_commands@.len() == 0,
                new_logic.states@.len() == 0,
                new_logic.procedures@.len() == 0,
            decreases last_line - i,
        {
            new_logic.commands.push(self.commands[i].clone());
            new_logic.cmd_location_map.push(self.cmd_location_map[i].clone());
            assert(new_logic.cmd_location_map@ =~= self.cmd_location_map@.subrange(start_line as int, i + 1));
            i = i + 1;
        }
        new_logic
    }
}

/// Variable model.
#[derive(Debug)]
pub struct Var {
    pub name: VarName,
    pub type_: VarType,
    pub default: Option<crate::var::Var>,
}

impl Clone for Var {
    fn clone(&self) -> (res: Self)
        ensures
            res == *self,
    {
        let default = match &self.default {
            Some(v) => Some(v.clone()),
            None => None,
        };
        Var { name: self.name.clone(), type_: self.type_, default }
    }
}

/// Data entry model.
#[derive(Debug)]
pub enum DataEntry {
    Simple((String, String)),
    List((String, Vec<String>)),
    Grid((String, Vec<Vec<String>>)),
}

/// Contents of a data entry.
pub enum DataEntryView {
    Simple((String, String)),
    List((String, Seq<String>)),
    Grid((String, Seq<Seq<String>>)),
}

impl View for DataEntry {
    type V = DataEntryView;

    open spec fn view(&self) -> DataEntryView {
        match self {
            DataEntry::Simple(p) => DataEntryView::Simple(*p),
            DataEntry::List(p) => DataEntryView::List((p.0, p.1@)),
            DataEntry::Grid(p) => DataEntryView::Grid((p.0, p.1@.map_values(|r: Vec<String>| r@))),
        }
    }
}

impl Clone for DataEntry {
    fn clone(&self) -> (res: Self)
        ensures
            res@ == self@,
    {
        match self {
            DataEntry::Simple(p) => DataEntry::Simple((p.0.clone(), p.1.clone())),
            DataEntry::List(p) => {
                let l = p.1.clone();
                assert(l@ =~= p.1@);
                DataEntry::List((p.0.clone(), l))
            },
            DataEntry::Grid(p) => {
                let mut g: Vec<Vec<String>> = Vec::new();
                let mut i: usize = 0;
                while i < p.1.len()
                    invariant
                        i <= p.1@.len(),
                        g@.len() == i,
                        forall|j: int| 0 <= j < i ==> #[trigger] g@[j]@ == p.1@[j]@,
                    decreases p.1@.len() - i,
                {
                    let row = p.1[i].clone();
                    assert(row@ =~= p.1@[i as int]@);
                    g.push(row);
                    i = i + 1;
                }
                assert(g@.map_values(|r: Vec<String>| r@) =~= p.1@.map_values(|r: Vec<String>| r@));
                DataEntry::Grid((p.0.clone(), g))
            },
        }
    }
}

/// Data file entry model.
#[derive(Debug)]
pub enum DataFileEntry {
    Json(String),
    JsonList(String),
    JsonGrid(String),
    Yaml(String),
    YamlList(String),
    YamlGrid(String),
    CsvList(String),
    CsvGrid(String),
}

impl Clone for DataFileEntry {
    fn clone(&self) -> (res: Self)
        ensures
            res == *self,
    {
        match self {
            DataFileEntry::Json(s) => DataFileEntry::Json(s.clone()),
            DataFileEntry::JsonList(s) => DataFileEntry::JsonList(s.clone()),
            DataFileEntry::JsonGrid(s) => DataFileEntry::JsonGrid(s.clone()),
            DataFileEntry::Yaml(s) => DataFileEntry::Yaml(s.clone()),
            DataFileEntry::YamlList(s) => DataFileEntry::YamlList(s.clone()),
            DataFileEntry::YamlGrid(s) => DataFileEntry::YamlGrid(s.clone()),
            DataFileEntry::CsvList(s) => DataFileEntry::CsvList(s.clone()),
            DataFileEntry::CsvGrid(s) => DataFileEntry::CsvGrid(s.clone()),
        }
    }
}

/// Data image entry model. Used specifically for importing grid data.
#[derive(Debug, Clone)]
pub enum DataImageEntry {
    BmpU8(String, String),
    BmpU8U8U8(String, String),
    PngU8(String, String),
    PngU8U8U8(String, String),
    PngU8U8U8Concat(String, String),
}

} // verus!
