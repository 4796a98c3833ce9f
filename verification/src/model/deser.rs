//! Contains structs used for procedural deserialization.

use vstd::prelude::*;

use crate::map::VecMap;
use crate::model::toml_value::TomlValue;
use crate::text::string_of;

verus! {

/// Project manifest file.
#[derive(Debug, Clone)]
pub struct ProjectManifest {
    pub project: ProjectManifestMeta,
}

/// The `project` table of a project manifest.
#[derive(Debug, Clone)]
pub struct ProjectManifestMeta {
    pub name: String,
    pub description: Option<String>,
    pub author: Option<String>,
    pub website: Option<String>,
}

/// Library entry of a module manifest.
#[derive(Debug, Clone)]
pub struct ModuleLib {
    pub path: String,
    pub build: bool,
}

/// Module manifest file.
#[derive(Debug)]
pub struct ModuleManifest {
    pub _mod: ModuleManifestMod,
    pub dependencies: VecMap<String, TomlValue>,
    pub reqs: Vec<String>,
    pub libraries: VecMap<String, TomlValue>,
    pub services: VecMap<String, TomlValue>,
}

/// The `mod` table of a module manifest.
#[derive(Debug)]
pub struct ModuleManifestMod {
    pub name: String,
    pub version: String,
    /// Engine requirement: a version requirement, or a table with
    /// `version` and `features` entries
    pub engine: TomlValue,
    pub title: String,
    pub desc: String,
    pub desc_long: String,
    pub author: String,
    pub website: String,
}

/// Engine requirement assumed when a module manifest names none: any
/// version.
pub fn default_engine_req() -> (res: TomlValue)
    ensures
        res matches TomlValue::String(s) && s@ == "*"@,
{
    TomlValue::String(string_of("*"))
}

/// Scenario manifest file; module requirements are kept in the order they
/// are written.
#[derive(Debug)]
pub struct ScenarioManifest {
    pub scenario: ScenarioManifestScenario,
    pub mods: VecMap<String, TomlValue>,
    pub settings: VecMap<String, TomlValue>,
    pub services: VecMap<String, TomlValue>,
}

/// The `scenario` table of a scenario manifest.
#[derive(Debug, Clone)]
pub struct ScenarioManifestScenario {
    pub name: String,
    pub version: String,
    pub engine: String,
    pub title: String,
    pub desc: String,
    pub desc_long: String,
    pub author: String,
    pub website: String,
}

/// Engine version requirement assumed when a scenario manifest names none:
/// any version.
pub fn default_engine_version() -> (res: String)
    ensures
        res@ == "*"@,
{
    string_of("*")
}

/// Proof manifest file.
#[derive(Debug, Clone)]
pub struct ProofManifest {
    pub name: String,
    pub version: String,
    pub bigworlds: String,
    pub scenario: String,
    pub title: String,
    pub desc: String,
    pub desc_long: String,
    pub author: String,
    pub website: String,
}

/// Structured data file.
#[derive(Debug, Clone)]
pub struct DataFile {
    pub components: Vec<ComponentEntry>,
    pub prefabs: Vec<PrefabEntry>,
    pub entities: Vec<EntityEntry>,
}

/// Component entry of a data file.
#[derive(Debug, Clone)]
pub struct ComponentEntry {
    pub name: String,
    pub vars: Vec<String>,
    pub states: Vec<ComponentStateEntry>,
    pub start_state: Option<String>,
}

/// Component state entry of a data file.
#[derive(Debug, Clone)]
pub struct ComponentStateEntry {
    pub name: String,
    pub cmds: Vec<String>,
}

/// Prefab entry of a data file.
#[derive(Debug, Clone)]
pub struct PrefabEntry {
    pub name: String,
    pub comps: Vec<String>,
}

/// Entity entry of a data file.
#[derive(Debug, Clone)]
pub struct EntityEntry {
    pub prefab: String,
    pub name: Option<String>,
}

/// Variable entry of a data file.
#[derive(Debug, Clone)]
pub struct VarEntry {
    pub name: String,
    pub default: Option<String>,
}

} // verus!
