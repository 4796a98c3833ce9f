//! Verified core of the `bigworlds` simulation framework: model
//! definitions and their assembly from manifests, the entity storage, the
//! query description language, the machine command layer and the state
//! handling of the cluster roles.

pub mod address;
pub mod client;
pub mod entity;
pub mod model;
pub mod query;
pub mod string;
pub mod error;
pub mod interactive;
pub mod leader;
pub mod text;
pub mod time;
pub mod var;
pub mod worker;
pub mod machine;
pub mod map;
pub mod net;
pub mod node;
pub mod part;
pub mod server;

use vstd::prelude::*;

verus! {

/// String identifier used for names throughout the model.
pub type StringId = String;
/// Component name.
pub type CompName = StringId;
/// Variable name.
pub type VarName = StringId;
/// Entity name.
pub type EntityName = StringId;
/// Event name.
pub type EventName = StringId;
/// Prefab name.
pub type PrefabName = StringId;
/// Short string.
pub type ShortString = StringId;
/// Long string.
pub type LongString = String;
/// Numeric entity identifier.
pub type EntityId = u32;

/// Version of the engine, checked against the engine requirements of
/// scenarios and modules.
pub const VERSION: &'static str = "0.1.0";
/// Name of the directory holding a project's scenario manifests.
pub const SCENARIOS_DIR_NAME: &'static str = "scenarios";
/// Name of the directory holding a project's modules.
pub const MODULES_DIR_NAME: &'static str = "modules";
/// Name of a module's manifest file.
pub const MODULE_MANIFEST_FILE: &'static str = "module.toml";
/// Name of a project's manifest file.
pub const PROJECT_MANIFEST_FILE: &'static str = "project.toml";
/// Name of a model's manifest file.
pub const MODEL_MANIFEST_FILE: &'static str = "model.toml";

} // verus!
