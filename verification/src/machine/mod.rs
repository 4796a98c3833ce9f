//! Virtual machine constructs: instruction locations, call information and
//! the search for block structures within command lists.

pub mod cmd;
pub mod error;
pub mod exec;
pub mod search;

use vstd::prelude::*;
use vstd::string::*;

use crate::text::{decimal, push_decimal, string_of};
use crate::{CompName, EntityId, StringId};

pub use cmd::Command;
pub use error::{Error, ErrorKind, Result};
pub use search::command_search;

verus! {

/// Name of the state a machine starts in.
pub const START_STATE_NAME: &'static str = "start";

/// Holds instruction location information.
#[derive(Debug)]
pub struct LocationInfo {
    /// Path to project root
    pub root: Option<String>,
    /// Path to the source file, relative to project root
    pub source: Option<String>,
    /// Line number as seen in source file
    pub source_line: Option<usize>,
    /// Line number after trimming empty lines, more like an command index
    pub line: Option<usize>,
    /// Unique tag for this location
    pub tag: Option<String>,
    /// Name of the component the instruction belongs to
    pub comp_name: Option<String>,
}

impl Clone for LocationInfo {
    fn clone(&self) -> (res: Self)
        ensures
            res == *self,
    {
        LocationInfo {
            root: self.root.clone(),
            source: self.source.clone(),
            source_line: self.source_line,
            line: self.line,
            tag: self.tag.clone(),
            comp_name: self.comp_name.clone(),
        }
    }
}

impl LocationInfo {
    /// Describes the location by its source file and line.
    pub fn to_string(&self) -> (res: String)
        ensures
            res@ == "Source: "@ + match self.source {
                Some(s) => s@,
                None => "unknown"@,
            } + ", Line: "@ + decimal(
                match self.source_line {
                    Some(l) => l as nat,
                    None => 0,
                },
            ),
    {
        let mut out = string_of("Source: ");
        match &self.source {
            Some(s) => out.append(s.as_str()),
            None => out.append("unknown"),
        }
        out.append(", Line: ");
        match self.source_line {
            Some(l) => push_decimal(&mut out, l),
            None => push_decimal(&mut out, 0),
        }
        out
    }

    /// Location with no information.
    pub fn empty() -> (res: LocationInfo)
        ensures
            res.root is None,
            res.source is None,
            res.source_line is None,
            res.line is None,
            res.tag is None,
            res.comp_name is None,
    {
        LocationInfo {
            root: None,
            source: None,
            source_line: None,
            line: None,
            tag: None,
            comp_name: None,
        }
    }

    /// Sets the project root and the source file of the location.
    pub fn with_source(self, root: &str, source: &str) -> (res: Self)
        ensures
            res.root matches Some(r) && r@ == root@,
            res.source matches Some(s) && s@ == source@,
            res.source_line == self.source_line,
            res.line == self.line,
            res.tag == self.tag,
            res.comp_name == self.comp_name,
    {
        let mut loc = self;
        loc.root = Some(string_of(root));
        loc.source = Some(string_of(source));
        loc
    }
}

/// Command in it's simplest form, ready to be turned into a more concrete
/// representation.
///
/// Example:
/// ```text
/// command_name --flag --arg="something" -> output:address
/// ```
#[derive(Debug, Clone)]
pub struct CommandPrototype {
    /// Command name
    pub name: Option<String>,
    /// Command arguments
    pub arguments: Option<Vec<String>>,
    /// Command output
    pub output: Option<String>,
}

/// Struct containing basic information about where the execution is
/// taking place.
#[derive(Debug, Clone)]
pub struct ExecutionContext {
    pub ent: EntityId,
    pub comp: CompName,
    pub location: LocationInfo,
}

/// Register targets of the component machine.
#[derive(Debug, Clone, Copy, PartialEq, Eq)]
pub enum RegistryTarget {
    Str0,
    Int0,
    Float0,
    Bool0,
}

/// Information about a single call.
#[derive(Debug, Clone)]
pub enum CallInfo {
    Procedure(ProcedureCallInfo),
    ForIn(ForInCallInfo),
    Loop(LoopCallInfo),
    IfElse(IfElseCallInfo),
    Component(ComponentCallInfo),
}

/// Information about a single procedure call.
#[derive(Debug, Clone, Copy, PartialEq, Eq)]
pub struct ProcedureCallInfo {
    pub call_line: usize,
    pub start_line: usize,
    pub end_line: usize,
}

/// Information about a single forin call.
#[derive(Debug, Clone)]
pub struct ForInCallInfo {
    /// Target that will be iterated over
    pub target: Option<String>,
    pub target_len: usize,
    /// Variable to update while iterating
    pub variable: Option<String>,
    /// Current iteration
    pub iteration: usize,
    pub start: usize,
    pub end: usize,
}

/// Information about a single loop call.
#[derive(Debug, Clone, Copy, PartialEq, Eq)]
pub struct LoopCallInfo {
    pub start: usize,
    pub end: usize,
}

/// Contains information about a single ifelse call.
#[derive(Debug, Clone, Copy, PartialEq, Eq)]
pub struct IfElseCallInfo {
    pub current: usize,
    pub passed: bool,
    pub else_line_index: usize,
    pub meta: IfElseMetaData,
}

/// Lines of an if-else block.
#[derive(Debug, Clone, Copy, PartialEq, Eq)]
pub struct IfElseMetaData {
    pub start: usize,
    pub end: usize,
    pub else_lines: [usize; 10],
}

/// Contains information about a single component block call.
#[derive(Debug, Clone)]
pub struct ComponentCallInfo {
    pub name: CompName,
    pub start_line: usize,
    pub end_line: usize,
}

/// Requirements under which a machine is instanced.
#[derive(Debug, Clone)]
pub enum SpawnRequirement {
    PerEntityWithAllComponents(Vec<CompName>),
    PerEntityWithAnyComponent(Vec<CompName>),
    PerWorker,
}

} // verus!
