//! Command definitions.
//!
//! Command struct serves as the basic building block for the in-memory logic
//! representation used by the runtime. Each command provides an
//! implementation for it's interpretation (converting a command prototype
//! into target struct) and for it's execution.

pub mod goto;
pub mod invoke;
pub mod spawn;

use vstd::prelude::*;
use vstd::string::*;

use crate::machine::{CommandPrototype, Error, ErrorKind, LocationInfo, Result};
use crate::text::{has_prefix, parse_usize, parse_usize_spec, starts_with, str_eq, views};
use crate::{CompName, EntityId, StringId};

verus! {

/// Used for controlling the flow of execution.
#[derive(Debug)]
pub enum CommandResult {
    /// Continue execution
    Continue,
    /// Break execution
    Break,
    /// Jump to line
    JumpToLine(usize),
    /// Jump to tag
    JumpToTag(StringId),
    /// Signalize that an error has occurred during execution of command
    Failure(Error),
}

/// Flow instruction named by `s`, if any: `jump.N` jumps to line `N`;
/// `ok`, `Ok`, `OK` and `continue` continue; `break` breaks.
pub open spec fn command_result_spec(s: Seq<char>) -> Option<CommandResult> {
    if has_prefix(s, "jump."@) {
        match parse_usize_spec(s.subrange(5, s.len() as int)) {
            Ok(n) => Some(CommandResult::JumpToLine(n as usize)),
            Err(_) => None,
        }
    } else if s == "ok"@ || s == "Ok"@ || s == "OK"@ || s == "continue"@ {
        Some(CommandResult::Continue)
    } else if s == "break"@ {
        Some(CommandResult::Break)
    } else {
        None
    }
}

impl CommandResult {
    /// Reads a flow instruction from text. A `jump.` instruction must be
    /// followed by a line number.
    pub fn from_str(s: &str) -> (res: Option<CommandResult>)
        requires
            has_prefix(s@, "jump."@) ==> parse_usize_spec(s@.subrange(5, s@.len() as int)) is Ok,
        ensures
            res == command_result_spec(s@),
    {
        proof {
            reveal_strlit("jump.");
        }
        if starts_with(s, "jump.") {
            let c = s.substring_char(5, s.unicode_len());
            return match parse_usize(c) {
                Ok(n) => Some(CommandResult::JumpToLine(n)),
                Err(_) => None,
            };
        }
        if str_eq(s, "ok") || str_eq(s, "Ok") || str_eq(s, "OK") || str_eq(s, "continue") {
            Some(CommandResult::Continue)
        } else if str_eq(s, "break") {
            Some(CommandResult::Break)
        } else {
            None
        }
    }
}

/// Defines all the local commands.
#[derive(Debug)]
pub enum Command {
    NoOp,
    Goto(goto::Goto),
    Invoke(invoke::Invoke),
    Spawn(spawn::Spawn),
    Break(Break),
}

/// Breaks out of the innermost loop.
#[derive(Debug, Clone, Copy)]
pub struct Break {}

/// Whether `b` is a copy of the command `a`.
pub open spec fn same_command(a: Command, b: Command) -> bool {
    match (a, b) {
        (Command::NoOp, Command::NoOp) => true,
        (Command::Goto(x), Command::Goto(y)) => x == y,
        (Command::Invoke(x), Command::Invoke(y)) => x.events@ == y.events@,
        (Command::Spawn(x), Command::Spawn(y)) => x == y,
        (Command::Break(_), Command::Break(_)) => true,
        _ => false,
    }
}

impl Clone for Command {
    fn clone(&self) -> (res: Self)
        ensures
            same_command(*self, res),
    {
        match self {
            Command::NoOp => Command::NoOp,
            Command::Goto(g) => Command::Goto(g.clone()),
            Command::Invoke(i) => Command::Invoke(i.clone()),
            Command::Spawn(s) => Command::Spawn(s.clone()),
            Command::Break(b) => Command::Break(*b),
        }
    }
}

/// Arguments of a prototype; none when it lists none.
pub open spec fn proto_args(proto: CommandPrototype) -> Seq<String> {
    match proto.arguments {
        Some(a) => a@,
        None => Seq::empty(),
    }
}

/// Whether a prototype can be given to `Command::from_prototype`: a `goto`
/// names its target state.
pub open spec fn proto_ok(proto: CommandPrototype) -> bool {
    proto.name matches Some(n) && n@ == "goto"@ ==> proto_args(proto).len() > 0
}

/// Command names whose commands this library does not build: printing,
/// setting and querying variables, registrations, flow control and
/// evaluation.
pub open spec fn unavailable_command(n: Seq<char>) -> bool {
    ||| n == "print"@
    ||| n == "set"@
    ||| n == "query"@
    ||| n == "entity"@
    ||| n == "prefab"@
    ||| n == "trigger"@
    ||| n == "triggered_by"@
    ||| n == "var"@
    ||| n == "machine"@
    ||| n == "component"@
    ||| n == "comp"@
    ||| n == "state"@
    ||| n == "if"@
    ||| n == "else"@
    ||| n == "proc"@
    ||| n == "procedure"@
    ||| n == "call"@
    ||| n == "end"@
    ||| n == "for"@
    ||| n == "loop"@
    ||| n == "while"@
    ||| n == "eval"@
}

/// Whether `name` is one of the commands this library does not build.
fn is_unavailable(name: &str) -> (res: bool)
    ensures
        res == unavailable_command(name@),
{
    str_eq(name, "print")
        || str_eq(name, "set")
        || str_eq(name, "query")
        || str_eq(name, "entity")
        || str_eq(name, "prefab")
        || str_eq(name, "trigger")
        || str_eq(name, "triggered_by")
        || str_eq(name, "var")
        || str_eq(name, "machine")
        || str_eq(name, "component")
        || str_eq(name, "comp")
        || str_eq(name, "state")
        || str_eq(name, "if")
        || str_eq(name, "else")
        || str_eq(name, "proc")
        || str_eq(name, "procedure")
        || str_eq(name, "call")
        || str_eq(name, "end")
        || str_eq(name, "for")
        || str_eq(name, "loop")
        || str_eq(name, "while")
        || str_eq(name, "eval")
}

/// What `Command::from_prototype` gives for a prototype read at `location`.
pub open spec fn from_prototype_spec(proto: CommandPrototype, location: LocationInfo, res: Result<Command>) -> bool {
    let args = proto_args(proto);
    match proto.name {
        None => res matches Err(e) && e.location == location && e.kind is NoCommandPresent,
        Some(n) => if n@ == "spawn"@ {
            match res {
                Ok(Command::Spawn(sp)) => spawn::spawn_new_spec(args, location, Ok(sp)),
                Err(e) => spawn::spawn_new_spec(args, location, Err(e)),
                _ => false,
            }
        } else if n@ == "invoke"@ {
            res matches Ok(Command::Invoke(inv)) && views(inv.events@) == views(args)
        } else if n@ == "goto"@ {
            res matches Ok(Command::Goto(g)) && g.target_state@ == args[0]@
        } else if n@ == "break"@ {
            res matches Ok(Command::Break(_))
        } else if unavailable_command(n@) {
            res matches Err(e) && e.location == location && e.kind == ErrorKind::CommandNotAvailable(n)
        } else {
            res matches Err(e) && e.location == location && e.kind == ErrorKind::UnknownCommand(n)
        },
    }
}

impl Command {
    /// Creates new command struct from a prototype. A prototype without a
    /// name holds no command; a command whose kind this library does not
    /// build is not available; any other name is an unknown command.
    pub fn from_prototype(
        proto: &CommandPrototype,
        location: &LocationInfo,
        commands: &Vec<CommandPrototype>,
    ) -> (res: Result<Command>)
        requires
            proto_ok(*proto),
        ensures
            from_prototype_spec(*proto, *location, res),
    {
        let cmd_name = match &proto.name {
            Some(c) => c,
            None => return Err(Error::new(location.clone(), ErrorKind::NoCommandPresent)),
        };
        let args: Vec<String> = match &proto.arguments {
            Some(a) => clone_strings(a),
            None => Vec::new(),
        };
        proof {
            reveal_strlit("goto");
        }
        if str_eq(cmd_name.as_str(), "spawn") {
            match spawn::Spawn::new(args, location) {
                Ok(sp) => Ok(Command::Spawn(sp)),
                Err(e) => Err(e),
            }
        } else if str_eq(cmd_name.as_str(), "invoke") {
            match invoke::Invoke::new(args) {
                Ok(inv) => Ok(Command::Invoke(inv)),
                Err(e) => Err(e),
            }
        } else if str_eq(cmd_name.as_str(), "goto") {
            match goto::Goto::new(args) {
                Ok(g) => Ok(Command::Goto(g)),
                Err(e) => Err(e),
            }
        } else if str_eq(cmd_name.as_str(), "break") {
            Ok(Command::Break(Break {}))
        } else if is_unavailable(cmd_name.as_str()) {
            Err(Error::new(location.clone(), ErrorKind::CommandNotAvailable(cmd_name.clone())))
        } else {
            Err(Error::new(location.clone(), ErrorKind::UnknownCommand(cmd_name.clone())))
        }
    }

    /// Runs the command against the simulation model; none of the commands
    /// needs the model, so execution continues.
    pub fn run_with_model_context(&self, sim_model: &mut crate::model::Model) -> (res: CommandResult)
        ensures
            res is Continue,
            *final(sim_model) == *old(sim_model),
    {
        CommandResult::Continue
    }
}

/// A copy of a list of strings.
fn clone_strings(v: &Vec<String>) -> (res: Vec<String>)
    ensures
        res@ == v@,
{
    let res = v.clone();
    assert(res@ =~= v@);
    res
}

/// External (non-entity-local) command meant for execution within central
/// authority scope.
#[derive(Debug, Clone)]
pub enum CentralRemoteCommand {
    RegisterVar(RegisterVar),
}

/// Registration of a component variable, held as the arguments it was
/// given.
#[derive(Debug, Clone)]
pub struct RegisterVar {
    pub args: Vec<String>,
}

impl CentralRemoteCommand {
    /// Executes the command locally.
    pub fn execute(&self, ent_uid: &EntityId, comp_uid: &CompName) -> (res: Result<()>)
        ensures
            res is Ok,
    {
        Ok(())
    }

    /// Executes the command in a distributed setting.
    pub fn execute_distr(&self, ent_uid: &EntityId, comp_name: &CompName) -> (res: Result<()>)
        ensures
            res is Ok,
    {
        Ok(())
    }
}

/// External command meant for execution on an entity scope that includes
/// operations that don't require access to central authority.
#[derive(Debug, Clone, Copy, PartialEq, Eq)]
pub enum ExtCommand {
    Empty,
}

impl ExtCommand {
    /// Executes the command.
    pub fn execute(&self, ent_id: &EntityId, comp_name: &CompName, location: &LocationInfo) -> (res: Result<()>)
        ensures
            res is Ok,
    {
        Ok(())
    }

    /// Name of the command type.
    pub fn get_type_as_str(&self) -> (res: &str)
        ensures
            res@ == "not implemented"@,
    {
        "not implemented"
    }
}

} // verus!
