//! Execution of command collections within different contexts.

use vstd::prelude::*;

use crate::machine::cmd::{CentralRemoteCommand, ExtCommand};
use crate::machine::{ExecutionContext, Result};

verus! {

/// Executes a given set of central-external commands.
pub fn execute_central_ext(central_ext_cmds: &Vec<(ExecutionContext, CentralRemoteCommand)>) -> (res: Result<()>)
    ensures
        res is Ok,
{
    Ok(())
}

/// Executes a given set of external commands.
pub fn execute_ext(ext_cmds: &Vec<(ExecutionContext, ExtCommand)>) -> (res: Result<()>)
    ensures
        res is Ok,
{
    Ok(())
}

} // verus!
