//! `goto` command: switches the component to another state.

use vstd::prelude::*;

use crate::machine::cmd::CommandResult;
use crate::machine::Result;
use crate::{string, StringId};

verus! {

/// Goto
#[derive(Debug)]
pub struct Goto {
    pub target_state: StringId,
}

impl Clone for Goto {
    fn clone(&self) -> (res: Self)
        ensures
            res == *self,
    {
        Goto { target_state: self.target_state.clone() }
    }
}

impl Goto {
    /// Creates the command from its arguments; the first one names the
    /// target state.
    pub fn new(args: Vec<String>) -> (res: Result<Self>)
        requires
            args.len() > 0,
        ensures
            res matches Ok(g) && g.target_state@ == args@[0]@,
    {
        Ok(Goto { target_state: string::new_truncate(args[0].as_str()) })
    }

    /// Switches the component state to the target state.
    pub fn execute_loc(&self, comp_state: &mut StringId) -> (res: CommandResult)
        ensures
            *final(comp_state) == self.target_state,
            res is Continue,
    {
        *comp_state = self.target_state.clone();
        CommandResult::Continue
    }
}

} // verus!
