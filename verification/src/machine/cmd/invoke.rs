//! `invoke` command: fires events.

use vstd::prelude::*;

use crate::machine::Result;
use crate::text::views;
use crate::{string, StringId};

verus! {

/// Invoke
#[derive(Debug)]
pub struct Invoke {
    pub events: Vec<StringId>,
}

impl Clone for Invoke {
    fn clone(&self) -> (res: Self)
        ensures
            res.events@ == self.events@,
    {
        let events = self.events.clone();
        assert(events@ =~= self.events@);
        Invoke { events }
    }
}

impl Invoke {
    /// Creates the command; each argument names an event to fire.
    pub fn new(args: Vec<String>) -> (res: Result<Self>)
        ensures
            res matches Ok(inv) && views(inv.events@) == views(args@),
    {
        let mut events: Vec<StringId> = Vec::new();
        let mut i: usize = 0;
        while i < args.len()
            invariant
                i <= args.len(),
                events@.len() == i,
                forall|j: int| 0 <= j < i ==> events@[j]@ == args@[j]@,
            decreases args.len() - i,
        {
            events.push(string::new_truncate(args[i].as_str()));
            i = i + 1;
        }
        assert(views(events@) =~= views(args@));
        Ok(Invoke { events })
    }
}

} // verus!
