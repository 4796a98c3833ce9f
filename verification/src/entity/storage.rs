//! Entity's main data storage structure.

use vstd::prelude::*;

use crate::address::Address;
use crate::error::{Error, Result};
use crate::map::VecMap;
use crate::model;
use crate::var::Var;
use crate::{CompName, VarName};

verus! {

/// Index of a variable within an entity's storage: its component and name.
pub type StorageIndex = (CompName, VarName);

/// Entity's main data storage structure.
#[derive(Debug, Clone)]
pub struct Storage {
    pub map: VecMap<StorageIndex, Var>,
}

impl Storage {
    /// Storage holding no variables.
    pub fn new() -> (res: Storage)
        ensures
            res.map@ == Map::<(Seq<char>, Seq<char>), Var>::empty(),
    {
        Storage { map: VecMap::new() }
    }

    /// The variable stored at `idx`.
    pub fn get_var(&self, idx: &StorageIndex) -> (res: Result<&Var>)
        ensures
            self.map@.contains_key(idx@) ==> (res matches Ok(v) && *v == self.map@[idx@]),
            !self.map@.contains_key(idx@) ==> (res matches Err(Error::FailedGettingVarFromEntityStorage(i))
                && i == *idx),
    {
        match self.map.get(idx) {
            Some(v) => Ok(v),
            None => Err(Error::FailedGettingVarFromEntityStorage((idx.0.clone(), idx.1.clone()))),
        }
    }

    /// Stores `var` at `idx`, replacing what was stored there.
    pub fn insert(&mut self, idx: (CompName, VarName), var: Var)
        ensures
            final(self).map@ == old(self).map@.insert(idx@, var),
    {
        self.map.insert(idx, var);
    }

    /// Overwrites the stored variable that `target` addresses with a copy of
    /// `var`; the variable must be stored already.
    pub fn set_from_var(&mut self, target: &Address, comp_uid: Option<&CompName>, var: &Var)
        requires
            old(self).map@.contains_key((target.component@, target.var_name@)),
        ensures
            final(self).map@ == old(self).map@.insert((target.component@, target.var_name@), *var),
    {
        let idx = (target.component.clone(), target.var_name.clone());
        self.map.insert(idx, var.clone());
    }

    /// Removes the variables that the component model declares, stored under
    /// the component's name.
    pub fn remove_comp_vars(&mut self, comp_name: &CompName, comp_model: &model::Component)
        ensures
            final(self).map@ == old(self).map@.remove_keys(comp_var_keys(comp_name@, comp_model.vars@)),
    {
        let ghost start = self.map@;
        let mut i: usize = 0;
        while i < comp_model.vars.len()
            invariant
                i <= comp_model.vars@.len(),
                self.map@ == start.remove_keys(comp_var_keys(comp_name@, comp_model.vars@.take(i as int))),
            decreases comp_model.vars@.len() - i,
        {
            let key = (comp_name.clone(), comp_model.vars[i].name.clone());
            let ghost before = self.map@;
            let _ = self.map.remove(&key);
            proof {
                let prev = comp_var_keys(comp_name@, comp_model.vars@.take(i as int));
                let next = comp_var_keys(comp_name@, comp_model.vars@.take(i + 1));
                let x = (comp_name@, comp_model.vars@[i as int].name@);
                let t0 = comp_model.vars@.take(i as int);
                let t1 = comp_model.vars@.take(i + 1);
                assert forall|k: (Seq<char>, Seq<char>)| next.contains(k) <==> prev.insert(x).contains(k) by {
                    if next.contains(k) {
                        let j = choose|j: int| 0 <= j < t1.len() && k == (comp_name@, #[trigger] t1[j].name@);
                        if j < i {
                            assert(t0[j] == t1[j]);
                            assert(prev.contains(k));
                        }
                    }
                    if prev.insert(x).contains(k) {
                        if k == x {
                            assert(t1[i as int] == comp_model.vars@[i as int]);
                            assert(next.contains(k));
                        } else {
                            let j = choose|j: int| 0 <= j < t0.len() && k == (comp_name@, #[trigger] t0[j].name@);
                            assert(t0[j] == t1[j]);
                            assert(next.contains(k));
                        }
                    }
                }
                assert(next =~= prev.insert(x));
                assert(self.map@ =~= start.remove_keys(next));
            }
            i = i + 1;
        }
        assert(comp_model.vars@.take(comp_model.vars@.len() as int) =~= comp_model.vars@);
    }
}

/// Storage keys of the variables of a component: the component's name with
/// each variable's name.
pub open spec fn comp_var_keys(comp_name: Seq<char>, vars: Seq<model::Var>) -> Set<(Seq<char>, Seq<char>)> {
    Set::new(|k: (Seq<char>, Seq<char>)| exists|j: int| 0 <= j < vars.len() && k == (comp_name, #[trigger] vars[j].name@))
}

/// A variable reads back as it was last stored: after storing `var` at
/// `idx`, reading `idx` gives `var`, and every other index reads as before.
pub proof fn lemma_insert_then_get(before: Map<(Seq<char>, Seq<char>), Var>, idx: (Seq<char>, Seq<char>), var: Var, other: (Seq<char>, Seq<char>))
    ensures
        before.insert(idx, var).contains_key(idx),
        before.insert(idx, var)[idx] == var,
        other != idx ==> (before.insert(idx, var).contains_key(other) == before.contains_key(other)),
        other != idx && before.contains_key(other) ==> before.insert(idx, var)[other] == before[other],
{
}

} // verus!
