//! Addresses of simulation data.

use vstd::prelude::*;

use crate::map::Key;
use crate::var::VarType;
use crate::{CompName, EntityName, VarName};

verus! {

/// Globally unique address of a single variable.
#[derive(Debug)]
pub struct Address {
    pub entity: EntityName,
    pub component: CompName,
    pub var_type: VarType,
    pub var_name: VarName,
}

/// Mathematical value of an address.
pub struct AddressView {
    pub entity: Seq<char>,
    pub component: Seq<char>,
    pub var_type: VarType,
    pub var_name: Seq<char>,
}

impl View for Address {
    type V = AddressView;

    open spec fn view(&self) -> AddressView {
        AddressView {
            entity: self.entity@,
            component: self.component@,
            var_type: self.var_type,
            var_name: self.var_name@,
        }
    }
}

impl Clone for Address {
    fn clone(&self) -> (res: Self)
        ensures
            res == *self,
    {
        Address {
            entity: self.entity.clone(),
            component: self.component.clone(),
            var_type: self.var_type,
            var_name: self.var_name.clone(),
        }
    }
}

impl Key for Address {
    fn key_eq(&self, other: &Self) -> (res: bool) {
        self.entity == other.entity && self.component == other.component && self.var_type
            == other.var_type && self.var_name == other.var_name
    }

    fn key_clone(&self) -> (res: Self) {
        self.clone()
    }
}

impl Address {
    /// Index of the addressed variable within its entity's storage.
    pub fn storage_index(&self) -> (res: (CompName, VarName))
        ensures
            res.0 == self.component,
            res.1 == self.var_name,
    {
        (self.component.clone(), self.var_name.clone())
    }
}

} // verus!
