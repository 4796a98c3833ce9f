//! Variable values and their types.

use vstd::prelude::*;

verus! {

/// Type of a variable.
#[derive(Debug, Clone, Copy, PartialEq, Eq, Structural)]
pub enum VarType {
    String,
    Int,
    Float,
    Bool,
    Byte,
}

/// Value of a variable.
#[derive(Debug)]
pub enum Var {
    String(String),
    Int(i64),
    Bool(bool),
    Byte(u8),
}

impl Clone for Var {
    fn clone(&self) -> (res: Self)
        ensures
            res == *self,
    {
        match self {
            Var::String(s) => Var::String(s.clone()),
            Var::Int(i) => Var::Int(*i),
            Var::Bool(b) => Var::Bool(*b),
            Var::Byte(b) => Var::Byte(*b),
        }
    }
}

/// Type of a value.
pub open spec fn var_type_of(v: Var) -> VarType {
    match v {
        Var::String(_) => VarType::String,
        Var::Int(_) => VarType::Int,
        Var::Bool(_) => VarType::Bool,
        Var::Byte(_) => VarType::Byte,
    }
}

impl Var {
    /// Type of the value.
    pub fn get_type(&self) -> (res: VarType)
        ensures
            res == var_type_of(*self),
    {
        match self {
            Var::String(_) => VarType::String,
            Var::Int(_) => VarType::Int,
            Var::Bool(_) => VarType::Bool,
            Var::Byte(_) => VarType::Byte,
        }
    }
}

} // verus!
