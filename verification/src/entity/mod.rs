//! Entities and their data storage.

pub mod storage;

pub use storage::{Storage, StorageIndex};

use vstd::prelude::*;

use crate::error::{Error, Result};
use crate::model::{self, Model, PrefabModel};
use crate::var::{Var, VarType};
use crate::StringId;

verus! {

/// Simulation entity: the data stored for it.
#[derive(Debug, Clone)]
pub struct Entity {
    pub storage: Storage,
}

/// Storage key of a variable: component name and variable name.
pub type KeyView = (Seq<char>, Seq<char>);

/// Whether a variable of a component model is given a value when an entity
/// is built: it has a default, or its type has a zero value that the
/// library holds (floating-point variables are not held).
pub open spec fn has_initial(v: model::Var) -> bool {
    v.default is Some || v.type_ != VarType::Float
}

/// Whether `x` is the value a new entity stores for the variable model `v`:
/// its default, or else the zero value of its type.
pub open spec fn initial_value_ok(v: model::Var, x: Var) -> bool {
    match v.default {
        Some(d) => x == d,
        None => match v.type_ {
            VarType::String => x matches Var::String(s) && s@.len() == 0,
            VarType::Int => x == Var::Int(0),
            VarType::Bool => x == Var::Bool(false),
            VarType::Byte => x == Var::Byte(0),
            VarType::Float => false,
        },
    }
}

/// Variable models stored per key after adding the variables of component
/// `comp` to `acc`, in order, later ones replacing earlier ones.
pub open spec fn vars_plan(comp: Seq<char>, vars: Seq<model::Var>, acc: Map<KeyView, model::Var>) -> Map<KeyView, model::Var>
    decreases vars.len(),
{
    if vars.len() == 0 {
        acc
    } else {
        let prev = vars_plan(comp, vars.drop_last(), acc);
        let v = vars.last();
        if has_initial(v) {
            prev.insert((comp, v.name@), v)
        } else {
            prev
        }
    }
}

/// Whether position `i` holds the first component model named `name`.
pub open spec fn first_component_at(comps: Seq<model::Component>, name: Seq<char>, i: int) -> bool {
    &&& 0 <= i < comps.len()
    &&& comps[i].name@ == name
    &&& forall|j: int| 0 <= j < i ==> #[trigger] comps[j].name@ != name
}

/// The first component model of the model named `name`, if any.
pub open spec fn component_named(m: Model, name: Seq<char>) -> Option<model::Component> {
    if exists|i: int| first_component_at(m.components@, name, i) {
        Some(m.components@[choose|i: int| first_component_at(m.components@, name, i)])
    } else {
        None
    }
}

/// Whether position `i` holds the first prefab named `name`.
pub open spec fn first_prefab_at(prefabs: Seq<PrefabModel>, name: Seq<char>, i: int) -> bool {
    &&& 0 <= i < prefabs.len()
    &&& prefabs[i].name@ == name
    &&& forall|j: int| 0 <= j < i ==> #[trigger] prefabs[j].name@ != name
}

/// The first prefab of the model named `name`, if any.
pub open spec fn prefab_named(m: Model, name: Seq<char>) -> Option<PrefabModel> {
    if exists|i: int| first_prefab_at(m.prefabs@, name, i) {
        Some(m.prefabs@[choose|i: int| first_prefab_at(m.prefabs@, name, i)])
    } else {
        None
    }
}

/// Variable models stored per key by an entity made of the named
/// components, taken in order.
pub open spec fn entity_plan(m: Model, comps: Seq<String>) -> Map<KeyView, model::Var>
    decreases comps.len(),
{
    if comps.len() == 0 {
        Map::empty()
    } else {
        let prev = entity_plan(m, comps.drop_last());
        match component_named(m, comps.last()@) {
            Some(c) => vars_plan(comps.last()@, c.vars@, prev),
            None => prev,
        }
    }
}

/// Whether the model has a component model for each of the names.
pub open spec fn components_known(m: Model, comps: Seq<String>) -> bool {
    forall|i: int| 0 <= i < comps.len() ==> #[trigger] component_named(m, comps[i]@) is Some
}

/// Whether the storage holds exactly the planned keys, each with the value
/// its variable model gives.
pub open spec fn storage_matches(st: Map<KeyView, Var>, plan: Map<KeyView, model::Var>) -> bool {
    &&& st.dom() == plan.dom()
    &&& forall|k: KeyView| #[trigger] plan.contains_key(k) ==> initial_value_ok(plan[k], st[k])
}

/// Whether `err` names the first of the components without a model.
pub open spec fn unknown_component_error(m: Model, comps: Seq<String>, err: Error) -> bool {
    exists|i: int|
        0 <= i < comps.len() && #[trigger] component_named(m, comps[i]@) is None
            && (forall|j: int| 0 <= j < i ==> #[trigger] component_named(m, comps[j]@) is Some)
            && (err matches Error::NoComponentModel(n) && n@ == comps[i]@)
}

/// Whether an entity can be built from the prefab named `prefab`: the
/// prefab exists and each of its components has a model.
pub open spec fn prefab_buildable(m: Model, prefab: Seq<char>) -> bool {
    prefab_named(m, prefab) matches Some(p) && components_known(m, p.components@)
}

/// Whether `e` is an entity built from the prefab named `prefab`.
pub open spec fn built_from_prefab(m: Model, prefab: Seq<char>, e: Entity) -> bool {
    prefab_named(m, prefab) matches Some(p) && storage_matches(e.storage.map@, entity_plan(m, p.components@))
}

/// Whether `err` is the error of building an entity from the prefab named
/// `prefab`: the prefab is missing, or the first component without a model.
pub open spec fn prefab_error(m: Model, prefab: Seq<char>, err: Error) -> bool {
    match prefab_named(m, prefab) {
        None => err matches Error::NoEntityPrefab(n) && n@ == prefab,
        Some(p) => unknown_component_error(m, p.components@, err),
    }
}

/// The value a new entity stores for the variable model `v`, if any.
pub fn initial_var(v: &model::Var) -> (res: Option<Var>)
    ensures
        match res {
            Some(x) => has_initial(*v) && initial_value_ok(*v, x),
            None => !has_initial(*v),
        },
{
    match &v.default {
        Some(d) => Some(d.clone()),
        None => match v.type_ {
            VarType::String => Some(Var::String(String::new())),
            VarType::Int => Some(Var::Int(0)),
            VarType::Bool => Some(Var::Bool(false)),
            VarType::Byte => Some(Var::Byte(0)),
            VarType::Float => None,
        },
    }
}

proof fn lemma_storage_insert(st: Map<KeyView, Var>, plan: Map<KeyView, model::Var>, k: KeyView, v: model::Var, x: Var)
    requires
        storage_matches(st, plan),
        initial_value_ok(v, x),
    ensures
        storage_matches(st.insert(k, x), plan.insert(k, v)),
{
    assert(st.insert(k, x).dom() =~= plan.insert(k, v).dom());
}

impl Entity {
    /// Entity storing no variables.
    pub fn empty() -> (res: Entity)
        ensures
            res.storage.map@ == Map::<KeyView, Var>::empty(),
    {
        Entity { storage: Storage::new() }
    }

    /// Builds an entity from the prefab: for each of its components, in
    /// order, the component model's variables with their initial values.
    /// Fails on the first component that has no model.
    pub fn from_prefab(prefab: &PrefabModel, model: &Model) -> (res: Result<Entity>)
        ensures
            match res {
                Ok(e) => components_known(*model, prefab.components@)
                    && storage_matches(e.storage.map@, entity_plan(*model, prefab.components@)),
                Err(err) => !components_known(*model, prefab.components@)
                    && unknown_component_error(*model, prefab.components@, err),
            },
    {
        let comps = &prefab.components;
        let mut ent = Entity::empty();
        let mut i: usize = 0;
        while i < comps.len()
            invariant
                i <= comps@.len(),
                comps@ == prefab.components@,
                forall|j: int| 0 <= j < i ==> #[trigger] component_named(*model, comps@[j]@) is Some,
                storage_matches(ent.storage.map@, entity_plan(*model, comps@.take(i as int))),
            decreases comps@.len() - i,
        {
            let name = &comps[i];
            match model.get_component(name) {
                Err(e) => {
                    proof {
                        assert(!(exists|k: int| first_component_at(model.components@, name@, k)));
                        assert(component_named(*model, comps@[i as int]@) is None);
                    }
                    return Err(e);
                },
                Ok(c) => {
                    let ghost acc = entity_plan(*model, comps@.take(i as int));
                    proof {
                        let k0 = choose|k: int| 0 <= k < model.components@.len() && model.components@[k] == *c
                            && c.name@ == name@ && forall|j: int| 0 <= j < k ==> #[trigger] model.components@[j].name@ != name@;
                        assert(first_component_at(model.components@, name@, k0));
                        let k1 = choose|k: int| first_component_at(model.components@, name@, k);
                        if k1 < k0 {
                            assert(model.components@[k1].name@ == name@);
                        }
                        if k0 < k1 {
                            assert(model.components@[k0].name@ == name@);
                        }
                        assert(component_named(*model, name@) == Some(*c));
                        let t = comps@.take(i + 1);
                        assert(t.drop_last() =~= comps@.take(i as int));
                        assert(t.last() == comps@[i as int]);
                    }
                    let mut k: usize = 0;
                    while k < c.vars.len()
                        invariant
                            k <= c.vars@.len(),
                            storage_matches(ent.storage.map@, vars_plan(name@, c.vars@.take(k as int), acc)),
                        decreases c.vars@.len() - k,
                    {
                        let v = &c.vars[k];
                        proof {
                            let t = c.vars@.take(k + 1);
                            assert(t.drop_last() =~= c.vars@.take(k as int));
                            assert(t.last() == c.vars@[k as int]);
                        }
                        match initial_var(v) {
                            Some(x) => {
                                proof {
                                    lemma_storage_insert(
                                        ent.storage.map@,
                                        vars_plan(name@, c.vars@.take(k as int), acc),
                                        (name@, v.name@),
                                        *v,
                                        x,
                                    );
                                }
                                ent.storage.insert((name.clone(), v.name.clone()), x);
                            },
                            None => {},
                        }
                        k = k + 1;
                    }
                    assert(c.vars@.take(c.vars@.len() as int) =~= c.vars@);
                },
            }
            i = i + 1;
        }
        assert(comps@.take(comps@.len() as int) =~= comps@);
        Ok(ent)
    }

    /// Builds an entity from the first prefab of the model named `prefab`.
    pub fn from_prefab_name(prefab: &StringId, model: &Model) -> (res: Result<Entity>)
        ensures
            match res {
                Ok(e) => prefab_buildable(*model, prefab@) && built_from_prefab(*model, prefab@, e),
                Err(err) => !prefab_buildable(*model, prefab@) && prefab_error(*model, prefab@, err),
            },
    {
        match model.get_prefab(prefab) {
            None => {
                assert(!(exists|k: int| first_prefab_at(model.prefabs@, prefab@, k)));
                Err(Error::NoEntityPrefab(prefab.clone()))
            },
            Some(p) => {
                proof {
                    let k0 = choose|k: int| 0 <= k < model.prefabs@.len() && model.prefabs@[k] == *p
                        && p.name@ == prefab@ && forall|j: int| 0 <= j < k ==> #[trigger] model.prefabs@[j].name@ != prefab@;
                    assert(first_prefab_at(model.prefabs@, prefab@, k0));
                    let k1 = choose|k: int| first_prefab_at(model.prefabs@, prefab@, k);
                    if k1 < k0 {
                        assert(model.prefabs@[k1].name@ == prefab@);
                    }
                    if k0 < k1 {
                        assert(model.prefabs@[k0].name@ == prefab@);
                    }
                    assert(prefab_named(*model, prefab@) == Some(*p));
                }
                Entity::from_prefab(p, model)
            },
        }
    }
}

} // verus!
