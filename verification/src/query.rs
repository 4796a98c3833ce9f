//! Data query system.

use vstd::prelude::*;

use crate::address::{Address, AddressView};
use crate::error::{Error, Result};
use crate::map::{lemma_map_of_keys, map_of, VecMap};
use crate::text::string_of;
use crate::time::Duration;
use crate::var::{Var, VarType};
use crate::{string, CompName, EntityId, EntityName, EventName, StringId, VarName};

verus! {

/// Collection of items defining a complex simulation data query.
#[derive(Clone, Debug)]
pub struct Query {
    pub trigger: Trigger,
    pub description: Description,
    pub layout: Layout,
    pub filters: Vec<Filter>,
    pub mappings: Vec<Mapping>,
    pub scope: Scope,
}

impl Query {
    /// The query with its description replaced.
    pub fn description(self, description: Description) -> (res: Self)
        ensures
            res.description == description,
            res.trigger == self.trigger,
            res.layout == self.layout,
            res.filters@ == self.filters@,
            res.mappings@ == self.mappings@,
            res.scope == self.scope,
    {
        let mut q = self;
        q.description = description;
        q
    }

    /// The query with one more filter, applied after the others.
    pub fn filter(self, filter: Filter) -> (res: Self)
        ensures
            res.filters@ == self.filters@.push(filter),
            res.trigger == self.trigger,
            res.description == self.description,
            res.layout == self.layout,
            res.mappings@ == self.mappings@,
            res.scope == self.scope,
    {
        let mut q = self;
        q.filters.push(filter);
        q
    }

    /// The query with one more mapping, applied after the others.
    pub fn map(self, map: Mapping) -> (res: Self)
        ensures
            res.mappings@ == self.mappings@.push(map),
            res.trigger == self.trigger,
            res.description == self.description,
            res.layout == self.layout,
            res.filters@ == self.filters@,
            res.scope == self.scope,
    {
        let mut q = self;
        q.mappings.push(map);
        q
    }
}

impl Default for Query {
    /// Immediate query of all the data of all entities: no filters, one
    /// mapping that selects everything.
    fn default() -> (res: Self)
        ensures
            res.trigger is Immediate,
            res.description is Undescribed,
            res.layout is Var,
            res.filters@.len() == 0,
            res.mappings@ == seq![Mapping::All],
            res.scope is Global,
    {
        Query {
            trigger: Trigger::Immediate,
            description: Description::Undescribed,
            layout: Layout::Var,
            filters: Vec::new(),
            mappings: vec![Mapping::All],
            scope: Scope::Global,
        }
    }
}

/// Uniform query product type.
#[derive(Debug)]
pub enum QueryProduct {
    NativeAddressedVar(VecMap<(EntityId, CompName, VarName), Var>),
    AddressedVar(VecMap<Address, Var>),
    AddressedTyped(AddressedTypedMap),
    OrderedVar(u32, Vec<Var>),
    Var(Vec<Var>),
    Empty,
}

/// Whether `other` can be merged into `p`: an empty product takes any
/// other product, a list of values takes another list of values.
pub open spec fn mergeable(p: QueryProduct, other: QueryProduct) -> bool {
    ||| p is Empty
    ||| (p is Var && other is Var)
}

impl QueryProduct {
    /// Merges another product into this one: an empty product becomes the
    /// other product, a list of values is extended with the other's values.
    pub fn merge(&mut self, other: QueryProduct) -> (res: Result<()>)
        requires
            mergeable(*old(self), other),
        ensures
            res is Ok,
            *old(self) is Empty ==> *final(self) == other,
            *old(self) is Var ==> (*final(self) matches QueryProduct::Var(v) && other matches QueryProduct::Var(o)
                && v@ == old(self)->Var_0@ + o@),
    {
        match self {
            QueryProduct::Var(vec) => match other {
                QueryProduct::Var(mut o) => {
                    vec.append(&mut o);
                },
                _ => {},
            },
            QueryProduct::Empty => {
                *self = other;
            },
            _ => {},
        }
        Ok(())
    }

    /// The values of a list-of-values product.
    pub fn to_vec(self) -> (res: Vec<Var>)
        requires
            self is Var,
        ensures
            self matches QueryProduct::Var(v) && res@ == v@,
    {
        match self {
            QueryProduct::Var(vec) => vec,
            _ => Vec::new(),
        }
    }

    /// The map of an addressed product; a list of values lacks the
    /// addresses to make one.
    pub fn to_map(self) -> (res: Result<VecMap<Address, Var>>)
        requires
            self is AddressedVar || self is Var,
        ensures
            self matches QueryProduct::AddressedVar(m) ==> (res matches Ok(r) && r@ == m@),
            self is Var ==> (res matches Err(Error::FailedConversion(msg))
                && msg@ == "can't make query product into a map, lacking address information"@),
    {
        match self {
            QueryProduct::AddressedVar(map) => Ok(map),
            _ => Err(
                Error::FailedConversion(
                    string_of("can't make query product into a map, lacking address information"),
                ),
            ),
        }
    }
}

/// Defines possible trigger conditions for a query.
#[derive(Clone, Debug)]
pub enum Trigger {
    /// Immediate, one-time data transfer
    Immediate,
    /// Trigger each time specific event(s) is fired
    SubscribeEvent(EventName),
    /// Trigger each time certain data point is mutated
    SubscribeMutation(Address),
}

impl Default for Trigger {
    fn default() -> (res: Self)
        ensures
            res is Immediate,
    {
        Trigger::Immediate
    }
}

/// Defines the entity filtering mechanisms when processing a query.
#[derive(Clone, Debug)]
pub enum Filter {
    /// Select entities that have all the specified components
    AllComponents(Vec<CompName>),
    /// Select entities that have one or more of specified components
    SomeComponents(Vec<CompName>),
    /// Select entities that have the specified component
    Component(CompName),
    /// Select entities that match any of the provided names
    Name(Vec<EntityName>),
    /// Filter by entity id
    Id(Vec<EntityId>),
    /// Filter by some variable, given by its local address, being in
    /// specified range
    VarRange(String, Var, Var),
    /// Filter by some variable being in specified range
    AttrRange(StringId, Var, Var),
    /// Select entities based on where they are currently stored
    Node(NodeFilter),
}

/// Selects entities by the node they are stored on.
#[derive(Clone, Debug, Copy)]
pub enum NodeFilter {
    Local(Option<u32>),
    Remote(Option<u32>),
}

/// Defines the ways to map entity data, allowing for a fine-grained control
/// over the resulting query product.
#[derive(Clone, Debug)]
pub enum Mapping {
    /// Map all the data stored on selected entities
    All,
    /// Select data based on address string matching
    SelectAddr(Vec<GlobAddress>),
    /// Select data bound to selected components
    Components(Vec<CompName>),
    Var(VarType, VarName),
    VarName(VarName),
    VarType(VarType),
}

impl Mapping {
    /// Mapping that selects the data of the named components.
    pub fn components(components: Vec<&str>) -> (res: Self)
        ensures
            res matches Mapping::Components(c) && c@.len() == components@.len()
                && forall|i: int| 0 <= i < c@.len() ==> #[trigger] c@[i]@ == components@[i]@,
    {
        let mut c: Vec<StringId> = Vec::new();
        let mut i: usize = 0;
        while i < components.len()
            invariant
                i <= components@.len(),
                c@.len() == i,
                forall|j: int| 0 <= j < i ==> #[trigger] c@[j]@ == components@[j]@,
            decreases components@.len() - i,
        {
            c.push(string::new_truncate(components[i]));
            i = i + 1;
        }
        Mapping::Components(c)
    }
}

/// Defines different ways of structuring the query product in terms of
/// associating data points with their addresses.
#[derive(Copy, Clone, Debug, PartialEq, Eq, Structural)]
pub enum Description {
    /// Describe values with an address tuple
    NativeDescribed,
    /// Describe values with an address structure
    Addressed,
    /// Describe values with with an entity name
    Entity,
    /// Describe values with with a component name
    Component,
    /// Describe values with a variable name
    Var,
    /// Describe values with a (component, var) tuple
    ComponentVar,
    /// Values ordered based on an order table
    Ordered,
    /// Values without description
    Undescribed,
}

impl Default for Description {
    fn default() -> (res: Self)
        ensures
            res is Undescribed,
    {
        Description::Undescribed
    }
}

/// Defines possible layout versions for the returned data.
#[derive(Copy, Clone, Debug, PartialEq, Eq, Structural)]
pub enum Layout {
    /// Use the internal value representation type built on Rust's enum
    Var,
    /// Coerce all values to strings
    String,
    /// Use a separate map/list for each variable type
    Typed,
}

impl Default for Layout {
    fn default() -> (res: Self)
        ensures
            res is Var,
    {
        Layout::Var
    }
}

/// Defines how widely should the search be spread across the cluster.
#[derive(Copy, Clone, Debug, PartialEq, Eq)]
pub enum Scope {
    /// Broadcast the query across the whole cluster
    Global,
    /// Restrict the query to the worker that originally received the query
    Local,
    /// Number of times the query can be "broadcasted" to all visible workers
    Broadcasts(u8),
    /// Number of times the query will be passed on to another worker.
    Edges(u8),
    /// Number of workers to receive the query
    Workers(u8),
    /// Maximum roundtrip time allowed when considering broadcasting query to
    /// remote workers.
    Time(Duration),
}

impl Default for Scope {
    fn default() -> (res: Self)
        ensures
            res is Global,
    {
        Scope::Global
    }
}

/// Address pattern, each part of which may hold wildcards.
#[derive(Clone, Debug)]
pub struct GlobAddress {
    pub entity: String,
    pub component: String,
    pub var_type: String,
    pub var_id: String,
}

/// Values kept in a separate map for each variable type.
#[derive(Debug)]
pub struct AddressedTypedMap {
    pub strings: VecMap<Address, String>,
    pub ints: VecMap<Address, i64>,
    pub bools: VecMap<Address, bool>,
}

/// The addressed values gathered from `products`, in order, into `acc`: a
/// value is taken only for an address that holds none yet.
pub open spec fn absorb_all(acc: Map<AddressView, Var>, products: Seq<QueryProduct>) -> Map<AddressView, Var>
    decreases products.len(),
{
    if products.len() == 0 {
        acc
    } else {
        let next = match products[0] {
            QueryProduct::AddressedVar(m) => m@.union_prefer_right(acc),
            _ => acc,
        };
        absorb_all(next, products.drop_first())
    }
}

/// Inserts the entries of `other` whose addresses `map` does not hold.
fn absorb(map: &mut VecMap<Address, Var>, other: &VecMap<Address, Var>)
    ensures
        final(map)@ == other@.union_prefer_right(old(map)@),
{
    let ghost acc0 = map@;
    let ghost es = other.entries();
    let n = other.len();
    let mut j: usize = 0;
    while j < n
        invariant
            n == es.len(),
            es == other.entries(),
            j <= n,
            forall|k: AddressView| #[trigger] map@.contains_key(k) <==> (acc0.contains_key(k) || exists|i: int|
                0 <= i < j && es[i].0@ == k),
            forall|k: AddressView| acc0.contains_key(k) ==> #[trigger] map@[k] == acc0[k],
            forall|k: AddressView|
                !acc0.contains_key(k) && #[trigger] map@.contains_key(k) ==> other@.contains_key(k) && map@[k]
                    == other@[k],
        decreases n - j,
    {
        let e = other.entry(j);
        if !map.contains_key(&e.0) {
            map.insert(e.0.clone(), e.1.clone());
        }
        proof {
            assert forall|k: AddressView| #[trigger] map@.contains_key(k) <==> (acc0.contains_key(k) || exists|i: int|
                0 <= i < j + 1 && es[i].0@ == k) by {
                if k == es[j as int].0@ {
                    assert(es[j as int].0@ == k);
                }
                if exists|i: int| 0 <= i < j + 1 && es[i].0@ == k {
                    let i = choose|i: int| 0 <= i < j + 1 && es[i].0@ == k;
                    if i < j {
                        assert(exists|i: int| 0 <= i < j && es[i].0@ == k);
                    }
                }
            }
        }
        j = j + 1;
    }
    proof {
        lemma_map_of_keys(es);
        assert forall|k: AddressView| other@.contains_key(k) implies map@.contains_key(k) by {
            assert(map_of(es).contains_key(k));
            let i = choose|i: int| 0 <= i < es.len() && es[i].0@ == k;
        }
        assert(map@ =~= other@.union_prefer_right(acc0));
    }
}

/// Combines multiple products. The last product is the base; only when it
/// is an addressed product are the addressed values of the others added to
/// it, in order, each only for an address that holds no value yet.
pub fn combine_products(products: Vec<QueryProduct>) -> (res: QueryProduct)
    ensures
        products@.len() == 0 ==> res is Empty,
        products@.len() > 0 ==> match products@.last() {
            QueryProduct::AddressedVar(m) => res matches QueryProduct::AddressedVar(r) && r@ == absorb_all(
                m@,
                products@.drop_last(),
            ),
            last => res == last,
        },
{
    let mut products = products;
    let ghost all = products@;
    let mut final_product = match products.pop() {
        Some(p) => p,
        None => return QueryProduct::Empty,
    };
    let ghost rest = products@;
    assert(rest == all.drop_last());
    match &mut final_product {
        QueryProduct::AddressedVar(map) => {
            let ghost m0 = map@;
            let mut i: usize = 0;
            assert(rest.skip(0) =~= rest);
            while i < products.len()
                invariant
                    products@ == rest,
                    i <= rest.len(),
                    absorb_all(m0, rest) == absorb_all(map@, rest.skip(i as int)),
                decreases rest.len() - i,
            {
                assert(rest.skip(i as int).drop_first() =~= rest.skip(i + 1));
                match &products[i] {
                    QueryProduct::AddressedVar(other) => {
                        absorb(map, other);
                    },
                    _ => {},
                }
                i = i + 1;
            }
            assert(rest.skip(rest.len() as int) =~= Seq::<QueryProduct>::empty());
        },
        _ => {},
    }
    final_product
}

/// Whether the product is addressed and holds a value at `k`.
pub open spec fn holds_address(p: QueryProduct, k: AddressView) -> bool {
    p matches QueryProduct::AddressedVar(m) && m@.contains_key(k)
}

/// Combining keeps every address: the combination of addressed products
/// holds the addresses of all of them, and the base product's values.
pub proof fn lemma_absorb_all_keys(acc: Map<AddressView, Var>, products: Seq<QueryProduct>, k: AddressView)
    ensures
        acc.contains_key(k) ==> absorb_all(acc, products).contains_key(k) && absorb_all(acc, products)[k] == acc[k],
        (exists|i: int| 0 <= i < products.len() && holds_address(#[trigger] products[i], k)) ==> absorb_all(acc, products).contains_key(k),
        absorb_all(acc, products).contains_key(k) ==> acc.contains_key(k) || exists|i: int|
            0 <= i < products.len() && holds_address(#[trigger] products[i], k),
    decreases products.len(),
{
    if products.len() > 0 {
        let next = match products[0] {
            QueryProduct::AddressedVar(m) => m@.union_prefer_right(acc),
            _ => acc,
        };
        lemma_absorb_all_keys(next, products.drop_first(), k);
        if exists|i: int| 0 <= i < products.len() && holds_address(#[trigger] products[i], k) {
            let i = choose|i: int| 0 <= i < products.len() && holds_address(#[trigger] products[i], k);
            if i > 0 {
                assert(products.drop_first()[i - 1] == products[i]);
            }
        }
        if absorb_all(acc, products).contains_key(k) && !acc.contains_key(k) && !next.contains_key(k) {
            let i = choose|i: int| 0 <= i < products.len() - 1 && holds_address(#[trigger] products.drop_first()[i], k);
            assert(products[i + 1] == products.drop_first()[i]);
        }
    }
}

/// Whether the products can be merged, one after the other, into `acc`.
pub open spec fn all_mergeable(acc: QueryProduct, products: Seq<QueryProduct>) -> bool
    decreases products.len(),
{
    if products.len() == 0 {
        true
    } else {
        mergeable(acc, products[0]) && all_mergeable(if acc is Empty { products[0] } else { acc }, products.drop_first())
    }
}

/// The values of a list-of-values product; none for other products.
pub open spec fn values_of(p: QueryProduct) -> Seq<Var> {
    match p {
        QueryProduct::Var(v) => v@,
        _ => Seq::empty(),
    }
}

/// The values of the lists among the products, in order.
pub open spec fn all_values(products: Seq<QueryProduct>) -> Seq<Var>
    decreases products.len(),
{
    if products.len() == 0 {
        Seq::empty()
    } else {
        values_of(products[0]) + all_values(products.drop_first())
    }
}

/// Position of the first product that is not empty.
pub open spec fn first_nonempty(products: Seq<QueryProduct>) -> Option<int>
    decreases products.len(),
{
    if products.len() == 0 {
        None
    } else if !(products[0] is Empty) {
        Some(0)
    } else {
        match first_nonempty(products.drop_first()) {
            Some(k) => Some(k + 1),
            None => None,
        }
    }
}

/// What merging the products, in order, into `acc` gives: `acc` when it is
/// a product other than a list, the first product that is not empty when
/// `acc` is empty, and, where that is a list, a list with the values of all
/// the lists.
pub open spec fn gathered(p: QueryProduct, acc: QueryProduct, products: Seq<QueryProduct>) -> bool {
    if acc is Empty {
        match first_nonempty(products) {
            None => p is Empty,
            Some(k) => if products[k] is Var {
                p is Var && values_of(p) == all_values(products)
            } else {
                p == products[k]
            },
        }
    } else if acc is Var {
        p is Var && values_of(p) == values_of(acc) + all_values(products)
    } else {
        p == acc
    }
}

proof fn lemma_gathered_step(acc: QueryProduct, next: QueryProduct, rest: Seq<QueryProduct>, after: QueryProduct, p: QueryProduct)
    requires
        mergeable(acc, next),
        acc is Empty ==> after == next,
        acc is Var ==> after is Var && values_of(after) == values_of(acc) + values_of(next),
        gathered(p, after, rest),
        all_mergeable(after, rest),
    ensures
        gathered(p, acc, seq![next] + rest),
{
    let all = seq![next] + rest;
    assert(all.drop_first() =~= rest);
    assert(all[0] == next);
    if acc is Empty {
        if next is Empty {
            assert(first_nonempty(all) == match first_nonempty(rest) { Some(k) => Some(k + 1), None => None::<int> });
            assert(all_values(all) =~= all_values(rest));
            lemma_first_nonempty(rest);
            match first_nonempty(rest) {
                Some(k) => {
                    assert(all[k + 1] == rest[k]);
                },
                None => {},
            }
        } else {
            assert(first_nonempty(all) == Some(0int));
            if next is Var {
                assert(all_values(all) == values_of(next) + all_values(rest));
            } else {
                lemma_rest_empty_for_fixed(after, rest);
            }
        }
    } else {
        assert(next is Var);
        assert(all_values(all) == values_of(next) + all_values(rest));
        assert(values_of(p) =~= values_of(acc) + all_values(all));
    }
}

proof fn lemma_first_nonempty(products: Seq<QueryProduct>)
    ensures
        first_nonempty(products) matches Some(k) ==> 0 <= k < products.len() && !(products[k] is Empty)
            && forall|j: int| 0 <= j < k ==> #[trigger] products[j] is Empty,
        first_nonempty(products) is None ==> forall|j: int| 0 <= j < products.len() ==> #[trigger] products[j] is Empty,
    decreases products.len(),
{
    if products.len() > 0 {
        lemma_first_nonempty(products.drop_first());
        if products[0] is Empty {
            match first_nonempty(products.drop_first()) {
                Some(k) => {
                    assert forall|j: int| 0 <= j < k + 1 implies #[trigger] products[j] is Empty by {
                        if j > 0 {
                            assert(products[j] == products.drop_first()[j - 1]);
                        }
                    }
                },
                None => {
                    assert forall|j: int| 0 <= j < products.len() implies #[trigger] products[j] is Empty by {
                        if j > 0 {
                            assert(products[j] == products.drop_first()[j - 1]);
                        }
                    }
                },
            }
        }
    }
}

proof fn lemma_all_mergeable_lists(a: QueryProduct, b: QueryProduct, products: Seq<QueryProduct>)
    requires
        a is Var,
        b is Var,
    ensures
        all_mergeable(a, products) == all_mergeable(b, products),
    decreases products.len(),
{
    if products.len() > 0 {
        lemma_all_mergeable_lists(a, b, products.drop_first());
    }
}

proof fn lemma_rest_empty_for_fixed(after: QueryProduct, rest: Seq<QueryProduct>)
    requires
        !(after is Empty),
        !(after is Var),
        all_mergeable(after, rest),
    ensures
        rest.len() == 0,
{
    if rest.len() > 0 {
        assert(!mergeable(after, rest[0]));
    }
}

/// Merges the products, in order, into an empty product, as a worker
/// gathers the answers of a query: the result is the first product that is
/// not empty, and where that is a list, a list of the values of all of them.
pub fn merge_products(products: Vec<QueryProduct>) -> (res: Result<QueryProduct>)
    requires
        all_mergeable(QueryProduct::Empty, products@),
    ensures
        res matches Ok(p) && gathered(p, QueryProduct::Empty, products@),
{
    let mut product = QueryProduct::Empty;
    let mut rest = products;
    let ghost all = rest@;
    let mut i: usize = 0;
    let n = rest.len();
    while rest.len() > 0
        invariant
            n == all.len(),
            i + rest@.len() == n,
            rest@ == all.skip(i as int),
            all_mergeable(product, rest@),
            forall|p: QueryProduct| #[trigger] gathered(p, product, rest@) ==> gathered(p, QueryProduct::Empty, all),
        decreases rest@.len(),
    {
        let ghost before = product;
        let ghost tail = rest@;
        let next = rest.remove(0);
        assert(tail =~= seq![next] + rest@);
        assert(rest@ =~= all.skip(i + 1));
        let _ = product.merge(next);
        proof {
            if before is Var {
                lemma_all_mergeable_lists(before, product, rest@);
            }
        }
        assert forall|p: QueryProduct| #[trigger] gathered(p, product, rest@) implies gathered(p, QueryProduct::Empty, all) by {
            lemma_gathered_step(before, next, rest@, product, p);
        }
        i = i + 1;
    }
    proof {
        if product is Empty {
            assert(first_nonempty(rest@) is None);
        } else if product is Var {
            assert(all_values(rest@) =~= Seq::<Var>::empty());
            assert(values_of(product) =~= values_of(product) + all_values(rest@));
        }
        assert(gathered(product, product, rest@));
    }
    Ok(product)
}

} // verus!
