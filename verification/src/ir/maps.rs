//! Insertion-ordered maps of the intermediate representation.
//!
//! The maps are `indexmap::IndexMap`s. Verus cannot look inside one, so each
//! kind of map gets a name for what it holds, and the two operations the
//! generator uses get a contract over that name.

use vstd::prelude::*;
use indexmap::IndexMap;
use crate::ir::model::{IRBoundFunction, IRBoundFunctionView, IRExpression, IRExpressionView, IRValue, IRValueView};

verus! {

/// `indexmap::IndexMap`, declared so that it can stand in fields and
/// signatures. Nothing is known of what is inside one but through the names
/// below.
#[verifier::external_type_specification]
#[verifier::external_body]
#[verifier::reject_recursive_types(K)]
#[verifier::reject_recursive_types(V)]
#[verifier::reject_recursive_types(S)]
pub struct ExIndexMap<K, V, S>(IndexMap<K, V, S>);

/// The entries of a map from names to expressions, in iteration order.
pub uninterp spec fn expression_entries(m: IndexMap<String, IRExpression>) -> Seq<(Seq<char>, IRExpressionView)>;

/// The entries of a map from names to values, in iteration order.
pub uninterp spec fn value_entries(m: IndexMap<String, IRValue>) -> Seq<(Seq<char>, IRValueView)>;

/// The entries of a map from component names to field values, in
/// iteration order.
pub uninterp spec fn component_entries(m: IndexMap<String, IndexMap<String, IRValue>>) -> Seq<(Seq<char>, Seq<(Seq<char>, IRValueView)>)>;

/// The entries of a map from names to choice functions, in iteration order.
pub uninterp spec fn bound_function_entries(m: IndexMap<String, IRBoundFunction>) -> Seq<(Seq<char>, IRBoundFunctionView)>;

/// The index of the first entry with this key, or the number of entries.
pub open spec fn position_of<V>(entries: Seq<(Seq<char>, V)>, key: Seq<char>) -> int
    decreases entries.len(),
{
    if entries.len() == 0 {
        0
    } else if entries[0].0 == key {
        0
    } else {
        1 + position_of(entries.drop_first(), key)
    }
}

/// What `insert` does to the entries: a key that is present keeps its
/// place and gets the new value; a new key goes last.
pub open spec fn entries_insert<V>(entries: Seq<(Seq<char>, V)>, key: Seq<char>, value: V) -> Seq<(Seq<char>, V)> {
    let i = position_of(entries, key);
    if i < entries.len() {
        entries.update(i, (key, value))
    } else {
        entries.push((key, value))
    }
}

/// `IndexMap::new`: a map without entries.
#[verifier::external_body]
pub(crate) fn expression_map_new() -> (m: IndexMap<String, IRExpression>)
    ensures
        expression_entries(m) == Seq::<(Seq<char>, IRExpressionView)>::empty(),
{
    IndexMap::new()
}

/// `IndexMap::insert`: the value of a present key is replaced where it
/// stands, a new key is appended.
#[verifier::external_body]
pub(crate) fn expression_map_insert(m: &mut IndexMap<String, IRExpression>, key: String, value: IRExpression)
    ensures
        expression_entries(*final(m)) == entries_insert(expression_entries(*old(m)), key@, value@),
{
    m.insert(key, value);
}

/// `IndexMap::new`: a map without entries.
#[verifier::external_body]
pub(crate) fn value_map_new() -> (m: IndexMap<String, IRValue>)
    ensures
        value_entries(m) == Seq::<(Seq<char>, IRValueView)>::empty(),
{
    IndexMap::new()
}

/// `IndexMap::insert`: the value of a present key is replaced where it
/// stands, a new key is appended.
#[verifier::external_body]
pub(crate) fn value_map_insert(m: &mut IndexMap<String, IRValue>, key: String, value: IRValue)
    ensures
        value_entries(*final(m)) == entries_insert(value_entries(*old(m)), key@, value@),
{
    m.insert(key, value);
}

/// `IndexMap::new`: a map without entries.
#[verifier::external_body]
pub(crate) fn component_map_new() -> (m: IndexMap<String, IndexMap<String, IRValue>>)
    ensures
        component_entries(m) == Seq::<(Seq<char>, Seq<(Seq<char>, IRValueView)>)>::empty(),
{
    IndexMap::new()
}

/// `IndexMap::insert`: the value of a present key is replaced where it
/// stands, a new key is appended.
#[verifier::external_body]
pub(crate) fn component_map_insert(
    m: &mut IndexMap<String, IndexMap<String, IRValue>>,
    key: String,
    value: IndexMap<String, IRValue>,
)
    ensures
        component_entries(*final(m)) == entries_insert(component_entries(*old(m)), key@, value_entries(value)),
{
    m.insert(key, value);
}

/// `IndexMap::new`: a map without entries.
#[verifier::external_body]
pub(crate) fn bound_function_map_new() -> (m: IndexMap<String, IRBoundFunction>)
    ensures
        bound_function_entries(m) == Seq::<(Seq<char>, IRBoundFunctionView)>::empty(),
{
    IndexMap::new()
}

/// `IndexMap::insert`: the value of a present key is replaced where it
/// stands, a new key is appended.
#[verifier::external_body]
pub(crate) fn bound_function_map_insert(m: &mut IndexMap<String, IRBoundFunction>, key: String, value: IRBoundFunction)
    ensures
        bound_function_entries(*final(m)) == entries_insert(bound_function_entries(*old(m)), key@, value@),
{
    m.insert(key, value);
}

} // verus!
