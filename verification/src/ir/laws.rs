//! What holds of every generation.

use vstd::prelude::*;
use crate::analyzer::rules::resolve_type;
use crate::analyzer::typed::TypedItemView;
use crate::analyzer::types::TypeView;
use crate::ir::lowering::{ir_type, lower_items, Counters, Lowered};
use crate::parser::ast::TypeExprView;

verus! {

/// Optionality is erased: `T?` has the wire type of `T`.
pub proof fn lemma_optional_is_erased(t: TypeView)
    ensures
        ir_type(TypeView::Optional(Box::new(t))) == ir_type(t),
{
}

/// A field written `T?` and a field written `T` have the same wire type.
pub proof fn lemma_optional_field_type(t: TypeExprView)
    ensures
        ir_type(resolve_type(TypeExprView::Optional(Box::new(t)))) == ir_type(resolve_type(t)),
{
}

/// The three numeric types are one wire type.
pub proof fn lemma_numbers_are_one()
    ensures
        ir_type(TypeView::Integer) == ir_type(TypeView::Float),
        ir_type(TypeView::Float) == ir_type(TypeView::Decimal),
{
}

/// Whether the ids of lowered definitions count up from `start`, each kind
/// on its own, and the next ids follow on.
pub open spec fn ids_count_up(l: Lowered, start: Counters) -> bool {
    &&& forall|i: int| 0 <= i < l.components.len() ==> (#[trigger] l.components[i]).id == start.component + i
    &&& forall|i: int| 0 <= i < l.rules.len() ==> (#[trigger] l.rules[i]).id == start.rule + i
    &&& forall|i: int| 0 <= i < l.functions.len() ==> (#[trigger] l.functions[i]).id == start.function + i
    &&& forall|i: int| 0 <= i < l.trackers.len() ==> (#[trigger] l.trackers[i]).id == start.tracker + i
    &&& forall|i: int| 0 <= i < l.entities.len() ==> (#[trigger] l.entities[i]).id == start.entity + i
    &&& l.next.component == start.component + l.components.len()
    &&& l.next.rule == start.rule + l.rules.len()
    &&& l.next.function == start.function + l.functions.len()
    &&& l.next.tracker == start.tracker + l.trackers.len()
    &&& l.next.entity == start.entity + l.entities.len()
}

/// Ids are positions: the definitions of each kind carry the ids `start`,
/// `start + 1`, .. in source order, whatever stands between them. No id is
/// used twice, and none is skipped.
pub proof fn lemma_ids_are_positions(items: Seq<TypedItemView>, n: nat, start: Counters)
    requires
        n <= items.len(),
        lower_items(items, n, start) is Some,
    ensures
        ids_count_up(lower_items(items, n, start)->0, start),
    decreases n,
{
    if n > 0 {
        lemma_ids_are_positions(items, (n - 1) as nat, start);
    }
}

/// Whether every next id is at most `n`.
pub open spec fn ids_at_most(c: Counters, n: nat) -> bool {
    c.component <= n && c.rule <= n && c.function <= n && c.tracker <= n && c.entity <= n
}

/// Generation does not fail for want of ids while there are fewer items
/// than ids: a generator that starts within `room` of the first id lowers
/// any `n` items with `room + n` below the last id.
pub proof fn lemma_ids_suffice(items: Seq<TypedItemView>, n: nat, start: Counters, room: nat)
    requires
        n <= items.len(),
        ids_at_most(start, room),
        room + n <= u32::MAX,
    ensures
        lower_items(items, n, start) is Some,
        ids_at_most(lower_items(items, n, start)->0.next, room + n),
    decreases n,
{
    if n > 0 {
        lemma_ids_suffice(items, (n - 1) as nat, start, room);
    }
}

/// A fresh generator lowers every module of fewer than 2^32 - 1 items.
pub proof fn lemma_fresh_generator_succeeds(items: Seq<TypedItemView>)
    requires
        items.len() < u32::MAX,
    ensures
        lower_items(
            items,
            items.len(),
            Counters { component: 0, rule: 0, function: 0, tracker: 0, entity: 0 },
        ) is Some,
{
    lemma_ids_suffice(
        items,
        items.len(),
        Counters { component: 0, rule: 0, function: 0, tracker: 0, entity: 0 },
        0,
    );
}

} // verus!
