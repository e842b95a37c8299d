//! What holds of the registry whatever is asked of it, proved over the model
//! that the operations' contracts are stated in.

use crate::model::{defined, effect, holder_of, replay, step, undefined, Call, Request};
use soroban_sdk::{Address, Symbol};
use vstd::prelude::*;

verus! {

/// An item has no holder in a registry that holds nothing.
pub proof fn empty_registry_holds_nothing(item: Symbol)
    ensures
        holder_of(Map::empty(), item) is None,
{
}

/// Reading an item gives nothing exactly where the item has no record, and a
/// holder exactly where the record of the item names that holder.
pub proof fn holder_is_the_record(records: Map<Symbol, Address>, item: Symbol)
    ensures
        holder_of(records, item) is None <==> !records.contains_key(item),
        forall|h: Address| holder_of(records, item) == Some(h) <==> records.contains_pair(item, h),
{
}

/// After `holder` has been defined for `item`, the holder of `item` is
/// `holder`.
pub proof fn define_then_get(records: Map<Symbol, Address>, item: Symbol, holder: Address)
    ensures
        holder_of(defined(records, item, holder), item) == Some(holder),
{
}

/// Removing the definition of an item that has none changes nothing, and
/// removing twice is removing once.
pub proof fn undefine_is_idempotent(records: Map<Symbol, Address>, item: Symbol)
    ensures
        holder_of(records, item) is None ==> undefined(records, item) == records,
        undefined(undefined(records, item), item) == undefined(records, item),
{
    assert(undefined(undefined(records, item), item) =~= undefined(records, item));
    if holder_of(records, item) is None {
        assert(undefined(records, item) =~= records);
    }
}

/// A second definition of an item replaces the first: the registry is the one
/// that the first definition never reached.
pub proof fn define_overwrites(
    records: Map<Symbol, Address>,
    item: Symbol,
    first: Address,
    second: Address,
)
    ensures
        holder_of(defined(defined(records, item, first), item, second), item) == Some(second),
        defined(defined(records, item, first), item, second) == defined(records, item, second),
{
    assert(defined(defined(records, item, first), item, second) =~= defined(
        records,
        item,
        second,
    ));
}

/// Defining an item and then removing the definition leaves the item without
/// a holder, and the registry as if the item's definition had only been
/// removed.
pub proof fn define_then_undefine(records: Map<Symbol, Address>, item: Symbol, holder: Address)
    ensures
        holder_of(undefined(defined(records, item, holder), item), item) is None,
        undefined(defined(records, item, holder), item) == undefined(records, item),
{
    assert(undefined(defined(records, item, holder), item) =~= undefined(records, item));
}

/// A call that was not authorized leaves every record as it was.
pub proof fn unauthorized_call_changes_nothing(records: Map<Symbol, Address>, call: Call)
    requires
        !call.authorized,
    ensures
        step(records, call) == records,
{
}

/// A request about one item leaves the holder of every other item as it was.
pub proof fn requests_are_isolated(records: Map<Symbol, Address>, request: Request, other: Symbol)
    requires
        other != request.item(),
    ensures
        holder_of(effect(records, request), other) == holder_of(records, other),
{
}

/// An item that had no holder at the start and that no call has defined has
/// no holder at the end.
pub proof fn never_defined_is_absent(start: Map<Symbol, Address>, calls: Seq<Call>, item: Symbol)
    requires
        holder_of(start, item) is None,
        forall|i: int| 0 <= i < calls.len() ==> !(#[trigger] calls[i]).defines(item),
    ensures
        holder_of(replay(start, calls), item) is None,
    decreases calls.len(),
{
    if calls.len() > 0 {
        let earlier = calls.drop_last();
        assert forall|i: int| 0 <= i < earlier.len() implies !(#[trigger] earlier[i]).defines(
            item,
        ) by {
            assert(earlier[i] == calls[i]);
        }
        never_defined_is_absent(start, earlier, item);
        assert(!calls[calls.len() - 1].defines(item));
    }
}

/// On a registry that started with no record at all, an item that no call has
/// defined has no holder: reading it gives nothing.
pub proof fn never_defined_on_new_registry_is_absent(calls: Seq<Call>, item: Symbol)
    requires
        forall|i: int| 0 <= i < calls.len() ==> !(#[trigger] calls[i]).defines(item),
    ensures
        holder_of(replay(Map::empty(), calls), item) is None,
        !replay(Map::empty(), calls).contains_key(item),
{
    never_defined_is_absent(Map::empty(), calls, item);
}

/// The last write decides: if call `last` writes `item` and no later call
/// does, the holder of `item` at the end is the one that call defined, or
/// none if that call removed the definition.
pub proof fn last_write_wins(
    start: Map<Symbol, Address>,
    calls: Seq<Call>,
    item: Symbol,
    last: int,
)
    requires
        0 <= last < calls.len(),
        calls[last].writes(item),
        forall|i: int| last < i < calls.len() ==> !(#[trigger] calls[i]).writes(item),
    ensures
        holder_of(replay(start, calls), item) == match calls[last].request {
            Request::Define { holder, .. } => Some(holder),
            Request::Undefine { .. } => None::<Address>,
        },
    decreases calls.len(),
{
    let earlier = calls.drop_last();
    if last == calls.len() - 1 {
        assert(calls.last() == calls[last]);
    } else {
        assert(earlier[last] == calls[last]);
        assert forall|i: int| last < i < earlier.len() implies !(#[trigger] earlier[i]).writes(
            item,
        ) by {
            assert(earlier[i] == calls[i]);
        }
        last_write_wins(start, earlier, item, last);
        assert(!calls[calls.len() - 1].writes(item));
    }
}

/// Calls that do not write `item` leave its holder as it was at the start.
pub proof fn unwritten_item_keeps_holder(
    start: Map<Symbol, Address>,
    calls: Seq<Call>,
    item: Symbol,
)
    requires
        forall|i: int| 0 <= i < calls.len() ==> !(#[trigger] calls[i]).writes(item),
    ensures
        holder_of(replay(start, calls), item) == holder_of(start, item),
    decreases calls.len(),
{
    if calls.len() > 0 {
        let earlier = calls.drop_last();
        assert forall|i: int| 0 <= i < earlier.len() implies !(#[trigger] earlier[i]).writes(
            item,
        ) by {
            assert(earlier[i] == calls[i]);
        }
        unwritten_item_keeps_holder(start, earlier, item);
        assert(!calls[calls.len() - 1].writes(item));
    }
}

/// Starting from a registry that holds nothing, an item has a holder exactly
/// when some call defined it and no later call removed that definition.
pub proof fn record_exists_iff_defined_last(calls: Seq<Call>, item: Symbol)
    ensures
        holder_of(replay(Map::empty(), calls), item) is Some <==> exists|d: int|
            0 <= d < calls.len() && (#[trigger] calls[d]).defines(item) && forall|u: int|
                d < u < calls.len() ==> (#[trigger] calls[u]).writes(item) ==> calls[u].defines(
                    item,
                ),
    decreases calls.len(),
{
    let start = Map::<Symbol, Address>::empty();
    let held = holder_of(replay(start, calls), item) is Some;
    let witnessed = exists|d: int|
        0 <= d < calls.len() && (#[trigger] calls[d]).defines(item) && forall|u: int|
            d < u < calls.len() ==> (#[trigger] calls[u]).writes(item) ==> calls[u].defines(item);
    if calls.len() == 0 {
        assert(!held);
        assert(!witnessed);
    } else {
        let earlier = calls.drop_last();
        let end = calls.len() - 1;
        record_exists_iff_defined_last(earlier, item);
        if calls[end].defines(item) {
            assert(held);
            assert(witnessed);
        } else if calls[end].writes(item) {
            assert(!held);
            if witnessed {
                let d = choose|d: int|
                    0 <= d < calls.len() && (#[trigger] calls[d]).defines(item) && forall|u: int|
                        d < u < calls.len() ==> (#[trigger] calls[u]).writes(item)
                            ==> calls[u].defines(item);
                assert(calls[end].writes(item) ==> calls[end].defines(item));
            }
        } else {
            assert(holder_of(replay(start, calls), item) == holder_of(
                replay(start, earlier),
                item,
            ));
            if held {
                let d = choose|d: int|
                    0 <= d < earlier.len() && (#[trigger] earlier[d]).defines(item) && forall|
                        u: int,
                    |
                        d < u < earlier.len() ==> (#[trigger] earlier[u]).writes(item)
                            ==> earlier[u].defines(item);
                assert(calls[d] == earlier[d]);
                assert forall|u: int| d < u < calls.len() && (#[trigger] calls[u]).writes(
                    item,
                ) implies calls[u].defines(item) by {
                    if u < end {
                        assert(earlier[u] == calls[u]);
                    }
                }
                assert(witnessed);
            }
            if witnessed {
                let d = choose|d: int|
                    0 <= d < calls.len() && (#[trigger] calls[d]).defines(item) && forall|u: int|
                        d < u < calls.len() ==> (#[trigger] calls[u]).writes(item)
                            ==> calls[u].defines(item);
                assert(d < end);
                assert(earlier[d] == calls[d]);
                assert forall|u: int| d < u < earlier.len() && (#[trigger] earlier[u]).writes(
                    item,
                ) implies earlier[u].defines(item) by {
                    assert(earlier[u] == calls[u]);
                }
                assert(held);
            }
        }
    }
}

} // verus!
