//! The registry as mathematics: a partial map from item identifier to holder,
//! the two writes, the read, and what a sequence of calls leaves behind.

use soroban_sdk::{Address, Symbol};
use vstd::prelude::*;

verus! {

/// What a caller asks the registry to do to one item.
pub enum Request {
    /// Make `holder` the holder of `item`, whoever held it before.
    Define { item: Symbol, holder: Address },
    /// Leave `item` without a holder.
    Undefine { item: Symbol },
}

/// One call of a write operation, with the answer of the identity check for
/// the caller it names.
pub struct Call {
    pub authorized: bool,
    pub request: Request,
}

impl Request {
    /// The item the request is about.
    pub open spec fn item(self) -> Symbol {
        match self {
            Request::Define { item, .. } => item,
            Request::Undefine { item } => item,
        }
    }
}

impl Call {
    /// The call changes the record of `item`: it was authorized and is about
    /// that item.
    pub open spec fn writes(self, item: Symbol) -> bool {
        self.authorized && self.request.item() == item
    }

    /// The call is an authorized definition of `item`.
    pub open spec fn defines(self, item: Symbol) -> bool {
        self.writes(item) && self.request is Define
    }
}

/// The holder recorded for `item`, if there is a record.
pub open spec fn holder_of(records: Map<Symbol, Address>, item: Symbol) -> Option<Address> {
    records.get(item)
}

/// The records after `holder` has been defined for `item`.
pub open spec fn defined(records: Map<Symbol, Address>, item: Symbol, holder: Address) -> Map<
    Symbol,
    Address,
> {
    records.insert(item, holder)
}

/// The records after the definition of `item` has been removed.
pub open spec fn undefined(records: Map<Symbol, Address>, item: Symbol) -> Map<Symbol, Address> {
    records.remove(item)
}

/// The records after a request has been carried out.
pub open spec fn effect(records: Map<Symbol, Address>, request: Request) -> Map<Symbol, Address> {
    match request {
        Request::Define { item, holder } => defined(records, item, holder),
        Request::Undefine { item } => undefined(records, item),
    }
}

/// The records after a call: the request's effect if the caller was
/// authorized, no change otherwise.
pub open spec fn step(records: Map<Symbol, Address>, call: Call) -> Map<Symbol, Address> {
    if call.authorized {
        effect(records, call.request)
    } else {
        records
    }
}

/// The records that `calls`, made in order on `start`, leave behind.
pub open spec fn replay(start: Map<Symbol, Address>, calls: Seq<Call>) -> Map<Symbol, Address>
    decreases calls.len(),
{
    if calls.len() == 0 {
        start
    } else {
        step(replay(start, calls.drop_last()), calls.last())
    }
}

} // verus!
