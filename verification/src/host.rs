//! The boundary to the Soroban SDK.
//!
//! Everything in this file is believed, not proved: the SDK's types are
//! declared, what the registry depends on in the state of an environment is
//! given names, and each SDK call that the registry makes stands in one
//! function whose contract restates what the SDK's source shows of the call.
//!
//! A value of `Env` stands for the whole state of the host behind the handle.
//! Two handles of one host are not told apart: a caller who keeps a second
//! handle must not use it while a call through the first is under way.
//!
//! A `Symbol` or an `Address` is taken by what it denotes, wherever it was
//! made. The SDK's conversions do not look at the environment of a value, so
//! each function here that hands one to the host first makes it anew in `env`,
//! through its characters or its XDR form.

use soroban_sdk::xdr::ScAddress;
use soroban_sdk::{Address, Env, IntoVal, Symbol, TryFromVal, Val};
use vstd::prelude::*;

verus! {

/// `soroban_sdk::Env`: the handle to the host that runs a contract. Opaque:
/// the names below are all that is said of a value of it.
#[verifier::external_type_specification]
#[verifier::external_body]
pub struct ExEnv(Env);

/// `soroban_sdk::Address`: a principal. Opaque; two values are equal in
/// contracts where they denote the same account or contract.
#[verifier::external_type_specification]
#[verifier::external_body]
pub struct ExAddress(Address);

/// `soroban_sdk::Symbol`: a short identifier. Opaque; two values are equal in
/// contracts where they spell the same characters.
#[verifier::external_type_specification]
#[verifier::external_body]
pub struct ExSymbol(Symbol);

/// What the instance storage of the contract running in `env` holds for the
/// registry: each symbol under which an address is stored, with that address.
/// An entry whose key is no symbol or whose value is no address is not part
/// of it.
pub uninterp spec fn instance_records(env: Env) -> Map<Symbol, Address>;

/// Whether `env` is in the middle of a contract invocation. The SDK hands out
/// storage only then.
pub uninterp spec fn contract_running(env: Env) -> bool;

/// Whether `who` is the address of the contract that is running in `env`.
pub uninterp spec fn runs_as(env: Env, who: Address) -> bool;

/// Whether the host behind `env`, in the state it is in, accepts that `who`
/// has authorized the invocation under way: the proof of identity that the
/// invocation carries for `who` is there and valid.
pub uninterp spec fn identity_proved(env: Env, who: Address) -> bool;

/// The records as the host's check of the proof of `who` leaves them, in the
/// state `env` is in: the records of `env` itself, unless `who` is the running
/// contract and the host runs that contract's own `__check_auth`.
pub uninterp spec fn records_after_proof(env: Env, who: Address) -> Map<Symbol, Address>;

/// `Env::in_contract`: reports whether the host has an invocation frame.
#[verifier::external_body]
pub(crate) fn in_contract(env: &Env) -> (running: bool)
    ensures
        running == contract_running(*env),
{
    env.in_contract()
}

/// `Env::current_contract_address`, compared with `who` by the SDK's `==` on
/// addresses: whether `who` is the contract that is running.
#[verifier::external_body]
pub(crate) fn is_current_contract(env: &Env, who: &Address) -> (own: bool)
    requires
        contract_running(*env),
    ensures
        own == runs_as(*env, *who),
{
    env.current_contract_address() == *who
}

/// The host's `require_auth` for `who`, called on `Env::host` so that a refusal
/// comes back as a value where `Address::require_auth` would abort the
/// invocation. The answer is yes where the host returns without an error, and
/// no on every error: the host reports a missing entry, a bad signature and a
/// failing account contract under error types of their own, so no error type
/// tells a refusal from another failure of the check.
///
/// The check leaves the invocation frame as it was, and the records too where
/// `who` is not the running contract. Where `who` is the running contract, the
/// host may run that contract's own `__check_auth` inside the check, and what
/// that writes stays written, whichever way the check then answers.
#[verifier::external_body]
pub(crate) fn has_authorized(env: &mut Env, who: &Address) -> (granted: bool)
    ensures
        granted == identity_proved(*old(env), *who),
        contract_running(*final(env)) == contract_running(*old(env)),
        instance_records(*final(env)) == records_after_proof(*old(env), *who),
        !runs_as(*old(env), *who) ==> instance_records(*final(env)) == instance_records(
            *old(env),
        ),
{
    let own: Address = ScAddress::from(who).into_val(env);
    soroban_env_host::Env::require_auth(env.host(), own.to_object()).is_ok()
}

/// `storage::Instance::get` under the key `item`, read as a raw value and
/// converted with `Address::try_from_val`: the address stored under `item`,
/// or `None` where nothing is stored there or what is stored is no address.
/// A fault of the host itself (an exhausted budget) ends the invocation inside
/// the SDK, as for every storage call.
#[verifier::external_body]
pub(crate) fn instance_get(env: &Env, item: &Symbol) -> (found: Option<Address>)
    requires
        contract_running(*env),
    ensures
        found == instance_records(*env).get(*item),
{
    let key = Symbol::new(env, &item.to_string());
    let stored: Option<Val> = env.storage().instance().get(&key);
    stored.and_then(|raw| Address::try_from_val(env, &raw).ok())
}

/// `storage::Instance::set`: stores `holder` under `item`, replacing what was
/// stored there; every other entry stays.
#[verifier::external_body]
pub(crate) fn instance_set(env: &mut Env, item: &Symbol, holder: &Address)
    requires
        contract_running(*old(env)),
    ensures
        instance_records(*final(env)) == instance_records(*old(env)).insert(*item, *holder),
        contract_running(*final(env)),
{
    let key = Symbol::new(env, &item.to_string());
    let value: Address = ScAddress::from(holder).into_val(env);
    env.storage().instance().set(&key, &value)
}

/// `storage::Instance::remove`: deletes the entry under `item`; a no-op where
/// there is none. Every other entry stays.
#[verifier::external_body]
pub(crate) fn instance_remove(env: &mut Env, item: &Symbol)
    requires
        contract_running(*old(env)),
    ensures
        instance_records(*final(env)) == instance_records(*old(env)).remove(*item),
        contract_running(*final(env)),
{
    let key = Symbol::new(env, &item.to_string());
    env.storage().instance().remove(&key)
}

} // verus!
