//! The three operations of the registry, on the instance storage of the
//! contract that runs in an environment.

use crate::host::{
    contract_running, has_authorized, identity_proved, in_contract, instance_get,
    instance_records, instance_remove, instance_set, is_current_contract, records_after_proof,
    runs_as,
};
use crate::model::{defined, holder_of, step, undefined, Call, Request};
use soroban_sdk::{Address, Env, Symbol};
use vstd::prelude::*;

verus! {

/// Why a write was refused.
#[derive(Clone, Copy, Debug, PartialEq, Eq, Structural)]
pub enum RegistryError {
    /// The call carries no valid proof that the stated caller authorized it.
    Unauthorized,
}

/// What a write answers, given the outcome of the identity check.
pub open spec fn verdict(authorized: bool) -> Result<(), RegistryError> {
    if authorized {
        Ok(())
    } else {
        Err(RegistryError::Unauthorized)
    }
}

/// The registry of current holders.
pub struct DefinitionContract;

impl DefinitionContract {
    /// Whether the operations can be called on `env`: they work on the storage
    /// of the contract that `env` is running.
    pub fn is_running(env: &Env) -> (running: bool)
        ensures
            running == contract_running(*env),
    {
        in_contract(env)
    }

    /// Whether `who` is the contract that `env` is running. For every other
    /// principal the check of a proof leaves the records as they were.
    pub fn is_own_address(env: &Env, who: &Address) -> (own: bool)
        requires
            contract_running(*env),
        ensures
            own == runs_as(*env, *who),
    {
        is_current_contract(env, who)
    }

    /// Makes `borrower` the holder of `item_name` if `lender` has authorized
    /// the call, and refuses without writing if not. Proof is asked of
    /// `lender` and of nobody else. Any principal may define any item: no
    /// owner is remembered. The write is made on the records as the check of
    /// the proof leaves them: the records as they were, unless `lender` is
    /// the running contract itself.
    pub fn define_borrower(
        env: &mut Env,
        lender: &Address,
        item_name: &Symbol,
        borrower: &Address,
    ) -> (result: Result<(), RegistryError>)
        requires
            contract_running(*old(env)),
        ensures
            contract_running(*final(env)),
            result == verdict(identity_proved(*old(env), *lender)),
            instance_records(*final(env)) == step(
                records_after_proof(*old(env), *lender),
                (Call {
                    authorized: identity_proved(*old(env), *lender),
                    request: Request::Define { item: *item_name, holder: *borrower },
                }),
            ),
            result is Ok ==> holder_of(instance_records(*final(env)), *item_name) == Some(
                *borrower,
            ),
            !runs_as(*old(env), *lender) ==> instance_records(*final(env)) == step(
                instance_records(*old(env)),
                (Call {
                    authorized: identity_proved(*old(env), *lender),
                    request: Request::Define { item: *item_name, holder: *borrower },
                }),
            ),
    {
        let authorized = has_authorized(env, lender);
        Self::define_when_authorized(env, authorized, item_name, borrower)
    }

    /// The definition itself, once the identity check has answered:
    /// `authorized` tells whether the caller proved who they are.
    pub fn define_when_authorized(
        env: &mut Env,
        authorized: bool,
        item_name: &Symbol,
        borrower: &Address,
    ) -> (result: Result<(), RegistryError>)
        requires
            contract_running(*old(env)),
        ensures
            contract_running(*final(env)),
            result == verdict(authorized),
            authorized ==> instance_records(*final(env)) == defined(
                instance_records(*old(env)),
                *item_name,
                *borrower,
            ),
            !authorized ==> instance_records(*final(env)) == instance_records(*old(env)),
    {
        if !authorized {
            return Err(RegistryError::Unauthorized);
        }
        instance_set(env, item_name, borrower);
        Ok(())
    }

    /// Removes the definition of `item_name` if `lender` has authorized the
    /// call, and refuses without writing if not. Proof is asked of `lender`
    /// and of nobody else. Removing what is not defined succeeds and changes
    /// nothing. The removal is made on the records as the check of the proof
    /// leaves them: the records as they were, unless `lender` is the running
    /// contract itself.
    pub fn undefine_borrower(env: &mut Env, lender: &Address, item_name: &Symbol) -> (result:
        Result<(), RegistryError>)
        requires
            contract_running(*old(env)),
        ensures
            contract_running(*final(env)),
            result == verdict(identity_proved(*old(env), *lender)),
            instance_records(*final(env)) == step(
                records_after_proof(*old(env), *lender),
                (Call {
                    authorized: identity_proved(*old(env), *lender),
                    request: Request::Undefine { item: *item_name },
                }),
            ),
            result is Ok ==> holder_of(instance_records(*final(env)), *item_name) is None,
            !runs_as(*old(env), *lender) ==> instance_records(*final(env)) == step(
                instance_records(*old(env)),
                (Call {
                    authorized: identity_proved(*old(env), *lender),
                    request: Request::Undefine { item: *item_name },
                }),
            ),
    {
        let authorized = has_authorized(env, lender);
        Self::undefine_when_authorized(env, authorized, item_name)
    }

    /// The removal itself, once the identity check has answered.
    pub fn undefine_when_authorized(env: &mut Env, authorized: bool, item_name: &Symbol) -> (result:
        Result<(), RegistryError>)
        requires
            contract_running(*old(env)),
        ensures
            contract_running(*final(env)),
            result == verdict(authorized),
            authorized ==> instance_records(*final(env)) == undefined(
                instance_records(*old(env)),
                *item_name,
            ),
            !authorized ==> instance_records(*final(env)) == instance_records(*old(env)),
    {
        if !authorized {
            return Err(RegistryError::Unauthorized);
        }
        instance_remove(env, item_name);
        Ok(())
    }

    /// The current holder of `item_name`, or `None` where it has none. Anyone
    /// may ask: no proof of identity is looked at, and nothing is written.
    pub fn get_current_definition(env: &Env, item_name: &Symbol) -> (holder: Option<Address>)
        requires
            contract_running(*env),
        ensures
            holder == holder_of(instance_records(*env), *item_name),
            holder is None <==> !instance_records(*env).contains_key(*item_name),
            forall|h: Address|
                holder == Some(h) <==> instance_records(*env).contains_pair(*item_name, h),
    {
        instance_get(env, item_name)
    }
}

} // verus!
