use vstd::prelude::*;

use crate::error::Error;
use crate::factory::create_request_spec;
use crate::factory::Balance;
use crate::factory::InstantiationRequest;
use crate::ids::AccountId;
use crate::ids::CodeHash;
use crate::ids::InstanceHandle;
use crate::registry::resolve_spec;
use crate::registry::ContractType;

verus! {

/// A category that was never registered resolves to `UnknownHash`. Both the
/// public template query (`Factory::code_hash_of`) and the internal resolve
/// step (`CodeHashRegistry::resolve`) return exactly `resolve_spec` of the
/// registry's contents, so both fail on such a category.
pub proof fn lemma_unregistered_resolves_to_unknown(
    m: Map<ContractType, CodeHash>,
    contract_type: ContractType,
)
    requires
        !m.contains_key(contract_type),
    ensures
        resolve_spec(m, contract_type) == Err::<CodeHash, Error>(Error::UnknownHash),
{
}

/// Registering a template `t` for a category makes a subsequent query of
/// that category return `t`; registering `t2` afterward replaces it (last
/// write wins), so later queries return `t2` and, when the two differ, never
/// `t` again.
pub proof fn lemma_register_then_query(
    m: Map<ContractType, CodeHash>,
    contract_type: ContractType,
    t: CodeHash,
    t2: CodeHash,
)
    ensures
        resolve_spec(m.insert(contract_type, t), contract_type) == Ok::<CodeHash, Error>(t),
        resolve_spec(m.insert(contract_type, t).insert(contract_type, t2), contract_type) == Ok::<
            CodeHash,
            Error,
        >(t2),
        t2 != t ==> resolve_spec(
            m.insert(contract_type, t).insert(contract_type, t2),
            contract_type,
        ) != Ok::<CodeHash, Error>(t),
{
}

/// Registering one category leaves every other category's entry as it was:
/// a query of a different category answers the same before and after.
pub proof fn lemma_register_preserves_others(
    m: Map<ContractType, CodeHash>,
    contract_type: ContractType,
    t: CodeHash,
    other: ContractType,
)
    requires
        other != contract_type,
    ensures
        resolve_spec(m.insert(contract_type, t), other) == resolve_spec(m, other),
{
}

/// When the fungible-token category has no registered template, the first
/// step of instantiation fails with `UnknownHash`. That step reads the
/// factory without changing it and the host is never handed a request, so no
/// directory entry can come of it.
pub proof fn lemma_instantiate_unregistered_fails(
    m: Map<ContractType, CodeHash>,
    init_value: Balance,
    endowment: Balance,
)
    requires
        !m.contains_key(ContractType::Erc20),
    ensures
        create_request_spec(m, init_value, endowment) == Err::<InstantiationRequest, Error>(
            Error::UnknownHash,
        ),
{
}

/// When the fungible-token category is registered, the first step of
/// instantiation succeeds and hands the host exactly the registered
/// template, the requested constructor argument, and the attached value.
pub proof fn lemma_instantiate_registered_request(
    m: Map<ContractType, CodeHash>,
    init_value: Balance,
    endowment: Balance,
)
    requires
        m.contains_key(ContractType::Erc20),
    ensures
        create_request_spec(m, init_value, endowment) matches Ok(req) && req
            == (InstantiationRequest {
            code_hash: m[ContractType::Erc20],
            init_value,
            endowment,
        }),
{
}

/// After a successful instantiation is recorded, the directory maps the
/// requester to the new handle — overwriting whatever entry the requester
/// had before — while every other caller's entry is exactly as it was.
pub proof fn lemma_record_overwrites(
    d: Map<AccountId, InstanceHandle>,
    caller: AccountId,
    handle: InstanceHandle,
)
    ensures
        d.insert(caller, handle).contains_key(caller),
        d.insert(caller, handle)[caller] == handle,
        forall|k: AccountId|
            k != caller && d.contains_key(k) ==> #[trigger] d.insert(caller, handle)[k] == d[k],
        forall|k: AccountId|
            #[trigger] d.insert(caller, handle).contains_key(k) <==> (k == caller
                || d.contains_key(k)),
{
}

} // verus!
