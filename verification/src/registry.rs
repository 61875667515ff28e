use vstd::prelude::*;

use crate::error::Error;
use crate::ids::CodeHash;

verus! {

/// The contract categories the factory can deploy: a fungible-token template
/// and a non-fungible-token template.
#[derive(Clone, Copy, Debug, PartialEq, Eq, Structural, PartialOrd, Ord)]
pub enum ContractType {
    Erc20,
    Erc721,
}

/// Authoritative record of which code template implements each contract
/// category. A category either has no entry (unregistered) or exactly one;
/// registering a category again replaces the previous template identifier.
pub struct CodeHashRegistry {
    erc20: Option<CodeHash>,
    erc721: Option<CodeHash>,
}

impl CodeHashRegistry {
    /// The entry recorded for a category, if any.
    closed spec fn slot(&self, contract_type: ContractType) -> Option<CodeHash> {
        match contract_type {
            ContractType::Erc20 => self.erc20,
            ContractType::Erc721 => self.erc721,
        }
    }
}

impl View for CodeHashRegistry {
    type V = Map<ContractType, CodeHash>;

    closed spec fn view(&self) -> Map<ContractType, CodeHash> {
        Map::new(
            |c: ContractType| self.slot(c) is Some,
            |c: ContractType| self.slot(c)->Some_0,
        )
    }
}

/// What a lookup in a registry with contents `m` returns: the registered
/// template for `contract_type`, or `UnknownHash` if no entry exists.
pub open spec fn resolve_spec(
    m: Map<ContractType, CodeHash>,
    contract_type: ContractType,
) -> Result<CodeHash, Error> {
    if m.contains_key(contract_type) {
        Ok(m[contract_type])
    } else {
        Err(Error::UnknownHash)
    }
}

impl CodeHashRegistry {
    /// An empty registry: no category has a template yet.
    pub fn new() -> (r: Self)
        ensures
            r@ == Map::<ContractType, CodeHash>::empty(),
    {
        let r = CodeHashRegistry { erc20: None, erc721: None };
        proof {
            assert(r@ =~= Map::<ContractType, CodeHash>::empty());
        }
        r
    }

    /// Pure lookup of the template registered for `contract_type`.
    pub fn resolve(&self, contract_type: ContractType) -> (r: Result<CodeHash, Error>)
        ensures
            r == resolve_spec(self@, contract_type),
    {
        let slot = match contract_type {
            ContractType::Erc20 => self.erc20,
            ContractType::Erc721 => self.erc721,
        };
        match slot {
            Some(code_hash) => Ok(code_hash),
            None => Err(Error::UnknownHash),
        }
    }

    /// Inserts or replaces the entry for `contract_type` (last write wins).
    /// Always succeeds: no validation of `code_hash` is performed.
    pub fn register(&mut self, contract_type: ContractType, code_hash: CodeHash)
        ensures
            final(self)@ == old(self)@.insert(contract_type, code_hash),
    {
        match contract_type {
            ContractType::Erc20 => self.erc20 = Some(code_hash),
            ContractType::Erc721 => self.erc721 = Some(code_hash),
        }
        proof {
            assert(self@ =~= old(self)@.insert(contract_type, code_hash));
        }
    }
}

} // verus!
