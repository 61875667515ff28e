use vstd::prelude::*;

use crate::directory::InstanceDirectory;
use crate::error::Error;
use crate::ids::AccountId;
use crate::ids::CodeHash;
use crate::ids::InstanceHandle;
use crate::registry::resolve_spec;
use crate::registry::CodeHashRegistry;
use crate::registry::ContractType;

verus! {

/// Value attached to or endowed by a transaction, in the host's smallest
/// currency unit.
pub type Balance = u128;

/// Everything the host needs to create one new contract instance: the code
/// template to deploy, the constructor argument for the new instance, and
/// the value to endow it with.
#[derive(Clone, Copy, Debug)]
pub struct InstantiationRequest {
    pub code_hash: CodeHash,
    pub init_value: Balance,
    pub endowment: Balance,
}

impl PartialEq for InstantiationRequest {
    fn eq(&self, other: &Self) -> bool {
        self.code_hash == other.code_hash && self.init_value == other.init_value
            && self.endowment == other.endowment
    }
}

impl vstd::std_specs::cmp::PartialEqSpecImpl for InstantiationRequest {
    open spec fn obeys_eq_spec() -> bool {
        true
    }

    open spec fn eq_spec(&self, other: &Self) -> bool {
        self.code_hash == other.code_hash && self.init_value == other.init_value
            && self.endowment == other.endowment
    }
}

/// The host's verdict on one instantiation request. Either the new instance
/// was created, funded, and assigned an address, or the host rolled the whole
/// attempt back (insufficient endowment, constructor rejection, resource
/// limits) and neither state nor value changed.
#[derive(Clone, Copy, Debug)]
pub enum HostOutcome {
    Deployed(InstanceHandle),
    Failed,
}

/// The factory's aggregate state: the template registry and the directory of
/// deployed instances, both owned and mutated only here.
pub struct Factory {
    contract_hash: CodeHashRegistry,
    instances: InstanceDirectory,
}

/// What the first step of contract creation returns for a registry with
/// contents `m`: the fully determined request the host should perform, or
/// `UnknownHash` when the fungible-token category has no registered template.
pub open spec fn create_request_spec(
    m: Map<ContractType, CodeHash>,
    init_value: Balance,
    endowment: Balance,
) -> Result<InstantiationRequest, Error> {
    match resolve_spec(m, ContractType::Erc20) {
        Ok(code_hash) => Ok(
            InstantiationRequest { code_hash, init_value, endowment },
        ),
        Err(e) => Err(e),
    }
}

impl Factory {
    /// Which code template implements each contract category.
    pub closed spec fn templates(&self) -> Map<ContractType, CodeHash> {
        self.contract_hash@
    }

    /// Each caller's most recently deployed instance.
    pub closed spec fn deployed(&self) -> Map<AccountId, InstanceHandle> {
        self.instances@
    }

    /// Validity of the factory's internal representation.
    pub closed spec fn wf(&self) -> bool {
        self.instances.wf()
    }

    /// A new factory with an empty registry and an empty directory.
    pub fn new() -> (r: Self)
        ensures
            r.wf(),
            r.templates() == Map::<ContractType, CodeHash>::empty(),
            r.deployed() == Map::<AccountId, InstanceHandle>::empty(),
    {
        Factory { contract_hash: CodeHashRegistry::new(), instances: InstanceDirectory::new() }
    }

    /// The code template registered for `contract_type`, or `UnknownHash` if
    /// that category has none. Pure lookup; exposed so that a caller can
    /// discover which template a future instantiation will use before
    /// committing value.
    pub fn code_hash_of(&self, contract_type: ContractType) -> (r: Result<CodeHash, Error>)
        ensures
            r == resolve_spec(self.templates(), contract_type),
    {
        self.contract_hash.resolve(contract_type)
    }

    /// Inserts or replaces the template registered for `contract_type` (last
    /// write wins). Always succeeds: the hash is not validated, and no entry
    /// is ever removed. The instance directory is untouched.
    pub fn add_code_hash(&mut self, contract_type: ContractType, code_hash: CodeHash) -> (r: Result<
        (),
        Error,
    >)
        requires
            old(self).wf(),
        ensures
            final(self).wf(),
            r == Ok::<(), Error>(()),
            final(self).templates() == old(self).templates().insert(contract_type, code_hash),
            final(self).deployed() == old(self).deployed(),
    {
        self.contract_hash.register(contract_type, code_hash);
        Ok(())
    }

    /// First step of creating a contract on behalf of a caller: resolve the
    /// fungible-token template and hand back the instantiation request the
    /// host should perform, with `init_value` as the new instance's
    /// constructor argument and `endowment` (the value attached to the
    /// caller's transaction) as its funding. Fails with `UnknownHash`, and
    /// the host is never consulted, when the category has no registered
    /// template. Reads only; the factory is unchanged either way.
    ///
    /// The host performs the returned request atomically and reports a
    /// `HostOutcome`, which [`Self::record_instance`] then records.
    pub fn create_contract(&self, init_value: Balance, endowment: Balance) -> (r: Result<
        InstantiationRequest,
        Error,
    >)
        ensures
            r == create_request_spec(self.templates(), init_value, endowment),
    {
        match self.contract_hash.resolve(ContractType::Erc20) {
            Ok(code_hash) => Ok(InstantiationRequest { code_hash, init_value, endowment }),
            Err(e) => Err(e),
        }
    }

    /// Second step of creating a contract: record the host's verdict on the
    /// request that [`Self::create_contract`] produced for `caller`. When the
    /// host deployed an instance, the directory afterward maps `caller` to
    /// the new handle, overwriting any earlier entry for that caller, and the
    /// operation succeeds. When the host failed, nothing is recorded — the
    /// factory is exactly as it was, value having been returned by the host's
    /// own rollback — and the failure surfaces as `CreateError`. The registry
    /// is untouched in both cases.
    pub fn record_instance(&mut self, caller: AccountId, outcome: HostOutcome) -> (r: Result<
        (),
        Error,
    >)
        requires
            old(self).wf(),
        ensures
            final(self).wf(),
            final(self).templates() == old(self).templates(),
            outcome matches HostOutcome::Deployed(handle) ==> r == Ok::<(), Error>(())
                && final(self).deployed() == old(self).deployed().insert(caller, handle),
            outcome is Failed ==> r == Err::<(), Error>(Error::CreateError) && *final(self) == *old(
                self,
            ),
    {
        match outcome {
            HostOutcome::Deployed(handle) => {
                self.instances.insert(caller, handle);
                Ok(())
            },
            HostOutcome::Failed => Err(Error::CreateError),
        }
    }

    /// The instance most recently recorded for `caller`, if any.
    pub fn instance_of(&self, caller: AccountId) -> (r: Option<InstanceHandle>)
        requires
            self.wf(),
        ensures
            r == if self.deployed().contains_key(caller) {
                Some(self.deployed()[caller])
            } else {
                None::<InstanceHandle>
            },
    {
        self.instances.get(caller)
    }
}

} // verus!
