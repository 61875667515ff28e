use vstd::prelude::*;

verus! {

/// An opaque fixed-size identifier of a deployable code template: a content
/// hash assigned by the host platform. No internal structure is interpreted
/// here; values are only compared for equality.
#[derive(Clone, Copy, Debug, Eq)]
pub struct CodeHash {
    pub bytes: [u8; 32],
}

/// The identity of the account that invoked the current operation, as
/// reported by the host.
#[derive(Clone, Copy, Debug, Eq)]
pub struct AccountId {
    pub bytes: [u8; 32],
}

/// The address of a deployed contract instance, assigned by the host when the
/// instance is created.
#[derive(Clone, Copy, Debug, Eq)]
pub struct InstanceHandle {
    pub bytes: [u8; 32],
}

/// Byte-for-byte comparison of two fixed-size identifiers.
fn bytes32_eq(a: &[u8; 32], b: &[u8; 32]) -> (r: bool)
    ensures
        r == (*a == *b),
{
    let mut i: usize = 0;
    while i < 32
        invariant
            i <= 32,
            forall|j: int| 0 <= j < i ==> a[j] == b[j],
        decreases 32 - i,
    {
        if a[i] != b[i] {
            return false;
        }
        i = i + 1;
    }
    proof {
        assert(*a =~= *b);
    }
    true
}

impl PartialEq for CodeHash {
    fn eq(&self, other: &Self) -> bool {
        bytes32_eq(&self.bytes, &other.bytes)
    }
}

impl vstd::std_specs::cmp::PartialEqSpecImpl for CodeHash {
    open spec fn obeys_eq_spec() -> bool {
        true
    }

    open spec fn eq_spec(&self, other: &Self) -> bool {
        self.bytes == other.bytes
    }
}

impl PartialEq for AccountId {
    fn eq(&self, other: &Self) -> bool {
        bytes32_eq(&self.bytes, &other.bytes)
    }
}

impl vstd::std_specs::cmp::PartialEqSpecImpl for AccountId {
    open spec fn obeys_eq_spec() -> bool {
        true
    }

    open spec fn eq_spec(&self, other: &Self) -> bool {
        self.bytes == other.bytes
    }
}

impl PartialEq for InstanceHandle {
    fn eq(&self, other: &Self) -> bool {
        bytes32_eq(&self.bytes, &other.bytes)
    }
}

impl vstd::std_specs::cmp::PartialEqSpecImpl for InstanceHandle {
    open spec fn obeys_eq_spec() -> bool {
        true
    }

    open spec fn eq_spec(&self, other: &Self) -> bool {
        self.bytes == other.bytes
    }
}

} // verus!
