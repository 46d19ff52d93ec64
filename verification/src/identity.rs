//! Identities and the authorization check.

use vstd::prelude::*;
use vstd::std_specs::cmp::PartialEqSpecImpl;
use crate::errors::VaultError;

verus! {

/// A public account reference: names an owner, a signer or a wallet.
///
/// Whether the holder of an identity really signed a call is for the host to
/// establish; this library only compares identities.
#[derive(Clone, Copy, Debug)]
pub struct Identity {
    pub key: [u8; 32],
}

impl PartialEq for Identity {
    fn eq(&self, other: &Identity) -> (r: bool) {
        let mut i: usize = 0;
        while i < 32
            invariant
                i <= 32,
                forall|j: int| 0 <= j < i ==> self.key[j] == other.key[j],
            decreases 32 - i,
        {
            if self.key[i] != other.key[i] {
                return false;
            }
            i += 1;
        }
        assert(self.key =~= other.key);
        true
    }
}

impl Eq for Identity {

}

impl PartialEqSpecImpl for Identity {
    open spec fn obeys_eq_spec() -> bool {
        true
    }

    open spec fn eq_spec(&self, other: &Identity) -> bool {
        *self == *other
    }
}

/// Lets a call through only if `signer` is the owner recorded in the account.
pub fn authorize(owner: &Identity, signer: &Identity) -> (r: Result<(), VaultError>)
    ensures
        r == authorized(*owner, *signer),
{
    if *owner == *signer {
        Ok(())
    } else {
        Err(VaultError::Unauthorized)
    }
}

/// The outcome of the authorization check.
pub open spec fn authorized(owner: Identity, signer: Identity) -> Result<(), VaultError> {
    if owner == signer {
        Ok(())
    } else {
        Err(VaultError::Unauthorized)
    }
}

} // verus!
