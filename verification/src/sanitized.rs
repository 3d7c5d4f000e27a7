//! The authenticated load, mutate and save handle: a buffer passes the full
//! trust chain once, then its decoded record may be mutated and explicitly
//! re-encoded over the original bytes.

use vstd::prelude::*;

use crate::account::AccountView;
use crate::encoding::{decodes_to, encode_record, spec_encode, RECORD_LEN};
use crate::key::Key;
use crate::result::{VaultCoreError, VaultCoreResult};
use crate::vault::{spec_load_check, Vault};

verus! {

/// The first failure of sanitization, or `None` where it passes: the
/// optional writability precondition, then the four-layer load check.
pub open spec fn spec_sanitize_check(
    program_id: Key,
    account: AccountView,
    expect_writable: bool,
) -> Option<VaultCoreError> {
    if expect_writable && !account.is_writable {
        Some(VaultCoreError::WritabilityViolation)
    } else {
        spec_load_check(program_id, account)
    }
}

/// A validated handle: the account buffer it was loaded from, and the
/// decoded record, mutable in place and persistable with [`Self::save`].
pub struct SanitizedVault {
    /// The buffer and address the record was loaded from.
    pub account: AccountView,
    /// The decoded record.
    pub vault: Vault,
}

impl SanitizedVault {
    /// Validates an untrusted buffer and yields a handle on its record.
    /// When `expect_writable` is set, the buffer must additionally be
    /// flagged mutable before any other check is attempted.
    pub fn sanitize(program_id: &Key, account: AccountView, expect_writable: bool) -> (r:
        VaultCoreResult<SanitizedVault>)
        ensures
            r is Ok <==> spec_sanitize_check(*program_id, account, expect_writable) is None,
            r matches Err(e) ==> spec_sanitize_check(*program_id, account, expect_writable)
                == Some(e),
            r matches Ok(s) ==> {
                &&& s.account == account
                &&& decodes_to(account.data@, s.vault)
                &&& s.vault.wf()
            },
    {
        if expect_writable && !account.is_writable {
            return Err(VaultCoreError::WritabilityViolation);
        }
        match Vault::deserialize_checked(program_id, &account) {
            Ok(vault) => Ok(SanitizedVault { account, vault }),
            Err(e) => Err(e),
        }
    }

    /// The account the record was loaded from.
    pub fn account(&self) -> (r: &AccountView)
        ensures
            *r == self.account,
    {
        &self.account
    }

    /// The decoded record.
    pub fn vault(&self) -> (r: &Vault)
        ensures
            *r == self.vault,
    {
        &self.vault
    }

    /// The decoded record, for in-place mutation.
    pub fn vault_mut(&mut self) -> (r: &mut Vault)
        ensures
            *r == old(self).vault,
            final(self).vault == *final(r),
            final(self).account == old(self).account,
    {
        &mut self.vault
    }

    /// Re-encodes the record over the front of the buffer, preserving any
    /// trailing bytes; no re-validation is performed.  Fails, changing
    /// nothing, only when the buffer is shorter than a record, which a
    /// handle from [`Self::sanitize`] never is.
    pub fn save(&mut self) -> (r: VaultCoreResult<()>)
        ensures
            r is Ok <==> old(self).account.data@.len() >= RECORD_LEN,
            r is Ok ==> {
                &&& final(self).account.data@ == spec_encode(old(self).vault) + old(
                    self,
                ).account.data@.skip(RECORD_LEN as int)
                &&& final(self).account.key == old(self).account.key
                &&& final(self).account.owner == old(self).account.owner
                &&& final(self).account.is_writable == old(self).account.is_writable
                &&& final(self).vault == old(self).vault
            },
            r is Err ==> *final(self) == *old(self),
    {
        if self.account.data.len() < RECORD_LEN {
            return Err(VaultCoreError::MalformedEncoding);
        }
        let mut new_data = encode_record(&self.vault);
        let n = self.account.data.len();
        let mut i: usize = RECORD_LEN;
        while i < n
            invariant
                RECORD_LEN <= i <= n,
                n == self.account.data@.len(),
                self == old(self),
                new_data@ == spec_encode(self.vault) + self.account.data@.subrange(
                    RECORD_LEN as int,
                    i as int,
                ),
            decreases n - i,
        {
            let b = self.account.data[i];
            new_data.push(b);
            proof {
                assert(new_data@ =~= spec_encode(self.vault) + self.account.data@.subrange(
                    RECORD_LEN as int,
                    i + 1,
                ));
            }
            i += 1;
        }
        proof {
            assert(self.account.data@.subrange(RECORD_LEN as int, n as int)
                =~= self.account.data@.skip(RECORD_LEN as int));
        }
        self.account.data = new_data;
        Ok(())
    }
}

} // verus!
