//! The durable vault record and its accounting operations: the
//! deposit-and-mint exchange-rate algorithm, fee calculation, and the direct
//! supply mutators.

use vstd::prelude::*;

use crate::account::AccountView;
use crate::encoding::{decode_record, decodes_to, spec_decodable, VAULT_TAG};
use crate::key::{zero_key_bytes, Key};
use crate::pda::{create_address, find_address, finds_program_address, program_address};
use crate::result::{VaultCoreError, VaultCoreResult};
use crate::AccountType;

verus! {

/// The domain-separating seed of every vault address: the ASCII bytes of
/// the word "vault".
pub open spec fn spec_vault_seed() -> Seq<u8> {
    seq![118u8, 97u8, 117u8, 108u8, 116u8]
}

/// The seed set a vault's canonical address is derived from: the domain
/// seed, then the base key's bytes.
pub open spec fn spec_vault_seeds(base: Seq<u8>) -> Seq<Seq<u8>> {
    seq![spec_vault_seed(), base]
}

/// The seed set with the record's bump nonce appended, as handed to the
/// address derivation when re-checking a loaded record.
pub open spec fn spec_seeds_with_bump(base: Seq<u8>, bump: u8) -> Seq<Seq<u8>> {
    spec_vault_seeds(base).push(seq![bump])
}

/// The first failure of the four-layer load check on an untrusted buffer,
/// or `None` where every layer passes: the buffer must be non-empty, owned
/// by the expected program, decode to a record of the vault kind, and sit
/// at the address derived from its own base and bump.
pub open spec fn spec_load_check(program_id: Key, account: AccountView) -> Option<
    VaultCoreError,
> {
    if account.data@.len() == 0 {
        Some(VaultCoreError::UninitializedState)
    } else if account.owner@ != program_id@ {
        Some(VaultCoreError::OwnershipMismatch)
    } else if !spec_decodable(account.data@) {
        Some(VaultCoreError::MalformedEncoding)
    } else if account.data@[0] != VAULT_TAG {
        Some(VaultCoreError::StructurallyInvalid)
    } else if program_address(
        program_id@,
        spec_seeds_with_bump(account.data@.subrange(1, 33), account.data@[1285]),
    ) != Some(account.key@) {
        Some(VaultCoreError::AddressMismatch)
    } else {
        None
    }
}

/// Law: on a non-empty pool, every successful deposit mints exactly the
/// floor of the pro-rata share `amount * lrt_supply / tokens_deposited`.
pub proof fn lemma_deposit_proportional(v: Vault, amount: u64)
    requires
        v.tokens_deposited > 0,
        v.spec_deposit_result(amount) is Ok,
    ensures
        v.spec_deposit_result(amount)->Ok_0 == (amount * v.lrt_supply) / (
        v.tokens_deposited as int),
{
    let product = amount * v.lrt_supply;
    vstd::arithmetic::div_mod::lemma_div_pos_is_pos(product, v.tokens_deposited as int);
    vstd::arithmetic::div_mod::lemma_div_nonincreasing(product, v.tokens_deposited as int);
}

/// Law: on an empty pool, a successful deposit mints one claim-unit per
/// token deposited, whatever the prior claim-token supply.
pub proof fn lemma_first_deposit_identity(v: Vault, amount: u64)
    requires
        v.tokens_deposited == 0,
        v.spec_deposit_result(amount) is Ok,
    ensures
        v.spec_deposit_result(amount) == Ok::<u64, VaultCoreError>(amount),
{
}

/// Law: where the mint and custody arithmetic itself fits the integer
/// width, a deposit that would push the custodied total above the capacity
/// fails with `DepositExceedsCapacity`.  (The deposit function's own
/// contract adds that every failure leaves the record unchanged.)
pub proof fn lemma_capacity_enforced(v: Vault, amount: u64)
    requires
        v.tokens_deposited != 0 ==> amount * v.lrt_supply <= u64::MAX,
        v.tokens_deposited + amount <= u64::MAX,
        v.tokens_deposited + amount > v.capacity,
    ensures
        v.spec_deposit_result(amount) == Err::<u64, VaultCoreError>(
            VaultCoreError::DepositExceedsCapacity,
        ),
{
}

/// Law: a deposit whose mint multiplication would exceed the integer width
/// fails with `DepositOverflow` rather than wrapping or truncating.
pub proof fn lemma_deposit_overflow_safe(v: Vault, amount: u64)
    requires
        v.tokens_deposited != 0,
        amount * v.lrt_supply > u64::MAX,
    ensures
        v.spec_deposit_result(amount) == Err::<u64, VaultCoreError>(
            VaultCoreError::DepositOverflow,
        ),
{
}

/// Law: the fee is the linear truncating formula `amount * bps / 10000`;
/// it is zero on a zero amount and at zero basis points, and the
/// calculation fails exactly when the multiplication exceeds the integer
/// width.
pub proof fn lemma_fee_linearity(amount: u64, bps: u16)
    ensures
        Vault::spec_fee(amount, bps) == (amount * bps) / 10000,
        Vault::spec_fee(0u64, bps) == 0,
        Vault::spec_fee(amount, 0u16) == 0,
        amount * bps <= u64::MAX ==> Vault::spec_fee_result(amount, bps)->Ok_0 == (amount
            * bps) / 10000,
        amount * bps > u64::MAX ==> Vault::spec_fee_result(amount, bps) == Err::<
            u64,
            VaultCoreError,
        >(VaultCoreError::FeeCalculationOverflow),
{
    assert(0u64 * bps == 0);
    assert(amount * 0u16 == 0);
    if amount * bps <= u64::MAX {
        vstd::arithmetic::div_mod::lemma_div_pos_is_pos(amount * bps, 10000);
        vstd::arithmetic::div_mod::lemma_div_nonincreasing(amount * bps, 10000);
    }
}

/// Law: a non-empty buffer whose declared custodian differs from the
/// expected program fails the load with `OwnershipMismatch`, whatever its
/// bytes and address.
pub proof fn lemma_ownership_rejected(program_id: Key, account: AccountView)
    requires
        account.data@.len() > 0,
        account.owner@ != program_id@,
    ensures
        spec_load_check(program_id, account) == Some(VaultCoreError::OwnershipMismatch),
{
}

/// Law: a structurally valid, correctly owned buffer placed at an address
/// other than its canonical derived address fails the load with
/// `AddressMismatch`.
pub proof fn lemma_wrong_address_rejected(program_id: Key, account: AccountView)
    requires
        account.owner@ == program_id@,
        spec_decodable(account.data@),
        account.data@[0] == VAULT_TAG,
        program_address(
            program_id@,
            spec_seeds_with_bump(account.data@.subrange(1, 33), account.data@[1285]),
        ) != Some(account.key@),
    ensures
        spec_load_check(program_id, account) == Some(VaultCoreError::AddressMismatch),
{
}

/// The durable state of one vault: identity keys, configuration, and the
/// two accounting counters from which the exchange rate is derived.
#[derive(Clone, Copy, Debug, PartialEq, Eq)]
pub struct Vault {
    /// Discriminant confirming this record is a vault.
    pub account_type: AccountType,
    /// Seed identity distinguishing this vault's address from all others.
    pub base: Key,
    /// Identity of the claim-token issuance the vault controls.
    pub lrt_mint: Key,
    /// Identity of the base asset accepted as deposits.
    pub supported_mint: Key,
    /// Principal authorized for general administration.
    pub admin: Key,
    /// Principal authorized for delegation-related operations.
    pub delegation_admin: Key,
    /// Principal entitled to accrued fees.
    pub fee_owner: Key,
    /// Optional principal required to co-sign mint and burn; the wire
    /// encoding keeps the all-zero key as the "absent" sentinel.
    pub mint_burn_authority: Option<Key>,
    /// Maximum allowed `tokens_deposited`; `u64::MAX` means unbounded.
    pub capacity: u64,
    /// Ordinal position in the global vault registry, assigned at creation.
    pub vault_index: u64,
    /// Total claim-token units outstanding.
    pub lrt_supply: u64,
    /// Total base-asset units currently custodied.
    pub tokens_deposited: u64,
    /// Deposit fee in basis points.
    pub deposit_fee_bps: u16,
    /// Withdrawal fee in basis points.
    pub withdrawal_fee_bps: u16,
    /// Opaque forward-compatibility padding, preserved across load and save.
    pub reserved: [u8; 1024],
    /// The nonce that makes the derived address valid off-curve.
    pub bump: u8,
}

impl Vault {
    /// Well-formedness: an absent co-sign authority is represented as
    /// `None`, never as a wrapped all-zero key, so that the zero sentinel of
    /// the wire encoding round-trips.
    pub open spec fn wf(self) -> bool {
        self.mint_burn_authority matches Some(k) ==> k@ != zero_key_bytes()
    }

    /// The claim-units minted for a deposit of `amount`: one for one on an
    /// empty pool, otherwise the floor of the pro-rata share
    /// `amount * lrt_supply / tokens_deposited`.
    pub open spec fn spec_minted(self, amount: u64) -> int {
        if self.tokens_deposited == 0 {
            amount as int
        } else {
            (amount * self.lrt_supply) / (self.tokens_deposited as int)
        }
    }

    /// The vault after a successful deposit of `amount`.
    pub open spec fn spec_deposit_post(self, amount: u64) -> Vault {
        Vault {
            tokens_deposited: (self.tokens_deposited + amount) as u64,
            lrt_supply: (self.lrt_supply + self.spec_minted(amount)) as u64,
            ..self
        }
    }

    /// What a deposit of `amount` returns: the minted claim-units, or the
    /// first failure of the multiplication, the custody addition, the
    /// capacity ceiling, and the supply addition, in that order.
    pub open spec fn spec_deposit_result(self, amount: u64) -> VaultCoreResult<u64> {
        if self.tokens_deposited != 0 && amount * self.lrt_supply > u64::MAX {
            Err(VaultCoreError::DepositOverflow)
        } else if self.tokens_deposited + amount > u64::MAX {
            Err(VaultCoreError::DepositOverflow)
        } else if self.tokens_deposited + amount > self.capacity {
            Err(VaultCoreError::DepositExceedsCapacity)
        } else if self.lrt_supply + self.spec_minted(amount) > u64::MAX {
            Err(VaultCoreError::DepositOverflow)
        } else {
            Ok(self.spec_minted(amount) as u64)
        }
    }

    /// The fee on `amount` at `bps` basis points, floor-divided.
    pub open spec fn spec_fee(amount: u64, bps: u16) -> int {
        (amount * bps) / 10000
    }

    /// What a fee calculation returns: the fee, or an overflow failure when
    /// the multiplication exceeds the integer width.
    pub open spec fn spec_fee_result(amount: u64, bps: u16) -> VaultCoreResult<u64> {
        if amount * bps > u64::MAX {
            Err(VaultCoreError::FeeCalculationOverflow)
        } else {
            Ok(Self::spec_fee(amount, bps) as u64)
        }
    }

    /// Creates a fresh record: delegation and fee principals start as the
    /// admin, no co-sign authority, unbounded capacity, both counters zero.
    pub fn new(
        lrt_mint: Key,
        supported_mint: Key,
        admin: Key,
        lrt_index: u64,
        base: Key,
        deposit_fee_bps: u16,
        withdrawal_fee_bps: u16,
        bump: u8,
    ) -> (v: Vault)
        ensures
            v == (Vault {
                account_type: AccountType::Vault,
                base,
                lrt_mint,
                supported_mint,
                admin,
                delegation_admin: admin,
                fee_owner: admin,
                mint_burn_authority: None::<Key>,
                capacity: u64::MAX,
                vault_index: lrt_index,
                lrt_supply: 0u64,
                tokens_deposited: 0u64,
                deposit_fee_bps,
                withdrawal_fee_bps,
                reserved: v.reserved,
                bump,
            }),
            v.reserved@ == Seq::new(1024, |i: int| 0u8),
            v.wf(),
    {
        let reserved: [u8; 1024] = [0u8; 1024];
        proof {
            broadcast use vstd::array::group_array_axioms;

            assert(reserved@ =~= Seq::new(1024, |i: int| 0u8));
        }
        Vault {
            account_type: AccountType::Vault,
            base,
            lrt_mint,
            supported_mint,
            admin,
            delegation_admin: admin,
            fee_owner: admin,
            mint_burn_authority: None,
            capacity: u64::MAX,
            vault_index: lrt_index,
            lrt_supply: 0,
            tokens_deposited: 0,
            deposit_fee_bps,
            withdrawal_fee_bps,
            reserved,
            bump,
        }
    }

    /// The claim-token mint identity.
    pub fn lrt_mint(&self) -> (r: Key)
        ensures
            r == self.lrt_mint,
    {
        self.lrt_mint
    }

    /// The supported base-asset mint identity.
    pub fn supported_mint(&self) -> (r: Key)
        ensures
            r == self.supported_mint,
    {
        self.supported_mint
    }

    /// The base seed identity.
    pub fn base(&self) -> (r: Key)
        ensures
            r == self.base,
    {
        self.base
    }

    /// The principal entitled to accrued fees.
    pub fn fee_owner(&self) -> (r: Key)
        ensures
            r == self.fee_owner,
    {
        self.fee_owner
    }

    /// The deposit fee in basis points.
    pub fn deposit_fee_bps(&self) -> (r: u16)
        ensures
            r == self.deposit_fee_bps,
    {
        self.deposit_fee_bps
    }

    /// The withdrawal fee in basis points.
    pub fn withdrawal_fee_bps(&self) -> (r: u16)
        ensures
            r == self.withdrawal_fee_bps,
    {
        self.withdrawal_fee_bps
    }

    /// The optional co-sign authority for mint and burn.
    pub fn mint_burn_authority(&self) -> (r: Option<Key>)
        ensures
            r == self.mint_burn_authority,
    {
        self.mint_burn_authority
    }

    /// Overwrites the custodied total.  A low-level primitive for external
    /// withdrawal and slashing processes; no capacity check is made here.
    pub fn set_tokens_deposited(&mut self, tokens_deposited: u64)
        ensures
            *final(self) == (Vault { tokens_deposited, ..*old(self) }),
    {
        self.tokens_deposited = tokens_deposited;
    }

    /// Deposits `amount` base-asset units and mints the pro-rata claim-units.
    ///
    /// On an empty pool the mint is one for one; otherwise it is the floor
    /// of `amount * lrt_supply / tokens_deposited`, the conservative
    /// rounding that protects existing holders.  The deposit fails, mutating
    /// nothing, when any step of the arithmetic would overflow or when the
    /// new custodied total would exceed the capacity.
    pub fn deposit_and_mint_with_capacity_check(&mut self, amount: u64) -> (r: VaultCoreResult<
        u64,
    >)
        ensures
            r == old(self).spec_deposit_result(amount),
            r is Ok ==> *final(self) == old(self).spec_deposit_post(amount),
            r is Err ==> *final(self) == *old(self),
    {
        let num_tokens_to_mint: u64 = if self.tokens_deposited == 0 {
            amount
        } else {
            match amount.checked_mul(self.lrt_supply) {
                Some(product) => product / self.tokens_deposited,
                None => {
                    return Err(VaultCoreError::DepositOverflow);
                },
            }
        };
        let total_post_deposit = match self.tokens_deposited.checked_add(amount) {
            Some(t) => t,
            None => {
                return Err(VaultCoreError::DepositOverflow);
            },
        };
        if total_post_deposit > self.capacity {
            return Err(VaultCoreError::DepositExceedsCapacity);
        }
        let lrt_supply = match self.lrt_supply.checked_add(num_tokens_to_mint) {
            Some(s) => s,
            None => {
                return Err(VaultCoreError::DepositOverflow);
            },
        };
        self.lrt_supply = lrt_supply;
        self.tokens_deposited = total_post_deposit;
        Ok(num_tokens_to_mint)
    }

    /// The deposit fee owed on `lrt_amount` claim-units.
    pub fn calculate_deposit_fee(&self, lrt_amount: u64) -> (r: VaultCoreResult<u64>)
        ensures
            r == Self::spec_fee_result(lrt_amount, self.deposit_fee_bps),
    {
        match lrt_amount.checked_mul(self.deposit_fee_bps as u64) {
            Some(product) => Ok(product / 10000),
            None => Err(VaultCoreError::FeeCalculationOverflow),
        }
    }

    /// The withdrawal fee owed on `lrt_amount` claim-units.
    pub fn calculate_withdraw_fee(&self, lrt_amount: u64) -> (r: VaultCoreResult<u64>)
        ensures
            r == Self::spec_fee_result(lrt_amount, self.withdrawal_fee_bps),
    {
        match lrt_amount.checked_mul(self.withdrawal_fee_bps as u64) {
            Some(product) => Ok(product / 10000),
            None => Err(VaultCoreError::FeeCalculationOverflow),
        }
    }

    /// The custodied base-asset total.
    pub fn tokens_deposited(&self) -> (r: u64)
        ensures
            r == self.tokens_deposited,
    {
        self.tokens_deposited
    }

    /// Overwrites the outstanding claim-token supply.  A low-level
    /// primitive; no cross-field validation is made here.
    pub fn set_lrt_supply(&mut self, lrt_supply: u64)
        ensures
            *final(self) == (Vault { lrt_supply, ..*old(self) }),
    {
        self.lrt_supply = lrt_supply;
    }

    /// Adds `amount` to the claim-token supply, returning the new supply,
    /// or `None` without mutating on overflow.
    pub fn increment_lrt_supply(&mut self, amount: u64) -> (r: Option<u64>)
        ensures
            old(self).lrt_supply + amount <= u64::MAX ==> {
                &&& r == Some((old(self).lrt_supply + amount) as u64)
                &&& *final(self) == (Vault {
                    lrt_supply: (old(self).lrt_supply + amount) as u64,
                    ..*old(self)
                })
            },
            old(self).lrt_supply + amount > u64::MAX ==> {
                &&& r is None
                &&& *final(self) == *old(self)
            },
    {
        match self.lrt_supply.checked_add(amount) {
            Some(s) => {
                self.lrt_supply = s;
                Some(s)
            },
            None => None,
        }
    }

    /// The outstanding claim-token supply.
    pub fn lrt_supply(&self) -> (r: u64)
        ensures
            r == self.lrt_supply,
    {
        self.lrt_supply
    }

    /// The bump nonce of the derived address.
    pub fn bump(&self) -> (r: u8)
        ensures
            r == self.bump,
    {
        self.bump
    }

    /// Whether the record's discriminant marks it as a vault.
    pub fn is_struct_valid(&self) -> (r: bool)
        ensures
            r == (self.account_type == AccountType::Vault),
    {
        self.account_type == AccountType::Vault
    }

    /// The capacity ceiling on the custodied total.
    pub fn capacity(&self) -> (r: u64)
        ensures
            r == self.capacity,
    {
        self.capacity
    }

    /// Overwrites the capacity ceiling.
    pub fn set_capacity(&mut self, capacity: u64)
        ensures
            *final(self) == (Vault { capacity, ..*old(self) }),
    {
        self.capacity = capacity;
    }

    /// The vault's ordinal in the global registry.
    pub fn vault_index(&self) -> (r: u64)
        ensures
            r == self.vault_index,
    {
        self.vault_index
    }

    /// The administration principal.
    pub fn admin(&self) -> (r: Key)
        ensures
            r == self.admin,
    {
        self.admin
    }

    /// Overwrites the administration principal.
    pub fn set_admin(&mut self, admin: Key)
        ensures
            *final(self) == (Vault { admin, ..*old(self) }),
    {
        self.admin = admin;
    }

    /// Overwrites the delegation principal.
    pub fn set_delegation_admin(&mut self, delegation_admin: Key)
        ensures
            *final(self) == (Vault { delegation_admin, ..*old(self) }),
    {
        self.delegation_admin = delegation_admin;
    }

    /// The delegation principal.
    pub fn delegation_admin(&self) -> (r: Key)
        ensures
            r == self.delegation_admin,
    {
        self.delegation_admin
    }

    /// The seed set of a vault's canonical address, before the bump is
    /// appended.
    pub fn seeds(base: &Key) -> (r: Vec<Vec<u8>>)
        ensures
            r.deep_view() == spec_vault_seeds(base@),
            r@.len() == 2,
            r@[0]@.len() == 5,
            r@[1]@.len() == 32,
    {
        let mut domain: Vec<u8> = Vec::new();
        domain.push(118);
        domain.push(97);
        domain.push(117);
        domain.push(108);
        domain.push(116);
        proof {
            assert(domain@ =~= spec_vault_seed());
            assert(domain.deep_view() =~= domain@);
        }
        let base_bytes = vstd::slice::slice_to_vec(vstd::array::array_as_slice(&base.bytes));
        proof {
            broadcast use vstd::array::group_array_axioms;

            assert(base_bytes.deep_view() =~= base_bytes@);
        }
        let mut r: Vec<Vec<u8>> = Vec::new();
        r.push(domain);
        r.push(base_bytes);
        proof {
            assert(r.deep_view() =~= spec_vault_seeds(base@));
        }
        r
    }

    /// Derives the canonical address of the vault addressed by `base` under
    /// `program_id`, returning the address, its bump nonce, and the seed
    /// set used.  The outcome is pinned as the bump scan's unique result
    /// for this seed set ([`finds_program_address`], deterministic by
    /// [`lemma_found_address_unique`]): the bump is the highest viable
    /// one, and `None` comes back only in the statistically improbable
    /// event that every bump byte is refused.
    pub fn find_program_address(program_id: &Key, base: &Key) -> (r: Option<
        (Key, u8, Vec<Vec<u8>>),
    >)
        ensures
            r matches Some(found) ==> {
                &&& found.2.deep_view() == spec_vault_seeds(base@)
                &&& program_address(program_id@, spec_seeds_with_bump(base@, found.1)) == Some(
                    found.0@,
                )
                &&& finds_program_address(
                    program_id@,
                    spec_vault_seeds(base@),
                    Some((found.0, found.1)),
                )
            },
            r is None ==> finds_program_address(program_id@, spec_vault_seeds(base@), None),
    {
        let s = Self::seeds(base);
        match find_address(&s, program_id) {
            Some((address, bump)) => {
                proof {
                    assert(s.deep_view().push(seq![bump]) =~~= spec_seeds_with_bump(
                        base@,
                        bump,
                    ));
                }
                Some((address, bump, s))
            },
            None => None,
        }
    }

    /// Loads a record from an untrusted buffer, enforcing the four-layer
    /// trust chain: non-empty, correctly owned, decodes to a structurally
    /// valid vault record, and sits at its canonical derived address.
    pub fn deserialize_checked(program_id: &Key, account: &AccountView) -> (r: VaultCoreResult<
        Vault,
    >)
        ensures
            r is Ok <==> spec_load_check(*program_id, *account) is None,
            r matches Err(e) ==> spec_load_check(*program_id, *account) == Some(e),
            r matches Ok(v) ==> {
                &&& decodes_to(account.data@, v)
                &&& v.wf()
                &&& v.account_type == AccountType::Vault
                &&& account.owner@ == program_id@
                &&& program_address(program_id@, spec_seeds_with_bump(v.base@, v.bump)) == Some(
                    account.key@,
                )
            },
    {
        if account.data.len() == 0 {
            return Err(VaultCoreError::UninitializedState);
        }
        if !account.owner.equals(program_id) {
            return Err(VaultCoreError::OwnershipMismatch);
        }
        let state = match decode_record(&account.data) {
            Some(v) => v,
            None => {
                return Err(VaultCoreError::MalformedEncoding);
            },
        };
        proof {
            assert((account.data@[0] == VAULT_TAG) == (state.account_type
                == AccountType::Vault));
        }
        if !state.is_struct_valid() {
            return Err(VaultCoreError::StructurallyInvalid);
        }
        let mut seeds = Self::seeds(&state.base);
        let mut bump_seed: Vec<u8> = Vec::new();
        bump_seed.push(state.bump);
        seeds.push(bump_seed);
        proof {
            assert(seeds.deep_view() =~~= spec_seeds_with_bump(state.base@, state.bump));
        }
        let expected = match create_address(&seeds, program_id) {
            Some(k) => k,
            None => {
                return Err(VaultCoreError::AddressMismatch);
            },
        };
        if !expected.equals(&account.key) {
            return Err(VaultCoreError::AddressMismatch);
        }
        Ok(state)
    }
}

} // verus!

