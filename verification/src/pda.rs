//! Derivation of deterministic ("program derived") addresses, supplied by
//! the ledger runtime.  The core only calls the derivation and compares the
//! outcome; what the hash yields is named, never restated.

use vstd::prelude::*;

use crate::key::Key;

verus! {

/// The most seeds a derivation accepts; one more is refused.
pub const MAX_SEEDS: usize = 16;

/// The longest single seed a derivation accepts.
pub const MAX_SEED_LEN: usize = 32;

/// The address that the ledger's derivation function yields for a program
/// identity and a seed set, or `None` where the derivation fails (too many
/// or too long seeds, or a candidate that falls on the curve).  The outcome
/// is a deterministic function of the two arguments alone.
pub uninterp spec fn program_address(program_id: Seq<u8>, seeds: Seq<Seq<u8>>) -> Option<Seq<u8>>;

/// Relies on solana_program's `Pubkey::create_program_address`: a
/// deterministic, domain-separated hash of the seeds and the program
/// identity into the address space, `Err` exactly when the seed set is
/// refused or the candidate falls on the curve.
#[verifier::external_body]
pub fn create_address(seeds: &Vec<Vec<u8>>, program_id: &Key) -> (r: Option<Key>)
    ensures
        r matches Some(k) ==> program_address(program_id@, seeds.deep_view()) == Some(k@),
        r is None ==> program_address(program_id@, seeds.deep_view()) is None,
{
    let seed_slices: Vec<&[u8]> = seeds.iter().map(|s| s.as_slice()).collect();
    let pid = solana_program::pubkey::Pubkey::new_from_array(program_id.bytes);
    match solana_program::pubkey::Pubkey::create_program_address(&seed_slices, &pid) {
        Ok(p) => Some(Key { bytes: p.to_bytes() }),
        Err(_) => None,
    }
}

/// Whether `r` is the outcome of the bump scan of the address derivation
/// for `program_id` and `seeds`: the highest bump byte (255 down to 1)
/// whose derivation succeeds, together with the address it derives, or
/// `None` where every bump byte down to 1 is refused.  At most one `r`
/// satisfies this for given arguments ([`lemma_found_address_unique`]), so
/// the scan's outcome is a function of the two arguments alone.
pub open spec fn finds_program_address(
    program_id: Seq<u8>,
    seeds: Seq<Seq<u8>>,
    r: Option<(Key, u8)>,
) -> bool {
    match r {
        Some(found) => {
            &&& 1 <= found.1
            &&& program_address(program_id, seeds.push(seq![found.1])) == Some(found.0@)
            &&& forall|b: u8|
                found.1 < b ==> program_address(program_id, seeds.push(seq![b])) is None
        },
        None => forall|b: u8|
            1 <= b ==> program_address(program_id, seeds.push(seq![b])) is None,
    }
}

/// Law: the bump scan's outcome is deterministic — any two outcomes for
/// the same program identity and seed set are equal.
pub proof fn lemma_found_address_unique(
    program_id: Seq<u8>,
    seeds: Seq<Seq<u8>>,
    r1: Option<(Key, u8)>,
    r2: Option<(Key, u8)>,
)
    requires
        finds_program_address(program_id, seeds, r1),
        finds_program_address(program_id, seeds, r2),
    ensures
        r1 == r2,
{
    broadcast use vstd::array::group_array_axioms;

    match (r1, r2) {
        (Some(f1), Some(f2)) => {
            if f1.1 < f2.1 {
                assert(program_address(program_id, seeds.push(seq![f2.1])) is None);
                assert(false);
            }
            if f2.1 < f1.1 {
                assert(program_address(program_id, seeds.push(seq![f1.1])) is None);
                assert(false);
            }
            assert(f1.0@ == f2.0@);
            assert(f1.0.bytes =~= f2.0.bytes);
        },
        (Some(f1), None) => {
            assert(program_address(program_id, seeds.push(seq![f1.1])) is None);
            assert(false);
        },
        (None, Some(f2)) => {
            assert(program_address(program_id, seeds.push(seq![f2.1])) is None);
            assert(false);
        },
        (None, None) => {},
    }
}

/// Relies on solana_program's `Pubkey::try_find_program_address`: it scans
/// bump bytes from 255 down to 1 and returns the first address and bump
/// for which `create_program_address` on the seeds plus that bump byte
/// succeeds, so a returned bump is the highest viable one and `None` comes
/// back only when every bump byte was refused.  Under the seed limits in
/// the `requires`, the only refusal is the on-curve case, so the scan
/// never stops early.
#[verifier::external_body]
pub fn find_address(seeds: &Vec<Vec<u8>>, program_id: &Key) -> (r: Option<(Key, u8)>)
    requires
        seeds@.len() < MAX_SEEDS,
        forall|i: int| 0 <= i < seeds@.len() ==> seeds@[i]@.len() <= MAX_SEED_LEN,
    ensures
        finds_program_address(program_id@, seeds.deep_view(), r),
{
    let seed_slices: Vec<&[u8]> = seeds.iter().map(|s| s.as_slice()).collect();
    let pid = solana_program::pubkey::Pubkey::new_from_array(program_id.bytes);
    match solana_program::pubkey::Pubkey::try_find_program_address(&seed_slices, &pid) {
        Some((p, bump)) => Some((Key { bytes: p.to_bytes() }, bump)),
        None => None,
    }
}

} // verus!
