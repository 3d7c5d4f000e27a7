//! A 32-byte identity key: the library's plain-value form of the ledger's
//! public-key addresses.

use vstd::prelude::*;

verus! {

broadcast use vstd::array::group_array_axioms;

/// The byte sequence of the all-zero key, which the wire encoding uses as
/// the "absent" sentinel for optional keys.
pub open spec fn zero_key_bytes() -> Seq<u8> {
    Seq::new(32, |i: int| 0u8)
}

/// A 32-byte identity key (a base account, a mint, an admin principal, or an
/// address in the ledger's address space).
#[derive(Clone, Copy, Debug, PartialEq, Eq)]
pub struct Key {
    /// The raw key bytes.
    pub bytes: [u8; 32],
}

impl View for Key {
    type V = Seq<u8>;

    open spec fn view(&self) -> Seq<u8> {
        self.bytes@
    }
}

impl Key {
    /// Wraps raw bytes as a key.
    pub fn new(bytes: [u8; 32]) -> (k: Key)
        ensures
            k@ == bytes@,
    {
        Key { bytes }
    }

    /// The all-zero key.
    pub fn zeroed() -> (k: Key)
        ensures
            k@ == zero_key_bytes(),
    {
        let bytes: [u8; 32] = [0u8; 32];
        proof {
            assert(bytes@ =~= zero_key_bytes());
        }
        Key { bytes }
    }

    /// Byte-wise equality of two keys.
    pub fn equals(&self, other: &Key) -> (r: bool)
        ensures
            r == (self@ == other@),
    {
        let mut i: usize = 0;
        while i < 32
            invariant
                i <= 32,
                forall|j: int| 0 <= j < i ==> self.bytes@[j] == other.bytes@[j],
            decreases 32 - i,
        {
            if self.bytes[i] != other.bytes[i] {
                proof {
                    assert(self@[i as int] != other@[i as int]);
                }
                return false;
            }
            i += 1;
        }
        proof {
            assert(self@ =~= other@);
        }
        true
    }

    /// Whether this key is the all-zero sentinel.
    pub fn is_zeroed(&self) -> (r: bool)
        ensures
            r == (self@ == zero_key_bytes()),
    {
        let mut i: usize = 0;
        while i < 32
            invariant
                i <= 32,
                forall|j: int| 0 <= j < i ==> self.bytes@[j] == 0u8,
            decreases 32 - i,
        {
            if self.bytes[i] != 0 {
                proof {
                    assert(self@[i as int] != zero_key_bytes()[i as int]);
                }
                return false;
            }
            i += 1;
        }
        proof {
            assert(self@ =~= zero_key_bytes());
        }
        true
    }
}

} // verus!
