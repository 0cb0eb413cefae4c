use vstd::prelude::*;

verus! {

/// An identity that may own wallets, create proposals and sign approvals.
///
/// A key is an opaque 256-bit value held as four 64-bit words; the state
/// machine only ever compares keys for equality. Verification is performed
/// by the hosting environment: the operations trust the identity they are
/// handed.
#[derive(Clone, Copy, PartialEq, Eq, PartialOrd, Ord, Structural, Debug)]
pub struct Pubkey {
    pub w0: u64,
    pub w1: u64,
    pub w2: u64,
    pub w3: u64,
}

impl Pubkey {
    /// Builds a key from its four 64-bit words.
    pub fn new(w0: u64, w1: u64, w2: u64, w3: u64) -> (r: Pubkey)
        ensures
            r == (Pubkey { w0, w1, w2, w3 }),
    {
        Pubkey { w0, w1, w2, w3 }
    }
}

/// Linear membership scan, the only question the state machine ever asks of
/// a key list.
pub fn key_in(keys: &Vec<Pubkey>, key: &Pubkey) -> (r: bool)
    ensures
        r == keys@.contains(*key),
{
    let mut i: usize = 0;
    while i < keys.len()
        invariant
            0 <= i <= keys@.len(),
            forall|j: int| 0 <= j < i ==> keys@[j] != *key,
        decreases keys@.len() - i,
    {
        if keys[i] == *key {
            return true;
        }
        i = i + 1;
    }
    false
}

} // verus!
