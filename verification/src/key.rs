//! Identity keys.
//!
//! An identity is an opaque 256-bit key. The engine only ever compares keys
//! for equality; it never inspects their structure. The host runtime is
//! responsible for mapping its own key representation onto the four words.

use vstd::prelude::*;

verus! {

/// A 256-bit identity key, stored as four little-endian 64-bit words.
///
/// The all-zero key is the sentinel for "no identity"; see
/// [`Pubkey::default`].
#[derive(Clone, Copy, Debug, Hash, PartialEq, Eq, Structural)]
pub struct Pubkey {
    /// Bits 0..64.
    pub w0: u64,
    /// Bits 64..128.
    pub w1: u64,
    /// Bits 128..192.
    pub w2: u64,
    /// Bits 192..256.
    pub w3: u64,
}

impl Pubkey {
    /// The all-zero key, used as the sentinel for "no identity".
    pub open spec fn empty() -> Pubkey {
        Pubkey { w0: 0, w1: 0, w2: 0, w3: 0 }
    }

    /// Builds a key out of its four words.
    pub fn new(w0: u64, w1: u64, w2: u64, w3: u64) -> (r: Pubkey)
        ensures
            r == (Pubkey { w0, w1, w2, w3 }),
    {
        Pubkey { w0, w1, w2, w3 }
    }
}

/// Copies a key list element by element.
pub fn copy_keys(keys: &Vec<Pubkey>) -> (r: Vec<Pubkey>)
    ensures
        r@ == keys@,
{
    let mut out: Vec<Pubkey> = Vec::new();
    let mut i: usize = 0;
    while i < keys.len()
        invariant
            i <= keys@.len(),
            out@ =~= keys@.take(i as int),
        decreases keys@.len() - i,
    {
        proof {
            assert(keys@.take(i + 1) =~= keys@.take(i as int).push(keys@[i as int]));
        }
        out.push(keys[i]);
        i = i + 1;
    }
    proof {
        assert(keys@.take(keys@.len() as int) =~= keys@);
    }
    out
}

impl Default for Pubkey {
    /// The sentinel key.
    fn default() -> (r: Pubkey)
        ensures
            r == Pubkey::empty(),
    {
        Pubkey { w0: 0, w1: 0, w2: 0, w3: 0 }
    }
}

} // verus!
