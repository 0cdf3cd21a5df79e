//! Fixed-width identity keys.
//!
//! An identity key is a 32-byte public identifier used both as an account
//! address and as a signer credential.

use vstd::prelude::*;

verus! {

/// Number of bytes in an identity key.
pub const PUBKEY_SIZE: usize = 32;

/// A fixed-width identity key.  A well-formed key always holds exactly
/// [`PUBKEY_SIZE`] bytes.
#[derive(Debug)]
pub struct Pubkey {
    bytes: Vec<u8>,
}

impl View for Pubkey {
    type V = Seq<u8>;

    closed spec fn view(&self) -> Seq<u8> {
        self.bytes@
    }
}

impl Pubkey {
    /// Well-formedness: the key holds exactly 32 bytes.  Every key the
    /// library constructs satisfies this; [`Pubkey::lemma_wf`] recovers it.
    pub open spec fn wf(&self) -> bool {
        self@.len() == PUBKEY_SIZE
    }

    /// Invariant: a key always holds exactly 32 bytes, so every key the
    /// library constructs is well-formed.  `use_type_invariant` recovers
    /// this fact for any key in scope.
    #[verifier::type_invariant]
    pub open spec fn inv(self) -> bool {
        self@.len() == PUBKEY_SIZE
    }

    /// Builds a key from exactly 32 bytes.
    pub fn new(bytes: &[u8]) -> (r: Pubkey)
        requires
            bytes@.len() == PUBKEY_SIZE,
        ensures
            r@ == bytes@,
            r.wf(),
    {
        let mut copied: Vec<u8> = Vec::new();
        let mut i: usize = 0;
        while i < bytes.len()
            invariant
                i <= bytes@.len(),
                copied@ == bytes@.subrange(0, i as int),
            decreases bytes@.len() - i,
        {
            copied.push(bytes[i]);
            i = i + 1;
        }
        proof {
            assert(copied@ =~= bytes@);
        }
        Pubkey { bytes: copied }
    }

    /// The raw bytes of the key.
    pub fn as_bytes(&self) -> (r: &Vec<u8>)
        ensures
            r@ == self@,
    {
        &self.bytes
    }
}

impl Clone for Pubkey {
    /// Cloning a key keeps its bytes.
    fn clone(&self) -> (r: Pubkey)
        ensures
            r@ == self@,
    {
        proof {
            use_type_invariant(self);
        }
        let mut copied: Vec<u8> = Vec::new();
        let mut i: usize = 0;
        while i < self.bytes.len()
            invariant
                i <= self.bytes@.len(),
                copied@ == self.bytes@.subrange(0, i as int),
            decreases self.bytes@.len() - i,
        {
            copied.push(self.bytes[i]);
            i = i + 1;
        }
        proof {
            assert(copied@ =~= self.bytes@);
        }
        Pubkey { bytes: copied }
    }
}

impl PartialEq for Pubkey {
    fn eq(&self, other: &Pubkey) -> (r: bool) {
        let r = self.bytes == other.bytes;
        proof {
            if r {
                assert(self.bytes@ =~= other.bytes@);
            } else {
                if self@ == other@ {
                    assert(forall|i: int|
                        0 <= i < self.bytes@.len() ==> self.bytes@[i] == other.bytes@[i]);
                    assert(false);
                }
            }
        }
        r
    }
}

impl vstd::std_specs::cmp::PartialEqSpecImpl for Pubkey {
    open spec fn obeys_eq_spec() -> bool {
        true
    }

    open spec fn eq_spec(&self, other: &Pubkey) -> bool {
        self@ == other@
    }
}

} // verus!
