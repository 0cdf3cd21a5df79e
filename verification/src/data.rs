//! Fixed-layout binary codec for escrow account state.
//!
//! An escrow account's data is exactly [`CONTRACT_SIZE`] bytes: one tag
//! byte followed by the initiator, gatekeeper and provider identity keys
//! in that order.  Decoding is all-or-nothing: any other length is
//! rejected with [`CodecError::InvalidSize`].

use vstd::prelude::*;

use crate::pubkey::{Pubkey, PUBKEY_SIZE};
use crate::AccountType;

verus! {

/// Escrow account data size: account type tag (1 byte) plus the three
/// identity keys (32 bytes each).
pub const CONTRACT_SIZE: usize = 1 + 3 * 32;

/// Errors raised by the codec.
#[derive(Copy, Clone, PartialEq, Eq, Structural, Debug)]
pub enum CodecError {
    /// The byte length is not exactly [`CONTRACT_SIZE`].
    InvalidSize,
}

/// The identities recorded in an escrow account.
#[derive(Debug)]
pub struct ContractData {
    pub initiator_id: Pubkey,
    pub gatekeeper_id: Pubkey,
    pub provider_id: Pubkey,
}

/// Mathematical model of [`ContractData`]: the three identities as byte
/// sequences.
#[verifier::ext_equal]
pub struct ContractDataView {
    pub initiator_id: Seq<u8>,
    pub gatekeeper_id: Seq<u8>,
    pub provider_id: Seq<u8>,
}

impl View for ContractData {
    type V = ContractDataView;

    open spec fn view(&self) -> ContractDataView {
        ContractDataView {
            initiator_id: self.initiator_id@,
            gatekeeper_id: self.gatekeeper_id@,
            provider_id: self.provider_id@,
        }
    }
}

impl ContractDataView {
    /// Well-formedness: each identity holds exactly 32 bytes.
    pub open spec fn wf(&self) -> bool {
        &&& self.initiator_id.len() == PUBKEY_SIZE
        &&& self.gatekeeper_id.len() == PUBKEY_SIZE
        &&& self.provider_id.len() == PUBKEY_SIZE
    }
}

impl ContractData {
    /// Well-formedness: each identity key is well-formed.
    pub open spec fn wf(&self) -> bool {
        self@.wf()
    }

    /// Writes the encoding into the first [`CONTRACT_SIZE`] bytes of `dst`:
    /// the `Contract` (active) tag, then the three identities in fixed
    /// order.  Bytes past the encoding are left untouched.
    pub fn copy_to_bytes(
        dst: &mut Vec<u8>,
        initiator_id: &Pubkey,
        gatekeeper_id: &Pubkey,
        provider_id: &Pubkey,
    )
        requires
            old(dst)@.len() >= CONTRACT_SIZE,
            initiator_id.wf(),
            gatekeeper_id.wf(),
            provider_id.wf(),
        ensures
            final(dst)@.len() == old(dst)@.len(),
            final(dst)@.subrange(0, CONTRACT_SIZE as int)
                == spec_encode(initiator_id@, gatekeeper_id@, provider_id@),
            final(dst)@.skip(CONTRACT_SIZE as int) == old(dst)@.skip(CONTRACT_SIZE as int),
    {
        let ghost orig: Seq<u8> = dst@;
        dst[0] = AccountType::Contract.tag_byte();
        copy_key_at(dst, 1, initiator_id);
        copy_key_at(dst, 1 + PUBKEY_SIZE, gatekeeper_id);
        copy_key_at(dst, 1 + 2 * PUBKEY_SIZE, provider_id);
        proof {
            assert(dst@.subrange(0, CONTRACT_SIZE as int)
                =~= spec_encode(initiator_id@, gatekeeper_id@, provider_id@));
            assert(dst@.skip(CONTRACT_SIZE as int) =~= orig.skip(CONTRACT_SIZE as int));
        }
    }

    /// Decodes an escrow account from its bytes.  Fails with
    /// [`CodecError::InvalidSize`] if and only if the length is not exactly
    /// [`CONTRACT_SIZE`]; otherwise reads the tag (ignored) and the three
    /// identities positionally.
    pub fn from_bytes(data: &[u8]) -> (r: Result<ContractData, CodecError>)
        ensures
            match r {
                Ok(cd) => {
                    &&& data@.len() == CONTRACT_SIZE
                    &&& cd@ == spec_decode(data@)
                    &&& cd.wf()
                },
                Err(e) => {
                    &&& data@.len() != CONTRACT_SIZE
                    &&& e == CodecError::InvalidSize
                },
            },
    {
        if data.len() != CONTRACT_SIZE {
            return Err(CodecError::InvalidSize);
        }
        let initiator_id = read_key_at(data, 1);
        let gatekeeper_id = read_key_at(data, 1 + PUBKEY_SIZE);
        let provider_id = read_key_at(data, 1 + 2 * PUBKEY_SIZE);
        Ok(ContractData { initiator_id, gatekeeper_id, provider_id })
    }
}

impl Clone for ContractData {
    /// Cloning keeps the three identities.
    fn clone(&self) -> (r: ContractData)
        ensures
            r@ == self@,
    {
        ContractData {
            initiator_id: self.initiator_id.clone(),
            gatekeeper_id: self.gatekeeper_id.clone(),
            provider_id: self.provider_id.clone(),
        }
    }
}

impl PartialEq for ContractData {
    fn eq(&self, other: &ContractData) -> (r: bool) {
        let r = self.initiator_id == other.initiator_id
            && self.gatekeeper_id == other.gatekeeper_id
            && self.provider_id == other.provider_id;
        proof {
            if r {
                assert(self@ =~= other@);
            }
        }
        r
    }
}

impl vstd::std_specs::cmp::PartialEqSpecImpl for ContractData {
    open spec fn obeys_eq_spec() -> bool {
        true
    }

    open spec fn eq_spec(&self, other: &ContractData) -> bool {
        self@ == other@
    }
}

/// The encoding of three identities: the active tag byte followed by the
/// initiator, gatekeeper and provider keys.
pub open spec fn spec_encode(
    initiator_id: Seq<u8>,
    gatekeeper_id: Seq<u8>,
    provider_id: Seq<u8>,
) -> Seq<u8> {
    seq![AccountType::Contract.spec_tag_byte()] + initiator_id + gatekeeper_id + provider_id
}

/// The identities read positionally from a byte sequence of the exact
/// contract size; the tag byte is ignored.
pub open spec fn spec_decode(bytes: Seq<u8>) -> ContractDataView
    recommends
        bytes.len() == CONTRACT_SIZE,
{
    ContractDataView {
        initiator_id: bytes.subrange(1, 1 + PUBKEY_SIZE as int),
        gatekeeper_id: bytes.subrange(
            1 + PUBKEY_SIZE as int,
            1 + 2 * PUBKEY_SIZE as int,
        ),
        provider_id: bytes.subrange(
            1 + 2 * PUBKEY_SIZE as int,
            1 + 3 * PUBKEY_SIZE as int,
        ),
    }
}

/// Round trip: decoding the encoding of any three identities yields the
/// active account type and the same three identities.
pub proof fn lemma_encode_decode_round_trip(
    initiator_id: Seq<u8>,
    gatekeeper_id: Seq<u8>,
    provider_id: Seq<u8>,
)
    requires
        initiator_id.len() == PUBKEY_SIZE,
        gatekeeper_id.len() == PUBKEY_SIZE,
        provider_id.len() == PUBKEY_SIZE,
    ensures
        spec_encode(initiator_id, gatekeeper_id, provider_id).len() == CONTRACT_SIZE,
        AccountType::spec_from_byte(spec_encode(initiator_id, gatekeeper_id, provider_id)[0])
            == AccountType::Contract,
        spec_decode(spec_encode(initiator_id, gatekeeper_id, provider_id))
            == (ContractDataView { initiator_id, gatekeeper_id, provider_id }),
{
    let enc = spec_encode(initiator_id, gatekeeper_id, provider_id);
    assert(enc.subrange(1, 1 + PUBKEY_SIZE as int) =~= initiator_id);
    assert(enc.subrange(1 + PUBKEY_SIZE as int, 1 + 2 * PUBKEY_SIZE as int) =~= gatekeeper_id);
    assert(enc.subrange(1 + 2 * PUBKEY_SIZE as int, 1 + 3 * PUBKEY_SIZE as int)
        =~= provider_id);
}

/// Writes a key's 32 bytes into `dst` starting at `at`, leaving every other
/// byte unchanged.
fn copy_key_at(dst: &mut Vec<u8>, at: usize, key: &Pubkey)
    requires
        key.wf(),
        at + PUBKEY_SIZE <= usize::MAX,
        at + PUBKEY_SIZE <= old(dst)@.len(),
    ensures
        final(dst)@.len() == old(dst)@.len(),
        final(dst)@.subrange(at as int, at as int + PUBKEY_SIZE) == key@,
        forall|i: int|
            0 <= i < old(dst)@.len() && !(at <= i < at + PUBKEY_SIZE)
                ==> final(dst)@[i] == old(dst)@[i],
{
    let bytes = key.as_bytes();
    let mut i: usize = 0;
    while i < PUBKEY_SIZE
        invariant
            i <= PUBKEY_SIZE,
            at + PUBKEY_SIZE <= usize::MAX,
            key.wf(),
            bytes@ == key@,
            at + PUBKEY_SIZE <= dst@.len(),
            dst@.len() == old(dst)@.len(),
            dst@.subrange(at as int, at as int + i) == key@.subrange(0, i as int),
            forall|j: int|
                0 <= j < old(dst)@.len() && !(at <= j < at + i)
                    ==> dst@[j] == old(dst)@[j],
        decreases PUBKEY_SIZE - i,
    {
        dst[at + i] = bytes[i];
        proof {
            assert(dst@.subrange(at as int, at as int + (i + 1))
                =~= key@.subrange(0, i as int + 1));
        }
        i = i + 1;
    }
    proof {
        assert(dst@.subrange(at as int, at as int + PUBKEY_SIZE)
            =~= key@.subrange(0, PUBKEY_SIZE as int));
        assert(key@.subrange(0, PUBKEY_SIZE as int) =~= key@);
    }
}

/// Reads the 32-byte key stored in `data` at offset `at`.
fn read_key_at(data: &[u8], at: usize) -> (r: Pubkey)
    requires
        at + PUBKEY_SIZE <= usize::MAX,
        at + PUBKEY_SIZE <= data@.len(),
    ensures
        r@ == data@.subrange(at as int, at as int + PUBKEY_SIZE),
        r.wf(),
{
    let mut bytes: Vec<u8> = Vec::new();
    let mut i: usize = 0;
    while i < PUBKEY_SIZE
        invariant
            i <= PUBKEY_SIZE,
            at + PUBKEY_SIZE <= usize::MAX,
            at + PUBKEY_SIZE <= data@.len(),
            bytes@ == data@.subrange(at as int, at as int + i),
        decreases PUBKEY_SIZE - i,
    {
        bytes.push(data[at + i]);
        proof {
            assert(bytes@ =~= data@.subrange(at as int, at as int + (i + 1)));
        }
        i = i + 1;
    }
    Pubkey::new(bytes.as_slice())
}

} // verus!
