use vstd::prelude::*;

use anchor_lang::prelude::Pubkey;

verus! {

/// A 32-byte account address (a wallet key, a mint, a derived record slot).
#[derive(Clone, Copy, Debug)]
pub struct Address {
    pub bytes: [u8; 32],
}

impl View for Address {
    type V = Seq<u8>;

    open spec fn view(&self) -> Seq<u8> {
        self.bytes@
    }
}

impl PartialEq for Address {
    fn eq(&self, o: &Address) -> (r: bool) {
        let mut i: usize = 0;
        while i < 32
            invariant
                i <= 32,
                self.bytes@.len() == 32,
                o.bytes@.len() == 32,
                forall|j: int| 0 <= j < i ==> self.bytes@[j] == o.bytes@[j],
            decreases 32 - i,
        {
            if self.bytes[i] != o.bytes[i] {
                return false;
            }
            i = i + 1;
        }
        proof {
            assert(self.bytes@ =~= o.bytes@);
        }
        true
    }
}

impl vstd::std_specs::cmp::PartialEqSpecImpl for Address {
    open spec fn obeys_eq_spec() -> bool {
        true
    }

    open spec fn eq_spec(&self, o: &Address) -> bool {
        self@ == o@
    }
}

/// The seed prefix that separates identity-record addresses from any other
/// address derived by the program: the bytes of "metaid".
pub open spec fn record_seed() -> Seq<u8> {
    seq![109u8, 101u8, 116u8, 97u8, 105u8, 100u8]
}

/// The program-derived address, with its bump, that the address search finds
/// for the given seeds under the given program, if it finds one.
pub uninterp spec fn program_address_of(seeds: Seq<Seq<u8>>, program_id: Seq<u8>) -> Option<(Seq<u8>, u8)>;

/// The identity-record slot of `owner` under `program_id`: derived from the
/// fixed prefix and the owner's key.
pub open spec fn record_slot_of(program_id: Seq<u8>, owner: Seq<u8>) -> Option<(Seq<u8>, u8)> {
    program_address_of(seq![record_seed(), owner], program_id)
}

/// Relies on `Pubkey::try_find_program_address` (solana-program, re-exported by
/// anchor-lang): it tries the bump seeds from 255 down and returns the first
/// address that is off the curve, with its bump, or `None`; the outcome is a
/// function of the seeds and the program id alone.
#[verifier::external_body]
fn try_find_program_address(prefix: &[u8], owner: &[u8; 32], program_id: &[u8; 32]) -> (r: Option<([u8; 32], u8)>)
    ensures
        match r {
            Some(p) => program_address_of(seq![prefix@, owner@], program_id@) == Some((p.0@, p.1)),
            None => program_address_of(seq![prefix@, owner@], program_id@) is None,
        },
{
    let program = Pubkey::new_from_array(*program_id);
    match Pubkey::try_find_program_address(&[prefix, &owner[..]], &program) {
        Some((a, bump)) => Some((a.to_bytes(), bump)),
        None => None,
    }
}

/// Derives the identity-record slot of `owner` under `program_id`, with its bump.
pub fn derive_record_slot(program_id: &Address, owner: &Address) -> (r: Option<(Address, u8)>)
    ensures
        match r {
            Some(p) => record_slot_of(program_id@, owner@) == Some((p.0@, p.1)),
            None => record_slot_of(program_id@, owner@) is None,
        },
{
    let seed: [u8; 6] = [109u8, 101u8, 116u8, 97u8, 105u8, 100u8];
    assert(seed@ =~= record_seed());
    match try_find_program_address(&seed, &owner.bytes, &program_id.bytes) {
        Some((a, bump)) => Some((Address { bytes: a }, bump)),
        None => None,
    }
}

} // verus!
