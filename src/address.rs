use vstd::prelude::*;

verus! {

/// The identity of an account or a program: 32 bytes.
#[derive(Clone, Copy, Debug)]
pub struct Address {
    pub bytes: [u8; 32],
}

impl View for Address {
    type V = Seq<u8>;

    open spec fn view(&self) -> Seq<u8> {
        self.bytes@
    }
}

impl Address {
    pub fn new(bytes: [u8; 32]) -> (r: Address)
        ensures
            r@ == bytes@,
    {
        Address { bytes }
    }
}

impl PartialEq for Address {
    fn eq(&self, other: &Address) -> (r: bool) {
        let mut i: usize = 0;
        while i < 32
            invariant
                i <= 32,
                self@.len() == 32,
                other@.len() == 32,
                forall|j: int| 0 <= j < i ==> self@[j] == other@[j],
            decreases 32 - i,
        {
            if self.bytes[i] != other.bytes[i] {
                return false;
            }
            i = i + 1;
        }
        proof {
            assert(self@ =~= other@);
        }
        true
    }
}

impl vstd::std_specs::cmp::PartialEqSpecImpl for Address {
    open spec fn obeys_eq_spec() -> bool {
        true
    }

    open spec fn eq_spec(&self, other: &Address) -> bool {
        self@ == other@
    }
}

/// The seed that ties a custodial account to its trade record: `b"escrow"`.
pub open spec fn escrow_seed() -> Seq<u8> {
    seq![101u8, 115u8, 99u8, 114u8, 111u8, 119u8]
}

pub fn escrow_pda_seed() -> (r: Vec<u8>)
    ensures
        r@ == escrow_seed(),
{
    let r = vec![101u8, 115u8, 99u8, 114u8, 111u8, 119u8];
    proof {
        assert(r@ =~= escrow_seed());
    }
    r
}

/// What the ledger's program-address search yields for the given seeds and
/// program: the first off-curve address and its bump, or nothing.
pub uninterp spec fn program_address_search(seeds: Seq<Seq<u8>>, program_id: Seq<u8>) -> Option<(Seq<u8>, u8)>;

/// The search result seen through the addresses' byte views.
pub open spec fn found_view(found: Option<(Address, u8)>) -> Option<(Seq<u8>, u8)> {
    match found {
        Some((a, bump)) => Some((a@, bump)),
        None => None,
    }
}

/// Whether the search found exactly the address `key`.
pub open spec fn derives(found: Option<(Seq<u8>, u8)>, key: Seq<u8>) -> bool {
    match found {
        Some((a, _)) => a == key,
        None => false,
    }
}

/// The bump the search found, if it found one.
pub open spec fn found_bump(found: Option<(Seq<u8>, u8)>) -> u8 {
    match found {
        Some((_, bump)) => bump,
        None => 0,
    }
}

/// The derivation seeds of the custodial account of the trade record at `escrow`.
pub open spec fn custodial_seeds(escrow: Seq<u8>) -> Seq<Seq<u8>> {
    seq![escrow_seed(), escrow]
}

/// Relies on `Pubkey::try_find_program_address` of solana_program (re-exported
/// by anchor_lang): the result is a function of the seeds and the program id,
/// `None` when no bump seed gives an off-curve address.
#[verifier::external_body]
pub(crate) fn try_find_program_address(seed: &Vec<u8>, escrow: &Address, program_id: &Address) -> (r:
    Option<(Address, u8)>)
    ensures
        found_view(r) == program_address_search(seq![seed@, escrow@], program_id@),
{
    let program = anchor_lang::prelude::Pubkey::new_from_array(program_id.bytes);
    match anchor_lang::prelude::Pubkey::try_find_program_address(&[&seed[..], &escrow.bytes[..]], &program) {
        Some((key, bump)) => Some((Address { bytes: key.to_bytes() }, bump)),
        None => None,
    }
}

/// Derives the custodial authority of the trade record at `escrow`.
pub fn find_custodial_authority(escrow: &Address, program_id: &Address) -> (r: Option<(Address, u8)>)
    ensures
        found_view(r) == program_address_search(custodial_seeds(escrow@), program_id@),
{
    let seed = escrow_pda_seed();
    try_find_program_address(&seed, escrow, program_id)
}

} // verus!
