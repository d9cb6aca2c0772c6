//! The program's own authority over escrowed funds: an address derived from a
//! fixed seed and the program's identifier, for which no private key exists.

use crate::address::Address;
use anchor_lang::prelude::Pubkey;
use vstd::prelude::*;

verus! {

/// The address and bump seed that `Pubkey::try_find_program_address` derives
/// from one seed and a program identifier, or `None` where it finds none.
pub uninterp spec fn program_address(seed: Seq<u8>, program_id: Seq<u8>) -> Option<(Seq<u8>, u8)>;

/// Calls `Pubkey::try_find_program_address` with the single seed `seed`.
/// Nothing is proved of it: the contract only gives the outcome its name,
/// which is sound because the derivation reads nothing but its arguments.
#[verifier::external_body]
fn find_program_address(seed: &[u8], program_id: &Address) -> (r: Option<(Address, u8)>)
    ensures
        r matches Some(found) ==> program_address(seed@, program_id@) == Some((found.0@, found.1)),
        r is None ==> program_address(seed@, program_id@) is None,
{
    let id = Pubkey::new_from_array(program_id.bytes);
    match Pubkey::try_find_program_address(&[seed], &id) {
        Some((key, bump)) => Some((Address { bytes: key.to_bytes() }, bump)),
        None => None,
    }
}

/// The seed from which the vault authority is derived: the ASCII bytes of
/// `escrow`.
pub open spec fn escrow_pda_seed() -> Seq<u8> {
    seq![101u8, 115u8, 99u8, 114u8, 111u8, 119u8]
}

/// The authority under which a program holds escrowed funds. A value of this
/// type exists only as the outcome of the derivation, so whoever holds one
/// holds the address that the program, and nobody else, can sign for.
#[derive(Clone, Copy, Debug)]
pub struct VaultAuthority {
    program_id: Address,
    address: Address,
    bump: u8,
}

impl VaultAuthority {
    #[verifier::type_invariant]
    spec fn is_derived(self) -> bool {
        program_address(escrow_pda_seed(), self.program_id@) == Some((self.address@, self.bump))
    }

    /// The program that the authority belongs to.
    pub closed spec fn spec_program_id(self) -> Address {
        self.program_id
    }

    /// The derived address.
    pub closed spec fn spec_address(self) -> Address {
        self.address
    }

    /// The bump seed that completes the derivation.
    pub closed spec fn spec_bump(self) -> u8 {
        self.bump
    }

    /// Derives the authority of the program `program_id`. It is `None`
    /// exactly where the derivation finds no address.
    pub fn find(program_id: Address) -> (r: Option<VaultAuthority>)
        ensures
            r is Some <==> program_address(escrow_pda_seed(), program_id@) is Some,
            r matches Some(found) ==> found.spec_program_id() == program_id
                && program_address(escrow_pda_seed(), program_id@) == Some(
                (found.spec_address()@, found.spec_bump()),
            ),
    {
        let seed: [u8; 6] = [101u8, 115u8, 99u8, 114u8, 111u8, 119u8];
        proof {
            assert(seed@ =~= escrow_pda_seed());
        }
        match find_program_address(seed.as_slice(), &program_id) {
            Some((address, bump)) => Some(VaultAuthority { program_id, address, bump }),
            None => None,
        }
    }

    /// The program that the authority belongs to.
    pub fn program_id(&self) -> (r: Address)
        ensures
            r == self.spec_program_id(),
    {
        self.program_id
    }

    /// The derived address: the one that the derivation gives for the
    /// program's identifier.
    pub fn address(&self) -> (r: Address)
        ensures
            r == self.spec_address(),
            program_address(escrow_pda_seed(), self.spec_program_id()@) == Some(
                (r@, self.spec_bump()),
            ),
    {
        proof {
            use_type_invariant(self);
        }
        self.address
    }

    /// The bump seed with which the program signs for the address.
    pub fn bump(&self) -> (r: u8)
        ensures
            r == self.spec_bump(),
            program_address(escrow_pda_seed(), self.spec_program_id()@) == Some(
                (self.spec_address()@, r),
            ),
    {
        proof {
            use_type_invariant(self);
        }
        self.bump
    }
}

} // verus!
