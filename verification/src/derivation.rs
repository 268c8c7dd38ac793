use vstd::prelude::*;
use crate::address::{Address, address_eq};

verus! {

/// What `Pubkey::create_program_address` returns for the seed list
/// `["vault", owner, [bump]]` under the given program identity: `Some` of the
/// 32 derived bytes when the platform hash of the seeds falls off the ed25519
/// curve, `None` when it falls on the curve. A pure function of its arguments.
pub uninterp spec fn vault_seed_address(owner: Seq<u8>, bump: u8, program: Seq<u8>) -> Option<
    Seq<u8>,
>;

/// Whether 32 bytes decompress to an ed25519 curve point, as
/// `Pubkey::is_on_curve` decides it. An on-curve address can have a matching
/// private key; an off-curve one cannot, so nobody can sign as it.
pub uninterp spec fn on_curve(addr: Seq<u8>) -> bool;

/// Relies on `anchor_lang::prelude::Pubkey::create_program_address` with the
/// seed list `["vault", owner, [bump]]`: it hashes the seeds together with the
/// program identity, returns the hash exactly when it is off the ed25519
/// curve, and refuses it (`InvalidSeeds`) exactly when it is on the curve.
/// With three seeds of at most 32 bytes each, no other failure is possible.
#[verifier::external_body]
fn create_vault_address(owner: &Address, bump: u8, program: &Address) -> (r: Option<Address>)
    ensures
        match r {
            Some(a) => vault_seed_address(owner@, bump, program@) == Some(a@) && !on_curve(a@),
            None => vault_seed_address(owner@, bump, program@) is None,
        },
{
    let program_id = anchor_lang::prelude::Pubkey::new_from_array(program.bytes);
    let seeds: &[&[u8]] = &[b"vault", owner.bytes.as_ref(), &[bump]];
    match anchor_lang::prelude::Pubkey::create_program_address(seeds, &program_id) {
        Ok(pk) => Some(Address { bytes: pk.to_bytes() }),
        Err(_) => None,
    }
}

/// The outcome of searching the bump downward from `bump` to 0: the first
/// combination whose hash is off-curve, together with the bump that made it.
pub open spec fn spec_derive_from(owner: Seq<u8>, program: Seq<u8>, bump: u8) -> Option<
    (Seq<u8>, u8),
>
    decreases bump,
{
    match vault_seed_address(owner, bump, program) {
        Some(a) => Some((a, bump)),
        None => if bump == 0 {
            None
        } else {
            spec_derive_from(owner, program, (bump - 1) as u8)
        },
    }
}

/// The custody address and bump the derivation yields for an owner identity
/// under a program identity: the whole search, started at 255.
pub open spec fn spec_derive(owner: Seq<u8>, program: Seq<u8>) -> Option<(Seq<u8>, u8)> {
    spec_derive_from(owner, program, 255)
}

/// Search for the custody address of an owner: iterate the candidate bump
/// downward from 255 and accept the first combination whose hash fails the
/// curve test. The result is pinned to `spec_derive`, a pure function of owner
/// and program, so any two runs on the same identities agree; and an accepted
/// address is never on the curve, so no private key can ever sign for it.
pub fn derive_vault_address(owner: &Address, program: &Address) -> (r: Option<(Address, u8)>)
    ensures
        match r {
            Some(p) => spec_derive(owner@, program@) == Some((p.0@, p.1)) && !on_curve(p.0@),
            None => spec_derive(owner@, program@) is None,
        },
{
    let mut bump: u8 = 255;
    loop
        invariant
            spec_derive(owner@, program@) == spec_derive_from(owner@, program@, bump),
        decreases bump,
    {
        match create_vault_address(owner, bump, program) {
            Some(a) => {
                return Some((a, bump));
            },
            None => {
                if bump == 0 {
                    return None;
                }
                bump = bump - 1;
            },
        }
    }
}

/// Re-run the derivation once from a stored bump (no search) and compare the
/// outcome with the expected record address.
pub fn verify_derivation(owner: &Address, bump: u8, program: &Address, expected: &Address) -> (r:
    bool)
    ensures
        r == (vault_seed_address(owner@, bump, program@) == Some(expected@)),
{
    match create_vault_address(owner, bump, program) {
        Some(a) => address_eq(&a, expected),
        None => false,
    }
}

/// A non-human principal that proves its right to act by reproducing a
/// deterministic derivation rather than by holding a secret key. It is never a
/// literal signing key: `reproduce` recombines the domain tag, the owner
/// identity and the stored bump through the platform hash.
#[derive(Clone, Copy, Debug)]
pub struct DerivedAuthority {
    pub owner: Address,
    pub bump: u8,
}

impl DerivedAuthority {
    /// The address this authority may act as, recomputed from its parts.
    pub fn reproduce(&self, program: &Address) -> (r: Option<Address>)
        ensures
            match r {
                Some(a) => vault_seed_address(self.owner@, self.bump, program@) == Some(a@),
                None => vault_seed_address(self.owner@, self.bump, program@) is None,
            },
    {
        create_vault_address(&self.owner, self.bump, program)
    }
}

/// Deriving the custody address twice from the same owner identity under the
/// same program identity yields identical results: the search is a pure
/// function of its inputs.
pub proof fn lemma_derivation_deterministic(
    owner1: Seq<u8>,
    program1: Seq<u8>,
    owner2: Seq<u8>,
    program2: Seq<u8>,
)
    requires
        owner1 == owner2,
        program1 == program2,
    ensures
        spec_derive(owner1, program1) == spec_derive(owner2, program2),
{
}

} // verus!
