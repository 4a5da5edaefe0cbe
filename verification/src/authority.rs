//! The derivation scheme that ties a custodial holding area's signing
//! authority to schedule configuration instead of a human-held key:
//! storage and authority addresses are derived deterministically from a
//! fixed domain-separation tag plus public identifiers, so any party
//! can re-derive them from public inputs alone.

use crate::state::clone_bytes;
use vstd::prelude::*;

verus! {

/// The domain-separation tag of schedule storage and custody addresses
/// (the bytes of "vesting_config").
pub open spec fn spec_vesting_config_tag() -> Seq<u8> {
    seq![118u8, 101u8, 115u8, 116u8, 105u8, 110u8, 103u8, 95u8, 99u8, 111u8, 110u8, 102u8, 105u8, 103u8]
}

/// The domain-separation tag of allocation-record storage addresses
/// (the bytes of "user_vesting").
pub open spec fn spec_user_vesting_tag() -> Seq<u8> {
    seq![117u8, 115u8, 101u8, 114u8, 95u8, 118u8, 101u8, 115u8, 116u8, 105u8, 110u8, 103u8]
}

/// The seeds from which a schedule's storage address and custody
/// authority are derived: the domain tag and the asset identifier.
pub open spec fn spec_schedule_seeds(mint: Seq<u8>) -> Seq<Seq<u8>> {
    seq![spec_vesting_config_tag(), mint]
}

/// The seeds from which an allocation record's storage address is
/// derived: the domain tag, the schedule's address and the beneficiary.
pub open spec fn spec_record_seeds(schedule_key: Seq<u8>, beneficiary: Seq<u8>) -> Seq<Seq<u8>> {
    seq![spec_user_vesting_tag(), schedule_key, beneficiary]
}

/// The address and bump seed that the host's program-derived-address
/// scheme assigns to the given seeds under the given program, or
/// nothing in the statistically improbable event that no bump seed
/// yields a valid address.
pub uninterp spec fn spec_derived_address(seeds: Seq<Seq<u8>>, program_id: Seq<u8>) -> Option<
    (Seq<u8>, u8),
>;

/// Relies on Pubkey::try_find_program_address: the derived address and
/// bump seed are a deterministic function of the seeds and the program
/// id alone, the returned address is 32 bytes, and the call returns
/// None instead of panicking when no bump seed yields a valid address.
#[verifier::external_body]
fn find_derived_address(seeds: &Vec<Vec<u8>>, program_id: &Vec<u8>) -> (result: Option<
    (Vec<u8>, u8),
>)
    requires
        program_id@.len() == 32,
    ensures
        match result {
            Some(found) => spec_derived_address(seeds.deep_view(), program_id@) == Some(
                (found.0@, found.1),
            ) && found.0@.len() == 32,
            None => spec_derived_address(seeds.deep_view(), program_id@) is None,
        },
{
    let seed_slices: Vec<&[u8]> = seeds.iter().map(|s| s.as_slice()).collect();
    let mut id_bytes = [0u8; 32];
    id_bytes.copy_from_slice(program_id.as_slice());
    let pid = anchor_lang::solana_program::pubkey::Pubkey::new_from_array(id_bytes);
    anchor_lang::solana_program::pubkey::Pubkey::try_find_program_address(&seed_slices, &pid)
        .map(|(address, bump)| (address.to_bytes().to_vec(), bump))
}

/// The executable schedule domain tag.
pub fn vesting_config_tag() -> (tag: Vec<u8>)
    ensures
        tag@ == spec_vesting_config_tag(),
{
    let mut tag: Vec<u8> = Vec::new();
    tag.push(118);
    tag.push(101);
    tag.push(115);
    tag.push(116);
    tag.push(105);
    tag.push(110);
    tag.push(103);
    tag.push(95);
    tag.push(99);
    tag.push(111);
    tag.push(110);
    tag.push(102);
    tag.push(105);
    tag.push(103);
    proof {
        assert(tag@ =~= spec_vesting_config_tag());
    }
    tag
}

/// The executable allocation-record domain tag.
pub fn user_vesting_tag() -> (tag: Vec<u8>)
    ensures
        tag@ == spec_user_vesting_tag(),
{
    let mut tag: Vec<u8> = Vec::new();
    tag.push(117);
    tag.push(115);
    tag.push(101);
    tag.push(114);
    tag.push(95);
    tag.push(118);
    tag.push(101);
    tag.push(115);
    tag.push(116);
    tag.push(105);
    tag.push(110);
    tag.push(103);
    proof {
        assert(tag@ =~= spec_user_vesting_tag());
    }
    tag
}

/// Derives the storage address and custody authority of the schedule
/// for asset `mint` under `program_id`.  The result is reproducible by
/// any verifier from these public inputs alone; no secret material is
/// involved, which is what lets the schedule sign for itself.
pub fn derive_schedule_authority(mint: &Vec<u8>, program_id: &Vec<u8>) -> (result: Option<
    (Vec<u8>, u8),
>)
    requires
        program_id@.len() == 32,
    ensures
        match result {
            Some(found) => spec_derived_address(spec_schedule_seeds(mint@), program_id@) == Some(
                (found.0@, found.1),
            ) && found.0@.len() == 32,
            None => spec_derived_address(spec_schedule_seeds(mint@), program_id@) is None,
        },
{
    let mut seeds: Vec<Vec<u8>> = Vec::new();
    seeds.push(vesting_config_tag());
    seeds.push(clone_bytes(mint));
    proof {
        assert(seeds.deep_view() =~~= spec_schedule_seeds(mint@));
    }
    find_derived_address(&seeds, program_id)
}

/// Derives the storage address of the allocation record for
/// `beneficiary` under the schedule stored at `schedule_key`.
pub fn derive_record_address(
    schedule_key: &Vec<u8>,
    beneficiary: &Vec<u8>,
    program_id: &Vec<u8>,
) -> (result: Option<(Vec<u8>, u8)>)
    requires
        program_id@.len() == 32,
    ensures
        match result {
            Some(found) => spec_derived_address(
                spec_record_seeds(schedule_key@, beneficiary@),
                program_id@,
            ) == Some((found.0@, found.1)) && found.0@.len() == 32,
            None => spec_derived_address(
                spec_record_seeds(schedule_key@, beneficiary@),
                program_id@,
            ) is None,
        },
{
    let mut seeds: Vec<Vec<u8>> = Vec::new();
    seeds.push(user_vesting_tag());
    seeds.push(clone_bytes(schedule_key));
    seeds.push(clone_bytes(beneficiary));
    proof {
        assert(seeds.deep_view() =~~= spec_record_seeds(schedule_key@, beneficiary@));
    }
    find_derived_address(&seeds, program_id)
}

/// The seeds with which the schedule's custody authority signs a
/// release from the custodial holding area: the domain tag, the asset
/// identifier, and the schedule's stored bump seed.  Never a
/// beneficiary's or any human signer's authority.
pub fn schedule_signer_seeds(mint: &Vec<u8>, bump: u8) -> (seeds: Vec<Vec<u8>>)
    ensures
        seeds.deep_view() == spec_schedule_seeds(mint@).push(seq![bump]),
{
    let mut seeds: Vec<Vec<u8>> = Vec::new();
    seeds.push(vesting_config_tag());
    seeds.push(clone_bytes(mint));
    let mut bump_seed: Vec<u8> = Vec::new();
    bump_seed.push(bump);
    seeds.push(bump_seed);
    proof {
        assert(bump_seed@ =~= seq![bump]);
        assert(seeds.deep_view() =~~= spec_schedule_seeds(mint@).push(seq![bump]));
    }
    seeds
}

} // verus!
