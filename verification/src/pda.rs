//! Where a record lives: the address derived from the keys of its escrow.
//!
//! The address of a record is a function of the program's id and of
//! `(sender, recipient, escrow_id)`, so anybody who knows the three can find
//! the slot without a lookup table. The derivation itself (a SHA-256 hash
//! and a test against the ed25519 curve) is `anchor_lang`'s: this module
//! fixes the seeds, makes the two calls, and names what they return.

use vstd::prelude::*;
use vstd::bytes::{
    lemma_auto_spec_u64_to_from_le_bytes, spec_u64_from_le_bytes, spec_u64_to_le_bytes,
    u64_to_le_bytes,
};
use crate::address::Address;

verus! {

/// What `Pubkey::try_find_program_address` returns for these seeds and this
/// program id: an address off the curve with the bump seed that gave it, or
/// `None` where it finds none.
pub uninterp spec fn found_program_address(seeds: Seq<Seq<u8>>, program_id: Seq<u8>) -> Option<
    (Seq<u8>, u8),
>;

/// What `Pubkey::create_program_address` returns for these seeds and this
/// program id, an error read as `None`.
pub uninterp spec fn created_program_address(seeds: Seq<Seq<u8>>, program_id: Seq<u8>) -> Option<
    Seq<u8>,
>;

/// A found address and its bump seed, as plain values.
pub open spec fn found_view(found: Option<(Address, u8)>) -> Option<(Seq<u8>, u8)> {
    match found {
        Some((address, bump)) => Some((address@, bump)),
        None => None,
    }
}

/// A derived address, as plain values.
pub open spec fn made_view(made: Option<Address>) -> Option<Seq<u8>> {
    match made {
        Some(address) => Some(address@),
        None => None,
    }
}

/// Calls `Pubkey::try_find_program_address` of `anchor_lang`.
///
/// Trusted: the result is the one named [`found_program_address`]; and an
/// address that was found is the one that `Pubkey::create_program_address`
/// gives once the bump seed is appended to the seeds, since the search is a
/// loop over that very call.
#[verifier::external_body]
fn try_find_program_address(seeds: &Vec<Vec<u8>>, program_id: &Address) -> (found: Option<(Address, u8)>)
    ensures
        found_view(found) == found_program_address(seeds.deep_view(), program_id@),
        found matches Some((address, bump)) ==> created_program_address(
            seeds.deep_view().push(seq![bump]),
            program_id@,
        ) == Some(address@),
{
    let parts: Vec<&[u8]> = seeds.iter().map(|seed| seed.as_slice()).collect();
    let id = anchor_lang::prelude::Pubkey::new_from_array(program_id.bytes);
    anchor_lang::prelude::Pubkey::try_find_program_address(&parts, &id)
        .map(|(key, bump)| (Address { bytes: key.to_bytes() }, bump))
}

/// Calls `Pubkey::create_program_address` of `anchor_lang`.
///
/// Trusted: the result is the one named [`created_program_address`].
#[verifier::external_body]
fn create_program_address(seeds: &Vec<Vec<u8>>, program_id: &Address) -> (made: Option<Address>)
    ensures
        made_view(made) == created_program_address(seeds.deep_view(), program_id@),
{
    let parts: Vec<&[u8]> = seeds.iter().map(|seed| seed.as_slice()).collect();
    let id = anchor_lang::prelude::Pubkey::new_from_array(program_id.bytes);
    anchor_lang::prelude::Pubkey::create_program_address(&parts, &id)
        .ok()
        .map(|key| Address { bytes: key.to_bytes() })
}

/// The first seed of every record: the ASCII bytes of `escrow`.
pub open spec fn seed_tag() -> Seq<u8> {
    seq![101u8, 115u8, 99u8, 114u8, 111u8, 119u8]
}

/// The seeds of the record that `sender` opens for `recipient` under
/// `escrow_id`: the tag, the two addresses, and the id as eight bytes, least
/// significant first.
pub open spec fn escrow_seeds(sender: Seq<u8>, recipient: Seq<u8>, escrow_id: u64) -> Seq<Seq<u8>> {
    seq![seed_tag(), sender, recipient, spec_u64_to_le_bytes(escrow_id)]
}

/// The seeds of a record together with its bump seed.
pub open spec fn escrow_seeds_with_bump(
    sender: Seq<u8>,
    recipient: Seq<u8>,
    escrow_id: u64,
    bump: u8,
) -> Seq<Seq<u8>> {
    escrow_seeds(sender, recipient, escrow_id).push(seq![bump])
}

/// The address and bump seed of the record of `(sender, recipient, escrow_id)`.
pub open spec fn escrow_address(
    program_id: Seq<u8>,
    sender: Seq<u8>,
    recipient: Seq<u8>,
    escrow_id: u64,
) -> Option<(Seq<u8>, u8)> {
    found_program_address(escrow_seeds(sender, recipient, escrow_id), program_id)
}

/// The address to which the keys of a record lead under a given bump seed.
pub open spec fn escrow_address_with_bump(
    program_id: Seq<u8>,
    sender: Seq<u8>,
    recipient: Seq<u8>,
    escrow_id: u64,
    bump: u8,
) -> Option<Seq<u8>> {
    created_program_address(escrow_seeds_with_bump(sender, recipient, escrow_id, bump), program_id)
}

fn tag_bytes() -> (tag: Vec<u8>)
    ensures
        tag@ == seed_tag(),
{
    let mut tag: Vec<u8> = Vec::new();
    tag.push(101u8);
    tag.push(115u8);
    tag.push(99u8);
    tag.push(114u8);
    tag.push(111u8);
    tag.push(119u8);
    assert(tag@ =~= seed_tag());
    tag
}

fn seeds_of(sender: &Address, recipient: &Address, escrow_id: u64) -> (seeds: Vec<Vec<u8>>)
    ensures
        seeds.deep_view() == escrow_seeds(sender@, recipient@, escrow_id),
{
    let mut seeds: Vec<Vec<u8>> = Vec::new();
    seeds.push(tag_bytes());
    seeds.push(sender.to_vec());
    seeds.push(recipient.to_vec());
    seeds.push(u64_to_le_bytes(escrow_id));
    proof {
        let expected = escrow_seeds(sender@, recipient@, escrow_id);
        assert forall|i: int| 0 <= i < 4 implies seeds.deep_view()[i] == expected[i] by {
            assert(seeds@[i].deep_view() =~= seeds@[i]@);
        }
        assert(seeds.deep_view() =~= expected);
    }
    seeds
}

/// Finds the slot of the record that `sender` opens for `recipient` under
/// `escrow_id`, and the bump seed to store in it. `None` means that no bump
/// seed leads to an address off the curve.
pub fn find_escrow_address(
    program_id: &Address,
    sender: &Address,
    recipient: &Address,
    escrow_id: u64,
) -> (found: Option<(Address, u8)>)
    ensures
        found_view(found) == escrow_address(program_id@, sender@, recipient@, escrow_id),
        found matches Some((address, bump)) ==> escrow_address_with_bump(
            program_id@,
            sender@,
            recipient@,
            escrow_id,
            bump,
        ) == Some(address@),
{
    let seeds = seeds_of(sender, recipient, escrow_id);
    try_find_program_address(&seeds, program_id)
}

/// The seeds of a record together with its bump seed, as bytes: what the
/// program signs with when it acts for the slot.
pub fn signer_seeds(sender: &Address, recipient: &Address, escrow_id: u64, bump: u8) -> (seeds: Vec<
    Vec<u8>,
>)
    ensures
        seeds.deep_view() == escrow_seeds_with_bump(sender@, recipient@, escrow_id, bump),
{
    let mut seeds = seeds_of(sender, recipient, escrow_id);
    let ghost keys = seeds@;
    let mut last: Vec<u8> = Vec::new();
    last.push(bump);
    seeds.push(last);
    proof {
        let before = escrow_seeds(sender@, recipient@, escrow_id);
        let expected = escrow_seeds_with_bump(sender@, recipient@, escrow_id, bump);
        assert(keys.len() == 4) by {
            assert(keys.len() == before.len());
        }
        assert forall|i: int| 0 <= i < 5 implies seeds.deep_view()[i] == expected[i] by {
            if i < 4 {
                assert(keys[i].deep_view() == before[i]);
            } else {
                assert(seeds@[i].deep_view() =~= seq![bump]);
            }
        }
        assert(seeds.deep_view() =~= expected);
    }
    seeds
}

/// Derives again, from the keys of a record and its stored bump seed, the
/// address at which the record must sit. `None` means that the bump seed
/// leads to no address.
pub fn derive_escrow_address(
    program_id: &Address,
    sender: &Address,
    recipient: &Address,
    escrow_id: u64,
    bump: u8,
) -> (made: Option<Address>)
    ensures
        made_view(made) == escrow_address_with_bump(program_id@, sender@, recipient@, escrow_id, bump),
{
    let seeds = signer_seeds(sender, recipient, escrow_id, bump);
    create_program_address(&seeds, program_id)
}

/// The seeds tell the escrows apart: two escrows with the same seeds have
/// the same sender, the same recipient and the same id.
pub proof fn lemma_seeds_injective(
    sender: Seq<u8>,
    recipient: Seq<u8>,
    escrow_id: u64,
    other_sender: Seq<u8>,
    other_recipient: Seq<u8>,
    other_id: u64,
)
    requires
        escrow_seeds(sender, recipient, escrow_id) == escrow_seeds(other_sender, other_recipient, other_id),
    ensures
        sender == other_sender,
        recipient == other_recipient,
        escrow_id == other_id,
{
    let a = escrow_seeds(sender, recipient, escrow_id);
    let b = escrow_seeds(other_sender, other_recipient, other_id);
    assert(a[1] == b[1] && a[2] == b[2] && a[3] == b[3]);
    lemma_auto_spec_u64_to_from_le_bytes();
}

} // verus!
