//! The escrow authority and the transfers that the escrow asks for.
//!
//! The escrow has no private key. Outbound transfers are authorised by a
//! derivation proof: the namespace label of the fund account followed by the
//! nonce that the fund account was created with. The identity of the escrow
//! authority is the address that the platform derives from that proof for
//! the program that runs the escrow.

use anchor_lang::prelude::Pubkey;
use anchor_lang::solana_program::pubkey::PubkeyError;
use vstd::prelude::*;
use crate::identity::Identity;

verus! {

/// The namespace label of the fund account: the bytes of `fund_account`.
pub open spec fn fund_account_label() -> Seq<u8> {
    seq![102u8, 117u8, 110u8, 100u8, 95u8, 97u8, 99u8, 99u8, 111u8, 117u8, 110u8, 116u8]
}

/// The namespace label of whitelist entries: the bytes of `whitelist`.
pub open spec fn whitelist_label() -> Seq<u8> {
    seq![119u8, 104u8, 105u8, 116u8, 101u8, 108u8, 105u8, 115u8, 116u8]
}

/// The derivation proof of the escrow authority for `nonce`.
pub open spec fn derivation_proof(nonce: u8) -> Seq<Seq<u8>> {
    seq![fund_account_label(), seq![nonce]]
}

/// The seeds under which the whitelist entry of `address` is stored.
pub open spec fn whitelist_key(address: Identity) -> Seq<Seq<u8>> {
    seq![whitelist_label(), address@]
}

/// The views of the byte strings in `seeds`.
pub open spec fn seeds_view(seeds: Seq<Vec<u8>>) -> Seq<Seq<u8>> {
    Seq::new(seeds.len(), |i: int| seeds[i]@)
}

/// The address that `Pubkey::create_program_address` derives from `seeds`
/// for the program `program_id`, or `None` where it derives none.
pub uninterp spec fn derived_address(seeds: Seq<Seq<u8>>, program_id: Seq<u8>) -> Option<Seq<u8>>;

/// Why `Pubkey::create_program_address` derived no address. Nothing is
/// known of a value but that it is one.
#[verifier::external_type_specification]
#[verifier::external_body]
pub struct ExPubkeyError(PubkeyError);

/// Calls `Pubkey::create_program_address` of `solana_program`, which hashes
/// the seeds, the program id and a marker, and refuses seeds that are too
/// many or too long and hashes that are points of the curve. Believed: the
/// result is a function of the seeds and the program id alone, here named
/// `derived_address`, which is `None` exactly where the call refuses.
#[verifier::external_body]
fn create_program_address(seeds: &Vec<Vec<u8>>, program_id: &Identity) -> (r: Result<Identity, PubkeyError>)
    ensures
        match r {
            Ok(id) => derived_address(seeds_view(seeds@), program_id@) == Some(id@),
            Err(_) => derived_address(seeds_view(seeds@), program_id@) is None,
        },
{
    let parts: Vec<&[u8]> = seeds.iter().map(|seed| seed.as_slice()).collect();
    let program = Pubkey::new_from_array(program_id.bytes);
    Pubkey::create_program_address(&parts, &program).map(|key| Identity { bytes: key.to_bytes() })
}

/// Who authorises a transfer.
#[derive(Clone, Copy, Debug, PartialEq, Eq)]
pub enum Authority {
    /// The owner of the source account, by signature.
    Owner(Identity),
    /// The escrow, by the derivation proof for this nonce.
    Escrow(u8),
}

/// A transfer that the custody is asked to make: all of it or nothing.
#[derive(Clone, Copy, Debug, PartialEq, Eq)]
pub struct Transfer {
    /// The custody account that pays.
    pub from: Identity,
    /// The custody account that receives.
    pub to: Identity,
    /// Who authorises the transfer.
    pub authority: Authority,
    /// The amount moved.
    pub amount: u64,
}

/// The seeds that prove the escrow authority: the label of the fund account,
/// then the nonce.
pub fn signer_seeds(nonce: u8) -> (seeds: Vec<Vec<u8>>)
    ensures
        seeds_view(seeds@) == derivation_proof(nonce),
{
    let label: Vec<u8> = vec![102u8, 117u8, 110u8, 100u8, 95u8, 97u8, 99u8, 99u8, 111u8, 117u8, 110u8, 116u8];
    let tail: Vec<u8> = vec![nonce];
    assert(label@ =~= fund_account_label());
    assert(tail@ =~= seq![nonce]);
    let mut seeds: Vec<Vec<u8>> = Vec::new();
    seeds.push(label);
    seeds.push(tail);
    assert(seeds_view(seeds@) =~= derivation_proof(nonce));
    seeds
}

/// The seeds that address the whitelist entry of `address`: the label of
/// whitelist entries, then the bytes of the address.
pub fn whitelist_seeds(address: &Identity) -> (seeds: Vec<Vec<u8>>)
    ensures
        seeds_view(seeds@) == whitelist_key(*address),
{
    let label: Vec<u8> = vec![119u8, 104u8, 105u8, 116u8, 101u8, 108u8, 105u8, 115u8, 116u8];
    assert(label@ =~= whitelist_label());
    let mut seeds: Vec<Vec<u8>> = Vec::new();
    seeds.push(label);
    seeds.push(address.to_bytes());
    assert(seeds_view(seeds@) =~= whitelist_key(*address));
    seeds
}

/// The identity of the escrow authority of the program `program_id` for
/// `nonce`: the address derived from the derivation proof. Not every nonce
/// gives an address.
pub fn escrow_authority(program_id: &Identity, nonce: u8) -> (r: Option<Identity>)
    ensures
        match r {
            Some(id) => derived_address(derivation_proof(nonce), program_id@) == Some(id@),
            None => derived_address(derivation_proof(nonce), program_id@) is None,
        },
{
    let seeds = signer_seeds(nonce);
    match create_program_address(&seeds, program_id) {
        Ok(id) => Some(id),
        Err(_) => None,
    }
}

/// The address under which the program `program_id` stores the whitelist
/// entry of `address`, derived with `nonce`. Not every nonce gives an
/// address.
pub fn whitelist_entry_address(program_id: &Identity, address: &Identity, nonce: u8) -> (r: Option<Identity>)
    ensures
        match r {
            Some(id) => derived_address(whitelist_key(*address).push(seq![nonce]), program_id@) == Some(id@),
            None => derived_address(whitelist_key(*address).push(seq![nonce]), program_id@) is None,
        },
{
    let mut seeds = whitelist_seeds(address);
    let ghost before = seeds@;
    let tail: Vec<u8> = vec![nonce];
    assert(tail@ =~= seq![nonce]);
    seeds.push(tail);
    assert(seeds_view(seeds@) =~= seeds_view(before).push(seq![nonce]));
    match create_program_address(&seeds, program_id) {
        Ok(id) => Some(id),
        Err(_) => None,
    }
}

} // verus!
