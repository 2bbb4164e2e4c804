//! The calls into the chain's program library and the token program that the
//! ledger logic makes.
use solana_program::program_pack::Pack;
use solana_program::pubkey::Pubkey;
use spl_token::state::Mint;
use vstd::bytes::spec_u64_from_le_bytes;
use vstd::prelude::*;

verus! {

/// The program address derived from `seeds` under `program_id`, or `None`
/// where the seeds are too many or too long, or the digest lies on the curve.
pub uninterp spec fn program_address(seeds: Seq<Seq<u8>>, program_id: Seq<u8>) -> Option<[u8; 32]>;

/// Relies on `Pubkey::create_program_address`: a deterministic digest of the
/// seeds and the program identity, refused where it lies on the curve.
#[verifier::external_body]
pub(crate) fn create_program_address(seeds: &Vec<Vec<u8>>, program_id: &[u8; 32]) -> (r: Option<
    [u8; 32],
>)
    ensures
        r == program_address(seeds@.map_values(|s: Vec<u8>| s@), program_id@),
{
    let seeds: Vec<&[u8]> = seeds.iter().map(|s| s.as_slice()).collect();
    let program_id = Pubkey::new_from_array(*program_id);
    Pubkey::create_program_address(&seeds, &program_id).ok().map(|k| k.to_bytes())
}

/// Length of a stored token mint.
pub const MINT_LEN: usize = 82;

/// Whether four bytes are a valid tag of an optional key: absent or present.
pub open spec fn is_option_tag(b: Seq<u8>) -> bool {
    b == seq![0u8, 0u8, 0u8, 0u8] || b == seq![1u8, 0u8, 0u8, 0u8]
}

/// Whether the first bytes of `data` are a well-formed token mint.
pub open spec fn is_mint_data(data: Seq<u8>) -> bool {
    &&& is_option_tag(data.subrange(0, 4))
    &&& data[45] <= 1
    &&& is_option_tag(data.subrange(46, 50))
}

/// The circulating supply that a stored token mint holds.
pub open spec fn mint_supply_of(data: Seq<u8>) -> u64 {
    spec_u64_from_le_bytes(data.subrange(36, 44))
}

/// Relies on `Mint::unpack_from_slice` of the token program: it reads the
/// first 82 bytes (optional authority, supply, decimals, initialized flag,
/// optional freeze authority) and refuses malformed tags.
#[verifier::external_body]
pub(crate) fn unpack_mint_supply(data: &[u8]) -> (r: Option<u64>)
    requires
        data@.len() >= MINT_LEN,
    ensures
        r == (if is_mint_data(data@) {
            Some(mint_supply_of(data@))
        } else {
            None
        }),
{
    Mint::unpack_from_slice(data).ok().map(|m| m.supply)
}

} // verus!
