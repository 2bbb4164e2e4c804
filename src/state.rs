use vstd::bytes::{
    lemma_auto_spec_u64_to_from_le_bytes, spec_u32_from_le_bytes, spec_u64_from_le_bytes,
    spec_u64_to_le_bytes, u32_from_le_bytes, u64_from_le_bytes, u64_to_le_bytes,
};
use vstd::array::array_as_slice;
use vstd::prelude::*;
use vstd::slice::{slice_subrange, slice_to_vec};

use crate::error::AccessError;
use crate::solana::{create_program_address, program_address};

verus! {

/// Number of seconds in one day.
pub const SECONDS_IN_DAY: u64 = 86400;

/// Percentage of the inflation that goes to stakers.
pub const STAKER_MULTIPLIER: u64 = 50;

/// The kind of a ledger record, stored in its first byte.
#[derive(PartialEq, Eq, Structural, Clone, Copy, Debug)]
pub enum Tag {
    Uninitialized,
    StakePool,
    StakeAccount,
    CentralState,
    Deleted,
}

impl Tag {
    /// The byte that encodes this tag.
    pub open spec fn spec_byte(self) -> u8 {
        match self {
            Tag::Uninitialized => 0,
            Tag::StakePool => 1,
            Tag::StakeAccount => 2,
            Tag::CentralState => 3,
            Tag::Deleted => 4,
        }
    }

    /// The tag that a byte encodes, if any.
    pub open spec fn spec_from_byte(b: u8) -> Option<Tag> {
        if b == 0 {
            Some(Tag::Uninitialized)
        } else if b == 1 {
            Some(Tag::StakePool)
        } else if b == 2 {
            Some(Tag::StakeAccount)
        } else if b == 3 {
            Some(Tag::CentralState)
        } else if b == 4 {
            Some(Tag::Deleted)
        } else {
            None
        }
    }

    /// The byte that stores this tag.
    pub fn to_byte(&self) -> (r: u8)
        ensures
            r == self.spec_byte(),
    {
        match self {
            Tag::Uninitialized => 0,
            Tag::StakePool => 1,
            Tag::StakeAccount => 2,
            Tag::CentralState => 3,
            Tag::Deleted => 4,
        }
    }
}

/// Copies 32 bytes of `data` starting at `start` into an identifier.
pub fn read_key(data: &[u8], start: usize) -> (r: [u8; 32])
    requires
        start + 32 <= data.len(),
    ensures
        r@ == data@.subrange(start as int, start + 32),
{
    let mut r: [u8; 32] = [0u8; 32];
    let mut i: usize = 0;
    while i < 32
        invariant
            i <= 32,
            start + 32 <= data.len(),
            r@.len() == 32,
            forall|j: int| 0 <= j < i ==> r@[j] == data@[start + j],
        decreases 32 - i,
    {
        r[i] = data[start + i];
        i = i + 1;
    }
    assert(r@ =~= data@.subrange(start as int, start + 32));
    r
}

/// Reads a little-endian `u64` from the eight bytes of `data` at `start`.
pub fn read_u64(data: &[u8], start: usize) -> (r: u64)
    requires
        start + 8 <= data.len(),
    ensures
        r == spec_u64_from_le_bytes(data@.subrange(start as int, start + 8)),
{
    let part = slice_subrange(data, start, start + 8);
    u64_from_le_bytes(part)
}

/// Reads a little-endian `u32` from the four bytes of `data` at `start`.
pub fn read_u32(data: &[u8], start: usize) -> (r: u32)
    requires
        start + 4 <= data.len(),
    ensures
        r == spec_u32_from_le_bytes(data@.subrange(start as int, start + 4)),
{
    let part = slice_subrange(data, start, start + 4);
    u32_from_le_bytes(part)
}

/// The central inflation authority.
#[derive(PartialEq, Eq, Clone, Copy, Debug)]
pub struct CentralState {
    pub tag: Tag,
    /// Seed of the address derivation of this record.
    pub signer_nonce: u8,
    /// Amount of tokens minted over one day.
    pub daily_inflation: u64,
    /// Mint of the token being emitted.
    pub token_mint: [u8; 32],
}

/// Seeds from which the central state's address is derived.
pub open spec fn central_state_seeds(signer_nonce: u8, program_id: [u8; 32]) -> Seq<Seq<u8>> {
    seq![program_id@, seq![signer_nonce]]
}

/// Why the storage bytes of a central state record cannot be read, if they can't.
pub open spec fn central_state_error(data: Seq<u8>) -> Option<AccessError> {
    if data.len() == 0 {
        Some(AccessError::InvalidAccountData)
    } else if data[0] != Tag::CentralState.spec_byte() && data[0] != Tag::Uninitialized.spec_byte() {
        Some(AccessError::DataTypeMismatch)
    } else if data.len() < CentralState::LEN {
        Some(AccessError::InvalidAccountData)
    } else {
        None
    }
}

/// Whether `cs` is the central state that readable storage bytes hold.
pub open spec fn is_central_state_of(data: Seq<u8>, cs: CentralState) -> bool {
    &&& Tag::spec_from_byte(data[0]) == Some(cs.tag)
    &&& cs.signer_nonce == data[1]
    &&& cs.daily_inflation == spec_u64_from_le_bytes(data.subrange(2, 10))
    &&& cs.token_mint@ == data.subrange(10, 42)
}

impl CentralState {
    /// Length of the stored record: tag, nonce, inflation and mint.
    pub const LEN: usize = 42;

    /// The stored form of the record.
    pub open spec fn encoding(self) -> Seq<u8> {
        seq![self.tag.spec_byte(), self.signer_nonce] + spec_u64_to_le_bytes(self.daily_inflation)
            + self.token_mint@
    }

    pub fn new(signer_nonce: u8, daily_inflation: u64, token_mint: [u8; 32]) -> (r: Self)
        ensures
            r == (CentralState {
                tag: Tag::CentralState,
                signer_nonce,
                daily_inflation,
                token_mint,
            }),
    {
        CentralState { tag: Tag::CentralState, signer_nonce, daily_inflation, token_mint }
    }

    /// Derives the address of the central state from its nonce and the program,
    /// or `None` where the seeds give no valid program address.
    pub fn create_key(signer_nonce: &u8, program_id: &[u8; 32]) -> (r: Option<[u8; 32]>)
        ensures
            r == program_address(central_state_seeds(*signer_nonce, *program_id), program_id@),
    {
        let mut seeds: Vec<Vec<u8>> = Vec::new();
        seeds.push(slice_to_vec(array_as_slice(program_id)));
        seeds.push(vec![*signer_nonce]);
        proof {
            assert(seeds@[1]@ =~= seq![*signer_nonce]);
            assert(seeds@.map_values(|s: Vec<u8>| s@) =~= central_state_seeds(*signer_nonce, *program_id));
        }
        create_program_address(&seeds, program_id)
    }
    /// Reads a central state from the bytes of its record. An uninitialized
    /// record is read as well, with its tag kept.
    pub fn from_account_info(data: &[u8]) -> (r: Result<CentralState, AccessError>)
        ensures
            match r {
                Ok(cs) => central_state_error(data@) is None && is_central_state_of(data@, cs),
                Err(e) => central_state_error(data@) == Some(e),
            },
    {
        if data.len() == 0 {
            return Err(AccessError::InvalidAccountData);
        }
        if data[0] != Tag::CentralState.to_byte() && data[0] != Tag::Uninitialized.to_byte() {
            return Err(AccessError::DataTypeMismatch);
        }
        if data.len() < Self::LEN {
            return Err(AccessError::InvalidAccountData);
        }
        let tag = if data[0] == 0 {
            Tag::Uninitialized
        } else {
            Tag::CentralState
        };
        Ok(
            CentralState {
                tag,
                signer_nonce: data[1],
                daily_inflation: read_u64(data, 2),
                token_mint: read_key(data, 10),
            },
        )
    }

    /// The stored form of the record.
    pub fn to_bytes(&self) -> (r: Vec<u8>)
        ensures
            r@ == self.encoding(),
            r@.len() == Self::LEN,
    {
        let mut r: Vec<u8> = Vec::new();
        r.push(self.tag.to_byte());
        r.push(self.signer_nonce);
        let mut inflation = u64_to_le_bytes(self.daily_inflation);
        r.append(&mut inflation);
        let mut mint = slice_to_vec(array_as_slice(&self.token_mint));
        r.append(&mut mint);
        r
    }

    /// Writes the record over the first bytes of `dst`.
    pub fn save(&self, dst: &mut Vec<u8>)
        requires
            old(dst)@.len() >= Self::LEN,
        ensures
            final(dst)@ == self.encoding() + old(dst)@.subrange(Self::LEN as int, old(dst)@.len() as int),
    {
        let bytes = self.to_bytes();
        write_prefix(dst, &bytes);
    }
}

/// Overwrites the first bytes of `dst` with `src`.
pub fn write_prefix(dst: &mut Vec<u8>, src: &Vec<u8>)
    requires
        src@.len() <= old(dst)@.len(),
    ensures
        final(dst)@ == src@ + old(dst)@.subrange(src@.len() as int, old(dst)@.len() as int),
{
    let mut i: usize = 0;
    while i < src.len()
        invariant
            i <= src@.len(),
            src@.len() <= old(dst)@.len(),
            dst@.len() == old(dst)@.len(),
            forall|j: int| 0 <= j < i ==> dst@[j] == src@[j],
            forall|j: int| i <= j < dst@.len() ==> dst@[j] == old(dst)@[j],
        decreases src@.len() - i,
    {
        dst.set(i, src[i]);
        i = i + 1;
    }
    assert(dst@ =~= src@ + old(dst)@.subrange(src@.len() as int, old(dst)@.len() as int));
}

/// The text that UTF-8 bytes spell, or `None` where they are not valid UTF-8.
pub uninterp spec fn utf8_text(bytes: Seq<u8>) -> Option<Seq<char>>;

/// Relies on `String::from_utf8`: the text of valid UTF-8 bytes, refused otherwise.
#[verifier::external_body]
pub(crate) fn utf8_string(bytes: &[u8]) -> (r: Option<String>)
    ensures
        r is Some <==> utf8_text(bytes@) is Some,
        r is Some ==> Some(r.unwrap()@) == utf8_text(bytes@),
{
    String::from_utf8(bytes.to_vec()).ok()
}


/// A pool of staked tokens.
#[derive(PartialEq, Eq, Clone, Debug)]
pub struct StakePool {
    pub tag: Tag,
    /// Sum of the stakes of the pool's stake accounts.
    pub total_staked: u64,
    /// Last time rewards were paid to the pool owner.
    pub last_crank_time: i64,
    /// Owner of the pool and of its rewards destination.
    pub owner: [u8; 32],
    /// Where the pool owner's rewards are sent.
    pub rewards_destination: [u8; 32],
    /// Seed of the pool's address derivation.
    pub nonce: u8,
    /// Name of the pool, also a seed of its address derivation.
    pub name: String,
}

/// Offset of the length of the name in a stake pool record.
pub const STAKE_POOL_NAME_AT: usize = 82;

/// Length of a stake pool record before the bytes of its name.
pub const STAKE_POOL_HEADER_LEN: usize = 86;

/// The length of the name that stake pool bytes announce.
pub open spec fn stake_pool_name_len(data: Seq<u8>) -> int {
    spec_u32_from_le_bytes(data.subrange(82, 86)) as int
}

/// Why the storage bytes of a stake pool record cannot be read, if they can't.
pub open spec fn stake_pool_error(data: Seq<u8>) -> Option<AccessError> {
    if data.len() == 0 || data[0] != Tag::StakePool.spec_byte() {
        Some(AccessError::DataTypeMismatch)
    } else if data.len() < STAKE_POOL_HEADER_LEN || data.len() < STAKE_POOL_HEADER_LEN
        + stake_pool_name_len(data) {
        Some(AccessError::InvalidAccountData)
    } else if utf8_text(data.subrange(86, 86 + stake_pool_name_len(data))) is None {
        Some(AccessError::InvalidAccountData)
    } else {
        None
    }
}

/// Whether `pool` is the stake pool that readable storage bytes hold.
pub open spec fn is_stake_pool_of(data: Seq<u8>, pool: StakePool) -> bool {
    &&& pool.tag == Tag::StakePool
    &&& pool.total_staked == spec_u64_from_le_bytes(data.subrange(1, 9))
    &&& pool.last_crank_time == spec_u64_from_le_bytes(data.subrange(9, 17)) as i64
    &&& pool.owner@ == data.subrange(17, 49)
    &&& pool.rewards_destination@ == data.subrange(49, 81)
    &&& pool.nonce == data[81]
    &&& Some(pool.name@) == utf8_text(data.subrange(86, 86 + stake_pool_name_len(data)))
}

impl StakePool {
    /// Reads a stake pool from the bytes of its record, which must be tagged
    /// as a stake pool.
    pub fn get_checked(data: &[u8]) -> (r: Result<StakePool, AccessError>)
        ensures
            match r {
                Ok(pool) => stake_pool_error(data@) is None && is_stake_pool_of(data@, pool),
                Err(e) => stake_pool_error(data@) == Some(e),
            },
    {
        if data.len() == 0 || data[0] != Tag::StakePool.to_byte() {
            return Err(AccessError::DataTypeMismatch);
        }
        if data.len() < STAKE_POOL_HEADER_LEN {
            return Err(AccessError::InvalidAccountData);
        }
        let name_len = read_u32(data, STAKE_POOL_NAME_AT) as usize;
        if data.len() - STAKE_POOL_HEADER_LEN < name_len {
            return Err(AccessError::InvalidAccountData);
        }
        let name_bytes = slice_subrange(data, STAKE_POOL_HEADER_LEN, STAKE_POOL_HEADER_LEN + name_len);
        let name = match utf8_string(name_bytes) {
            Some(n) => n,
            None => return Err(AccessError::InvalidAccountData),
        };
        Ok(
            StakePool {
                tag: Tag::StakePool,
                total_staked: read_u64(data, 1),
                last_crank_time: read_u64(data, 9) as i64,
                owner: read_key(data, 17),
                rewards_destination: read_key(data, 49),
                nonce: data[81],
                name,
            },
        )
    }
}

/// One staker's position in one pool.
#[derive(PartialEq, Eq, Clone, Copy, Debug)]
pub struct StakeAccount {
    pub tag: Tag,
    /// The staker, the only identity that may claim on this record.
    pub owner: [u8; 32],
    /// Address of the pool this stake belongs to.
    pub stake_pool: [u8; 32],
    /// Amount staked.
    pub stake_amount: u64,
    /// End of the last period whose rewards were paid out.
    pub last_claimed_time: i64,
}

/// Why the storage bytes of a stake account record cannot be read, if they can't.
pub open spec fn stake_account_error(data: Seq<u8>) -> Option<AccessError> {
    if data.len() == 0 || data[0] != Tag::StakeAccount.spec_byte() {
        Some(AccessError::DataTypeMismatch)
    } else if data.len() < StakeAccount::LEN {
        Some(AccessError::InvalidAccountData)
    } else {
        None
    }
}

/// Whether `sa` is the stake account that readable storage bytes hold.
pub open spec fn is_stake_account_of(data: Seq<u8>, sa: StakeAccount) -> bool {
    &&& sa.tag == Tag::StakeAccount
    &&& sa.owner@ == data.subrange(1, 33)
    &&& sa.stake_pool@ == data.subrange(33, 65)
    &&& sa.stake_amount == spec_u64_from_le_bytes(data.subrange(65, 73))
    &&& sa.last_claimed_time == spec_u64_from_le_bytes(data.subrange(73, 81)) as i64
}

impl StakeAccount {
    /// Length of the stored record: tag, owner, pool, amount and claim time.
    pub const LEN: usize = 81;

    /// The stored form of the record.
    pub open spec fn encoding(self) -> Seq<u8> {
        seq![self.tag.spec_byte()] + self.owner@ + self.stake_pool@ + spec_u64_to_le_bytes(
            self.stake_amount,
        ) + spec_u64_to_le_bytes(self.last_claimed_time as u64)
    }

    /// Reads a stake account from the bytes of its record, which must be
    /// tagged as a stake account.
    pub fn from_account_info(data: &[u8]) -> (r: Result<StakeAccount, AccessError>)
        ensures
            match r {
                Ok(sa) => stake_account_error(data@) is None && is_stake_account_of(data@, sa),
                Err(e) => stake_account_error(data@) == Some(e),
            },
    {
        if data.len() == 0 || data[0] != Tag::StakeAccount.to_byte() {
            return Err(AccessError::DataTypeMismatch);
        }
        if data.len() < Self::LEN {
            return Err(AccessError::InvalidAccountData);
        }
        Ok(
            StakeAccount {
                tag: Tag::StakeAccount,
                owner: read_key(data, 1),
                stake_pool: read_key(data, 33),
                stake_amount: read_u64(data, 65),
                last_claimed_time: read_u64(data, 73) as i64,
            },
        )
    }

    /// The stored form of the record.
    pub fn to_bytes(&self) -> (r: Vec<u8>)
        ensures
            r@ == self.encoding(),
            r@.len() == Self::LEN,
    {
        let mut r: Vec<u8> = Vec::new();
        r.push(self.tag.to_byte());
        let mut owner = slice_to_vec(array_as_slice(&self.owner));
        r.append(&mut owner);
        let mut pool = slice_to_vec(array_as_slice(&self.stake_pool));
        r.append(&mut pool);
        let mut amount = u64_to_le_bytes(self.stake_amount);
        r.append(&mut amount);
        let mut time = u64_to_le_bytes(self.last_claimed_time as u64);
        r.append(&mut time);
        proof {
            assert(r@ =~= self.encoding());
        }
        r
    }

    /// Writes the record over the first bytes of `dst`.
    pub fn save(&self, dst: &mut Vec<u8>)
        requires
            old(dst)@.len() >= Self::LEN,
        ensures
            final(dst)@ == self.encoding() + old(dst)@.subrange(Self::LEN as int, old(dst)@.len() as int),
    {
        let bytes = self.to_bytes();
        write_prefix(dst, &bytes);
    }
}

/// A stored stake account reads back as the same stake account, whatever
/// bytes follow it.
pub proof fn lemma_stake_account_round_trip(sa: StakeAccount, rest: Seq<u8>)
    requires
        sa.tag == Tag::StakeAccount,
    ensures
        stake_account_error(sa.encoding() + rest) is None,
        is_stake_account_of(sa.encoding() + rest, sa),
{
    lemma_auto_spec_u64_to_from_le_bytes();
    let data = sa.encoding() + rest;
    assert(data.subrange(1, 33) =~= sa.owner@);
    assert(data.subrange(33, 65) =~= sa.stake_pool@);
    assert(data.subrange(65, 73) =~= spec_u64_to_le_bytes(sa.stake_amount));
    assert(data.subrange(73, 81) =~= spec_u64_to_le_bytes(sa.last_claimed_time as u64));
    let t = sa.last_claimed_time;
    assert((t as u64) as i64 == t) by (bit_vector);
}

/// A stored central state reads back as the same central state, whatever
/// bytes follow it, where it is tagged as a central state or uninitialized.
pub proof fn lemma_central_state_round_trip(cs: CentralState, rest: Seq<u8>)
    requires
        cs.tag == Tag::CentralState || cs.tag == Tag::Uninitialized,
    ensures
        central_state_error(cs.encoding() + rest) is None,
        is_central_state_of(cs.encoding() + rest, cs),
{
    lemma_auto_spec_u64_to_from_le_bytes();
    let data = cs.encoding() + rest;
    assert(data.subrange(2, 10) =~= spec_u64_to_le_bytes(cs.daily_inflation));
    assert(data.subrange(10, 42) =~= cs.token_mint@);
}

} // verus!
