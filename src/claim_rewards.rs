//! Claim the rewards of a stake account: the checks and the decision. The
//! caller reads the clock, performs the mint to the rewards destination and
//! then stores the updated stake account.
use vstd::bytes::spec_u64_from_le_bytes;
use vstd::prelude::*;

use crate::accounts::{check_account_key, check_account_owner, check_signer, AccountView};
use crate::error::AccessError;
use crate::rewards::{
    calc_inflation_basis, calc_rewards, lemma_no_elapsed_no_reward, reward_outcome, spec_basis,
};
use crate::solana::{is_mint_data, mint_supply_of, unpack_mint_supply, MINT_LEN};
use crate::state::{
    central_state_error, is_central_state_of, is_stake_account_of, stake_account_error,
    stake_pool_error, CentralState, StakeAccount, StakePool,
};

verus! {

/// The parameters of a claim: none.
pub struct Params {}

/// The accounts of a claim, in the order in which they are presented.
pub struct Accounts<'a> {
    /// The stake pool.
    pub stake_pool: &'a AccountView,
    /// The stake account.
    pub stake_account: &'a AccountView,
    /// The owner of the stake account, who signs.
    pub owner: &'a AccountView,
    /// The token account that receives the rewards.
    pub rewards_destination: &'a AccountView,
    /// The central state.
    pub central_state: &'a AccountView,
    /// The mint of the token.
    pub mint: &'a AccountView,
    /// The token program.
    pub spl_token_program: &'a AccountView,
}

/// Why the presented accounts are refused before any record is read, if they are.
pub open spec fn claim_accounts_error(
    accounts: Seq<AccountView>,
    program_id: [u8; 32],
    token_program_id: [u8; 32],
) -> Option<AccessError> {
    if accounts.len() < 7 {
        Some(AccessError::NotEnoughAccountKeys)
    } else if accounts[6].key@ != token_program_id@ {
        Some(AccessError::WrongSplTokenProgramId)
    } else if accounts[0].owner@ != program_id@ {
        Some(AccessError::WrongStakePoolAccountOwner)
    } else if accounts[1].owner@ != program_id@ {
        Some(AccessError::WrongStakeAccountOwner)
    } else if accounts[3].owner@ != token_program_id@ {
        Some(AccessError::WrongOwner)
    } else if accounts[4].owner@ != program_id@ {
        Some(AccessError::WrongOwner)
    } else if accounts[5].owner@ != token_program_id@ {
        Some(AccessError::WrongOwner)
    } else if !accounts[2].is_signer {
        Some(AccessError::StakePoolOwnerMustSign)
    } else {
        None
    }
}

impl<'a> Accounts<'a> {
    /// Takes the accounts of a claim in order and checks their addresses,
    /// their controllers and the owner's signature.
    pub fn parse(accounts: &'a [AccountView], program_id: &[u8; 32], token_program_id: &[u8; 32]) -> (r:
        Result<Accounts<'a>, AccessError>)
        ensures
            match r {
                Ok(a) => claim_accounts_error(accounts@, *program_id, *token_program_id) is None && *a.stake_pool
                    == accounts@[0] && *a.stake_account == accounts@[1] && *a.owner == accounts@[2]
                    && *a.rewards_destination == accounts@[3] && *a.central_state == accounts@[4]
                    && *a.mint == accounts@[5] && *a.spl_token_program == accounts@[6],
                Err(e) => claim_accounts_error(accounts@, *program_id, *token_program_id) == Some(e),
            },
    {
        if accounts.len() < 7 {
            return Err(AccessError::NotEnoughAccountKeys);
        }
        let a = Accounts {
            stake_pool: &accounts[0],
            stake_account: &accounts[1],
            owner: &accounts[2],
            rewards_destination: &accounts[3],
            central_state: &accounts[4],
            mint: &accounts[5],
            spl_token_program: &accounts[6],
        };
        check_account_key(a.spl_token_program, token_program_id, AccessError::WrongSplTokenProgramId)?;
        check_account_owner(a.stake_pool, program_id, AccessError::WrongStakePoolAccountOwner)?;
        check_account_owner(a.stake_account, program_id, AccessError::WrongStakeAccountOwner)?;
        check_account_owner(a.rewards_destination, token_program_id, AccessError::WrongOwner)?;
        check_account_owner(a.central_state, program_id, AccessError::WrongOwner)?;
        check_account_owner(a.mint, token_program_id, AccessError::WrongOwner)?;
        check_signer(a.owner, AccessError::StakePoolOwnerMustSign)?;
        Ok(a)
    }
}

/// What a granted claim asks of its caller: mint `rewards` to the rewards
/// destination, signed by the central state's derivation with `signer_nonce`,
/// then store `stake_account`.
pub struct ClaimRewardsEffect {
    pub rewards: u64,
    pub signer_nonce: u8,
    pub stake_account: StakeAccount,
}

/// The reward owed on a claim once the records are read, or the check that
/// refuses it: the stake account's pool, its owner, the central state's mint,
/// then the reward computation.
pub open spec fn claim_outcome(
    pool_key: Seq<u8>,
    owner_key: Seq<u8>,
    mint_key: Seq<u8>,
    central_state: CentralState,
    total_staked: u64,
    stake_account: StakeAccount,
    supply: u64,
    current_time: i64,
) -> Result<u64, AccessError> {
    if stake_account.stake_pool@ != pool_key {
        Err(AccessError::WrongStakePool)
    } else if stake_account.owner@ != owner_key {
        Err(AccessError::StakeAccountOwnerMismatch)
    } else if central_state.token_mint@ != mint_key {
        Err(AccessError::WrongMint)
    } else if current_time < stake_account.last_claimed_time {
        Err(AccessError::Overflow)
    } else {
        reward_outcome(
            spec_basis(
                current_time,
                stake_account.last_claimed_time,
                central_state.daily_inflation,
            ) as u128,
            supply,
            stake_account.stake_amount,
            total_staked,
        )
    }
}

/// Decides a claim on records already read: checks that they belong
/// together, computes the reward and moves the claim time to `current_time`.
pub fn claim_rewards_decision(
    accounts: &Accounts,
    central_state: &CentralState,
    stake_pool: &StakePool,
    stake_account: &StakeAccount,
    supply: u64,
    current_time: i64,
) -> (r: Result<ClaimRewardsEffect, AccessError>)
    ensures
        match r {
            Ok(e) => {
                &&& claim_outcome(
                    accounts.stake_pool.key@,
                    accounts.owner.key@,
                    accounts.mint.key@,
                    *central_state,
                    stake_pool.total_staked,
                    *stake_account,
                    supply,
                    current_time,
                ) == Ok::<u64, AccessError>(e.rewards)
                &&& e.signer_nonce == central_state.signer_nonce
                &&& e.stake_account == (StakeAccount { last_claimed_time: current_time, ..*stake_account })
            },
            Err(x) => claim_outcome(
                accounts.stake_pool.key@,
                accounts.owner.key@,
                accounts.mint.key@,
                *central_state,
                stake_pool.total_staked,
                *stake_account,
                supply,
                current_time,
            ) == Err::<u64, AccessError>(x),
        },
{
    check_account_key(accounts.stake_pool, &stake_account.stake_pool, AccessError::WrongStakePool)?;
    check_account_key(accounts.owner, &stake_account.owner, AccessError::StakeAccountOwnerMismatch)?;
    check_account_key(accounts.mint, &central_state.token_mint, AccessError::WrongMint)?;
    let basis = calc_inflation_basis(
        current_time,
        stake_account.last_claimed_time,
        central_state.daily_inflation,
    )?;
    let rewards = calc_rewards(basis, supply, stake_account.stake_amount, stake_pool.total_staked)?;
    Ok(
        ClaimRewardsEffect {
            rewards,
            signer_nonce: central_state.signer_nonce,
            stake_account: StakeAccount { last_claimed_time: current_time, ..*stake_account },
        },
    )
}

/// Why a claim is refused while its records are read, if it is: the
/// accounts, then the central state, the stake pool, the stake account and
/// the mint, in that order.
pub open spec fn claim_input_error(
    accounts: Seq<AccountView>,
    program_id: [u8; 32],
    token_program_id: [u8; 32],
) -> Option<AccessError> {
    if claim_accounts_error(accounts, program_id, token_program_id) is Some {
        claim_accounts_error(accounts, program_id, token_program_id)
    } else if central_state_error(accounts[4].data@) is Some {
        central_state_error(accounts[4].data@)
    } else if stake_pool_error(accounts[0].data@) is Some {
        stake_pool_error(accounts[0].data@)
    } else if stake_account_error(accounts[1].data@) is Some {
        stake_account_error(accounts[1].data@)
    } else if accounts[5].data@.len() < MINT_LEN || !is_mint_data(accounts[5].data@) {
        Some(AccessError::InvalidAccountData)
    } else {
        None
    }
}

/// Processes a claim at `current_time` on the accounts in the order of
/// [`Accounts`]. On success the caller mints the returned rewards and then
/// stores the returned stake account; on failure nothing is to be done.
pub fn process_claim_rewards(
    program_id: &[u8; 32],
    token_program_id: &[u8; 32],
    accounts: &[AccountView],
    _params: Params,
    current_time: i64,
) -> (r: Result<ClaimRewardsEffect, AccessError>)
    ensures
        match claim_input_error(accounts@, *program_id, *token_program_id) {
            Some(e) => r == Err::<ClaimRewardsEffect, AccessError>(e),
            None => forall|cs: CentralState, sa: StakeAccount|
                #![trigger is_central_state_of(accounts@[4].data@, cs), is_stake_account_of(accounts@[1].data@, sa)]
                is_central_state_of(accounts@[4].data@, cs) && is_stake_account_of(
                    accounts@[1].data@,
                    sa,
                ) ==> {
                    let outcome = claim_outcome(
                        accounts@[0].key@,
                        accounts@[2].key@,
                        accounts@[5].key@,
                        cs,
                        spec_u64_from_le_bytes(accounts@[0].data@.subrange(1, 9)),
                        sa,
                        mint_supply_of(accounts@[5].data@),
                        current_time,
                    );
                    match r {
                        Ok(e) => {
                            &&& outcome == Ok::<u64, AccessError>(e.rewards)
                            &&& e.signer_nonce == cs.signer_nonce
                            &&& e.stake_account.last_claimed_time == current_time
                            &&& is_stake_account_of(
                                accounts@[1].data@,
                                StakeAccount { last_claimed_time: sa.last_claimed_time, ..e.stake_account },
                            )
                        },
                        Err(x) => outcome == Err::<u64, AccessError>(x),
                    }
                },
        },
{
    let a = Accounts::parse(accounts, program_id, token_program_id)?;
    let central_state = CentralState::from_account_info(a.central_state.data.as_slice())?;
    let stake_pool = StakePool::get_checked(a.stake_pool.data.as_slice())?;
    let stake_account = StakeAccount::from_account_info(a.stake_account.data.as_slice())?;
    if a.mint.data.len() < MINT_LEN {
        return Err(AccessError::InvalidAccountData);
    }
    let supply = match unpack_mint_supply(a.mint.data.as_slice()) {
        Some(s) => s,
        None => return Err(AccessError::InvalidAccountData),
    };
    claim_rewards_decision(&a, &central_state, &stake_pool, &stake_account, supply, current_time)
}

/// A claim presented with a stake pool other than the stake account's own is
/// refused for that reason.
pub proof fn lemma_other_pool_refused(
    pool_key: Seq<u8>,
    owner_key: Seq<u8>,
    mint_key: Seq<u8>,
    central_state: CentralState,
    total_staked: u64,
    stake_account: StakeAccount,
    supply: u64,
    current_time: i64,
)
    requires
        stake_account.stake_pool@ != pool_key,
    ensures
        claim_outcome(
            pool_key,
            owner_key,
            mint_key,
            central_state,
            total_staked,
            stake_account,
            supply,
            current_time,
        ) == Err::<u64, AccessError>(AccessError::WrongStakePool),
{
}

/// A claim signed by anyone but the stake account's owner is refused, and
/// where the pool matches, it is refused as an owner mismatch.
pub proof fn lemma_other_owner_refused(
    pool_key: Seq<u8>,
    owner_key: Seq<u8>,
    mint_key: Seq<u8>,
    central_state: CentralState,
    total_staked: u64,
    stake_account: StakeAccount,
    supply: u64,
    current_time: i64,
)
    requires
        stake_account.owner@ != owner_key,
    ensures
        claim_outcome(
            pool_key,
            owner_key,
            mint_key,
            central_state,
            total_staked,
            stake_account,
            supply,
            current_time,
        ) is Err,
        stake_account.stake_pool@ == pool_key ==> claim_outcome(
            pool_key,
            owner_key,
            mint_key,
            central_state,
            total_staked,
            stake_account,
            supply,
            current_time,
        ) == Err::<u64, AccessError>(AccessError::StakeAccountOwnerMismatch),
{
}

/// A claim on a token with no supply, or on a pool with nothing staked, is
/// refused; once the records belong together it is refused as `Overflow`.
pub proof fn lemma_empty_supply_or_pool_refused(
    pool_key: Seq<u8>,
    owner_key: Seq<u8>,
    mint_key: Seq<u8>,
    central_state: CentralState,
    total_staked: u64,
    stake_account: StakeAccount,
    supply: u64,
    current_time: i64,
)
    requires
        supply == 0 || total_staked == 0,
    ensures
        claim_outcome(
            pool_key,
            owner_key,
            mint_key,
            central_state,
            total_staked,
            stake_account,
            supply,
            current_time,
        ) is Err,
        stake_account.stake_pool@ == pool_key && stake_account.owner@ == owner_key
            && central_state.token_mint@ == mint_key ==> claim_outcome(
            pool_key,
            owner_key,
            mint_key,
            central_state,
            total_staked,
            stake_account,
            supply,
            current_time,
        ) == Err::<u64, AccessError>(AccessError::Overflow),
{
}

/// Once a claim at `current_time` succeeds, the stake account's claim time is
/// `current_time`, and claiming again at the same time succeeds with a reward
/// of zero.
pub proof fn lemma_claim_again_owes_nothing(
    pool_key: Seq<u8>,
    owner_key: Seq<u8>,
    mint_key: Seq<u8>,
    central_state: CentralState,
    total_staked: u64,
    stake_account: StakeAccount,
    supply: u64,
    current_time: i64,
)
    requires
        claim_outcome(
            pool_key,
            owner_key,
            mint_key,
            central_state,
            total_staked,
            stake_account,
            supply,
            current_time,
        ) is Ok,
    ensures
        claim_outcome(
            pool_key,
            owner_key,
            mint_key,
            central_state,
            total_staked,
            StakeAccount { last_claimed_time: current_time, ..stake_account },
            supply,
            current_time,
        ) == Ok::<u64, AccessError>(0),
{
    lemma_no_elapsed_no_reward(
        current_time,
        central_state.daily_inflation,
        supply,
        stake_account.stake_amount,
        total_staked,
    );
}

} // verus!
