use access_protocol::accounts::AccountView;
use access_protocol::claim_rewards::{process_claim_rewards, Params};
use access_protocol::error::AccessError;
use access_protocol::state::{CentralState, StakeAccount, StakePool, Tag};

const PROGRAM: [u8; 32] = [7; 32];
const TOKEN_PROGRAM: [u8; 32] = [9; 32];
const POOL_KEY: [u8; 32] = [1; 32];
const STAKE_KEY: [u8; 32] = [2; 32];
const OWNER_KEY: [u8; 32] = [3; 32];
const DEST_KEY: [u8; 32] = [4; 32];
const CENTRAL_KEY: [u8; 32] = [5; 32];
const MINT_KEY: [u8; 32] = [6; 32];

fn account(key: [u8; 32], owner: [u8; 32], is_signer: bool, data: Vec<u8>) -> AccountView {
    AccountView { key, owner, is_signer, data }
}

fn pool_bytes(total_staked: u64, name: &[u8]) -> Vec<u8> {
    let mut d = vec![1u8];
    d.extend_from_slice(&total_staked.to_le_bytes());
    d.extend_from_slice(&(-5i64).to_le_bytes());
    d.extend_from_slice(&[11u8; 32]);
    d.extend_from_slice(&[12u8; 32]);
    d.push(254);
    d.extend_from_slice(&(name.len() as u32).to_le_bytes());
    d.extend_from_slice(name);
    d
}

fn mint_bytes(supply: u64) -> Vec<u8> {
    let mut d = vec![0u8; 82];
    d[36..44].copy_from_slice(&supply.to_le_bytes());
    d[44] = 6;
    d[45] = 1;
    d
}

fn stake_account(last_claimed_time: i64, stake_amount: u64) -> StakeAccount {
    StakeAccount {
        tag: Tag::StakeAccount,
        owner: OWNER_KEY,
        stake_pool: POOL_KEY,
        stake_amount,
        last_claimed_time,
    }
}

fn claim_accounts(sa: &StakeAccount, supply: u64, total_staked: u64) -> Vec<AccountView> {
    let central = CentralState::new(254, 864000, MINT_KEY);
    vec![
        account(POOL_KEY, PROGRAM, false, pool_bytes(total_staked, b"pool")),
        account(STAKE_KEY, PROGRAM, false, sa.to_bytes()),
        account(OWNER_KEY, [0; 32], true, vec![]),
        account(DEST_KEY, TOKEN_PROGRAM, false, vec![0; 165]),
        account(CENTRAL_KEY, PROGRAM, false, central.to_bytes()),
        account(MINT_KEY, TOKEN_PROGRAM, false, mint_bytes(supply)),
        account(TOKEN_PROGRAM, [0; 32], false, vec![]),
    ]
}

fn claim(accounts: &[AccountView], now: i64) -> Result<(u64, StakeAccount), AccessError> {
    process_claim_rewards(&PROGRAM, &TOKEN_PROGRAM, accounts, Params {}, now)
        .map(|e| (e.rewards, e.stake_account))
}

#[test]
fn claim_pays_share_and_moves_claim_time() {
    // two days of 864000 is a basis of 1_728_000; / 1000 = 1728; * 50 / 100 = 864;
    // * 250 / 1000 = 216
    let sa = stake_account(1000, 250);
    let accounts = claim_accounts(&sa, 1000, 1000);
    let e = process_claim_rewards(&PROGRAM, &TOKEN_PROGRAM, &accounts, Params {}, 1000 + 2 * 86400)
        .unwrap();
    assert_eq!(e.rewards, 216);
    assert_eq!(e.signer_nonce, 254);
    assert_eq!(e.stake_account, StakeAccount { last_claimed_time: 1000 + 2 * 86400, ..sa });
}

#[test]
fn second_claim_at_same_time_owes_nothing() {
    let sa = stake_account(0, 500);
    let mut accounts = claim_accounts(&sa, 10, 1000);
    let (first, updated) = claim(&accounts, 86400 * 10).unwrap();
    assert_eq!(first, 216000);
    updated.save(&mut accounts[1].data);
    assert_eq!(claim(&accounts, 86400 * 10), Ok((0, updated)));
}

#[test]
fn half_day_claim_on_large_supply_is_zero() {
    let sa = stake_account(0, 100);
    let accounts = claim_accounts(&sa, 1_000_000, 1000);
    assert_eq!(claim(&accounts, 43200).map(|r| r.0), Ok(0));
}

#[test]
fn claim_by_other_signer_is_refused() {
    let sa = stake_account(0, 100);
    let mut accounts = claim_accounts(&sa, 10, 1000);
    accounts[2].key = [42; 32];
    assert_eq!(claim(&accounts, 86400), Err(AccessError::StakeAccountOwnerMismatch));
}

#[test]
fn claim_with_other_pool_is_refused() {
    let sa = stake_account(0, 100);
    let mut accounts = claim_accounts(&sa, 10, 1000);
    accounts[0].key = [43; 32];
    assert_eq!(claim(&accounts, 86400), Err(AccessError::WrongStakePool));
}

#[test]
fn claim_without_signature_is_refused() {
    let sa = stake_account(0, 100);
    let mut accounts = claim_accounts(&sa, 10, 1000);
    accounts[2].is_signer = false;
    assert_eq!(claim(&accounts, 86400), Err(AccessError::StakePoolOwnerMustSign));
}

#[test]
fn claim_with_other_mint_is_refused() {
    let sa = stake_account(0, 100);
    let mut accounts = claim_accounts(&sa, 10, 1000);
    accounts[5].key = [44; 32];
    assert_eq!(claim(&accounts, 86400), Err(AccessError::WrongMint));
}

#[test]
fn claim_checks_controllers_and_token_program() {
    let sa = stake_account(0, 100);
    let base = claim_accounts(&sa, 10, 1000);
    let mut a = base.clone();
    a[6].key = [45; 32];
    assert_eq!(claim(&a, 86400), Err(AccessError::WrongSplTokenProgramId));
    let mut a = base.clone();
    a[0].owner = [45; 32];
    assert_eq!(claim(&a, 86400), Err(AccessError::WrongStakePoolAccountOwner));
    let mut a = base.clone();
    a[1].owner = [45; 32];
    assert_eq!(claim(&a, 86400), Err(AccessError::WrongStakeAccountOwner));
    let mut a = base.clone();
    a[4].owner = [45; 32];
    assert_eq!(claim(&a, 86400), Err(AccessError::WrongOwner));
    assert_eq!(claim(&base[..6], 86400), Err(AccessError::NotEnoughAccountKeys));
}

#[test]
fn claim_on_empty_pool_or_supply_is_overflow() {
    let sa = stake_account(0, 0);
    let accounts = claim_accounts(&sa, 10, 0);
    assert_eq!(claim(&accounts, 86400), Err(AccessError::Overflow));
    let accounts = claim_accounts(&sa, 0, 10);
    assert_eq!(claim(&accounts, 86400), Err(AccessError::Overflow));
}

#[test]
fn claim_before_last_claim_is_overflow() {
    let sa = stake_account(1000, 100);
    let accounts = claim_accounts(&sa, 10, 1000);
    assert_eq!(claim(&accounts, 999), Err(AccessError::Overflow));
}

#[test]
fn claim_reads_supply_from_mint() {
    // one day: 864000 / 4 = 216000; * 50 / 100 = 108000; * 1 / 1 = 108000
    let sa = stake_account(0, 1);
    let accounts = claim_accounts(&sa, 4, 1);
    assert_eq!(claim(&accounts, 86400).map(|r| r.0), Ok(108000));
}

#[test]
fn claim_refuses_malformed_records() {
    let sa = stake_account(0, 100);
    let base = claim_accounts(&sa, 10, 1000);
    let mut a = base.clone();
    a[5].data[0] = 7;
    assert_eq!(claim(&a, 86400), Err(AccessError::InvalidAccountData));
    let mut a = base.clone();
    a[5].data.truncate(81);
    assert_eq!(claim(&a, 86400), Err(AccessError::InvalidAccountData));
    let mut a = base.clone();
    a[4].data[0] = 1;
    assert_eq!(claim(&a, 86400), Err(AccessError::DataTypeMismatch));
    let mut a = base.clone();
    a[1].data[0] = 3;
    assert_eq!(claim(&a, 86400), Err(AccessError::DataTypeMismatch));
    let mut a = base.clone();
    a[0].data[0] = 2;
    assert_eq!(claim(&a, 86400), Err(AccessError::DataTypeMismatch));
}

#[test]
fn stake_pool_reads_its_fields() {
    let pool = StakePool::get_checked(&pool_bytes(77, "café".as_bytes())).unwrap();
    assert_eq!(pool.tag, Tag::StakePool);
    assert_eq!(pool.total_staked, 77);
    assert_eq!(pool.last_crank_time, -5);
    assert_eq!(pool.owner, [11; 32]);
    assert_eq!(pool.rewards_destination, [12; 32]);
    assert_eq!(pool.nonce, 254);
    assert_eq!(pool.name, "café".to_string());
}

#[test]
fn stake_pool_refuses_bad_name() {
    assert_eq!(
        StakePool::get_checked(&pool_bytes(77, &[0xff, 0xfe])),
        Err(AccessError::InvalidAccountData)
    );
    let mut d = pool_bytes(77, b"abc");
    d.pop();
    assert_eq!(StakePool::get_checked(&d), Err(AccessError::InvalidAccountData));
}
