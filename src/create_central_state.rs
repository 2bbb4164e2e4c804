//! Create the central state: the checks and the record to allocate. The
//! caller allocates the storage at the derived address and stores the record.
use vstd::prelude::*;

use crate::accounts::{check_account_key, check_account_owner, AccountView};
use crate::error::AccessError;
use crate::solana::program_address;
use crate::state::{central_state_seeds, CentralState, Tag};

verus! {

/// The parameters of the creation.
pub struct Params {
    /// Nonce of the central state's address derivation.
    pub signer_nonce: u8,
    /// Amount of tokens minted over one day.
    pub daily_inflation: u64,
    /// Mint of the token being emitted.
    pub token_mint: [u8; 32],
}

/// The accounts of the creation, in the order in which they are presented.
pub struct Accounts<'a> {
    /// The account that becomes the central state.
    pub state_account: &'a AccountView,
    /// The system program.
    pub system_program: &'a AccountView,
    /// The account that pays for the storage.
    pub fee_payer: &'a AccountView,
    /// The rent sysvar.
    pub rent_sysvar_account: &'a AccountView,
}

/// Why the presented accounts are refused, if they are.
pub open spec fn create_accounts_error(
    accounts: Seq<AccountView>,
    system_program_id: [u8; 32],
    rent_sysvar_id: [u8; 32],
) -> Option<AccessError> {
    if accounts.len() < 4 {
        Some(AccessError::NotEnoughAccountKeys)
    } else if accounts[1].key@ != system_program_id@ {
        Some(AccessError::WrongSystemProgram)
    } else if accounts[3].key@ != rent_sysvar_id@ {
        Some(AccessError::WrongRent)
    } else if accounts[0].owner@ != system_program_id@ {
        Some(AccessError::WrongOwner)
    } else {
        None
    }
}

impl<'a> Accounts<'a> {
    /// Takes the accounts of the creation in order and checks the system
    /// program, the rent sysvar and that the state account is not yet owned.
    pub fn parse(
        accounts: &'a [AccountView],
        system_program_id: &[u8; 32],
        rent_sysvar_id: &[u8; 32],
    ) -> (r: Result<Accounts<'a>, AccessError>)
        ensures
            match r {
                Ok(a) => create_accounts_error(accounts@, *system_program_id, *rent_sysvar_id) is None
                    && *a.state_account == accounts@[0] && *a.system_program == accounts@[1]
                    && *a.fee_payer == accounts@[2] && *a.rent_sysvar_account == accounts@[3],
                Err(e) => create_accounts_error(accounts@, *system_program_id, *rent_sysvar_id) == Some(e),
            },
    {
        if accounts.len() < 4 {
            return Err(AccessError::NotEnoughAccountKeys);
        }
        let a = Accounts {
            state_account: &accounts[0],
            system_program: &accounts[1],
            fee_payer: &accounts[2],
            rent_sysvar_account: &accounts[3],
        };
        check_account_key(a.system_program, system_program_id, AccessError::WrongSystemProgram)?;
        check_account_key(a.rent_sysvar_account, rent_sysvar_id, AccessError::WrongRent)?;
        check_account_owner(a.state_account, system_program_id, AccessError::WrongOwner)?;
        Ok(a)
    }
}

/// What a granted creation asks of its caller: allocate `space` bytes at the
/// state account, signed by the derivation with the state's nonce, then store
/// `state` there.
pub struct CreateCentralStateEffect {
    pub space: usize,
    pub state: CentralState,
}

/// Whether `key` is the address derived for the central state with this nonce.
pub open spec fn is_central_state_address(signer_nonce: u8, program_id: [u8; 32], key: [u8; 32]) -> bool {
    &&& program_address(central_state_seeds(signer_nonce, program_id), program_id@) is Some
    &&& program_address(central_state_seeds(signer_nonce, program_id), program_id@).unwrap()@ == key@
}

/// Processes the creation of the central state on the accounts in the order
/// of [`Accounts`].
pub fn process_create_central_state(
    program_id: &[u8; 32],
    system_program_id: &[u8; 32],
    rent_sysvar_id: &[u8; 32],
    accounts: &[AccountView],
    params: Params,
) -> (r: Result<CreateCentralStateEffect, AccessError>)
    ensures
        match create_accounts_error(accounts@, *system_program_id, *rent_sysvar_id) {
            Some(e) => r == Err::<CreateCentralStateEffect, AccessError>(e),
            None => if is_central_state_address(params.signer_nonce, *program_id, accounts@[0].key) {
                &&& r is Ok
                &&& r.unwrap().space == CentralState::LEN
                &&& r.unwrap().state == (CentralState {
                    tag: Tag::CentralState,
                    signer_nonce: params.signer_nonce,
                    daily_inflation: params.daily_inflation,
                    token_mint: params.token_mint,
                })
            } else {
                r == Err::<CreateCentralStateEffect, AccessError>(AccessError::AccountNotDeterministic)
            },
        },
{
    let a = Accounts::parse(accounts, system_program_id, rent_sysvar_id)?;
    let derived = match CentralState::create_key(&params.signer_nonce, program_id) {
        Some(k) => k,
        None => return Err(AccessError::AccountNotDeterministic),
    };
    check_account_key(a.state_account, &derived, AccessError::AccountNotDeterministic)?;
    let state = CentralState::new(params.signer_nonce, params.daily_inflation, params.token_mint);
    Ok(CreateCentralStateEffect { space: CentralState::LEN, state })
}

} // verus!
