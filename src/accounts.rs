//! Accounts as the ledger presents them, and the checks that gate every mutation.
use vstd::prelude::*;

use crate::error::AccessError;

verus! {

/// A record as presented to an operation: its address, its storage
/// controller, whether its key signed the call, and its bytes.
#[derive(Clone, Debug)]
pub struct AccountView {
    pub key: [u8; 32],
    pub owner: [u8; 32],
    pub is_signer: bool,
    pub data: Vec<u8>,
}

/// Whether two identifiers are the same.
pub fn keys_equal(a: &[u8; 32], b: &[u8; 32]) -> (r: bool)
    ensures
        r == (a@ == b@),
{
    let mut i: usize = 0;
    while i < 32
        invariant
            i <= 32,
            a@.len() == 32,
            b@.len() == 32,
            forall|j: int| 0 <= j < i ==> a@[j] == b@[j],
        decreases 32 - i,
    {
        if a[i] != b[i] {
            return false;
        }
        i = i + 1;
    }
    assert(a@ =~= b@);
    true
}

/// Fails with `error` unless the account's address is `key`.
pub fn check_account_key(account: &AccountView, key: &[u8; 32], error: AccessError) -> (r: Result<
    (),
    AccessError,
>)
    ensures
        r == (if account.key@ == key@ {
            Ok(())
        } else {
            Err(error)
        }),
{
    if keys_equal(&account.key, key) {
        Ok(())
    } else {
        Err(error)
    }
}

/// Fails with `error` unless the account's storage is controlled by `owner`.
pub fn check_account_owner(account: &AccountView, owner: &[u8; 32], error: AccessError) -> (r:
    Result<(), AccessError>)
    ensures
        r == (if account.owner@ == owner@ {
            Ok(())
        } else {
            Err(error)
        }),
{
    if keys_equal(&account.owner, owner) {
        Ok(())
    } else {
        Err(error)
    }
}

/// Fails with `error` unless the account's key signed the call.
pub fn check_signer(account: &AccountView, error: AccessError) -> (r: Result<(), AccessError>)
    ensures
        r == (if account.is_signer {
            Ok(())
        } else {
            Err(error)
        }),
{
    if account.is_signer {
        Ok(())
    } else {
        Err(error)
    }
}

} // verus!
