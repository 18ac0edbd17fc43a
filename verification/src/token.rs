//! The byte layout of a token account.

use spl_token_2022::generic_token_account::GenericTokenAccount;
use vstd::prelude::*;

verus! {

/// Length of a token account without extensions.
pub const TOKEN_ACCOUNT_LEN: usize = 165;

/// Length of a token multisig account, which is never a token account.
pub const TOKEN_MULTISIG_LEN: usize = 355;

/// Position of the byte that holds the account's state; zero means
/// uninitialized.
pub const TOKEN_ACCOUNT_STATE_INDEX: usize = 108;

/// The account-type marker that follows the base layout of a token account
/// with extensions.
pub const TOKEN_ACCOUNT_TYPE_MARKER: u8 = 2;

/// Whether `data` has the shape of an initialized token account: the base
/// layout with a non-zero state byte, or a longer layout, not of multisig
/// length, that carries the account-type marker right after the base layout.
pub open spec fn token_account_shape(data: Seq<u8>) -> bool {
    ||| data.len() == TOKEN_ACCOUNT_LEN && data[TOKEN_ACCOUNT_STATE_INDEX as int] != 0
    ||| {
        &&& data.len() > TOKEN_ACCOUNT_LEN
        &&& data.len() != TOKEN_MULTISIG_LEN
        &&& data[TOKEN_ACCOUNT_LEN as int] == TOKEN_ACCOUNT_TYPE_MARKER
        &&& data[TOKEN_ACCOUNT_STATE_INDEX as int] != 0
    }
}

/// Whether `data` is the data of an initialized token account.
///
/// Calls `spl_token_2022::state::Account::valid_account_data`. The contract
/// restates that function's body: see [`token_account_shape`].
#[verifier::external_body]
pub(crate) fn valid_token_account(data: &[u8]) -> (valid: bool)
    ensures
        valid == token_account_shape(data@),
{
    spl_token_2022::state::Account::valid_account_data(data)
}

} // verus!
