//! Username claims: a name of 3 to 20 alphanumeric characters, stored
//! lower-cased, for a fixed fee.

use vstd::prelude::*;
use crate::table::Pubkey;

verus! {

/// Shortest accepted username, in bytes.
pub const USERNAME_MIN_LEN: usize = 3;

/// Longest accepted username, in bytes.
pub const USERNAME_MAX_LEN: usize = 20;

/// Fee for a claim, in lamports.
pub const CLAIM_FEE: u64 = 10_000_000;

/// Why a claim was refused. Only `InvalidUsername` comes from the name
/// itself; the other two are raised where the records are stored.
#[derive(Clone, Copy, PartialEq, Eq, Debug, Structural)]
pub enum ErrorCode {
    InvalidUsername,
    UsernameTaken,
    WalletAlreadyHasUsername,
}

/// Whether `c` has the Unicode Alphabetic or Numeric property.
pub uninterp spec fn alphanumeric(c: char) -> bool;

/// The Unicode lower-case mapping of a string.
pub uninterp spec fn lowercase_of(s: Seq<char>) -> Seq<char>;

/// Relies on `char::is_alphanumeric`: whether `c` is Alphabetic or Numeric,
/// a property of the character alone.
#[verifier::external_body]
fn is_alphanumeric(c: char) -> (r: bool)
    ensures
        r == alphanumeric(c),
{
    c.is_alphanumeric()
}

/// Relies on `str::to_lowercase`: the lower-case mapping of `s`, a function
/// of its characters alone.
#[verifier::external_body]
fn to_lowercase(s: &str) -> (r: String)
    ensures
        r@ == lowercase_of(s@),
{
    s.to_lowercase()
}

/// A username is 3 to 20 bytes long and every character is alphanumeric.
pub open spec fn valid_username(s: &str) -> bool {
    &&& USERNAME_MIN_LEN <= s.len() <= USERNAME_MAX_LEN
    &&& forall|i: int| 0 <= i < s@.len() ==> alphanumeric(#[trigger] s@[i])
}

/// Whether `username` may be claimed.
pub fn validate_username(username: &str) -> (r: bool)
    ensures
        r == valid_username(username),
{
    let len = username.len();
    if len < USERNAME_MIN_LEN || len > USERNAME_MAX_LEN {
        return false;
    }
    let mut all = true;
    for c in it: username.chars()
        invariant
            it.seq() == username@,
            all <==> forall|i: int| 0 <= i < it.index() ==> alphanumeric(#[trigger] username@[i]),
    {
        let ok = is_alphanumeric(c);
        all = all && ok;
    }
    all
}


/// The record under a claimed name.
pub struct UsernameAccount {
    pub owner: Pubkey,
    pub username: String,
    pub created_at: i64,
    pub bump: u8,
}

/// The record under a wallet that has claimed a name.
pub struct WalletAccount {
    pub owner: Pubkey,
    pub username: String,
    pub bump: u8,
}

/// What a successful claim writes, and the fee it charges.
pub struct UsernameClaim {
    pub username_account: UsernameAccount,
    pub wallet_account: WalletAccount,
    pub fee: u64,
}

/// The two records of a claim of the already lower-cased name `lowered` by
/// `owner` at time `now`, with the fixed fee.
pub fn record_claim(lowered: String, owner: Pubkey, now: i64, username_bump: u8, wallet_bump: u8) -> (c: UsernameClaim)
    ensures
        c.username_account.owner == owner,
        c.username_account.username@ == lowered@,
        c.username_account.created_at == now,
        c.username_account.bump == username_bump,
        c.wallet_account.owner == owner,
        c.wallet_account.username@ == lowered@,
        c.wallet_account.bump == wallet_bump,
        c.fee == CLAIM_FEE,
{
    let copy = lowered.clone();
    UsernameClaim {
        username_account: UsernameAccount { owner, username: copy, created_at: now, bump: username_bump },
        wallet_account: WalletAccount { owner, username: lowered, bump: wallet_bump },
        fee: CLAIM_FEE,
    }
}

/// Claims `username` for `owner`: the name must be 3 to 20 bytes of
/// alphanumeric characters (`InvalidUsername` otherwise), and is stored
/// lower-cased under both records.
pub fn claim_username(
    username: &str,
    owner: Pubkey,
    now: i64,
    username_bump: u8,
    wallet_bump: u8,
) -> (r: Result<UsernameClaim, ErrorCode>)
    ensures
        r is Ok <==> valid_username(username),
        r is Err ==> r matches Err(ErrorCode::InvalidUsername),
        r matches Ok(c) ==> {
            &&& c.username_account.owner == owner
            &&& c.username_account.username@ == lowercase_of(username@)
            &&& c.username_account.created_at == now
            &&& c.username_account.bump == username_bump
            &&& c.wallet_account.owner == owner
            &&& c.wallet_account.username@ == lowercase_of(username@)
            &&& c.wallet_account.bump == wallet_bump
            &&& c.fee == CLAIM_FEE
        },
{
    if !validate_username(username) {
        return Err(ErrorCode::InvalidUsername);
    }
    let lowered = to_lowercase(username);
    Ok(record_claim(lowered, owner, now, username_bump, wallet_bump))
}

} // verus!
