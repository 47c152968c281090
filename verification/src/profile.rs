//! Profile aggregation: joining the account lookup's two dependent
//! fan-out results — the solo-queue standing and the most-played role —
//! into one ranked profile.

use vstd::prelude::*;
use crate::error::ProgramError;
use crate::model::Account;
use crate::rank::Rank;

verus! {

/// A player's ranked profile: the resolved account, its solo-queue
/// standing and its most-played role.
#[derive(Debug)]
pub struct UserAccount {
    pub account: Account,
    pub rank: Rank,
    pub top_role: String,
}

impl UserAccount {
    /// Plain constructor.
    pub fn new(account: Account, rank: Rank, top_role: String) -> (u: Self)
        ensures
            u.account == account,
            u.rank == rank,
            u.top_role == top_role,
    {
        UserAccount { account, rank, top_role }
    }
}

/// Joins the two concurrent follow-up lookups of a profile aggregation.
/// Both must have succeeded for the profile to form; otherwise the failing
/// lookup's typed error surfaces unchanged, the rank lookup's first.
pub fn build_user_account(
    account: Account,
    rank: Result<Rank, ProgramError>,
    role: Result<String, ProgramError>,
) -> (r: Result<UserAccount, ProgramError>)
    ensures
        rank is Ok && role is Ok ==> r == Ok::<UserAccount, ProgramError>(
            UserAccount { account: account, rank: rank->Ok_0, top_role: role->Ok_0 },
        ),
        rank is Err ==> r == Err::<UserAccount, ProgramError>(rank->Err_0),
        rank is Ok && role is Err ==> r == Err::<UserAccount, ProgramError>(role->Err_0),
{
    match (rank, role) {
        (Ok(rk), Ok(rl)) => Ok(UserAccount::new(account, rk, rl)),
        (Err(e), _) => Err(e),
        (Ok(_), Err(e)) => Err(e),
    }
}

} // verus!
