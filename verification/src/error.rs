//! Error taxonomy of the aggregation engine and the remote client's
//! status-to-error decision logic.

use vstd::prelude::*;

verus! {

/// A typed failure of one aggregation call. Errors from any single required
/// remote call abort that aggregation and surface unchanged to the caller.
#[derive(Debug, Clone, Copy, PartialEq, Eq, Structural)]
pub enum ProgramError {
    /// A response body could not be decoded.
    DeserializeError,
    /// The request could not be sent at all.
    InvalidUrl,
    /// The spectator endpoint reported that the player is not in a match.
    NotInGame,
    /// The player has no ranked standing.
    NotRanked,
    /// A response had a status outside the endpoint's documented set;
    /// the raw code is carried for diagnostics.
    InvalidResponse(u16),
    /// The account (or the record looked up by its id) does not exist.
    InvalidAccount,
    /// A generic failing response from an endpoint; the raw status code
    /// is carried for diagnostics.
    BadResponse(u16),
    /// The player has no recent match history.
    NoHistory,
}

/// The five logical read endpoints of the remote source.
#[derive(Debug, Clone, Copy, PartialEq, Eq, Structural)]
pub enum Endpoint {
    /// Resolve a display name to an account.
    Account,
    /// Fetch the per-queue rank entries of a player.
    Rank,
    /// Fetch the match a player is currently in.
    LiveMatch,
    /// Fetch the recent-match summary window of an account.
    History,
    /// Fetch the full record of one finished match.
    MatchDetail,
}

/// The typed error a non-success HTTP status maps to, per endpoint:
/// 404 carries a documented meaning for each endpoint, every other
/// status is that endpoint's generic failure carrying the raw code.
pub open spec fn spec_status_error(endpoint: Endpoint, status: u16) -> ProgramError {
    match endpoint {
        Endpoint::Account => if status == 404 {
            ProgramError::InvalidAccount
        } else {
            ProgramError::BadResponse(status)
        },
        Endpoint::Rank => if status == 404 {
            ProgramError::InvalidAccount
        } else {
            ProgramError::BadResponse(status)
        },
        Endpoint::LiveMatch => if status == 404 {
            ProgramError::NotInGame
        } else {
            ProgramError::InvalidResponse(status)
        },
        Endpoint::History => if status == 404 {
            ProgramError::NoHistory
        } else {
            ProgramError::InvalidResponse(status)
        },
        Endpoint::MatchDetail => if status == 404 {
            ProgramError::InvalidAccount
        } else {
            ProgramError::BadResponse(status)
        },
    }
}

/// Maps a non-success HTTP status to the endpoint's typed error.
pub fn endpoint_status_error(endpoint: Endpoint, status: u16) -> (e: ProgramError)
    requires
        status != 200,
    ensures
        e == spec_status_error(endpoint, status),
{
    match endpoint {
        Endpoint::Account | Endpoint::Rank | Endpoint::MatchDetail => {
            if status == 404 {
                ProgramError::InvalidAccount
            } else {
                ProgramError::BadResponse(status)
            }
        },
        Endpoint::LiveMatch => {
            if status == 404 {
                ProgramError::NotInGame
            } else {
                ProgramError::InvalidResponse(status)
            }
        },
        Endpoint::History => {
            if status == 404 {
                ProgramError::NoHistory
            } else {
                ProgramError::InvalidResponse(status)
            }
        },
    }
}

impl ProgramError {
    /// The human-readable description a caller renders for this error.
    /// The raw status a variant may carry is left to the caller to show.
    pub fn message(&self) -> (m: &'static str)
        ensures
            *self == ProgramError::NotInGame ==> m@ == "Summoner is not in game."@,
            *self == ProgramError::InvalidAccount ==> m@ == "Account does not exist."@,
            *self == ProgramError::InvalidUrl ==> m@ == "Invalid url"@,
            *self == ProgramError::NotRanked ==> m@ == "Summoner is not ranked in solo's"@,
            (*self matches ProgramError::BadResponse(_)) ==> m@ == "Bad response"@,
            *self == ProgramError::DeserializeError ==> m@ == "Error deserializing JSON"@,
            (*self matches ProgramError::InvalidResponse(_)) ==> m@
                == "Invalid response, Status code not 404 or 200"@,
            *self == ProgramError::NoHistory ==> m@ == "No history available"@,
    {
        match self {
            ProgramError::NotInGame => "Summoner is not in game.",
            ProgramError::InvalidAccount => "Account does not exist.",
            ProgramError::InvalidUrl => "Invalid url",
            ProgramError::NotRanked => "Summoner is not ranked in solo's",
            ProgramError::BadResponse(_) => "Bad response",
            ProgramError::DeserializeError => "Error deserializing JSON",
            ProgramError::InvalidResponse(_) => "Invalid response, Status code not 404 or 200",
            ProgramError::NoHistory => "No history available",
        }
    }
}

} // verus!
