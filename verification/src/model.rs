//! Entities handed to the engine by the remote source: a resolved account,
//! the entries of the recent-match list, the full record of one finished
//! match, and the participants of an in-progress match.
//!
//! The unverified front end decodes the remote JSON bodies into these plain
//! types; everything the derivation logic reads is a field here.

use vstd::prelude::*;

verus! {

/// A resolved player identity. The account id and the summoner id are
/// distinct namespaces; downstream calls need both.
#[derive(Debug)]
pub struct Account {
    pub id: String,
    pub account_id: String,
    pub puuid: String,
    pub name: String,
    pub profile_icon_id: i32,
    pub revision_date: i64,
    pub summoner_level: i32,
}

/// One entry in a player's recent-match list; its role/lane pair feeds
/// role classification.
#[derive(Debug)]
pub struct MatchSummary {
    pub queue: u16,
    pub season: u8,
    pub role: String,
    pub lane: String,
    pub champion: u16,
    pub game_id: u64,
}

/// Per-team result recorded in a finished match: the team id and its
/// `"Win"`/`"Fail"` flag.
#[derive(Debug)]
pub struct TeamResult {
    pub team_id: u16,
    pub win: String,
}

/// Roster entry of a finished match: which participant sat on which team.
#[derive(Debug)]
pub struct MatchParticipant {
    pub participant_id: u16,
    pub team_id: u16,
}

/// Identity-to-participant mapping entry of a finished match.
#[derive(Debug)]
pub struct ParticipantIdentity {
    pub participant_id: u16,
    pub account_id: String,
}

/// Full resolved record for one match id, used only to determine the
/// subject player's personal outcome for that match.
#[derive(Debug)]
pub struct MatchDetail {
    pub teams: Vec<TeamResult>,
    pub participants: Vec<MatchParticipant>,
    pub participant_identities: Vec<ParticipantIdentity>,
}

/// One member of an in-progress match's roster as the spectator endpoint
/// reports it.
#[derive(Debug)]
pub struct LiveParticipant {
    pub team_id: i32,
    pub summoner_name: String,
    pub summoner_id: String,
    pub champion_id: u16,
}

} // verus!
