//! Match-history aggregation: correlating the subject player's identity
//! with a finished match's roster and team results to derive a personal
//! outcome, and assembling the rows of the history report.
//!
//! The detail records arrive one per summary entry, already fetched by the
//! front end; a missing record (a failed fetch) degrades that row to an
//! unavailable outcome instead of failing the whole report.

use vstd::prelude::*;
use crate::model::MatchDetail;
use crate::model::MatchParticipant;
use crate::model::MatchSummary;
use crate::model::ParticipantIdentity;
use crate::role::determine_role;
use crate::role::spec_determine_role;
use crate::strutil::string_eq_str;

verus! {

/// One row of the history report: the derived role, queue id, champion id
/// and the subject's outcome — `None` when it could not be determined.
#[derive(Debug)]
pub struct UserMatch {
    pub role: String,
    pub game_mode: u16,
    pub champ: u16,
    pub outcome: Option<bool>,
}

impl UserMatch {
    /// Plain constructor.
    pub fn new(role: String, mode: u16, champ: u16, outcome: Option<bool>) -> (m: Self)
        ensures
            m.role == role,
            m.game_mode == mode,
            m.champ == champ,
            m.outcome == outcome,
    {
        UserMatch { role, game_mode: mode, champ, outcome }
    }

    /// The display word for this row's outcome.
    pub fn get_outcome(&self) -> (s: &'static str)
        ensures
            self.outcome == Some(true) ==> s@ == "Win"@,
            self.outcome == Some(false) ==> s@ == "Loss"@,
            self.outcome is None ==> s@ == "Unavailable"@,
    {
        match self.outcome {
            Some(v) => if v {
                "Win"
            } else {
                "Loss"
            },
            None => "Unavailable",
        }
    }
}

/// The display name of a queue id, out of the fixed ranked-queue
/// allow-list; any other id shows as unknown.
pub fn format_game_id(id: u16) -> (name: String)
    ensures
        id == 400 ==> name@ == "Normal Draft"@,
        id == 410 ==> name@ == "Ranked Dynamic"@,
        id == 420 ==> name@ == "Ranked Solo"@,
        id == 430 ==> name@ == "Blink Pick"@,
        id == 440 ==> name@ == "Ranked Flex"@,
        id != 400 && id != 410 && id != 420 && id != 430 && id != 440 ==> name@ == "Unknown"@,
{
    match id {
        400 => "Normal Draft".to_owned(),
        410 => "Ranked Dynamic".to_owned(),
        420 => "Ranked Solo".to_owned(),
        430 => "Blink Pick".to_owned(),
        440 => "Ranked Flex".to_owned(),
        _ => "Unknown".to_owned(),
    }
}

/// The first index of `ids` whose account id is `acc`, if any.
pub open spec fn spec_find_identity(ids: Seq<ParticipantIdentity>, acc: Seq<char>) -> Option<int>
    decreases ids.len(),
{
    if ids.len() == 0 {
        None
    } else if ids[0].account_id@ == acc {
        Some(0)
    } else {
        match spec_find_identity(ids.drop_first(), acc) {
            None => None,
            Some(k) => Some(k + 1),
        }
    }
}

/// The first index of `ps` whose participant id is `pid`, if any.
pub open spec fn spec_find_participant(ps: Seq<MatchParticipant>, pid: u16) -> Option<int>
    decreases ps.len(),
{
    if ps.len() == 0 {
        None
    } else if ps[0].participant_id == pid {
        Some(0)
    } else {
        match spec_find_participant(ps.drop_first(), pid) {
            None => None,
            Some(k) => Some(k + 1),
        }
    }
}

proof fn lemma_find_identity_at(ids: Seq<ParticipantIdentity>, acc: Seq<char>, i: int)
    requires
        0 <= i < ids.len(),
        ids[i].account_id@ == acc,
        forall|j: int| 0 <= j < i ==> ids[j].account_id@ != acc,
    ensures
        spec_find_identity(ids, acc) == Some(i),
    decreases i,
{
    if i > 0 {
        lemma_find_identity_at(ids.drop_first(), acc, i - 1);
    }
}

proof fn lemma_find_identity_missing(ids: Seq<ParticipantIdentity>, acc: Seq<char>)
    requires
        forall|j: int| 0 <= j < ids.len() ==> ids[j].account_id@ != acc,
    ensures
        spec_find_identity(ids, acc) is None,
    decreases ids.len(),
{
    if ids.len() > 0 {
        lemma_find_identity_missing(ids.drop_first(), acc);
    }
}

proof fn lemma_find_participant_at(ps: Seq<MatchParticipant>, pid: u16, i: int)
    requires
        0 <= i < ps.len(),
        ps[i].participant_id == pid,
        forall|j: int| 0 <= j < i ==> ps[j].participant_id != pid,
    ensures
        spec_find_participant(ps, pid) == Some(i),
    decreases i,
{
    if i > 0 {
        lemma_find_participant_at(ps.drop_first(), pid, i - 1);
    }
}

proof fn lemma_find_participant_missing(ps: Seq<MatchParticipant>, pid: u16)
    requires
        forall|j: int| 0 <= j < ps.len() ==> ps[j].participant_id != pid,
    ensures
        spec_find_participant(ps, pid) is None,
    decreases ps.len(),
{
    if ps.len() > 0 {
        lemma_find_participant_missing(ps.drop_first(), pid);
    }
}

/// The index of the identity entry naming `account_id`, if one does.
fn find_identity_index(ids: &Vec<ParticipantIdentity>, account_id: &String) -> (r: Option<usize>)
    ensures
        match r {
            Some(i) => 0 <= i < ids@.len() && spec_find_identity(ids@, account_id@) == Some(
                i as int,
            ),
            None => spec_find_identity(ids@, account_id@) is None,
        },
{
    let mut i: usize = 0;
    while i < ids.len()
        invariant
            0 <= i <= ids@.len(),
            forall|j: int| 0 <= j < i ==> ids@[j].account_id@ != account_id@,
        decreases ids@.len() - i,
    {
        if ids[i].account_id == *account_id {
            proof {
                lemma_find_identity_at(ids@, account_id@, i as int);
            }
            return Some(i);
        }
        i += 1;
    }
    proof {
        lemma_find_identity_missing(ids@, account_id@);
    }
    None
}

/// The index of the roster entry carrying `pid`, if one does.
fn find_participant_index(ps: &Vec<MatchParticipant>, pid: u16) -> (r: Option<usize>)
    ensures
        match r {
            Some(i) => 0 <= i < ps@.len() && spec_find_participant(ps@, pid) == Some(i as int),
            None => spec_find_participant(ps@, pid) is None,
        },
{
    let mut i: usize = 0;
    while i < ps.len()
        invariant
            0 <= i <= ps@.len(),
            forall|j: int| 0 <= j < i ==> ps@[j].participant_id != pid,
        decreases ps@.len() - i,
    {
        if ps[i].participant_id == pid {
            proof {
                lemma_find_participant_at(ps@, pid, i as int);
            }
            return Some(i);
        }
        i += 1;
    }
    proof {
        lemma_find_participant_missing(ps@, pid);
    }
    None
}

/// The subject's personal outcome recorded in one match detail. Team id
/// 100 wins exactly when the detail's first listed team recorded a `"Win"`
/// flag; the opposing side's outcome is the negation. The outcome is
/// undetermined (`None`) when the detail is internally inconsistent: no
/// team entries, no identity entry for the subject, or no roster entry for
/// the subject's participant id.
pub open spec fn spec_match_outcome(detail: MatchDetail, acc: Seq<char>) -> Option<bool> {
    if detail.teams@.len() == 0 {
        None
    } else {
        let team_100_win = detail.teams@[0].win@ == "Win"@;
        match spec_find_identity(detail.participant_identities@, acc) {
            None => None,
            Some(i) => {
                let pid = detail.participant_identities@[i].participant_id;
                match spec_find_participant(detail.participants@, pid) {
                    None => None,
                    Some(j) => Some(
                        if detail.participants@[j].team_id == 100 {
                            team_100_win
                        } else {
                            !team_100_win
                        },
                    ),
                }
            },
        }
    }
}

/// History outcome law: when the first listed team recorded a win, a
/// subject mapped to team id 100 is scored a win and a subject mapped to
/// the other side a loss — and the reverse when it did not.
pub proof fn lemma_outcome_follows_team(detail: MatchDetail, acc: Seq<char>, i: int, j: int)
    requires
        detail.teams@.len() > 0,
        spec_find_identity(detail.participant_identities@, acc) == Some(i),
        spec_find_participant(
            detail.participants@,
            detail.participant_identities@[i].participant_id,
        ) == Some(j),
    ensures
        detail.teams@[0].win@ == "Win"@ && detail.participants@[j].team_id == 100
            ==> spec_match_outcome(detail, acc) == Some(true),
        detail.teams@[0].win@ == "Win"@ && detail.participants@[j].team_id != 100
            ==> spec_match_outcome(detail, acc) == Some(false),
        detail.teams@[0].win@ != "Win"@ && detail.participants@[j].team_id == 100
            ==> spec_match_outcome(detail, acc) == Some(false),
        detail.teams@[0].win@ != "Win"@ && detail.participants@[j].team_id != 100
            ==> spec_match_outcome(detail, acc) == Some(true),
{
}

/// Determines whether the subject identified by `account_id` won the match
/// recorded in `detail`: locates the subject's identity entry, follows its
/// participant id into the roster to find the team side, and compares that
/// side against the first listed team's win flag. An internally
/// inconsistent detail yields `None` rather than an error.
pub fn match_outcome(detail: &MatchDetail, account_id: &String) -> (o: Option<bool>)
    ensures
        o == spec_match_outcome(*detail, account_id@),
{
    if detail.teams.len() == 0 {
        return None;
    }
    let team_100_win = string_eq_str(&detail.teams[0].win, "Win");
    match find_identity_index(&detail.participant_identities, account_id) {
        None => None,
        Some(i) => {
            let pid = detail.participant_identities[i].participant_id;
            match find_participant_index(&detail.participants, pid) {
                None => None,
                Some(j) => {
                    if detail.participants[j].team_id == 100 {
                        Some(team_100_win)
                    } else {
                        Some(!team_100_win)
                    }
                },
            }
        },
    }
}

/// The outcome recorded for a summary entry given the result of its detail
/// fetch: a missing detail (failed fetch) leaves the row's outcome
/// undetermined.
pub open spec fn spec_row_outcome(detail: Option<MatchDetail>, acc: Seq<char>) -> Option<bool> {
    match detail {
        Some(d) => spec_match_outcome(d, acc),
        None => None,
    }
}

/// Builds the rows of the history report: one row per summary entry, in
/// order, each carrying the role derived from the entry's own lane and
/// sub-role fields, the entry's queue and champion ids, and the outcome
/// determined from the matching detail record. A row whose detail fetch
/// failed is kept, with an undetermined outcome, and leaves every other
/// row unaffected.
pub fn build_match_records(
    matches: &Vec<MatchSummary>,
    details: &Vec<Option<MatchDetail>>,
    account_id: &String,
) -> (records: Vec<UserMatch>)
    requires
        matches@.len() == details@.len(),
    ensures
        records@.len() == matches@.len(),
        forall|k: int| 0 <= k < records@.len() ==> {
            &&& (#[trigger] records@[k]).role@ == spec_determine_role(
                matches@[k].role@,
                matches@[k].lane@,
            )
            &&& records@[k].game_mode == matches@[k].queue
            &&& records@[k].champ == matches@[k].champion
            &&& records@[k].outcome == spec_row_outcome(details@[k], account_id@)
        },
        forall|k: int| 0 <= k < records@.len() && details@[k] is None
            ==> (#[trigger] records@[k]).outcome is None,
{
    let mut records: Vec<UserMatch> = Vec::new();
    let mut i: usize = 0;
    while i < matches.len()
        invariant
            matches@.len() == details@.len(),
            0 <= i <= matches@.len(),
            records@.len() == i,
            forall|k: int| 0 <= k < i ==> {
                &&& (#[trigger] records@[k]).role@ == spec_determine_role(
                    matches@[k].role@,
                    matches@[k].lane@,
                )
                &&& records@[k].game_mode == matches@[k].queue
                &&& records@[k].champ == matches@[k].champion
                &&& records@[k].outcome == spec_row_outcome(details@[k], account_id@)
            },
        decreases matches@.len() - i,
    {
        let m = &matches[i];
        let outcome: Option<bool> = match &details[i] {
            Some(d) => match_outcome(d, account_id),
            None => None,
        };
        let role = determine_role(m.role.as_str(), m.lane.as_str());
        records.push(UserMatch::new(role, m.queue, m.champion, outcome));
        i += 1;
    }
    records
}

/// How many rows record a win.
pub open spec fn spec_win_count(games: Seq<UserMatch>) -> int
    decreases games.len(),
{
    if games.len() == 0 {
        0
    } else {
        spec_win_count(games.drop_last()) + if games.last().outcome == Some(true) {
            1int
        } else {
            0int
        }
    }
}

/// How many rows record a loss.
pub open spec fn spec_loss_count(games: Seq<UserMatch>) -> int
    decreases games.len(),
{
    if games.len() == 0 {
        0
    } else {
        spec_loss_count(games.drop_last()) + if games.last().outcome == Some(false) {
            1int
        } else {
            0int
        }
    }
}

/// The rows of one user's history report.
#[derive(Debug)]
pub struct UserGames {
    pub username: String,
    pub games: Vec<UserMatch>,
}

impl UserGames {
    /// Total wins and losses over the rows; rows with an undetermined
    /// outcome count toward neither.
    pub fn win_loss_totals(&self) -> (t: (usize, usize))
        ensures
            t.0 as int == spec_win_count(self.games@),
            t.1 as int == spec_loss_count(self.games@),
    {
        let mut wins: usize = 0;
        let mut losses: usize = 0;
        let mut i: usize = 0;
        while i < self.games.len()
            invariant
                0 <= i <= self.games@.len(),
                wins as int == spec_win_count(self.games@.take(i as int)),
                losses as int == spec_loss_count(self.games@.take(i as int)),
                wins <= i,
                losses <= i,
            decreases self.games@.len() - i,
        {
            proof {
                assert(self.games@.take(i as int + 1).drop_last() =~= self.games@.take(i as int));
                assert(self.games@.take(i as int + 1).last() == self.games@[i as int]);
            }
            match self.games[i].outcome {
                Some(true) => {
                    wins = wins + 1;
                },
                Some(false) => {
                    losses = losses + 1;
                },
                None => {},
            }
            i += 1;
        }
        proof {
            assert(self.games@.take(i as int) =~= self.games@);
        }
        (wins, losses)
    }
}

} // verus!
