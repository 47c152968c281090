//! Live-match aggregation: partitioning the (up to ten) participants of an
//! in-progress match into two team rosters, each entry enriched with the
//! rank that was resolved for it.
//!
//! The rank lookups themselves are remote calls issued by the front end;
//! this module receives one resolved rank per participant, joined by
//! position.

use vstd::prelude::*;
use crate::error::ProgramError;
use crate::model::LiveParticipant;
use crate::rank::Rank;

verus! {

/// One member of a match roster, with its owned rank data.
#[derive(Debug)]
pub struct Participant {
    pub team: bool,
    pub summoner_name: String,
    pub champion_id: u16,
    pub rank: Rank,
}

impl Participant {
    /// Plain constructor.
    pub fn new(team: bool, name: String, rank: Rank, champ_id: u16) -> (p: Self)
        ensures
            p.team == team,
            p.summoner_name == name,
            p.rank == rank,
            p.champion_id == champ_id,
    {
        Participant { team, summoner_name: name, champion_id: champ_id, rank }
    }
}

/// An in-progress match resolved into two rosters plus its mode metadata.
#[derive(Debug)]
pub struct Game {
    pub red: Vec<Participant>,
    pub blue: Vec<Participant>,
    pub mode: String,
    pub game_type: String,
}

/// The roster drawn from one side of the team-id partition: entries whose
/// team id is 100 when `side_100` is set, all others when it is not, in
/// source order, each joined by position to its resolved rank.
pub open spec fn spec_roster(
    participants: Seq<LiveParticipant>,
    ranks: Seq<Rank>,
    side_100: bool,
) -> Seq<Participant>
    decreases participants.len(),
{
    if participants.len() == 0 {
        Seq::empty()
    } else {
        let prev = spec_roster(participants.drop_last(), ranks.drop_last(), side_100);
        let t = participants.last();
        if (t.team_id == 100) == side_100 {
            prev.push(
                Participant {
                    team: false,
                    summoner_name: t.summoner_name,
                    champion_id: t.champion_id,
                    rank: ranks.last(),
                },
            )
        } else {
            prev
        }
    }
}

/// How many participants sit on the given side of the team-id partition.
pub open spec fn spec_side_count(participants: Seq<LiveParticipant>, side_100: bool) -> int
    decreases participants.len(),
{
    if participants.len() == 0 {
        0
    } else {
        spec_side_count(participants.drop_last(), side_100) + if (participants.last().team_id
            == 100) == side_100 {
            1int
        } else {
            0int
        }
    }
}

/// Each roster holds exactly the participants of its side.
pub proof fn lemma_roster_len(
    participants: Seq<LiveParticipant>,
    ranks: Seq<Rank>,
    side_100: bool,
)
    requires
        participants.len() == ranks.len(),
    ensures
        spec_roster(participants, ranks, side_100).len() == spec_side_count(
            participants,
            side_100,
        ),
    decreases participants.len(),
{
    if participants.len() > 0 {
        lemma_roster_len(participants.drop_last(), ranks.drop_last(), side_100);
    }
}

/// The two sides partition the participants.
pub proof fn lemma_side_counts_sum(participants: Seq<LiveParticipant>)
    ensures
        spec_side_count(participants, true) + spec_side_count(participants, false)
            == participants.len(),
    decreases participants.len(),
{
    if participants.len() > 0 {
        lemma_side_counts_sum(participants.drop_last());
    }
}

/// Live-match partition law: a roster of ten participants, five of them on
/// team id 100, resolves into exactly two rosters of five, and — by the
/// definition of [`spec_roster`] — each entry sits in the roster of its
/// source team id.
pub proof fn lemma_live_partition(participants: Seq<LiveParticipant>, ranks: Seq<Rank>)
    requires
        participants.len() == ranks.len(),
        participants.len() == 10,
        spec_side_count(participants, true) == 5,
    ensures
        spec_roster(participants, ranks, true).len() == 5,
        spec_roster(participants, ranks, false).len() == 5,
{
    lemma_roster_len(participants, ranks, true);
    lemma_roster_len(participants, ranks, false);
    lemma_side_counts_sum(participants);
}

/// The error of the first failed lookup in a fan-out's results, if any.
pub open spec fn spec_first_failure(results: Seq<Result<Rank, ProgramError>>) -> Option<
    ProgramError,
>
    decreases results.len(),
{
    if results.len() == 0 {
        None
    } else {
        match results[0] {
            Err(e) => Some(e),
            Ok(_) => spec_first_failure(results.drop_first()),
        }
    }
}

proof fn lemma_first_failure_at(results: Seq<Result<Rank, ProgramError>>, i: int)
    requires
        0 <= i < results.len(),
        results[i] is Err,
        forall|j: int| 0 <= j < i ==> results[j] is Ok,
    ensures
        spec_first_failure(results) == Some(results[i]->Err_0),
    decreases i,
{
    if i > 0 {
        lemma_first_failure_at(results.drop_first(), i - 1);
    }
}

proof fn lemma_first_failure_missing(results: Seq<Result<Rank, ProgramError>>)
    requires
        forall|j: int| 0 <= j < results.len() ==> results[j] is Ok,
    ensures
        spec_first_failure(results) is None,
    decreases results.len(),
{
    if results.len() > 0 {
        lemma_first_failure_missing(results.drop_first());
    }
}

/// Joins the results of the per-participant rank fan-out. The aggregation
/// is fail-fast: when every lookup succeeded the ranks come back in
/// order, one per participant; a single failed lookup fails the whole
/// join with the first failure's typed error, unchanged.
pub fn collect_ranks(results: Vec<Result<Rank, ProgramError>>) -> (r: Result<
    Vec<Rank>,
    ProgramError,
>)
    ensures
        spec_first_failure(results@) is None ==> (r is Ok && r->Ok_0@.len() == results@.len()
            && forall|i: int| 0 <= i < results@.len() ==> r->Ok_0@[i] == results@[i]->Ok_0),
        spec_first_failure(results@) matches Some(e) ==> r == Err::<Vec<Rank>, ProgramError>(e),
{
    let mut ranks: Vec<Rank> = Vec::new();
    let mut i: usize = 0;
    while i < results.len()
        invariant
            0 <= i <= results@.len(),
            forall|j: int| 0 <= j < i ==> results@[j] is Ok,
            ranks@.len() == i,
            forall|j: int| 0 <= j < i ==> ranks@[j] == results@[j]->Ok_0,
        decreases results@.len() - i,
    {
        match &results[i] {
            Ok(rank) => {
                ranks.push(rank.clone());
            },
            Err(e) => {
                proof {
                    lemma_first_failure_at(results@, i as int);
                }
                return Err(*e);
            },
        }
        i += 1;
    }
    proof {
        lemma_first_failure_missing(results@);
    }
    Ok(ranks)
}

/// Team assignment follows the source partition: the entry built from a
/// participant and its rank appears in the roster of that participant's
/// own side.
pub proof fn lemma_roster_contains(participants: Seq<LiveParticipant>, ranks: Seq<Rank>, i: int)
    requires
        participants.len() == ranks.len(),
        0 <= i < participants.len(),
    ensures
        spec_roster(participants, ranks, participants[i].team_id == 100).contains(
            Participant {
                team: false,
                summoner_name: participants[i].summoner_name,
                champion_id: participants[i].champion_id,
                rank: ranks[i],
            },
        ),
    decreases participants.len(),
{
    let side = participants[i].team_id == 100;
    let entry = Participant {
        team: false,
        summoner_name: participants[i].summoner_name,
        champion_id: participants[i].champion_id,
        rank: ranks[i],
    };
    let prev = spec_roster(participants.drop_last(), ranks.drop_last(), side);
    if i == participants.len() - 1 {
        assert(spec_roster(participants, ranks, side)[prev.len() as int] == entry);
    } else {
        lemma_roster_contains(participants.drop_last(), ranks.drop_last(), i);
        let k = choose|k: int| 0 <= k < prev.len() && prev[k] == entry;
        assert(spec_roster(participants, ranks, side)[k] == entry);
    }
}

/// Builds the two team rosters of a live match from its participants and
/// the rank resolved for each of them (joined by position), attaching the
/// game mode and game type metadata. Participants with team id 100 form
/// the red roster, all others the blue one, in source order.
pub fn create_game(
    teammates: &Vec<LiveParticipant>,
    ranks: &Vec<Rank>,
    mode: &str,
    game_type: &str,
) -> (g: Game)
    requires
        teammates@.len() == ranks@.len(),
    ensures
        g.red@ == spec_roster(teammates@, ranks@, true),
        g.blue@ == spec_roster(teammates@, ranks@, false),
        g.mode@ == mode@,
        g.game_type@ == game_type@,
{
    let mut red: Vec<Participant> = Vec::new();
    let mut blue: Vec<Participant> = Vec::new();
    let mut i: usize = 0;
    while i < teammates.len()
        invariant
            teammates@.len() == ranks@.len(),
            0 <= i <= teammates@.len(),
            red@ == spec_roster(teammates@.take(i as int), ranks@.take(i as int), true),
            blue@ == spec_roster(teammates@.take(i as int), ranks@.take(i as int), false),
        decreases teammates@.len() - i,
    {
        proof {
            assert(teammates@.take(i as int + 1).drop_last() =~= teammates@.take(i as int));
            assert(ranks@.take(i as int + 1).drop_last() =~= ranks@.take(i as int));
            assert(teammates@.take(i as int + 1).last() == teammates@[i as int]);
            assert(ranks@.take(i as int + 1).last() == ranks@[i as int]);
        }
        let t = &teammates[i];
        let p = Participant::new(false, t.summoner_name.clone(), ranks[i].clone(), t.champion_id);
        if t.team_id == 100 {
            red.push(p);
        } else {
            blue.push(p);
        }
        i += 1;
    }
    proof {
        assert(teammates@.take(i as int) =~= teammates@);
        assert(ranks@.take(i as int) =~= ranks@);
    }
    Game { red, blue, mode: mode.to_owned(), game_type: game_type.to_owned() }
}

} // verus!
