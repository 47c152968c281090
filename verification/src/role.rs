//! Role classification: deriving a single role from a match entry's
//! lane/sub-role pair, and a player's most-played role from a whole
//! history sample.
//!
//! The BOTTOM lane conflates two distinct roles — the primary damage
//! dealer and the support — so occurrences inside BOTTOM are split by the
//! recorded sub-role field; every other lane reports its lane name
//! unchanged.

use vstd::prelude::*;
use crate::model::MatchSummary;
use crate::strutil::str_eq;
use crate::strutil::string_eq_str;

verus! {

/// The role a single lane/sub-role pair derives to.
pub open spec fn spec_determine_role(role: Seq<char>, lane: Seq<char>) -> Seq<char> {
    if lane == "BOTTOM"@ {
        if role == "DUO_SUPPORT"@ {
            "SUPPORT"@
        } else {
            "ADC"@
        }
    } else {
        lane
    }
}

/// Derives the role of one match entry from its recorded sub-role and
/// lane: inside BOTTOM the sub-role decides between support and carry,
/// every other lane is reported unchanged.
pub fn determine_role(role: &str, lane: &str) -> (r: String)
    ensures
        r@ == spec_determine_role(role@, lane@),
{
    if str_eq(lane, "BOTTOM") {
        if str_eq(role, "DUO_SUPPORT") {
            "SUPPORT".to_owned()
        } else {
            "ADC".to_owned()
        }
    } else {
        lane.to_owned()
    }
}

/// How many entries of `ms` were played in `lane`.
pub open spec fn lane_count(ms: Seq<MatchSummary>, lane: Seq<char>) -> int
    decreases ms.len(),
{
    if ms.len() == 0 {
        0
    } else {
        lane_count(ms.drop_last(), lane) + if ms.last().lane@ == lane {
            1int
        } else {
            0int
        }
    }
}

/// How many BOTTOM entries of `ms` recorded the carry sub-role.
pub open spec fn carry_count(ms: Seq<MatchSummary>) -> int
    decreases ms.len(),
{
    if ms.len() == 0 {
        0
    } else {
        carry_count(ms.drop_last()) + if ms.last().lane@ == "BOTTOM"@ && ms.last().role@
            == "DUO_CARRY"@ {
            1int
        } else {
            0int
        }
    }
}

/// How many BOTTOM entries of `ms` recorded any other sub-role.
pub open spec fn support_count(ms: Seq<MatchSummary>) -> int
    decreases ms.len(),
{
    if ms.len() == 0 {
        0
    } else {
        support_count(ms.drop_last()) + if ms.last().lane@ == "BOTTOM"@ && ms.last().role@
            != "DUO_CARRY"@ {
            1int
        } else {
            0int
        }
    }
}

/// The distinct lanes of `ms`, in order of first appearance.
pub open spec fn lanes_in_order(ms: Seq<MatchSummary>) -> Seq<Seq<char>>
    decreases ms.len(),
{
    if ms.len() == 0 {
        Seq::empty()
    } else {
        let rest = lanes_in_order(ms.drop_last());
        if rest.contains(ms.last().lane@) {
            rest
        } else {
            rest.push(ms.last().lane@)
        }
    }
}

/// The winning lane over the given candidates, with its count: a candidate
/// replaces the running best only with a strictly greater count, so among
/// equally frequent lanes the earliest candidate wins. The fold starts from
/// a sentinel count of `-1`, which no real lane can tie.
pub open spec fn best_lane(ms: Seq<MatchSummary>, lanes: Seq<Seq<char>>) -> (Seq<char>, int)
    decreases lanes.len(),
{
    if lanes.len() == 0 {
        (Seq::<char>::empty(), -1)
    } else {
        let prev = best_lane(ms, lanes.drop_last());
        let c = lane_count(ms, lanes.last());
        if c > prev.1 {
            (lanes.last(), c)
        } else {
            prev
        }
    }
}

/// The single most-frequently-played role of a history sample: the lane
/// with the highest count wins (earlier-appearing lanes win ties); a
/// winning BOTTOM lane is split by sub-role, with ties defaulting to the
/// support; an empty sample classifies as the explicit unknown role.
pub open spec fn spec_top_role(ms: Seq<MatchSummary>) -> Seq<char> {
    if ms.len() == 0 {
        "UNKNOWN"@
    } else {
        let win = best_lane(ms, lanes_in_order(ms)).0;
        if win == "BOTTOM"@ {
            if carry_count(ms) > support_count(ms) {
                "ADC"@
            } else {
                "SUPPORT"@
            }
        } else {
            win
        }
    }
}

/// Role classification is a pure function of the history sample: any two
/// classifications of the same sample agree.
pub proof fn lemma_top_role_deterministic(ms: Seq<MatchSummary>, r1: Seq<char>, r2: Seq<char>)
    requires
        r1 == spec_top_role(ms),
        r2 == spec_top_role(ms),
    ensures
        r1 == r2,
{
}

/// A lane that never appeared among the distinct lanes of `ms` has a zero
/// count.
proof fn lemma_absent_lane_count(ms: Seq<MatchSummary>, lane: Seq<char>)
    requires
        !lanes_in_order(ms).contains(lane),
    ensures
        lane_count(ms, lane) == 0,
    decreases ms.len(),
{
    if ms.len() > 0 {
        let rest = lanes_in_order(ms.drop_last());
        if rest.contains(lane) {
            let k = choose|k: int| 0 <= k < rest.len() && rest[k] == lane;
            if rest.contains(ms.last().lane@) {
                assert(lanes_in_order(ms)[k] == lane);
            } else {
                assert(lanes_in_order(ms)[k] == lane);
            }
            assert(false);
        }
        if ms.last().lane@ == lane {
            if rest.contains(lane) {
                assert(false);
            } else {
                assert(lanes_in_order(ms)[rest.len() as int] == lane);
                assert(false);
            }
        }
        lemma_absent_lane_count(ms.drop_last(), lane);
    }
}

/// A non-empty sample yields at least one distinct lane.
proof fn lemma_lanes_nonempty(ms: Seq<MatchSummary>)
    requires
        ms.len() > 0,
    ensures
        lanes_in_order(ms).len() > 0,
{
    let rest = lanes_in_order(ms.drop_last());
    if rest.contains(ms.last().lane@) {
        let k = choose|k: int| 0 <= k < rest.len() && rest[k] == ms.last().lane@;
    }
}

/// One lane's running tally while the classifier scans a sample.
struct LaneTally {
    lane: String,
    count: usize,
}

/// The index of the tally holding `lane`, if one does.
fn find_tally(tallies: &Vec<LaneTally>, lane: &String) -> (r: Option<usize>)
    ensures
        match r {
            Some(j) => 0 <= j < tallies@.len() && tallies@[j as int].lane@ == lane@,
            None => forall|k: int| 0 <= k < tallies@.len() ==> tallies@[k].lane@ != lane@,
        },
{
    let mut j: usize = 0;
    while j < tallies.len()
        invariant
            0 <= j <= tallies@.len(),
            forall|k: int| 0 <= k < j ==> tallies@[k].lane@ != lane@,
        decreases tallies@.len() - j,
    {
        if tallies[j].lane == *lane {
            return Some(j);
        }
        j += 1;
    }
    None
}

/// Derives the player's single most-frequently-played role from a history
/// sample. Lanes are tallied in order of first appearance and the highest
/// tally wins, earlier lanes winning ties; a winning BOTTOM lane reports
/// whichever of its two sub-roles had strictly more occurrences, the
/// support sub-role on a tie. An empty sample yields the explicit
/// `"UNKNOWN"` role rather than an arbitrary lane string.
pub fn most_played_role(matches: &Vec<MatchSummary>) -> (r: String)
    ensures
        r@ == spec_top_role(matches@),
{
    let ghost ms = matches@;
    if matches.len() == 0 {
        return "UNKNOWN".to_owned();
    }
    let mut tallies: Vec<LaneTally> = Vec::new();
    let mut carry: usize = 0;
    let mut support: usize = 0;
    let mut i: usize = 0;
    while i < matches.len()
        invariant
            matches@ == ms,
            0 <= i <= ms.len(),
            tallies@.len() == lanes_in_order(ms.take(i as int)).len(),
            forall|k: int| 0 <= k < tallies@.len()
                ==> #[trigger] tallies@[k].lane@ == lanes_in_order(ms.take(i as int))[k],
            forall|k: int| 0 <= k < tallies@.len()
                ==> #[trigger] tallies@[k].count as int == lane_count(
                    ms.take(i as int),
                    tallies@[k].lane@,
                ),
            forall|k: int| 0 <= k < tallies@.len() ==> #[trigger] tallies@[k].count <= i,
            forall|k1: int, k2: int|
                0 <= k1 < k2 < tallies@.len() ==> tallies@[k1].lane@ != tallies@[k2].lane@,
            carry as int == carry_count(ms.take(i as int)),
            support as int == support_count(ms.take(i as int)),
            carry <= i,
            support <= i,
        decreases ms.len() - i,
    {
        let ghost prefix = ms.take(i as int);
        let ghost next = ms.take(i as int + 1);
        proof {
            assert(next.drop_last() =~= prefix);
            assert(next.last() == ms[i as int]);
        }
        let lane = &matches[i].lane;
        match find_tally(&tallies, lane) {
            Some(j) => {
                proof {
                    assert(lanes_in_order(prefix).contains(lane@)) by {
                        assert(lanes_in_order(prefix)[j as int] == lane@);
                    }
                    assert(lanes_in_order(next) == lanes_in_order(prefix));
                }
                let c = tallies[j].count;
                let new_lane = tallies[j].lane.clone();
                tallies.set(j, LaneTally { lane: new_lane, count: c + 1 });
                proof {
                    assert forall|k: int| 0 <= k < tallies@.len() implies #[trigger] tallies@[k].count
                        as int == lane_count(next, tallies@[k].lane@) by {
                        if k != j as int {
                            assert(tallies@[k].lane@ != lane@);
                        }
                    }
                }
            },
            None => {
                proof {
                    assert(!lanes_in_order(prefix).contains(lane@)) by {
                        if lanes_in_order(prefix).contains(lane@) {
                            let k = choose|k: int|
                                0 <= k < lanes_in_order(prefix).len() && lanes_in_order(prefix)[k]
                                    == lane@;
                            assert(tallies@[k].lane@ == lane@);
                        }
                    }
                    assert(lanes_in_order(next) == lanes_in_order(prefix).push(lane@));
                    lemma_absent_lane_count(prefix, lane@);
                }
                tallies.push(LaneTally { lane: lane.clone(), count: 1 });
            },
        }
        if string_eq_str(&matches[i].lane, "BOTTOM") {
            if string_eq_str(&matches[i].role, "DUO_CARRY") {
                carry = carry + 1;
            } else {
                support = support + 1;
            }
        }
        i += 1;
    }
    proof {
        assert(ms.take(i as int) =~= ms);
        lemma_lanes_nonempty(ms);
    }
    let ghost lanes = lanes_in_order(ms);
    let mut best_j: usize = 0;
    let mut j: usize = 1;
    proof {
        assert(lanes.take(1).drop_last() =~= Seq::<Seq<char>>::empty());
        assert(lanes.take(1).last() == lanes[0]);
        assert(best_lane(ms, Seq::<Seq<char>>::empty()) == (Seq::<char>::empty(), -1int));
        assert(best_lane(ms, lanes.take(1)) == (tallies@[0].lane@, tallies@[0].count as int));
    }
    while j < tallies.len()
        invariant
            tallies@.len() == lanes.len(),
            forall|k: int| 0 <= k < tallies@.len() ==> #[trigger] tallies@[k].lane@ == lanes[k],
            forall|k: int| 0 <= k < tallies@.len()
                ==> #[trigger] tallies@[k].count as int == lane_count(ms, tallies@[k].lane@),
            1 <= j <= tallies@.len(),
            0 <= best_j < j,
            best_lane(ms, lanes.take(j as int)) == (
                tallies@[best_j as int].lane@,
                tallies@[best_j as int].count as int,
            ),
        decreases tallies@.len() - j,
    {
        proof {
            assert(lanes.take(j as int + 1).drop_last() =~= lanes.take(j as int));
            assert(lanes.take(j as int + 1).last() == lanes[j as int]);
        }
        if tallies[j].count > tallies[best_j].count {
            best_j = j;
        }
        j += 1;
    }
    proof {
        assert(lanes.take(j as int) =~= lanes);
    }
    let winner = &tallies[best_j].lane;
    if string_eq_str(winner, "BOTTOM") {
        if carry > support {
            "ADC".to_owned()
        } else {
            "SUPPORT".to_owned()
        }
    } else {
        winner.clone()
    }
}

} // verus!
