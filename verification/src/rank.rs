//! Competitive standing in one queue: the rank entity, the "unranked"
//! sentinel, the win/loss percentage and its display classification, and
//! the resolver that collapses a multi-queue response to one value.

use vstd::prelude::*;
use vstd::string::StrSliceExecFns;
use vstd::string::StringExecFns;
use crate::strutil::string_eq_str;

verus! {

/// The distinguished ranked-solo queue type that the resolver filters to.
pub open spec fn solo_queue_type() -> Seq<char> {
    "RANKED_SOLO_5x5"@
}

/// A player's competitive standing in one queue.
///
/// The "unranked" sentinel uses the reserved tier `"N/A"` and
/// `wins == losses == league_points == -1`; a real computed record never
/// carries those values.
#[derive(Debug)]
pub struct Rank {
    pub tier: String,
    pub rank: String,
    pub queue_type: String,
    pub wins: i32,
    pub losses: i32,
    pub hot_streak: bool,
    pub league_points: i16,
}

/// Mathematical model of a [`Rank`].
pub struct RankView {
    pub tier: Seq<char>,
    pub rank: Seq<char>,
    pub queue_type: Seq<char>,
    pub wins: int,
    pub losses: int,
    pub hot_streak: bool,
    pub league_points: int,
}

impl View for Rank {
    type V = RankView;

    open spec fn view(&self) -> RankView {
        RankView {
            tier: self.tier@,
            rank: self.rank@,
            queue_type: self.queue_type@,
            wins: self.wins as int,
            losses: self.losses as int,
            hot_streak: self.hot_streak,
            league_points: self.league_points as int,
        }
    }
}

impl Clone for Rank {
    /// Field-for-field copy.
    fn clone(&self) -> (r: Self)
        ensures
            r == *self,
    {
        Rank {
            tier: self.tier.clone(),
            rank: self.rank.clone(),
            queue_type: self.queue_type.clone(),
            wins: self.wins,
            losses: self.losses,
            hot_streak: self.hot_streak,
            league_points: self.league_points,
        }
    }
}

/// The model of the "unranked" sentinel.
pub open spec fn spec_unranked() -> RankView {
    RankView {
        tier: "N/A"@,
        rank: "N/A"@,
        queue_type: "N/A"@,
        wins: -1,
        losses: -1,
        hot_streak: false,
        league_points: -1,
    }
}

/// Win/loss percentage in hundredths of a percent (`10000` is 100%), or
/// `-1` when the record carries no usable win/loss pair. The sentinel rank
/// (`wins == losses == -1`) always maps to `-1`, never to a computed ratio.
pub open spec fn spec_wl_ratio_hundredths(wins: int, losses: int) -> int {
    if wins < 0 || losses < 0 || wins + losses == 0 {
        -1
    } else {
        wins * 10000 / (wins + losses)
    }
}

/// Display classification of a win/loss percentage.
#[derive(Debug, Clone, Copy, PartialEq, Eq, Structural)]
pub enum WlClass {
    /// The percentage is the sentinel: there is no ranked record to rate.
    NotAvailable,
    /// Strictly above 55 percent.
    AboveAverage,
    /// Strictly below 48 percent.
    BelowAverage,
    /// Between 48 and 55 percent, both boundaries included.
    Neutral,
}

/// Classification of a percentage given in hundredths of a percent.
pub open spec fn spec_classify_wl(p: int) -> WlClass {
    if p == -1 {
        WlClass::NotAvailable
    } else if p > 5500 {
        WlClass::AboveAverage
    } else if p < 4800 {
        WlClass::BelowAverage
    } else {
        WlClass::Neutral
    }
}

/// Classifies a win/loss percentage, given in hundredths of a percent,
/// for display: the sentinel is "N/A", more than 55% is above average,
/// less than 48% is below average, and both boundaries are neutral.
pub fn classify_wl(p: i32) -> (c: WlClass)
    ensures
        c == spec_classify_wl(p as int),
        p == -1 ==> c == WlClass::NotAvailable,
        p > 5500 ==> c == WlClass::AboveAverage,
        p != -1 && p < 4800 ==> c == WlClass::BelowAverage,
        4800 <= p <= 5500 ==> c == WlClass::Neutral,
{
    if p == -1 {
        WlClass::NotAvailable
    } else if p > 5500 {
        WlClass::AboveAverage
    } else if p < 4800 {
        WlClass::BelowAverage
    } else {
        WlClass::Neutral
    }
}

impl Rank {
    /// The sentinel standing reported when a player has no entry in the
    /// ranked-solo queue.
    pub fn unranked() -> (r: Self)
        ensures
            r@ == spec_unranked(),
    {
        Rank {
            tier: "N/A".to_owned(),
            rank: "N/A".to_owned(),
            queue_type: "N/A".to_owned(),
            wins: -1,
            losses: -1,
            hot_streak: false,
            league_points: -1,
        }
    }

    /// Win/loss percentage of this standing in hundredths of a percent.
    /// A sentinel record (in particular `wins == losses == -1`) yields the
    /// sentinel percentage `-1`, never a division by zero.
    pub fn wl_ratio_hundredths(&self) -> (p: i32)
        ensures
            p == spec_wl_ratio_hundredths(self.wins as int, self.losses as int),
            self.wins == -1 && self.losses == -1 ==> p == -1,
            p == -1 || 0 <= p <= 10000,
    {
        if self.wins < 0 || self.losses < 0 {
            -1
        } else if self.wins == 0 && self.losses == 0 {
            -1
        } else {
            let num: u64 = (self.wins as u64) * 10000;
            let den: u64 = (self.wins as u64) + (self.losses as u64);
            let q: u64 = num / den;
            proof {
                vstd::arithmetic::mul::lemma_mul_inequality(
                    self.wins as int,
                    self.wins as int + self.losses as int,
                    10000,
                );
                vstd::arithmetic::div_mod::lemma_div_is_ordered(
                    self.wins as int * 10000,
                    (self.wins as int + self.losses as int) * 10000,
                    self.wins as int + self.losses as int,
                );
                vstd::arithmetic::div_mod::lemma_div_multiples_vanish(
                    10000,
                    self.wins as int + self.losses as int,
                );
                vstd::arithmetic::div_mod::lemma_div_pos_is_pos(
                    self.wins as int * 10000,
                    self.wins as int + self.losses as int,
                );
            }
            q as i32
        }
    }

    /// The display classification of this standing's win/loss percentage.
    pub fn wl_class(&self) -> (c: WlClass)
        ensures
            c == spec_classify_wl(spec_wl_ratio_hundredths(self.wins as int, self.losses as int)),
    {
        classify_wl(self.wl_ratio_hundredths())
    }
}

/// Short display form of a tier/division pair: the reserved tiers keep a
/// fixed abbreviation, every other tier shows its first character joined
/// to the division by an underscore.
pub open spec fn spec_print_rank(tier: Seq<char>, rank: Seq<char>) -> Seq<char> {
    if tier == "N/A"@ {
        tier
    } else if tier == "CHALLENGER"@ {
        "CHAL"@
    } else if tier == "GRANDMASTER"@ {
        "GRAND"@
    } else if tier == "MASTER"@ {
        "MAST"@
    } else {
        tier.subrange(0, 1) + "_"@ + rank
    }
}

impl Rank {
    /// Short display form of this standing's tier and division.
    pub fn print_rank(&self) -> (r: String)
        requires
            self.tier@.len() > 0,
        ensures
            r@ == spec_print_rank(self.tier@, self.rank@),
    {
        if string_eq_str(&self.tier, "N/A") {
            self.tier.clone()
        } else if string_eq_str(&self.tier, "CHALLENGER") {
            "CHAL".to_owned()
        } else if string_eq_str(&self.tier, "GRANDMASTER") {
            "GRAND".to_owned()
        } else if string_eq_str(&self.tier, "MASTER") {
            "MAST".to_owned()
        } else {
            let first = self.tier.as_str().substring_char(0, 1);
            let mut out = first.to_owned();
            out.append("_");
            out.append(self.rank.as_str());
            proof {
                assert(out@ =~= self.tier@.subrange(0, 1) + "_"@ + self.rank@);
            }
            out
        }
    }

    /// Plain flag for the win-streak field; the display layer may swap in
    /// richer glyphs for terminals that support them.
    pub fn display_streak(&self) -> (s: &'static str)
        ensures
            self.hot_streak ==> s@ == "Y"@,
            !self.hot_streak ==> s@ == "N"@,
    {
        if self.hot_streak {
            "Y"
        } else {
            "N"
        }
    }
}

/// The one value a multi-queue rank response collapses to: the first entry
/// for the ranked-solo queue, or the unranked sentinel when there is none.
pub open spec fn spec_resolve_rank(ranks: Seq<Rank>) -> RankView
    decreases ranks.len(),
{
    if ranks.len() == 0 {
        spec_unranked()
    } else if ranks[0].queue_type@ == solo_queue_type() {
        ranks[0]@
    } else {
        spec_resolve_rank(ranks.drop_first())
    }
}

proof fn lemma_resolve_rank_found(ranks: Seq<Rank>, i: int)
    requires
        0 <= i < ranks.len(),
        ranks[i].queue_type@ == solo_queue_type(),
        forall|j: int| 0 <= j < i ==> ranks[j].queue_type@ != solo_queue_type(),
    ensures
        spec_resolve_rank(ranks) == ranks[i]@,
    decreases i,
{
    if i > 0 {
        lemma_resolve_rank_found(ranks.drop_first(), i - 1);
    }
}

proof fn lemma_resolve_rank_missing(ranks: Seq<Rank>)
    requires
        forall|j: int| 0 <= j < ranks.len() ==> ranks[j].queue_type@ != solo_queue_type(),
    ensures
        spec_resolve_rank(ranks) == spec_unranked(),
    decreases ranks.len(),
{
    if ranks.len() > 0 {
        lemma_resolve_rank_missing(ranks.drop_first());
    }
}

/// Collapses the per-queue entries fetched for a player to the single entry
/// whose queue type equals the ranked-solo constant. When no entry matches
/// — in particular for an empty response — the unranked sentinel is
/// returned, never an error.
pub fn resolve_rank(ranks: &Vec<Rank>) -> (r: Rank)
    ensures
        r@ == spec_resolve_rank(ranks@),
        (forall|j: int| 0 <= j < ranks@.len() ==> ranks@[j].queue_type@ != solo_queue_type())
            ==> r@ == spec_unranked(),
{
    let n = ranks.len();
    let mut i: usize = 0;
    while i < n
        invariant
            n == ranks@.len(),
            0 <= i <= n,
            forall|j: int| 0 <= j < i ==> ranks@[j].queue_type@ != solo_queue_type(),
        decreases n - i,
    {
        if string_eq_str(&ranks[i].queue_type, "RANKED_SOLO_5x5") {
            proof {
                lemma_resolve_rank_found(ranks@, i as int);
            }
            return ranks[i].clone();
        }
        i += 1;
    }
    proof {
        lemma_resolve_rank_missing(ranks@);
    }
    Rank::unranked()
}

} // verus!
