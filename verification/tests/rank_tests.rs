use summoner_stats::rank::{classify_wl, resolve_rank, Rank, WlClass};

fn ranked(queue_type: &str, tier: &str, division: &str, wins: i32, losses: i32) -> Rank {
    Rank {
        tier: tier.to_string(),
        rank: division.to_string(),
        queue_type: queue_type.to_string(),
        wins,
        losses,
        hot_streak: false,
        league_points: 17,
    }
}

#[test]
fn unranked_sentinel_fields() {
    let r = Rank::unranked();
    assert_eq!(r.tier, "N/A");
    assert_eq!(r.rank, "N/A");
    assert_eq!(r.queue_type, "N/A");
    assert_eq!(r.wins, -1);
    assert_eq!(r.losses, -1);
    assert!(!r.hot_streak);
    assert_eq!(r.league_points, -1);
}

#[test]
fn resolve_rank_empty_response_is_unranked() {
    let r = resolve_rank(&Vec::new());
    assert_eq!(r.tier, "N/A");
    assert_eq!(r.wins, -1);
    assert_eq!(r.losses, -1);
    assert_eq!(r.league_points, -1);
}

#[test]
fn resolve_rank_no_solo_entry_is_unranked() {
    let ranks = vec![
        ranked("RANKED_FLEX_SR", "GOLD", "II", 10, 10),
        ranked("RANKED_TFT", "SILVER", "I", 4, 6),
    ];
    let r = resolve_rank(&ranks);
    assert_eq!(r.tier, "N/A");
    assert_eq!(r.wins, -1);
}

#[test]
fn resolve_rank_picks_first_solo_entry() {
    let ranks = vec![
        ranked("RANKED_FLEX_SR", "GOLD", "II", 10, 10),
        ranked("RANKED_SOLO_5x5", "PLATINUM", "IV", 60, 40),
        ranked("RANKED_SOLO_5x5", "IRON", "III", 1, 9),
    ];
    let r = resolve_rank(&ranks);
    assert_eq!(r.tier, "PLATINUM");
    assert_eq!(r.rank, "IV");
    assert_eq!(r.wins, 60);
    assert_eq!(r.losses, 40);
}

#[test]
fn wl_ratio_sentinel_rank_gives_sentinel_percent() {
    let r = Rank::unranked();
    assert_eq!(r.wl_ratio_hundredths(), -1);
}

#[test]
fn wl_ratio_zero_games_gives_sentinel_percent() {
    let r = ranked("RANKED_SOLO_5x5", "GOLD", "I", 0, 0);
    assert_eq!(r.wl_ratio_hundredths(), -1);
}

#[test]
fn wl_ratio_exact_values() {
    assert_eq!(ranked("RANKED_SOLO_5x5", "GOLD", "I", 55, 45).wl_ratio_hundredths(), 5500);
    assert_eq!(ranked("RANKED_SOLO_5x5", "GOLD", "I", 1, 2).wl_ratio_hundredths(), 3333);
    assert_eq!(ranked("RANKED_SOLO_5x5", "GOLD", "I", 7, 0).wl_ratio_hundredths(), 10000);
    assert_eq!(ranked("RANKED_SOLO_5x5", "GOLD", "I", 0, 9).wl_ratio_hundredths(), 0);
}

#[test]
fn classify_sentinel_is_not_available() {
    assert_eq!(classify_wl(-1), WlClass::NotAvailable);
}

#[test]
fn classify_boundaries_are_neutral() {
    assert_eq!(classify_wl(5500), WlClass::Neutral);
    assert_eq!(classify_wl(4800), WlClass::Neutral);
    assert_eq!(classify_wl(5000), WlClass::Neutral);
}

#[test]
fn classify_above_and_below() {
    assert_eq!(classify_wl(5501), WlClass::AboveAverage);
    assert_eq!(classify_wl(10000), WlClass::AboveAverage);
    assert_eq!(classify_wl(4799), WlClass::BelowAverage);
    assert_eq!(classify_wl(0), WlClass::BelowAverage);
}

#[test]
fn wl_class_of_whole_rank() {
    assert_eq!(ranked("RANKED_SOLO_5x5", "GOLD", "I", 60, 40).wl_class(), WlClass::AboveAverage);
    assert_eq!(Rank::unranked().wl_class(), WlClass::NotAvailable);
}

#[test]
fn print_rank_reserved_tiers() {
    assert_eq!(Rank::unranked().print_rank(), "N/A");
    assert_eq!(ranked("Q", "CHALLENGER", "I", 1, 1).print_rank(), "CHAL");
    assert_eq!(ranked("Q", "GRANDMASTER", "I", 1, 1).print_rank(), "GRAND");
    assert_eq!(ranked("Q", "MASTER", "I", 1, 1).print_rank(), "MAST");
}

#[test]
fn print_rank_abbreviates_ordinary_tiers() {
    assert_eq!(ranked("Q", "GOLD", "IV", 1, 1).print_rank(), "G_IV");
    assert_eq!(ranked("Q", "DIAMOND", "II", 1, 1).print_rank(), "D_II");
}

#[test]
fn display_streak_flags() {
    let mut r = Rank::unranked();
    assert_eq!(r.display_streak(), "N");
    r.hot_streak = true;
    assert_eq!(r.display_streak(), "Y");
}

#[test]
fn rank_clone_copies_fields() {
    let r = ranked("RANKED_SOLO_5x5", "GOLD", "IV", 12, 8);
    let c = r.clone();
    assert_eq!(c.tier, "GOLD");
    assert_eq!(c.rank, "IV");
    assert_eq!(c.queue_type, "RANKED_SOLO_5x5");
    assert_eq!(c.wins, 12);
    assert_eq!(c.losses, 8);
    assert_eq!(c.league_points, 17);
}
