use summoner_stats::error::ProgramError;
use summoner_stats::live::{collect_ranks, create_game, Participant};
use summoner_stats::model::LiveParticipant;
use summoner_stats::rank::Rank;

fn live(name: &str, team_id: i32, champion_id: u16) -> LiveParticipant {
    LiveParticipant {
        team_id,
        summoner_name: name.to_string(),
        summoner_id: format!("sid-{}", name),
        champion_id,
    }
}

#[test]
fn ten_participants_split_into_two_rosters_of_five() {
    let mut teammates = Vec::new();
    let mut ranks = Vec::new();
    for i in 0..10u16 {
        let team = if i % 2 == 0 { 100 } else { 200 };
        teammates.push(live(&format!("player{}", i), team, i));
        ranks.push(Rank::unranked());
    }
    let game = create_game(&teammates, &ranks, "CLASSIC", "MATCHED_GAME");
    assert_eq!(game.red.len(), 5);
    assert_eq!(game.blue.len(), 5);
    assert_eq!(game.mode, "CLASSIC");
    assert_eq!(game.game_type, "MATCHED_GAME");
    // Team id 100 fills the red roster in source order, the rest the blue.
    assert_eq!(game.red[0].summoner_name, "player0");
    assert_eq!(game.red[4].summoner_name, "player8");
    assert_eq!(game.blue[0].summoner_name, "player1");
    assert_eq!(game.blue[4].summoner_name, "player9");
    assert_eq!(game.red[1].champion_id, 2);
    assert_eq!(game.blue[1].champion_id, 3);
}

#[test]
fn ranks_are_joined_by_position() {
    let teammates = vec![live("a", 100, 1), live("b", 200, 2)];
    let mut first = Rank::unranked();
    first.tier = "GOLD".to_string();
    let mut second = Rank::unranked();
    second.tier = "IRON".to_string();
    let ranks = vec![first, second];
    let game = create_game(&teammates, &ranks, "ARAM", "MATCHED_GAME");
    assert_eq!(game.red.len(), 1);
    assert_eq!(game.blue.len(), 1);
    assert_eq!(game.red[0].rank.tier, "GOLD");
    assert_eq!(game.blue[0].rank.tier, "IRON");
}

#[test]
fn empty_roster_gives_empty_game() {
    let game = create_game(&Vec::new(), &Vec::new(), "CLASSIC", "CUSTOM");
    assert!(game.red.is_empty());
    assert!(game.blue.is_empty());
}

#[test]
fn collect_ranks_keeps_order_when_all_succeed() {
    let mut gold = Rank::unranked();
    gold.tier = "GOLD".to_string();
    let mut iron = Rank::unranked();
    iron.tier = "IRON".to_string();
    let ranks = collect_ranks(vec![Ok(gold), Ok(iron)]).expect("all lookups succeeded");
    assert_eq!(ranks.len(), 2);
    assert_eq!(ranks[0].tier, "GOLD");
    assert_eq!(ranks[1].tier, "IRON");
}

#[test]
fn collect_ranks_of_empty_fan_out_is_empty() {
    let ranks = collect_ranks(Vec::new()).expect("nothing to fail");
    assert!(ranks.is_empty());
}

#[test]
fn collect_ranks_surfaces_the_first_failure() {
    let results = vec![
        Ok(Rank::unranked()),
        Err(ProgramError::BadResponse(503)),
        Err(ProgramError::InvalidAccount),
    ];
    assert_eq!(collect_ranks(results).unwrap_err(), ProgramError::BadResponse(503));
}

#[test]
fn participant_new_sets_fields() {
    let p = Participant::new(false, "someone".to_string(), Rank::unranked(), 42);
    assert!(!p.team);
    assert_eq!(p.summoner_name, "someone");
    assert_eq!(p.champion_id, 42);
    assert_eq!(p.rank.tier, "N/A");
}
