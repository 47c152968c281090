use summoner_stats::history::{
    build_match_records, format_game_id, match_outcome, UserGames, UserMatch,
};
use summoner_stats::model::{
    MatchDetail, MatchParticipant, MatchSummary, ParticipantIdentity, TeamResult,
};

fn summary(lane: &str, role: &str, queue: u16, champion: u16, game_id: u64) -> MatchSummary {
    MatchSummary {
        queue,
        season: 13,
        role: role.to_string(),
        lane: lane.to_string(),
        champion,
        game_id,
    }
}

/// A detail whose subject (account id "me") sits on `subject_team`, with
/// the first listed team flagged `first_team_win`.
fn detail(subject_team: u16, first_team_win: bool) -> MatchDetail {
    MatchDetail {
        teams: vec![
            TeamResult {
                team_id: 100,
                win: if first_team_win { "Win".to_string() } else { "Fail".to_string() },
            },
            TeamResult {
                team_id: 200,
                win: if first_team_win { "Fail".to_string() } else { "Win".to_string() },
            },
        ],
        participants: vec![
            MatchParticipant { participant_id: 1, team_id: 100 },
            MatchParticipant { participant_id: 2, team_id: subject_team },
        ],
        participant_identities: vec![
            ParticipantIdentity { participant_id: 1, account_id: "other".to_string() },
            ParticipantIdentity { participant_id: 2, account_id: "me".to_string() },
        ],
    }
}

#[test]
fn outcome_win_when_subject_on_team_100_and_first_team_won() {
    let d = detail(100, true);
    assert_eq!(match_outcome(&d, &"me".to_string()), Some(true));
}

#[test]
fn outcome_loss_when_subject_on_other_team_and_first_team_won() {
    let d = detail(200, true);
    assert_eq!(match_outcome(&d, &"me".to_string()), Some(false));
}

#[test]
fn outcome_loss_when_subject_on_team_100_and_first_team_lost() {
    let d = detail(100, false);
    assert_eq!(match_outcome(&d, &"me".to_string()), Some(false));
}

#[test]
fn outcome_win_when_subject_on_other_team_and_first_team_lost() {
    let d = detail(200, false);
    assert_eq!(match_outcome(&d, &"me".to_string()), Some(true));
}

#[test]
fn outcome_undetermined_when_identity_missing() {
    let d = detail(100, true);
    assert_eq!(match_outcome(&d, &"stranger".to_string()), None);
}

#[test]
fn outcome_undetermined_when_teams_empty() {
    let mut d = detail(100, true);
    d.teams = Vec::new();
    assert_eq!(match_outcome(&d, &"me".to_string()), None);
}

#[test]
fn outcome_undetermined_when_roster_entry_missing() {
    let mut d = detail(100, true);
    d.participants = vec![MatchParticipant { participant_id: 9, team_id: 100 }];
    assert_eq!(match_outcome(&d, &"me".to_string()), None);
}

#[test]
fn one_failed_detail_keeps_every_row() {
    let matches = vec![
        summary("TOP", "SOLO", 420, 10, 1),
        summary("BOTTOM", "DUO_SUPPORT", 440, 20, 2),
        summary("MID", "SOLO", 400, 30, 3),
    ];
    let details = vec![Some(detail(100, true)), None, Some(detail(200, true))];
    let records = build_match_records(&matches, &details, &"me".to_string());
    assert_eq!(records.len(), 3);
    assert_eq!(records[0].outcome, Some(true));
    assert_eq!(records[1].outcome, None);
    assert_eq!(records[2].outcome, Some(false));
    assert_eq!(records[0].role, "TOP");
    assert_eq!(records[1].role, "SUPPORT");
    assert_eq!(records[2].role, "MID");
    assert_eq!(records[0].game_mode, 420);
    assert_eq!(records[1].champ, 20);
}

#[test]
fn user_match_new_sets_fields() {
    let m = UserMatch::new("TOP".to_string(), 420, 64, Some(true));
    assert_eq!(m.role, "TOP");
    assert_eq!(m.game_mode, 420);
    assert_eq!(m.champ, 64);
    assert_eq!(m.outcome, Some(true));
}

#[test]
fn get_outcome_words() {
    assert_eq!(UserMatch::new("TOP".to_string(), 420, 1, Some(true)).get_outcome(), "Win");
    assert_eq!(UserMatch::new("TOP".to_string(), 420, 1, Some(false)).get_outcome(), "Loss");
    assert_eq!(UserMatch::new("TOP".to_string(), 420, 1, None).get_outcome(), "Unavailable");
}

#[test]
fn format_game_id_known_queues() {
    assert_eq!(format_game_id(400), "Normal Draft");
    assert_eq!(format_game_id(410), "Ranked Dynamic");
    assert_eq!(format_game_id(420), "Ranked Solo");
    assert_eq!(format_game_id(430), "Blink Pick");
    assert_eq!(format_game_id(440), "Ranked Flex");
}

#[test]
fn format_game_id_unknown_queue() {
    assert_eq!(format_game_id(450), "Unknown");
    assert_eq!(format_game_id(0), "Unknown");
}

#[test]
fn win_loss_totals_skip_unavailable_rows() {
    let games = UserGames {
        username: "me".to_string(),
        games: vec![
            UserMatch::new("TOP".to_string(), 420, 1, Some(true)),
            UserMatch::new("MID".to_string(), 420, 2, Some(false)),
            UserMatch::new("TOP".to_string(), 420, 3, None),
            UserMatch::new("TOP".to_string(), 420, 4, Some(true)),
        ],
    };
    assert_eq!(games.win_loss_totals(), (2, 1));
}
