use word_duel::errors::Error;
use word_duel::registry::Games;
use word_duel::round::{Answer, RoundState};

#[test]
fn create_seeds_one_round_and_seats_the_creator() {
    let mut games = Games::default();
    games
        .create("g1".to_string(), "p1".to_string(), "qa".to_string(), "qb".to_string())
        .unwrap();
    let game = games.get("g1").unwrap();
    assert_eq!(game.player_one, Some("p1".to_string()));
    assert_eq!(game.player_two, None);
    assert_eq!(game.rounds.len(), 1);
    assert_eq!(game.rounds[0].player_one_question, "qa");
    assert_eq!(game.rounds[0].player_two_question, "qb");
    assert_eq!(game.current_round().state(), RoundState::Start);
}

#[test]
fn duplicate_id_conflicts_and_leaves_the_game_untouched() {
    let mut games = Games::default();
    games
        .create("g1".to_string(), "p1".to_string(), "qa".to_string(), "qb".to_string())
        .unwrap();
    games.get("g1").unwrap().add_player("p2".to_string()).unwrap();
    games.get("g1").unwrap().answer(Answer::new("p1", "words")).unwrap();
    // A second create under the same id fails however it is parameterized
    assert_eq!(
        games.create("g1".to_string(), "px".to_string(), "qx".to_string(), "qy".to_string()),
        Err(Error::GameConflict)
    );
    // The existing game kept its players and its answer
    let game = games.get("g1").unwrap();
    assert_eq!(game.player_one, Some("p1".to_string()));
    assert_eq!(game.player_two, Some("p2".to_string()));
    assert_eq!(game.rounds[0].player_one_answer, Some("words".to_string()));
}

#[test]
fn unknown_id_is_not_found() {
    let mut games = Games::default();
    assert!(matches!(games.get("nowhere"), Err(Error::GameNotFound)));
}

#[test]
fn delete_then_get_is_not_found() {
    let mut games = Games::default();
    games
        .create("g1".to_string(), "p1".to_string(), "qa".to_string(), "qb".to_string())
        .unwrap();
    assert!(games.get("g1").is_ok());
    games.delete("g1");
    assert!(matches!(games.get("g1"), Err(Error::GameNotFound)));
    // Deleting a nonexistent id does not fail
    games.delete("g1");
    games.delete("never_created");
}

#[test]
fn delete_leaves_other_games_alone() {
    let mut games = Games::default();
    games
        .create("g1".to_string(), "p1".to_string(), "qa".to_string(), "qb".to_string())
        .unwrap();
    games
        .create("g2".to_string(), "p2".to_string(), "qc".to_string(), "qd".to_string())
        .unwrap();
    games.delete("g1");
    let game = games.get("g2").unwrap();
    assert_eq!(game.player_one, Some("p2".to_string()));
    assert_eq!(game.rounds[0].player_one_question, "qc");
}
