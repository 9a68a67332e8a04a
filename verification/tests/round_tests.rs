use word_duel::errors::{BadRequest, Error, PlayerData, PromptData};
use word_duel::round::{Answer, Guess, Round, RoundState};

#[test]
fn heartbeat() {
    assert_eq!(word_duel::heartbeat(), "heartbeat");
}

#[test]
fn new_round_is_in_start_state() {
    let r = Round::new("q1".to_string(), "q2".to_string());
    assert_eq!(r.player_one_question, "q1");
    assert_eq!(r.player_two_question, "q2");
    assert_eq!(r.player_one_answer, None);
    assert_eq!(r.player_two_answer, None);
    assert_eq!(r.state(), RoundState::Start);
}

#[test]
fn round_state_follows_answer_presence() {
    let mut r = Round::new("q1".to_string(), "q2".to_string());
    r.player_one_answer = Some("a".to_string());
    assert_eq!(r.state(), RoundState::CollectingAnswers);
    r.player_two_answer = Some("b".to_string());
    assert_eq!(r.state(), RoundState::Complete);
    r.player_one_answer = None;
    assert_eq!(r.state(), RoundState::CollectingAnswers);
    r.player_two_answer = None;
    assert_eq!(r.state(), RoundState::Start);
}

#[test]
fn answer_holds_player_and_text() {
    let a = Answer::new("p1", "hello");
    assert_eq!(a.player, "p1");
    assert_eq!(a.answer, "hello");
    assert_eq!(a, Answer::new("p1", "hello"));
    assert_ne!(a, Answer::new("p1", "other"));
    assert_ne!(a, Answer::new("p2", "hello"));
}

#[test]
fn guess_collects_distinct_answers() {
    let g = Guess::new(
        "p1",
        vec![
            Answer::new("p1", "alpha"),
            Answer::new("p2", "beta"),
            Answer::new("p1", "alpha"),
        ],
    );
    assert_eq!(g.player, "p1");
    assert_eq!(g.answers.len(), 2);
    assert!(g.answers.contains(&Answer::new("p1", "alpha")));
    assert!(g.answers.contains(&Answer::new("p2", "beta")));
}

#[test]
fn prompt_and_player_data_keep_their_text() {
    assert_eq!(PromptData::new("a prompt").prompt, "a prompt");
    assert_eq!(PlayerData::new("p7").player, "p7");
}

#[test]
fn error_names_and_messages() {
    assert_eq!(Error::GameConflict.name(), "GameConflict");
    assert_eq!(Error::GameConflict.message(), "game conflict");
    assert_eq!(Error::GameNotFound.name(), "GameNotFound");
    assert_eq!(Error::GameNotFound.message(), "game not found");
    assert_eq!(Error::PlayerConflict.message(), "player conflict");
    assert_eq!(Error::PlayerNotFound.message(), "player not found");
    assert_eq!(Error::RoundNotInStartState.message(), "round not in start state");
    assert_eq!(
        Error::RoundNotInCollectingAnswersState.message(),
        "round not in collecting answer state"
    );
}

#[test]
fn bad_request_carries_name_and_message() {
    let b = BadRequest::new(Error::PlayerConflict);
    assert_eq!(b.error, "PlayerConflict");
    assert_eq!(b.message, "player conflict");
}
