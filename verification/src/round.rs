//! One exchange of the duel: a pair of prompts and up to two answers.
//!
//! A round never stores its phase; the phase is derived from which answers
//! are present, so data and state cannot drift apart.

use std::collections::HashSet;
use vstd::prelude::*;

verus! {

/// One player's submission for the current round.  The text is free form and
/// never validated against the prompt.
#[derive(Debug, Clone, PartialEq, Eq, Hash)]
pub struct Answer {
    /// The player who gave the answer.
    pub player: String,
    /// The answer to the question for the round.
    pub answer: String,
}

impl Answer {
    pub fn new(player: &str, answer: &str) -> (r: Answer)
        ensures
            r.player@ == player@,
            r.answer@ == answer@,
    {
        Answer { player: player.to_owned(), answer: answer.to_owned() }
    }
}

/// A player's attempt at guessing the answers of a round, one per player.
/// Kept for the answer-guessing extension of the duel; the core rules never
/// read it.
#[derive(Debug)]
pub struct Guess {
    /// The player making the guess.
    pub player: String,
    /// The guessed answers, at most one per player.
    pub answers: HashSet<Answer>,
}

impl Guess {
    pub fn new(player: &str, guess: Vec<Answer>) -> (r: Guess)
        ensures
            r.player@ == player@,
    {
        let mut answers: HashSet<Answer> = HashSet::new();
        let mut i: usize = 0;
        while i < guess.len()
            decreases guess.len() - i,
        {
            answers.insert(guess[i].clone());
            i += 1;
        }
        Guess { player: player.to_owned(), answers }
    }
}

/// The derived phase of a round.
#[derive(Debug, PartialEq, Eq, Structural)]
pub enum RoundState {
    /// No answer yet.
    Start,
    /// Exactly one answer present.
    CollectingAnswers,
    /// Both answers present; the round is immutable from here on.
    Complete,
}

/// The phase that a pair of optional answers puts a round in.  The three
/// phases partition the four presence combinations exhaustively.
pub open spec fn state_of(answer_one: Option<String>, answer_two: Option<String>) -> RoundState {
    if answer_one is None && answer_two is None {
        RoundState::Start
    } else if answer_one is Some && answer_two is Some {
        RoundState::Complete
    } else {
        RoundState::CollectingAnswers
    }
}

/// A question pair with the answers collected so far.
#[derive(Debug, Clone)]
pub struct Round {
    /// The question posed to each player for the round.
    pub player_one_question: String,
    pub player_two_question: String,
    /// The answers given, one slot per player.
    pub player_one_answer: Option<String>,
    pub player_two_answer: Option<String>,
}

impl Round {
    pub fn new(player_one_question: String, player_two_question: String) -> (r: Round)
        ensures
            r.player_one_question == player_one_question,
            r.player_two_question == player_two_question,
            r.player_one_answer is None,
            r.player_two_answer is None,
            state_of(r.player_one_answer, r.player_two_answer) == RoundState::Start,
    {
        Round {
            player_one_question,
            player_two_question,
            player_one_answer: None,
            player_two_answer: None,
        }
    }

    /// The phase of the round, computed from answer presence alone.
    pub fn state(&self) -> (r: RoundState)
        ensures
            r == state_of(self.player_one_answer, self.player_two_answer),
    {
        if self.player_one_answer.is_none() && self.player_two_answer.is_none() {
            RoundState::Start
        } else if self.player_one_answer.is_some() && self.player_two_answer.is_some() {
            RoundState::Complete
        } else {
            RoundState::CollectingAnswers
        }
    }
}

/// The round phase is a pure function of the two optional answers, and the
/// three phases partition all reachable configurations: exactly one of the
/// equivalences below holds for any pair of slots.
pub proof fn lemma_round_state_partition(answer_one: Option<String>, answer_two: Option<String>)
    ensures
        state_of(answer_one, answer_two) == RoundState::Start <==> (answer_one is None
            && answer_two is None),
        state_of(answer_one, answer_two) == RoundState::Complete <==> (answer_one is Some
            && answer_two is Some),
        state_of(answer_one, answer_two) == RoundState::CollectingAnswers <==> ((answer_one is Some)
            != (answer_two is Some)),
{
}

} // verus!
