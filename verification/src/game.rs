//! One game: two player slots, the ordered rounds, and the scoreboard.
//!
//! The game enforces the player and turn rules and drives round advancement:
//! when the current round gathers both answers it is scored on the board and
//! a fresh round is appended, so the current round is always the last one.

use crate::board::{board_moved, board_start, board_wf, Board};
use crate::errors::Error;
use crate::round::{state_of, Answer, Round, RoundState};
use vstd::prelude::*;

verus! {

/// The full state of one game.
#[derive(Debug, Clone)]
pub struct Game {
    /// The two seats, filled in order.
    pub player_one: Option<String>,
    pub player_two: Option<String>,
    /// The rounds played so far, the current one last.
    pub rounds: Vec<Round>,
    /// The letter-capture scoreboard, spanning all completed rounds.
    pub board: Board,
}

/// The phase of the current (last) round of `g`.
pub open spec fn current_state(g: Game) -> RoundState {
    state_of(g.rounds@.last().player_one_answer, g.rounds@.last().player_two_answer)
}

/// A game as every operation after construction expects it: at least one
/// round, a consistent board, and every round but the current one complete.
pub open spec fn game_wf(g: Game) -> bool {
    &&& g.rounds@.len() >= 1
    &&& board_wf(g.board)
    &&& forall|i: int|
        0 <= i < g.rounds@.len() - 1 ==> state_of(
            #[trigger] g.rounds@[i].player_one_answer,
            g.rounds@[i].player_two_answer,
        ) == RoundState::Complete
}

impl Default for Game {
    /// An empty shell: no players, no rounds, a starting board.  It becomes
    /// well-formed once the first round is appended.
    fn default() -> (r: Game)
        ensures
            r.player_one is None,
            r.player_two is None,
            r.rounds@ == Seq::<Round>::empty(),
            board_start(r.board),
            board_wf(r.board),
    {
        Game { player_one: None, player_two: None, rounds: Vec::new(), board: Board::new() }
    }
}

impl Game {
    /// Seat a player.  Joining is only allowed while the current round has no
    /// answer yet; the first free seat is taken, and a game never holds more
    /// than two players.
    pub fn add_player(&mut self, player: String) -> (r: Result<(), Error>)
        requires
            old(self).rounds@.len() >= 1,
        ensures
            final(self).rounds == old(self).rounds,
            final(self).board == old(self).board,
            ({
                if current_state(*old(self)) != RoundState::Start {
                    &&& r == Err::<(), Error>(Error::RoundNotInStartState)
                    &&& *final(self) == *old(self)
                } else if old(self).player_one is None {
                    &&& r == Ok::<(), Error>(())
                    &&& final(self).player_one == Some(player)
                    &&& final(self).player_two == old(self).player_two
                } else if old(self).player_two is None {
                    &&& r == Ok::<(), Error>(())
                    &&& final(self).player_one == old(self).player_one
                    &&& final(self).player_two == Some(player)
                } else {
                    &&& r == Err::<(), Error>(Error::PlayerConflict)
                    &&& *final(self) == *old(self)
                }
            }),
    {
        // Only allow adding players at the start of a round
        if self.current_round_state() != RoundState::Start {
            return Err(Error::RoundNotInStartState);
        }
        if self.player_one.is_none() {
            self.player_one = Some(player);
            Ok(())
        } else if self.player_two.is_none() {
            self.player_two = Some(player);
            Ok(())
        } else {
            Err(Error::PlayerConflict)
        }
    }

    /// Record one answer for the current round.  The submitting player must
    /// be seated and the round must still be collecting; a player's earlier
    /// answer for the same round is silently overwritten.  Reports whether
    /// the round is complete after the write, in which case the caller
    /// fetches two fresh prompts and calls `add_round_if_complete`.
    pub fn answer(&mut self, answer: Answer) -> (r: Result<bool, Error>)
        requires
            old(self).rounds@.len() >= 1,
        ensures
            final(self).player_one == old(self).player_one,
            final(self).player_two == old(self).player_two,
            final(self).board == old(self).board,
            final(self).rounds@.len() == old(self).rounds@.len(),
            ({
                let seated = old(self).player_one is Some && old(self).player_two is Some && (
                answer.player@ == old(self).player_one->0@ || answer.player@ == old(
                    self,
                ).player_two->0@);
                if !seated {
                    &&& r == Err::<bool, Error>(Error::PlayerNotFound)
                    &&& *final(self) == *old(self)
                } else if current_state(*old(self)) == RoundState::Complete {
                    &&& r == Err::<bool, Error>(Error::RoundNotInCollectingAnswersState)
                    &&& *final(self) == *old(self)
                } else {
                    let cur = old(self).rounds@.last();
                    let updated = if answer.player@ == old(self).player_one->0@ {
                        (Round {
                            player_one_question: cur.player_one_question,
                            player_two_question: cur.player_two_question,
                            player_one_answer: Some(answer.answer),
                            player_two_answer: cur.player_two_answer,
                        })
                    } else {
                        (Round {
                            player_one_question: cur.player_one_question,
                            player_two_question: cur.player_two_question,
                            player_one_answer: cur.player_one_answer,
                            player_two_answer: Some(answer.answer),
                        })
                    };
                    &&& final(self).rounds@ == old(self).rounds@.update(
                        old(self).rounds@.len() - 1,
                        updated,
                    )
                    &&& r == Ok::<bool, Error>(state_of(
                        updated.player_one_answer,
                        updated.player_two_answer,
                    ) == RoundState::Complete)
                }
            }),
    {
        // Confirm the player exists
        let (player_one, player_two) = match (&self.player_one, &self.player_two) {
            (Some(player_one), Some(player_two)) => (player_one.clone(), player_two.clone()),
            _ => {
                return Err(Error::PlayerNotFound);
            },
        };
        if answer.player != player_one && answer.player != player_two {
            return Err(Error::PlayerNotFound);
        }
        // Confirm we are collecting answers for the current round
        if self.current_round_state() == RoundState::Complete {
            return Err(Error::RoundNotInCollectingAnswersState);
        }
        let for_player_one = answer.player == player_one;
        let current_round = self.current_round_mut();
        // Add or replace the answer
        if for_player_one {
            current_round.player_one_answer = Some(answer.answer);
        } else {
            current_round.player_two_answer = Some(answer.answer);
        }
        let complete = current_round.player_one_answer.is_some()
            && current_round.player_two_answer.is_some();
        Ok(complete)
    }

    /// Advance the game once the current round has both answers: score the
    /// two answers on the board, in (player one, player two) order, and
    /// append a fresh round with the two supplied prompts.  A round that is
    /// still collecting leaves the game untouched.
    pub fn add_round_if_complete(&mut self, question_one: String, question_two: String)
        requires
            game_wf(*old(self)),
        ensures
            game_wf(*final(self)),
            final(self).player_one == old(self).player_one,
            final(self).player_two == old(self).player_two,
            ({
                if current_state(*old(self)) == RoundState::Complete {
                    let cur = old(self).rounds@.last();
                    &&& board_moved(
                        old(self).board,
                        cur.player_one_answer->0@,
                        cur.player_two_answer->0@,
                        final(self).board,
                    )
                    &&& final(self).rounds@ == old(self).rounds@.push(
                        (Round {
                            player_one_question: question_one,
                            player_two_question: question_two,
                            player_one_answer: None,
                            player_two_answer: None,
                        }),
                    )
                } else {
                    *final(self) == *old(self)
                }
            }),
    {
        if self.current_round_state() == RoundState::Complete {
            let player_one_answer = self.current_round().player_one_answer.as_ref().unwrap().clone();
            let player_two_answer = self.current_round().player_two_answer.as_ref().unwrap().clone();
            self.board.move_board(player_one_answer, player_two_answer);
            self.add_round(question_one, question_two);
        }
    }

    /// Append a round seeded with the two prompts; it becomes the current
    /// round, in start state.
    pub fn add_round(&mut self, question_one: String, question_two: String)
        ensures
            final(self).player_one == old(self).player_one,
            final(self).player_two == old(self).player_two,
            final(self).board == old(self).board,
            final(self).rounds@ == old(self).rounds@.push(
                (Round {
                    player_one_question: question_one,
                    player_two_question: question_two,
                    player_one_answer: None,
                    player_two_answer: None,
                }),
            ),
    {
        self.rounds.push(Round::new(question_one, question_two));
    }

    /// The current round: the last one appended.
    pub fn current_round(&self) -> (r: &Round)
        requires
            self.rounds@.len() >= 1,
        ensures
            *r == self.rounds@.last(),
    {
        let index = self.rounds.len() - 1;
        &self.rounds[index]
    }

    /// Mutable access to the current round; everything else stays untouched.
    pub fn current_round_mut(&mut self) -> (r: &mut Round)
        requires
            old(self).rounds@.len() >= 1,
        ensures
            *r == old(self).rounds@.last(),
            final(self).rounds@ == old(self).rounds@.update(
                old(self).rounds@.len() - 1,
                *final(r),
            ),
            final(self).player_one == old(self).player_one,
            final(self).player_two == old(self).player_two,
            final(self).board == old(self).board,
    {
        let index = self.rounds.len() - 1;
        &mut self.rounds[index]
    }

    /// The phase of the current round.
    pub fn current_round_state(&self) -> (r: RoundState)
        requires
            self.rounds@.len() >= 1,
        ensures
            r == current_state(*self),
    {
        let round = self.current_round();
        round.state()
    }

    /// Reset the board to its starting state.
    pub fn init_board(&mut self)
        ensures
            final(self).player_one == old(self).player_one,
            final(self).player_two == old(self).player_two,
            final(self).rounds == old(self).rounds,
            board_start(final(self).board),
            board_wf(final(self).board),
    {
        self.board = Board::new();
    }
}

} // verus!
