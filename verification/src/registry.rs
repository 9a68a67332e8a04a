//! The keyed collection of live games.
//!
//! The registry owns every game exclusively and enforces the creation,
//! lookup and deletion rules; identifiers are unique.  Callers take the
//! registry into one critical section per operation; the lock itself lives
//! outside the core.

use crate::board::board_start;
use crate::errors::Error;
use crate::game::{game_wf, Game};
use crate::round::Round;
use vstd::prelude::*;

verus! {

/// All live games, keyed by their identifier.
pub struct Games(pub Vec<(String, Game)>);

/// No identifier occurs twice.
pub open spec fn ids_unique(gs: Games) -> bool {
    forall|i: int, j: int|
        0 <= i < j < gs.0@.len() ==> (#[trigger] gs.0@[i].0@) != (#[trigger] gs.0@[j].0@)
}

/// A registry as every operation expects it: unique identifiers, and every
/// stored game well-formed.
pub open spec fn games_wf(gs: Games) -> bool {
    &&& ids_unique(gs)
    &&& forall|i: int| 0 <= i < gs.0@.len() ==> game_wf((#[trigger] gs.0@[i]).1)
}

/// Some entry carries identifier `id`.
pub open spec fn contains_id(gs: Games, id: Seq<char>) -> bool {
    exists|i: int| 0 <= i < gs.0@.len() && (#[trigger] gs.0@[i].0@) == id
}

/// The position of the entry carrying `id`; meaningful only while
/// `contains_id` holds, and unique while `ids_unique` holds.
pub open spec fn index_of_id(gs: Games, id: Seq<char>) -> int {
    choose|i: int| 0 <= i < gs.0@.len() && (#[trigger] gs.0@[i].0@) == id
}

/// What `create` leaves under a fresh identifier: the initial player seated
/// alone, one round seeded with the two prompts and still unanswered, and a
/// starting board.
pub open spec fn fresh_game(
    initial_player: String,
    initial_question: String,
    initial_question_two: String,
    g: Game,
) -> bool {
    &&& g.player_one == Some(initial_player)
    &&& g.player_two is None
    &&& g.rounds@.len() == 1
    &&& g.rounds@[0] == (Round {
        player_one_question: initial_question,
        player_two_question: initial_question_two,
        player_one_answer: None,
        player_two_answer: None,
    })
    &&& board_start(g.board)
}

proof fn lemma_index_of_id(gs: Games, id: Seq<char>, i: int)
    requires
        ids_unique(gs),
        0 <= i < gs.0@.len(),
        gs.0@[i].0@ == id,
    ensures
        contains_id(gs, id),
        index_of_id(gs, id) == i,
{
    assert(contains_id(gs, id));
    let j = index_of_id(gs, id);
    assert(0 <= j < gs.0@.len() && gs.0@[j].0@ == id);
    if i < j {
        assert(gs.0@[i].0@ != gs.0@[j].0@);
    } else if j < i {
        assert(gs.0@[j].0@ != gs.0@[i].0@);
    }
}

impl Default for Games {
    /// The empty registry.
    fn default() -> (r: Games)
        ensures
            r.0@ == Seq::<(String, Game)>::empty(),
            games_wf(r),
    {
        Games(Vec::new())
    }
}

impl Games {
    /// The position of the entry keyed `game_id`, if any.
    fn find_index(&self, game_id: &str) -> (r: Option<usize>)
        ensures
            match r {
                Some(i) => i < self.0@.len() && self.0@[i as int].0@ == game_id@,
                None => !contains_id(*self, game_id@),
            },
    {
        let key = game_id.to_owned();
        let mut i: usize = 0;
        while i < self.0.len()
            invariant
                i <= self.0@.len(),
                key@ == game_id@,
                forall|j: int| 0 <= j < i as int ==> (#[trigger] self.0@[j].0@) != game_id@,
            decreases self.0@.len() - i,
        {
            if self.0[i].0 == key {
                return Some(i);
            }
            i += 1;
        }
        None
    }

    /// Register a new game: one seeded round, the initial player in seat
    /// one, a starting board.  An identifier that is already taken fails
    /// with `GameConflict` and leaves the registry — the existing game
    /// included — untouched.
    pub fn create(
        &mut self,
        game_id: String,
        initial_player: String,
        initial_question: String,
        initial_question_two: String,
    ) -> (r: Result<(), Error>)
        requires
            games_wf(*old(self)),
        ensures
            games_wf(*final(self)),
            ({
                if contains_id(*old(self), game_id@) {
                    &&& r == Err::<(), Error>(Error::GameConflict)
                    &&& *final(self) == *old(self)
                } else {
                    &&& r == Ok::<(), Error>(())
                    &&& final(self).0@.len() == old(self).0@.len() + 1
                    &&& final(self).0@.subrange(0, old(self).0@.len() as int) == old(self).0@
                    &&& final(self).0@.last().0 == game_id
                    &&& fresh_game(
                        initial_player,
                        initial_question,
                        initial_question_two,
                        final(self).0@.last().1,
                    )
                }
            }),
    {
        if self.find_index(&game_id).is_some() {
            Err(Error::GameConflict)
        } else {
            let mut game = Game::default();
            game.add_round(initial_question, initial_question_two);
            match game.add_player(initial_player) {
                Ok(()) => {},
                Err(e) => {
                    return Err(e);
                },
            }
            game.init_board();
            let ghost older = self.0@;
            self.0.push((game_id, game));
            proof {
                assert(final(self).0@.subrange(0, older.len() as int) =~= older);
            }
            Ok(())
        }
    }

    /// Exclusive access to the game keyed `game_id`; the caller performs one
    /// mutation and releases the handle.  An unknown identifier fails with
    /// `GameNotFound`.
    pub fn get(&mut self, game_id: &str) -> (r: Result<&mut Game, Error>)
        requires
            games_wf(*old(self)),
        ensures
            match r {
                Ok(game) => {
                    let i = index_of_id(*old(self), game_id@);
                    &&& contains_id(*old(self), game_id@)
                    &&& *game == old(self).0@[i].1
                    &&& game_wf(*game)
                    &&& final(self).0@ == old(self).0@.update(
                        i,
                        (old(self).0@[i].0, *final(game)),
                    )
                    &&& (game_wf(*final(game)) ==> games_wf(*final(self)))
                },
                Err(e) => {
                    &&& e == Error::GameNotFound
                    &&& !contains_id(*old(self), game_id@)
                    &&& *final(self) == *old(self)
                },
            },
    {
        match self.find_index(game_id) {
            Some(i) => {
                proof {
                    lemma_index_of_id(*self, game_id@, i as int);
                }
                Ok(&mut self.0[i].1)
            },
            None => Err(Error::GameNotFound),
        }
    }

    /// Drop the game keyed `game_id`, if there is one; deleting an unknown
    /// identifier is not an error.
    pub fn delete(&mut self, game_id: &str)
        requires
            games_wf(*old(self)),
        ensures
            games_wf(*final(self)),
            !contains_id(*final(self), game_id@),
            ({
                if contains_id(*old(self), game_id@) {
                    final(self).0@ == old(self).0@.remove(index_of_id(*old(self), game_id@))
                } else {
                    *final(self) == *old(self)
                }
            }),
    {
        match self.find_index(game_id) {
            Some(i) => {
                proof {
                    lemma_index_of_id(*self, game_id@, i as int);
                }
                self.0.remove(i);
            },
            None => {},
        }
    }
}

} // verus!
