//! The letter-capture scoreboard.
//!
//! The board tracks a tug-of-war counter for each of the 21 consonants of the
//! Latin alphabet.  Every occurrence of a consonant in player one's answer
//! pulls the counter up, every occurrence in player two's answer pulls it
//! down, and a counter that leaves the band `[-2, 2]` captures its letter for
//! the winning side permanently.

use vstd::prelude::*;

verus! {

/// Position of a letter in the fixed consonant alphabet
/// `bcdfghjklmnpqrstvwxyz`, or `-1` for every other character.
pub open spec fn letter_index(c: char) -> int {
    if c == 'b' {
        0
    } else if c == 'c' {
        1
    } else if c == 'd' {
        2
    } else if c == 'f' {
        3
    } else if c == 'g' {
        4
    } else if c == 'h' {
        5
    } else if c == 'j' {
        6
    } else if c == 'k' {
        7
    } else if c == 'l' {
        8
    } else if c == 'm' {
        9
    } else if c == 'n' {
        10
    } else if c == 'p' {
        11
    } else if c == 'q' {
        12
    } else if c == 'r' {
        13
    } else if c == 's' {
        14
    } else if c == 't' {
        15
    } else if c == 'v' {
        16
    } else if c == 'w' {
        17
    } else if c == 'x' {
        18
    } else if c == 'y' {
        19
    } else if c == 'z' {
        20
    } else {
        -1
    }
}

/// A character the board tracks: a lower-case Latin letter that is not a vowel.
pub open spec fn is_consonant(c: char) -> bool {
    letter_index(c) >= 0
}

/// The consonant that sits at position `i` of the alphabet; inverse of
/// `letter_index` on `0 <= i < 21`.
pub open spec fn letter_at(i: int) -> char {
    if i == 0 {
        'b'
    } else if i == 1 {
        'c'
    } else if i == 2 {
        'd'
    } else if i == 3 {
        'f'
    } else if i == 4 {
        'g'
    } else if i == 5 {
        'h'
    } else if i == 6 {
        'j'
    } else if i == 7 {
        'k'
    } else if i == 8 {
        'l'
    } else if i == 9 {
        'm'
    } else if i == 10 {
        'n'
    } else if i == 11 {
        'p'
    } else if i == 12 {
        'q'
    } else if i == 13 {
        'r'
    } else if i == 14 {
        's'
    } else if i == 15 {
        't'
    } else if i == 16 {
        'v'
    } else if i == 17 {
        'w'
    } else if i == 18 {
        'x'
    } else if i == 19 {
        'y'
    } else {
        'z'
    }
}

/// `letter_at` and `letter_index` invert each other on the alphabet.
pub proof fn lemma_letter_at_index(i: int)
    requires
        0 <= i < 21,
    ensures
        letter_index(letter_at(i)) == i,
        is_consonant(letter_at(i)),
{
}

/// How often character `c` occurs in `s`.
pub open spec fn occ(s: Seq<char>, c: char) -> int
    decreases s.len(),
{
    if s.len() == 0 {
        0
    } else {
        occ(s.drop_last(), c) + (if s.last() == c {
            1int
        } else {
            0int
        })
    }
}

pub proof fn lemma_occ_bounds(s: Seq<char>, c: char)
    ensures
        0 <= occ(s, c) <= s.len(),
    decreases s.len(),
{
    if s.len() > 0 {
        lemma_occ_bounds(s.drop_last(), c);
    }
}

/// Extending a prefix by one character raises the count of exactly that
/// character.
pub proof fn lemma_occ_take_step(s: Seq<char>, k: int, c: char)
    requires
        0 <= k < s.len(),
    ensures
        occ(s.take(k + 1), c) == occ(s.take(k), c) + (if s[k] == c {
            1int
        } else {
            0int
        }),
{
    assert(s.take(k + 1).drop_last() =~= s.take(k));
    assert(s.take(k + 1).last() == s[k]);
}

pub proof fn lemma_occ_take_all(s: Seq<char>, c: char)
    ensures
        occ(s.take(s.len() as int), c) == occ(s, c),
{
    assert(s.take(s.len() as int) =~= s);
}

/// A character that does not occur in `s` has count zero.
pub proof fn lemma_occ_absent(s: Seq<char>, c: char)
    requires
        !s.contains(c),
    ensures
        occ(s, c) == 0,
    decreases s.len(),
{
    if s.len() > 0 {
        assert(forall|i: int| 0 <= i < s.len() ==> s[i] != c);
        assert(!s.drop_last().contains(c));
        lemma_occ_absent(s.drop_last(), c);
        assert(s.last() != c);
    }
}

/// The tug-of-war scoreboard.  All three vectors have one entry per
/// consonant, in alphabet order: `board[i]` is the counter of `letter_at(i)`,
/// and the two capture vectors record which letters each player owns.
#[derive(Debug, Clone)]
pub struct Board {
    pub board: Vec<i128>,
    pub player_one_captured: Vec<bool>,
    pub player_two_captured: Vec<bool>,
}

/// Letter `i` belongs to one of the two capture sets.
pub open spec fn captured(b: Board, i: int) -> bool {
    b.player_one_captured@[i] || b.player_two_captured@[i]
}

/// Internal consistency of a board: captured letters keep the counter value
/// that captured them, and free letters sit inside the band `[-2, 2]`.
pub open spec fn board_wf(b: Board) -> bool {
    &&& b.board@.len() == 21
    &&& b.player_one_captured@.len() == 21
    &&& b.player_two_captured@.len() == 21
    &&& forall|i: int|
        0 <= i < 21 && #[trigger] b.player_one_captured@[i] ==> b.board@[i] > 2
            && !b.player_two_captured@[i]
    &&& forall|i: int|
        0 <= i < 21 && #[trigger] b.player_two_captured@[i] ==> b.board@[i] < -2
            && !b.player_one_captured@[i]
    &&& forall|i: int|
        0 <= i < 21 && !b.player_one_captured@[i] && !b.player_two_captured@[i] ==> -2
            <= #[trigger] b.board@[i] <= 2
}

/// The freshly initialized board: every counter zero, nothing captured.
pub open spec fn board_start(b: Board) -> bool {
    &&& b.board@.len() == 21
    &&& b.player_one_captured@.len() == 21
    &&& b.player_two_captured@.len() == 21
    &&& forall|i: int| 0 <= i < 21 ==> #[trigger] b.board@[i] == 0
    &&& forall|i: int|
        0 <= i < 21 ==> !(#[trigger] b.player_one_captured@[i]) && !b.player_two_captured@[i]
}

/// The counter of letter `i` after one move of `b` on the two answers:
/// frozen if the letter is captured, otherwise shifted by the difference of
/// the occurrence counts.
pub open spec fn moved_count(b: Board, a1: Seq<char>, a2: Seq<char>, i: int) -> int {
    if captured(b, i) {
        b.board@[i] as int
    } else {
        b.board@[i] + occ(a1, letter_at(i)) - occ(a2, letter_at(i))
    }
}

/// Full functional description of one move: `post` is `pre` after scoring
/// answer `a1` for player one against answer `a2` for player two.
pub open spec fn board_moved(pre: Board, a1: Seq<char>, a2: Seq<char>, post: Board) -> bool {
    &&& post.board@.len() == 21
    &&& post.player_one_captured@.len() == 21
    &&& post.player_two_captured@.len() == 21
    &&& forall|i: int| 0 <= i < 21 ==> #[trigger] post.board@[i] == moved_count(pre, a1, a2, i)
    &&& forall|i: int|
        0 <= i < 21 ==> (#[trigger] post.player_one_captured@[i] <==> pre.player_one_captured@[i]
            || (!captured(pre, i) && moved_count(pre, a1, a2, i) > 2))
    &&& forall|i: int|
        0 <= i < 21 ==> (#[trigger] post.player_two_captured@[i] <==> pre.player_two_captured@[i]
            || (!captured(pre, i) && moved_count(pre, a1, a2, i) < -2))
}

/// Board slot of character `c`, or `None` for a character the board ignores.
pub fn consonant_index(c: char) -> (r: Option<usize>)
    ensures
        match r {
            Some(i) => 0 <= i < 21 && letter_index(c) == i as int && letter_at(i as int) == c,
            None => !is_consonant(c),
        },
{
    match c {
        'b' => Some(0),
        'c' => Some(1),
        'd' => Some(2),
        'f' => Some(3),
        'g' => Some(4),
        'h' => Some(5),
        'j' => Some(6),
        'k' => Some(7),
        'l' => Some(8),
        'm' => Some(9),
        'n' => Some(10),
        'p' => Some(11),
        'q' => Some(12),
        'r' => Some(13),
        's' => Some(14),
        't' => Some(15),
        'v' => Some(16),
        'w' => Some(17),
        'x' => Some(18),
        'y' => Some(19),
        'z' => Some(20),
        _ => None,
    }
}

/// One zeroed counter per consonant of the alphabet.
pub fn make_start_map() -> (r: Vec<i128>)
    ensures
        r@.len() == 21,
        forall|i: int| 0 <= i < 21 ==> #[trigger] r@[i] == 0,
{
    let mut letter_to_number: Vec<i128> = Vec::new();
    let mut i: usize = 0;
    while i < 21
        invariant
            i <= 21,
            letter_to_number@.len() == i as int,
            forall|j: int| 0 <= j < i as int ==> #[trigger] letter_to_number@[j] == 0,
        decreases 21 - i,
    {
        letter_to_number.push(0);
        i += 1;
    }
    letter_to_number
}

/// One empty capture flag per consonant of the alphabet.
fn no_captures() -> (r: Vec<bool>)
    ensures
        r@.len() == 21,
        forall|i: int| 0 <= i < 21 ==> !(#[trigger] r@[i]),
{
    let mut flags: Vec<bool> = Vec::new();
    let mut i: usize = 0;
    while i < 21
        invariant
            i <= 21,
            flags@.len() == i as int,
            forall|j: int| 0 <= j < i as int ==> !(#[trigger] flags@[j]),
        decreases 21 - i,
    {
        flags.push(false);
        i += 1;
    }
    flags
}

impl Board {
    /// The starting board.
    pub fn new() -> (r: Board)
        ensures
            board_start(r),
            board_wf(r),
    {
        Board {
            board: make_start_map(),
            player_one_captured: no_captures(),
            player_two_captured: no_captures(),
        }
    }

    /// Score one completed round: every consonant occurrence in player one's
    /// answer raises its counter, every one in player two's answer lowers it,
    /// captured letters stay frozen, and afterwards every free counter above
    /// `2` is captured for player one and every one below `-2` for player two.
    ///
    /// Answers are not case-folded: the board tracks the lower-case
    /// consonants only, so capital letters, vowels, digits, punctuation and
    /// anything else outside the alphabet are silently ignored.  This keeps
    /// the identity of a captured letter stable across rounds.
    pub fn move_board(&mut self, player_one_answer: String, player_two_answer: String)
        requires
            board_wf(*old(self)),
        ensures
            board_wf(*final(self)),
            board_moved(*old(self), player_one_answer@, player_two_answer@, *final(self)),
    {
        let ghost pre = *self;
        let n1 = player_one_answer.as_str().unicode_len();
        let mut k: usize = 0;
        while k < n1
            invariant
                board_wf(pre),
                k <= n1,
                n1 as int == player_one_answer@.len(),
                self.board@.len() == 21,
                self.player_one_captured@ == pre.player_one_captured@,
                self.player_two_captured@ == pre.player_two_captured@,
                forall|i: int|
                    0 <= i < 21 ==> #[trigger] self.board@[i] as int == (if captured(pre, i) {
                        pre.board@[i] as int
                    } else {
                        pre.board@[i] + occ(player_one_answer@.take(k as int), letter_at(i))
                    }),
            decreases n1 - k,
        {
            let c = player_one_answer.as_str().get_char(k);
            if let Some(idx) = consonant_index(c) {
                if !self.player_one_captured[idx] && !self.player_two_captured[idx] {
                    proof {
                        lemma_occ_bounds(player_one_answer@.take(k as int), letter_at(idx as int));
                    }
                    let v = self.board[idx];
                    self.board[idx] = v + 1;
                }
            }
            proof {
                assert forall|i: int| 0 <= i < 21 implies occ(
                    player_one_answer@.take(k + 1),
                    letter_at(i),
                ) == occ(player_one_answer@.take(k as int), letter_at(i)) + (if letter_at(i) == c {
                    1int
                } else {
                    0int
                }) by {
                    lemma_occ_take_step(player_one_answer@, k as int, letter_at(i));
                }
                assert forall|i: int| 0 <= i < 21 && letter_index(c) != i implies letter_at(i)
                    != c by {
                    lemma_letter_at_index(i);
                }
            }
            k += 1;
        }
        proof {
            assert forall|i: int| 0 <= i < 21 implies occ(
                player_one_answer@.take(n1 as int),
                letter_at(i),
            ) == occ(player_one_answer@, letter_at(i)) by {
                lemma_occ_take_all(player_one_answer@, letter_at(i));
            }
        }
        let n2 = player_two_answer.as_str().unicode_len();
        let mut k: usize = 0;
        while k < n2
            invariant
                board_wf(pre),
                k <= n2,
                n2 as int == player_two_answer@.len(),
                self.board@.len() == 21,
                self.player_one_captured@ == pre.player_one_captured@,
                self.player_two_captured@ == pre.player_two_captured@,
                forall|i: int|
                    0 <= i < 21 ==> #[trigger] self.board@[i] as int == (if captured(pre, i) {
                        pre.board@[i] as int
                    } else {
                        pre.board@[i] + occ(player_one_answer@, letter_at(i)) - occ(
                            player_two_answer@.take(k as int),
                            letter_at(i),
                        )
                    }),
            decreases n2 - k,
        {
            let c = player_two_answer.as_str().get_char(k);
            if let Some(idx) = consonant_index(c) {
                if !self.player_one_captured[idx] && !self.player_two_captured[idx] {
                    proof {
                        lemma_occ_bounds(player_one_answer@, letter_at(idx as int));
                        lemma_occ_bounds(player_two_answer@.take(k as int), letter_at(idx as int));
                    }
                    let v = self.board[idx];
                    self.board[idx] = v - 1;
                }
            }
            proof {
                assert forall|i: int| 0 <= i < 21 implies occ(
                    player_two_answer@.take(k + 1),
                    letter_at(i),
                ) == occ(player_two_answer@.take(k as int), letter_at(i)) + (if letter_at(i) == c {
                    1int
                } else {
                    0int
                }) by {
                    lemma_occ_take_step(player_two_answer@, k as int, letter_at(i));
                }
                assert forall|i: int| 0 <= i < 21 && letter_index(c) != i implies letter_at(i)
                    != c by {
                    lemma_letter_at_index(i);
                }
            }
            k += 1;
        }
        proof {
            assert forall|i: int| 0 <= i < 21 implies occ(
                player_two_answer@.take(n2 as int),
                letter_at(i),
            ) == occ(player_two_answer@, letter_at(i)) by {
                lemma_occ_take_all(player_two_answer@, letter_at(i));
            }
        }
        let mut i: usize = 0;
        while i < 21
            invariant
                i <= 21,
                self.board@.len() == 21,
                self.player_one_captured@.len() == 21,
                self.player_two_captured@.len() == 21,
                forall|j: int|
                    0 <= j < 21 ==> #[trigger] self.board@[j] == moved_count(
                        pre,
                        player_one_answer@,
                        player_two_answer@,
                        j,
                    ),
                forall|j: int|
                    i as int <= j < 21 ==> #[trigger] self.player_one_captured@[j]
                        == pre.player_one_captured@[j],
                forall|j: int|
                    i as int <= j < 21 ==> #[trigger] self.player_two_captured@[j]
                        == pre.player_two_captured@[j],
                forall|j: int|
                    0 <= j < i as int ==> (#[trigger] self.player_one_captured@[j]
                        <==> pre.player_one_captured@[j] || (!captured(pre, j) && moved_count(
                        pre,
                        player_one_answer@,
                        player_two_answer@,
                        j,
                    ) > 2)),
                forall|j: int|
                    0 <= j < i as int ==> (#[trigger] self.player_two_captured@[j]
                        <==> pre.player_two_captured@[j] || (!captured(pre, j) && moved_count(
                        pre,
                        player_one_answer@,
                        player_two_answer@,
                        j,
                    ) < -2)),
            decreases 21 - i,
        {
            if !self.player_one_captured[i] && !self.player_two_captured[i] {
                let v = self.board[i];
                if v > 2 {
                    self.player_one_captured[i] = true;
                } else if v < -2 {
                    self.player_two_captured[i] = true;
                }
            }
            i += 1;
        }
    }
}

/// A letter that is already captured keeps its counter through any further
/// move, whatever the two answers hold.
pub proof fn lemma_captured_counter_frozen(
    pre: Board,
    a1: Seq<char>,
    a2: Seq<char>,
    post: Board,
    i: int,
)
    requires
        board_moved(pre, a1, a2, post),
        0 <= i < 21,
        pre.player_one_captured@[i] || pre.player_two_captured@[i],
    ensures
        post.board@[i] == pre.board@[i],
{
}

/// Capture is monotonic and irreversible: a letter in a capture set stays
/// there through any move and never appears in the other player's set.
pub proof fn lemma_capture_monotonic(pre: Board, a1: Seq<char>, a2: Seq<char>, post: Board, i: int)
    requires
        board_wf(pre),
        board_moved(pre, a1, a2, post),
        0 <= i < 21,
    ensures
        pre.player_one_captured@[i] ==> post.player_one_captured@[i]
            && !post.player_two_captured@[i],
        pre.player_two_captured@[i] ==> post.player_two_captured@[i]
            && !post.player_one_captured@[i],
{
}

/// Characters outside the 21-consonant alphabet never change the board: a
/// move on two answers free of consonants leaves every counter and both
/// capture sets exactly as they were.
pub proof fn lemma_move_ignores_nonconsonants(pre: Board, a1: Seq<char>, a2: Seq<char>, post: Board)
    requires
        board_wf(pre),
        board_moved(pre, a1, a2, post),
        forall|j: int| 0 <= j < a1.len() ==> !is_consonant(#[trigger] a1[j]),
        forall|j: int| 0 <= j < a2.len() ==> !is_consonant(#[trigger] a2[j]),
    ensures
        post.board@ == pre.board@,
        post.player_one_captured@ == pre.player_one_captured@,
        post.player_two_captured@ == pre.player_two_captured@,
{
    assert forall|i: int| 0 <= i < 21 implies moved_count(pre, a1, a2, i) == pre.board@[i] by {
        lemma_letter_at_index(i);
        assert(!a1.contains(letter_at(i)));
        assert(!a2.contains(letter_at(i)));
        lemma_occ_absent(a1, letter_at(i));
        lemma_occ_absent(a2, letter_at(i));
    }
    assert(post.board@ =~= pre.board@);
    assert(post.player_one_captured@ =~= pre.player_one_captured@);
    assert(post.player_two_captured@ =~= pre.player_two_captured@);
}

} // verus!
