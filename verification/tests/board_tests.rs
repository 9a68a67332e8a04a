use word_duel::board::{consonant_index, make_start_map, Board};

// Alphabet positions used below: b=0 c=1 d=2 f=3 g=4 h=5 j=6 k=7 l=8 m=9
// n=10 p=11 q=12 r=13 s=14 t=15 v=16 w=17 x=18 y=19 z=20.

#[test]
fn start_map_is_all_zero() {
    let m = make_start_map();
    assert_eq!(m.len(), 21);
    for v in &m {
        assert_eq!(*v, 0);
    }
}

#[test]
fn new_board_is_empty() {
    let b = Board::new();
    assert_eq!(b.board.len(), 21);
    assert_eq!(b.player_one_captured.len(), 21);
    assert_eq!(b.player_two_captured.len(), 21);
    for i in 0..21 {
        assert_eq!(b.board[i], 0);
        assert!(!b.player_one_captured[i]);
        assert!(!b.player_two_captured[i]);
    }
}

#[test]
fn consonant_index_maps_the_alphabet() {
    assert_eq!(consonant_index('b'), Some(0));
    assert_eq!(consonant_index('s'), Some(14));
    assert_eq!(consonant_index('t'), Some(15));
    assert_eq!(consonant_index('z'), Some(20));
    assert_eq!(consonant_index('a'), None);
    assert_eq!(consonant_index('e'), None);
    assert_eq!(consonant_index('B'), None);
    assert_eq!(consonant_index(' '), None);
    assert_eq!(consonant_index('!'), None);
}

#[test]
fn repeated_letters_compound() {
    let mut b = Board::new();
    b.move_board("sssss".to_string(), "test".to_string());
    // s: +5 from player one, -1 from player two -> 4, captured by player one.
    assert_eq!(b.board[14], 4);
    assert!(b.player_one_captured[14]);
    assert!(!b.player_two_captured[14]);
    // t: -2 from player two, inside the band -> free.
    assert_eq!(b.board[15], -2);
    assert!(!b.player_one_captured[15]);
    assert!(!b.player_two_captured[15]);
    // e is a vowel and is ignored.
    for i in 0..21 {
        if i != 14 && i != 15 {
            assert_eq!(b.board[i], 0);
        }
    }
}

#[test]
fn nonconsonants_never_mutate_state() {
    let mut b = Board::new();
    b.move_board("aeiou AEIOU!? ,.".to_string(), "oui 123 \u{e9}\u{df}".to_string());
    for i in 0..21 {
        assert_eq!(b.board[i], 0);
        assert!(!b.player_one_captured[i]);
        assert!(!b.player_two_captured[i]);
    }
}

#[test]
fn counter_must_leave_band_to_capture() {
    let mut b = Board::new();
    b.move_board("bb".to_string(), "".to_string());
    assert_eq!(b.board[0], 2);
    assert!(!b.player_one_captured[0]);
    b.move_board("b".to_string(), "".to_string());
    assert_eq!(b.board[0], 3);
    assert!(b.player_one_captured[0]);
}

#[test]
fn player_two_captures_below_minus_two() {
    let mut b = Board::new();
    b.move_board("".to_string(), "zzz".to_string());
    assert_eq!(b.board[20], -3);
    assert!(b.player_two_captured[20]);
    assert!(!b.player_one_captured[20]);
}

#[test]
fn captured_letter_counter_is_frozen() {
    let mut b = Board::new();
    b.move_board("kkkk".to_string(), "".to_string());
    assert_eq!(b.board[7], 4);
    assert!(b.player_one_captured[7]);
    // Further occurrences of k on either side leave its counter unchanged.
    b.move_board("kk".to_string(), "kkkkkkkk".to_string());
    assert_eq!(b.board[7], 4);
    assert!(b.player_one_captured[7]);
    assert!(!b.player_two_captured[7]);
}

#[test]
fn capture_is_irreversible() {
    let mut b = Board::new();
    b.move_board("mmm".to_string(), "".to_string());
    assert!(b.player_one_captured[9]);
    // A flood of opposing occurrences cannot free m or flip it to player two.
    for _ in 0..10 {
        b.move_board("".to_string(), "mmmmmmmmmm".to_string());
        assert!(b.player_one_captured[9]);
        assert!(!b.player_two_captured[9]);
        assert_eq!(b.board[9], 3);
    }
}

#[test]
fn both_sides_cancel_inside_one_move() {
    let mut b = Board::new();
    b.move_board("rrrr".to_string(), "rr".to_string());
    // +4 then -2: the capture check only runs after both passes.
    assert_eq!(b.board[13], 2);
    assert!(!b.player_one_captured[13]);
    assert!(!b.player_two_captured[13]);
}
