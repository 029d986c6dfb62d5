use minefield::state::{board_codes, board_from_codes, holds, same_name};
use minefield::{Cell, State};

fn record() -> State {
    State {
        board: [Cell::Unrevealed; 25],
        mine_index: Some(3),
        bet: 100,
        player_a: Some("alice".to_string()),
        player_b: Some("bob".to_string()),
        player_a_wants_rematch: false,
        player_b_wants_rematch: false,
        turn: Some("bob".to_string()),
        last_quess: None,
        game_over: false,
        winner: None,
        last_action_timestamp: Some(1000),
        player_a_timed_out: false,
        player_b_timed_out: false,
        timeout: 60,
    }
}

#[test]
fn running_record_meets_the_invariant() {
    assert!(record().is_wf());
}

#[test]
fn invariant_rejects_bad_terms() {
    let mut state = record();
    state.bet = 0;
    assert!(!state.is_wf());
    let mut state = record();
    state.timeout = 29;
    assert!(!state.is_wf());
    let mut state = record();
    state.timeout = 301;
    assert!(!state.is_wf());
}

#[test]
fn invariant_rejects_bad_seats() {
    let mut state = record();
    state.player_a = None;
    assert!(!state.is_wf());
    let mut state = record();
    state.player_b = Some("alice".to_string());
    state.turn = Some("alice".to_string());
    assert!(!state.is_wf());
    let mut state = record();
    state.turn = Some("carol".to_string());
    assert!(!state.is_wf());
    let mut state = record();
    state.turn = None;
    assert!(!state.is_wf());
}

#[test]
fn invariant_ties_the_mine_to_a_dealt_round() {
    let mut state = record();
    state.mine_index = None;
    assert!(!state.is_wf());
    let mut state = record();
    state.mine_index = Some(25);
    assert!(!state.is_wf());
    let mut state = record();
    state.player_b = None;
    state.turn = None;
    state.last_action_timestamp = None;
    assert!(!state.is_wf());
    state.mine_index = None;
    assert!(state.is_wf());
}

#[test]
fn invariant_allows_one_mine_at_the_mine_index_of_a_finished_round() {
    let mut state = record();
    state.board[3] = Cell::RevealedMine;
    assert!(!state.is_wf());
    state.game_over = true;
    state.winner = Some("alice".to_string());
    state.last_action_timestamp = None;
    state.last_quess = Some(3);
    assert!(state.is_wf());
    state.board[4] = Cell::RevealedMine;
    assert!(!state.is_wf());
    state.board[4] = Cell::RevealedSafe;
    assert!(state.is_wf());
    state.board[3] = Cell::RevealedSafe;
    assert!(!state.is_wf());
}

#[test]
fn invariant_wants_a_winner_who_was_not_to_move() {
    let mut state = record();
    state.game_over = true;
    state.last_action_timestamp = None;
    state.player_b_timed_out = true;
    assert!(!state.is_wf());
    state.winner = Some("bob".to_string());
    assert!(!state.is_wf());
    state.winner = Some("alice".to_string());
    assert!(state.is_wf());
    state.player_a_timed_out = true;
    assert!(!state.is_wf());
}

#[test]
fn invariant_keeps_pledges_to_finished_rounds() {
    let mut state = record();
    state.player_a_wants_rematch = true;
    assert!(!state.is_wf());
    state.game_over = true;
    state.last_action_timestamp = None;
    state.winner = Some("alice".to_string());
    state.player_b_timed_out = true;
    assert!(state.is_wf());
    state.player_b_wants_rematch = true;
    assert!(!state.is_wf());
}

#[test]
fn invariant_wants_a_blank_board_before_the_deal() {
    let mut state = record();
    state.player_b = None;
    state.turn = None;
    state.mine_index = None;
    state.last_action_timestamp = None;
    assert!(state.is_wf());
    state.board[24] = Cell::RevealedSafe;
    assert!(!state.is_wf());
    state.board[24] = Cell::Unrevealed;
    state.last_quess = Some(1);
    assert!(!state.is_wf());
}

#[test]
fn invariant_checks_the_last_guess() {
    let mut state = record();
    state.last_quess = Some(5);
    assert!(!state.is_wf());
    state.board[5] = Cell::RevealedSafe;
    assert!(state.is_wf());
    state.last_quess = Some(25);
    assert!(!state.is_wf());
}

#[test]
fn restart_deals_a_blank_board_to_the_winner() {
    let mut state = record();
    state.board[3] = Cell::RevealedMine;
    state.board[9] = Cell::RevealedSafe;
    state.game_over = true;
    state.winner = Some("alice".to_string());
    state.last_action_timestamp = None;
    state.last_quess = Some(3);
    state.restart(11, 4242);
    let mut expected = record();
    expected.mine_index = Some(11);
    expected.turn = Some("alice".to_string());
    expected.last_action_timestamp = Some(4242);
    assert_eq!(state, expected);
}

#[test]
fn seat_second_places_the_mine_and_starts_the_clock() {
    let mut state = record();
    state.player_b = None;
    state.turn = None;
    state.mine_index = None;
    state.last_action_timestamp = None;
    state.seat_second("bob".to_string(), 3, 1000);
    assert_eq!(state, record());
}

#[test]
fn cell_codes_round_trip() {
    assert_eq!(Cell::Unrevealed.code(), 0);
    assert_eq!(Cell::RevealedSafe.code(), 1);
    assert_eq!(Cell::RevealedMine.code(), 2);
    assert_eq!(Cell::from_code(0), Some(Cell::Unrevealed));
    assert_eq!(Cell::from_code(1), Some(Cell::RevealedSafe));
    assert_eq!(Cell::from_code(2), Some(Cell::RevealedMine));
    assert_eq!(Cell::from_code(3), None);
    assert_eq!(Cell::from_code(255), None);
}

#[test]
fn board_codes_round_trip() {
    let mut board = [Cell::Unrevealed; 25];
    board[1] = Cell::RevealedSafe;
    board[24] = Cell::RevealedMine;
    let codes = board_codes(&board);
    let mut expected = [0u8; 25];
    expected[1] = 1;
    expected[24] = 2;
    assert_eq!(codes, expected);
    assert_eq!(board_from_codes(&codes), Some(board));
    expected[12] = 3;
    assert_eq!(board_from_codes(&expected), None);
}

#[test]
fn identities_compare_by_their_characters() {
    let alice = "alice".to_string();
    assert!(holds(&Some("alice".to_string()), &alice));
    assert!(!holds(&Some("Alice".to_string()), &alice));
    assert!(!holds(&None, &alice));
    assert!(same_name(&None, &None));
    assert!(same_name(&Some("a".to_string()), &Some("a".to_string())));
    assert!(!same_name(&Some("a".to_string()), &None));
    assert!(!same_name(&Some("a".to_string()), &Some("b".to_string())));
}
