use netgame::game::{greeting, player_symbol, result_message, GameState, Lobby, TurnOutcome, TurnStep};

const O: &str = "\u{1F17E}\u{FE0F}";
const X: &str = "\u{274E}";

#[test]
fn new_game_shows_cell_numbers() {
    let g = GameState::new();
    assert_eq!(g.current_player(), 1);
    assert!(!g.is_over());
    assert_eq!(
        g.display_board(),
        "\n---------------\n 0 | 1 | 2\n___-___-___\n 3 | 4 | 5\n___-___-___\n 6 | 7 | 8\n---------------"
    );
    assert_eq!(g.winner_chacking(), None);
}

#[test]
fn board_num_display_shows_index_or_mark() {
    let mut g = GameState::new();
    assert_eq!(g.board_num_display(4), "4");
    g.make_move(4, "X").unwrap();
    assert_eq!(g.board_num_display(4), "X");
    assert_eq!(g.board_num_display(8), "8");
}

#[test]
fn make_move_rejects_taken_and_off_board_cells() {
    let mut g = GameState::new();
    assert!(g.make_move(0, "X").is_ok());
    let msg = "Invalid move. position is already occupied or it's not there";
    assert_eq!(g.make_move(0, "O"), Err(msg.to_string()));
    assert_eq!(g.make_move(9, "O"), Err(msg.to_string()));
    assert_eq!(g.make_move(usize::MAX, "O"), Err(msg.to_string()));
    assert_eq!(g.board_num_display(0), "X");
}

#[test]
fn rows_columns_and_diagonals_win() {
    let lines = [[0, 1, 2], [3, 4, 5], [6, 7, 8], [0, 3, 6], [1, 4, 7], [2, 5, 8], [0, 4, 8], [2, 4, 6]];
    for line in lines {
        let mut g = GameState::new();
        for p in line {
            g.make_move(p, "X").unwrap();
        }
        assert_eq!(g.winner_chacking(), Some("X".to_string()));
    }
}

#[test]
fn first_line_in_order_wins() {
    let mut g = GameState::new();
    for p in [0, 3, 6] {
        g.make_move(p, "B").unwrap();
    }
    for p in [1, 2] {
        g.make_move(p, "A").unwrap();
    }
    // no row complete, column 0 is
    assert_eq!(g.winner_chacking(), Some("B".to_string()));
}

#[test]
fn full_board_without_line_is_a_draw() {
    let mut g = GameState::new();
    let marks = ["X", "O", "X", "X", "O", "O", "O", "X", "X"];
    for (i, m) in marks.iter().enumerate() {
        g.make_move(i, m).unwrap();
    }
    assert_eq!(g.winner_chacking(), Some("Draw".to_string()));
}

#[test]
fn placing_an_empty_mark_leaves_the_cell_empty() {
    let mut g = GameState::new();
    g.make_move(2, " ").unwrap();
    assert_eq!(g.board_num_display(2), "2");
}

#[test]
fn next_step_follows_turn_and_end() {
    let mut g = GameState::new();
    assert!(matches!(g.next_step(1), TurnStep::Play));
    assert!(matches!(g.next_step(2), TurnStep::Wait));
    assert!(matches!(g.take_turn(1, "4\n"), TurnOutcome::Moved));
    assert!(matches!(g.next_step(1), TurnStep::Wait));
    assert!(matches!(g.next_step(2), TurnStep::Play));
}

#[test]
fn take_turn_handles_bad_input_and_taken_cells() {
    let mut g = GameState::new();
    let t = g.take_turn(1, "four\n");
    assert!(matches!(t, TurnOutcome::InvalidInput));
    assert_eq!(t.reply(), Some("Invalid input. Try again.\n".to_string()));
    assert_eq!(g.current_player(), 1);
    assert!(matches!(g.take_turn(1, " 4 \n"), TurnOutcome::Moved));
    let t = g.take_turn(2, "4\n");
    assert!(matches!(t, TurnOutcome::Rejected));
    assert_eq!(t.reply(), Some("Game IS Finish\n".to_string()));
    assert_eq!(g.current_player(), 2);
    let t = g.take_turn(2, "12\n");
    assert!(matches!(t, TurnOutcome::Rejected));
    assert_eq!(g.board_num_display(4), O);
}

#[test]
fn a_winning_move_ends_the_game() {
    let mut g = GameState::new();
    for (player, pos) in [(1, "0"), (2, "3"), (1, "1"), (2, "4")] {
        assert!(matches!(g.take_turn(player, pos), TurnOutcome::Moved));
    }
    let t = g.take_turn(1, "2\n");
    match &t {
        TurnOutcome::GameOver { message } => assert_eq!(message, &format!("Game Over! Winner: {}", O)),
        _ => panic!("expected the game to end"),
    }
    assert_eq!(t.reply(), Some(format!("Game Over! Winner: {}\nGame Finish\n", O)));
    assert!(g.is_over());
    assert!(matches!(g.next_step(1), TurnStep::Finished));
    assert!(matches!(g.next_step(2), TurnStep::Finished));
}

#[test]
fn a_full_board_ends_in_a_draw() {
    let mut g = GameState::new();
    let moves = [(1, 0), (2, 1), (1, 2), (2, 4), (1, 3), (2, 5), (1, 7), (2, 6)];
    for (player, pos) in moves {
        assert!(matches!(g.take_turn(player, &pos.to_string()), TurnOutcome::Moved));
    }
    let t = g.take_turn(1, "8");
    match &t {
        TurnOutcome::GameOver { message } => assert_eq!(message, "Game Over! It's a Draw \u{1F91D}"),
        _ => panic!("expected a draw"),
    }
    assert!(g.is_over());
}

#[test]
fn moved_has_no_reply() {
    let mut g = GameState::new();
    let t = g.take_turn(1, "0");
    assert_eq!(t.reply(), None);
}

#[test]
fn prompt_shows_board_then_request() {
    let g = GameState::new();
    assert_eq!(
        g.turn_prompt(),
        format!("Current Board: {}\nMake Move From (0-8): \n", g.display_board())
    );
}

#[test]
fn symbols_and_greetings() {
    assert_eq!(player_symbol(1), O);
    assert_eq!(player_symbol(2), X);
    assert_eq!(greeting(1), format!("You are Player 1 ({})\n", O));
    assert_eq!(greeting(2), format!("You are Player 2 ({})\n", X));
}

#[test]
fn result_messages() {
    assert_eq!(result_message(&"Draw".to_string()), "Game Over! It's a Draw \u{1F91D}");
    assert_eq!(result_message(&X.to_string()), format!("Game Over! Winner: {}", X));
}

#[test]
fn lobby_takes_two_players() {
    let mut l = Lobby::new();
    assert_eq!(l.accept_player(), Some(1));
    assert_eq!(l.accept_player(), Some(2));
    assert_eq!(l.accept_player(), None);
    assert_eq!(l.accept_player(), None);
}
