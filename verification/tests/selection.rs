use chess_gui::board::PAWN;
use chess_gui::board::ROOK;
use chess_gui::selection::to_tuple_moves;
use chess_gui::selection::Adapter;
use chess_gui::selection::EngineCommand;
use chess_gui::selection::Selection;

// one white pawn on E2 (column 6, row 4), one black rook on A8 (column 0, row 0)
const SMALL: &str = "r*******\n********\n********\n********\n********\n********\n****P***\n********\n";

fn adapter_with_small_board() -> Adapter {
    let mut a = Adapter::new();
    a.load_board(SMALL);
    a
}

#[test]
fn click_on_empty_square_stays_idle() {
    let mut a = adapter_with_small_board();
    let cmd = a.handle_click(4, 4, true);
    assert!(cmd.is_none());
    assert!(matches!(a.selection, Selection::Idle));
    assert!(!a.is_highlighted(4, 4));
}

#[test]
fn click_on_opponent_piece_stays_idle() {
    let mut a = adapter_with_small_board();
    // white to move, black rook at (0, 0)
    let cmd = a.handle_click(0, 0, true);
    assert!(cmd.is_none());
    assert!(matches!(a.selection, Selection::Idle));
}

#[test]
fn click_on_own_piece_queries_its_square() {
    let mut a = adapter_with_small_board();
    let cmd = a.handle_click(6, 4, true);
    match cmd {
        Some(EngineCommand::QueryMoves { piece, from }) => {
            assert_eq!(from, "E2");
            assert_eq!(piece.role, PAWN);
            assert!(piece.is_white);
            assert_eq!(piece.position, (6, 4));
        }
        other => panic!("expected a query command, got {:?}", other),
    }
    // the selection waits for the engine's reply
    assert!(matches!(a.selection, Selection::Idle));
}

#[test]
fn black_piece_selectable_on_black_turn() {
    let mut a = adapter_with_small_board();
    let cmd = a.handle_click(0, 0, false);
    match cmd {
        Some(EngineCommand::QueryMoves { piece, from }) => {
            assert_eq!(from, "A8");
            assert_eq!(piece.role, ROOK);
            assert!(!piece.is_white);
        }
        other => panic!("expected a query command, got {:?}", other),
    }
}

#[test]
fn reply_populates_highlights_one_to_one() {
    let mut a = adapter_with_small_board();
    let cmd = a.handle_click(6, 4, true);
    let piece = match cmd {
        Some(EngineCommand::QueryMoves { piece, .. }) => piece,
        other => panic!("expected a query command, got {:?}", other),
    };
    a.apply_moves(piece, Some(vec![String::from("E3"), String::from("E4")]));
    match &a.selection {
        Selection::Selected { piece, targets } => {
            assert_eq!(piece.position, (6, 4));
            // E3 is (column 5, row 4); E4 is (column 4, row 4)
            assert_eq!(targets, &vec![(5, 4), (4, 4)]);
        }
        Selection::Idle => panic!("expected a selection"),
    }
    assert!(a.is_highlighted(5, 4));
    assert!(a.is_highlighted(4, 4));
    assert!(!a.is_highlighted(3, 4));
}

#[test]
fn empty_reply_resolves_to_idle() {
    let mut a = adapter_with_small_board();
    let cmd = a.handle_click(6, 4, true);
    let piece = match cmd {
        Some(EngineCommand::QueryMoves { piece, .. }) => piece,
        other => panic!("expected a query command, got {:?}", other),
    };
    a.apply_moves(piece, Some(Vec::new()));
    assert!(matches!(a.selection, Selection::Idle));
    let cmd = a.handle_click(6, 4, true);
    let piece = match cmd {
        Some(EngineCommand::QueryMoves { piece, .. }) => piece,
        other => panic!("expected a query command, got {:?}", other),
    };
    a.apply_moves(piece, None);
    assert!(matches!(a.selection, Selection::Idle));
}

#[test]
fn confirming_a_highlight_issues_one_move_and_resets() {
    let mut a = adapter_with_small_board();
    let cmd = a.handle_click(6, 4, true);
    let piece = match cmd {
        Some(EngineCommand::QueryMoves { piece, .. }) => piece,
        other => panic!("expected a query command, got {:?}", other),
    };
    a.apply_moves(piece, Some(vec![String::from("E3"), String::from("E4")]));
    // confirm the move to E4, i.e. (column 4, row 4)
    let cmd = a.handle_click(4, 4, true);
    match cmd {
        Some(EngineCommand::MakeMove { from, to }) => {
            assert_eq!(from, "E2");
            assert_eq!(to, "E4");
        }
        other => panic!("expected a move command, got {:?}", other),
    }
    assert!(matches!(a.selection, Selection::Idle));
    assert!(!a.is_highlighted(4, 4));
    assert!(!a.is_highlighted(5, 4));
}

#[test]
fn click_off_highlights_clears_selection() {
    let mut a = adapter_with_small_board();
    let cmd = a.handle_click(6, 4, true);
    let piece = match cmd {
        Some(EngineCommand::QueryMoves { piece, .. }) => piece,
        other => panic!("expected a query command, got {:?}", other),
    };
    a.apply_moves(piece, Some(vec![String::from("E3")]));
    // (3, 3) is neither highlighted nor occupied: back to idle, no command
    let cmd = a.handle_click(3, 3, true);
    assert!(cmd.is_none());
    assert!(matches!(a.selection, Selection::Idle));
    assert!(!a.is_highlighted(5, 4));
}

#[test]
fn load_board_keeps_selection() {
    let mut a = adapter_with_small_board();
    let cmd = a.handle_click(6, 4, true);
    let piece = match cmd {
        Some(EngineCommand::QueryMoves { piece, .. }) => piece,
        other => panic!("expected a query command, got {:?}", other),
    };
    a.apply_moves(piece, Some(vec![String::from("E3")]));
    a.load_board(SMALL);
    assert!(a.is_highlighted(5, 4));
    assert!(matches!(a.selection, Selection::Selected { .. }));
}

#[test]
fn tuple_moves_convert_in_order() {
    let moves = vec![String::from("A8"), String::from("H1"), String::from("D5")];
    assert_eq!(to_tuple_moves(&moves), vec![(0, 0), (7, 7), (3, 3)]);
}

#[test]
fn tuple_moves_drop_unparsable_entries() {
    let moves = vec![String::from("A8"), String::from("Z9"), String::from("H1")];
    assert_eq!(to_tuple_moves(&moves), vec![(0, 0), (7, 7)]);
}
