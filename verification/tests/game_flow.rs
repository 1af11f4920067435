//! End-to-end interaction flows from the standard starting position.

use rshogi_core::game::{GameState, SoundCue};
use rshogi_core::types::{Color, Move, PieceType, Square};

fn sq(file: u8, rank: u8) -> Square {
    Square::new(file, rank).expect("valid board coordinate")
}

#[test]
fn new_game_starts_clean() {
    let g = GameState::new();
    assert_eq!(g.status(), "");
    assert_eq!(g.side_to_move(), Color::Black);
    assert_eq!(g.ply(), 1);
    assert_eq!(g.selected(), None);
    assert_eq!(g.selected_hand_piece(), None);
    assert!(!g.has_pending_promotion());
    assert_eq!(g.last_action_from(), None);
    assert_eq!(g.last_action_to(), None);
    assert!(!g.is_drop_mode());
}

#[test]
fn start_position_pieces() {
    let g = GameState::new();
    let pawn = g.piece_at(sq(6, 6)).expect("black pawn on 7g");
    assert_eq!(pawn.piece_type, PieceType::Pawn);
    assert_eq!(pawn.color, Color::Black);
    let rook = g.piece_at(sq(1, 7)).expect("black rook on 2h");
    assert_eq!(rook.piece_type, PieceType::Rook);
    assert_eq!(rook.color, Color::Black);
    assert!(g.piece_at(sq(4, 4)).is_none());
    for kind in [PieceType::Pawn, PieceType::Rook, PieceType::Bishop, PieceType::Gold] {
        assert_eq!(g.hand_count(Color::Black, kind), 0);
        assert_eq!(g.hand_count(Color::White, kind), 0);
    }
}

#[test]
fn selecting_start_pawn_marks_one_square_forward() {
    let mut g = GameState::new();
    g.on_square_clicked(sq(6, 6));
    assert_eq!(g.selected(), Some(sq(6, 6)));
    assert_eq!(g.selected_hand_piece(), None);
    // A pawn from the start position has exactly one destination.
    assert!(g.is_legal_destination(sq(6, 5)));
    assert_eq!(g.legal_moves.len(), 1);
    assert_eq!(g.legal_destinations.len(), 1);
    for file in 0..9 {
        for rank in 0..9 {
            let here = sq(file, rank);
            assert_eq!(g.is_legal_destination(here), here == sq(6, 5));
        }
    }
}

#[test]
fn resolver_output_is_the_destination_projection() {
    let mut g = GameState::new();
    g.on_square_clicked(sq(6, 6));
    assert_eq!(
        g.legal_moves,
        vec![Move::Normal { from: sq(6, 6), to: sq(6, 5), promote: false }]
    );
    assert_eq!(g.legal_destinations, vec![sq(6, 5)]);
}

#[test]
fn rook_from_start_has_six_destinations() {
    let mut g = GameState::new();
    // The rook on 2h slides along its rank; everything else is blocked.
    g.on_square_clicked(sq(1, 7));
    assert_eq!(g.selected(), Some(sq(1, 7)));
    assert_eq!(g.legal_moves.len(), 6);
    assert_eq!(g.legal_destinations.len(), 6);
    assert!(g.is_legal_destination(sq(0, 7)));
    for file in 2..7 {
        assert!(g.is_legal_destination(sq(file, 7)));
    }
    assert!(!g.is_legal_destination(sq(1, 6)));
    assert!(!g.is_legal_destination(sq(1, 8)));
}

#[test]
fn clicking_selected_square_toggles_off() {
    let mut g = GameState::new();
    g.on_square_clicked(sq(6, 6));
    assert_eq!(g.selected(), Some(sq(6, 6)));
    g.on_square_clicked(sq(6, 6));
    assert_eq!(g.selected(), None);
    assert_eq!(g.legal_destinations.len(), 0);
}

#[test]
fn clicking_opponent_piece_clears_selection() {
    let mut g = GameState::new();
    g.on_square_clicked(sq(6, 6));
    assert_eq!(g.selected(), Some(sq(6, 6)));
    // 3c holds a white pawn.
    g.on_square_clicked(sq(2, 2));
    assert_eq!(g.selected(), None);
}

#[test]
fn pawn_push_commits_with_move_cue() {
    let mut g = GameState::new();
    g.on_square_clicked(sq(6, 6));
    g.on_square_clicked(sq(6, 5));
    assert_eq!(g.take_pending_sound(), Some(SoundCue::Move));
    assert_eq!(g.take_pending_sound(), None);
    assert_eq!(g.status(), "");
    assert_eq!(g.last_action_from(), Some(sq(6, 6)));
    assert_eq!(g.last_action_to(), Some(sq(6, 5)));
    assert_eq!(g.selected(), None);
    assert_eq!(g.side_to_move(), Color::White);
    assert_eq!(g.ply(), 2);
    assert!(g.piece_at(sq(6, 6)).is_none());
    let moved = g.piece_at(sq(6, 5)).expect("pawn arrived on 7f");
    assert_eq!(moved.piece_type, PieceType::Pawn);
    assert_eq!(moved.color, Color::Black);
}

#[test]
fn selecting_empty_hand_clears_selection() {
    let mut g = GameState::new();
    g.select_hand_piece(PieceType::Pawn);
    assert_eq!(g.selected_hand_piece(), None);
    assert!(!g.is_drop_mode());
}

/// Opens the bishop diagonals and has Black capture on 2b, which offers the
/// promotion choice: 7g7f, 3c3d, then Bx2b.
fn play_until_promotion_choice() -> GameState {
    let mut g = GameState::new();
    g.on_square_clicked(sq(6, 6));
    g.on_square_clicked(sq(6, 5));
    g.on_square_clicked(sq(2, 2));
    g.on_square_clicked(sq(2, 3));
    assert_eq!(g.side_to_move(), Color::Black);
    let _ = g.take_pending_sound();
    g.on_square_clicked(sq(7, 7));
    assert_eq!(g.selected(), Some(sq(7, 7)));
    assert!(g.is_legal_destination(sq(1, 1)));
    g.on_square_clicked(sq(1, 1));
    g
}

#[test]
fn capture_into_zone_offers_promotion_choice() {
    let mut g = play_until_promotion_choice();
    assert!(g.has_pending_promotion());
    assert_eq!(g.pending_promotion_target_square(), Some(sq(1, 1)));
    let pending_piece = g.pending_promotion_piece().expect("bishop awaiting the choice");
    assert_eq!(pending_piece.piece_type, PieceType::Bishop);
    assert_eq!(pending_piece.color, Color::Black);
    // Nothing was committed: the board and the markers are untouched.
    assert_eq!(g.ply(), 3);
    assert_eq!(g.last_action_from(), Some(sq(2, 2)));
    assert_eq!(g.last_action_to(), Some(sq(2, 3)));
    assert_eq!(g.take_pending_sound(), None);
    assert_eq!(g.piece_at(sq(7, 7)).unwrap().piece_type, PieceType::Bishop);
    assert_eq!(g.piece_at(sq(1, 1)).unwrap().color, Color::White);
}

#[test]
fn selection_is_locked_while_promotion_pends() {
    let mut g = play_until_promotion_choice();
    g.on_square_clicked(sq(6, 5));
    assert_eq!(g.selected(), None);
    assert!(g.has_pending_promotion());
    g.select_hand_piece(PieceType::Pawn);
    assert_eq!(g.selected_hand_piece(), None);
    assert!(g.has_pending_promotion());
    assert_eq!(g.ply(), 3);
}

#[test]
fn cancel_promotion_commits_nothing() {
    let mut g = play_until_promotion_choice();
    g.cancel_promotion();
    assert!(!g.has_pending_promotion());
    assert_eq!(g.selected(), None);
    assert_eq!(g.ply(), 3);
    assert_eq!(g.take_pending_sound(), None);
    // The bishop never moved and nothing was captured.
    assert_eq!(g.piece_at(sq(7, 7)).unwrap().piece_type, PieceType::Bishop);
    assert_eq!(g.piece_at(sq(1, 1)).unwrap().color, Color::White);
    assert_eq!(g.hand_count(Color::Black, PieceType::Bishop), 0);
}

#[test]
fn choosing_promotion_commits_the_capture() {
    let mut g = play_until_promotion_choice();
    g.choose_promotion(true);
    assert!(!g.has_pending_promotion());
    assert_eq!(g.take_pending_sound(), Some(SoundCue::Capture));
    assert_eq!(g.status(), "");
    assert_eq!(g.last_action_from(), Some(sq(7, 7)));
    assert_eq!(g.last_action_to(), Some(sq(1, 1)));
    assert_eq!(g.hand_count(Color::Black, PieceType::Bishop), 1);
    let arrived = g.piece_at(sq(1, 1)).expect("promoted bishop on 2b");
    assert_eq!(arrived.piece_type, PieceType::ProBishop);
    assert_eq!(arrived.color, Color::Black);
    assert_eq!(g.side_to_move(), Color::White);
    assert_eq!(g.ply(), 4);
}

#[test]
fn declining_promotion_keeps_the_bishop_plain() {
    let mut g = play_until_promotion_choice();
    g.choose_promotion(false);
    assert_eq!(g.take_pending_sound(), Some(SoundCue::Capture));
    let arrived = g.piece_at(sq(1, 1)).expect("bishop on 2b");
    assert_eq!(arrived.piece_type, PieceType::Bishop);
    assert_eq!(arrived.color, Color::Black);
    assert_eq!(g.hand_count(Color::Black, PieceType::Bishop), 1);
}

/// Continues past the bishop exchange until Black holds a bishop in hand and
/// it is Black's turn: ... Sx2b follows, then Black plays 9g9f and White
/// answers 9c9d to pass the turn back.  Returns the game after the exchange.
fn play_until_black_holds_a_bishop() -> GameState {
    let mut g = play_until_promotion_choice();
    g.choose_promotion(true);
    let _ = g.take_pending_sound();
    // White recaptures with the silver from 3a.
    g.on_square_clicked(sq(2, 0));
    g.on_square_clicked(sq(1, 1));
    assert_eq!(g.take_pending_sound(), Some(SoundCue::Capture));
    assert_eq!(g.side_to_move(), Color::Black);
    assert_eq!(g.hand_count(Color::Black, PieceType::Bishop), 1);
    assert_eq!(g.hand_count(Color::White, PieceType::Bishop), 1);
    g
}

#[test]
fn hand_piece_click_toggles_selection() {
    let mut g = play_until_black_holds_a_bishop();
    g.select_hand_piece(PieceType::Bishop);
    assert_eq!(g.selected_hand_piece(), Some(PieceType::Bishop));
    assert!(g.is_drop_mode());
    assert!(g.is_legal_destination(sq(4, 4)));
    g.select_hand_piece(PieceType::Bishop);
    assert_eq!(g.selected_hand_piece(), None);
    assert!(!g.is_drop_mode());
    assert_eq!(g.legal_destinations.len(), 0);
}

#[test]
fn dropping_a_bishop_decrements_the_hand() {
    let mut g = play_until_black_holds_a_bishop();
    g.select_hand_piece(PieceType::Bishop);
    g.on_square_clicked(sq(4, 4));
    assert_eq!(g.take_pending_sound(), Some(SoundCue::Move));
    assert_eq!(g.status(), "");
    assert_eq!(g.hand_count(Color::Black, PieceType::Bishop), 0);
    assert_eq!(g.last_action_from(), None);
    assert_eq!(g.last_action_to(), Some(sq(4, 4)));
    let dropped = g.piece_at(sq(4, 4)).expect("bishop dropped on 5e");
    assert_eq!(dropped.piece_type, PieceType::Bishop);
    assert_eq!(dropped.color, Color::Black);
    assert_eq!(g.side_to_move(), Color::White);
}

#[test]
fn board_drag_commits_like_clicks() {
    let mut g = GameState::new();
    g.perform_board_drag(sq(6, 6), sq(6, 5));
    assert_eq!(g.take_pending_sound(), Some(SoundCue::Move));
    assert_eq!(g.last_action_from(), Some(sq(6, 6)));
    assert_eq!(g.last_action_to(), Some(sq(6, 5)));
    assert_eq!(g.ply(), 2);
}

#[test]
fn board_drag_in_place_clears() {
    let mut g = GameState::new();
    g.perform_board_drag(sq(6, 6), sq(6, 6));
    assert_eq!(g.selected(), None);
    assert_eq!(g.ply(), 1);
    assert_eq!(g.take_pending_sound(), None);
}

#[test]
fn board_drag_to_illegal_square_clears() {
    let mut g = GameState::new();
    g.perform_board_drag(sq(6, 6), sq(0, 0));
    assert_eq!(g.selected(), None);
    assert_eq!(g.ply(), 1);
    assert_eq!(g.take_pending_sound(), None);
}

#[test]
fn hand_drag_drops_directly() {
    let mut g = play_until_black_holds_a_bishop();
    g.perform_hand_drag(PieceType::Bishop, sq(4, 4));
    assert_eq!(g.take_pending_sound(), Some(SoundCue::Move));
    assert_eq!(g.hand_count(Color::Black, PieceType::Bishop), 0);
    assert_eq!(g.last_action_from(), None);
    assert_eq!(g.last_action_to(), Some(sq(4, 4)));
}

#[test]
fn hand_drag_without_piece_clears() {
    let mut g = GameState::new();
    g.perform_hand_drag(PieceType::Rook, sq(4, 4));
    assert_eq!(g.selected_hand_piece(), None);
    assert_eq!(g.ply(), 1);
    assert_eq!(g.take_pending_sound(), None);
}

#[test]
fn drag_into_zone_offers_promotion_choice() {
    let mut g = GameState::new();
    g.on_square_clicked(sq(6, 6));
    g.on_square_clicked(sq(6, 5));
    g.on_square_clicked(sq(2, 2));
    g.on_square_clicked(sq(2, 3));
    g.perform_board_drag(sq(7, 7), sq(1, 1));
    assert!(g.has_pending_promotion());
    assert_eq!(g.pending_promotion_target_square(), Some(sq(1, 1)));
    assert_eq!(g.ply(), 3);
}

#[test]
fn preview_arms_the_origin() {
    let mut g = GameState::new();
    g.preview_board_drag_from(sq(6, 6));
    assert_eq!(g.selected(), Some(sq(6, 6)));
    assert!(g.is_legal_destination(sq(6, 5)));
    g.clear_active_selection();
    assert_eq!(g.selected(), None);
}
