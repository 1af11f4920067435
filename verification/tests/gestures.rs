//! The press/move/release interpreter: clicks versus drags, previews, and
//! the one-shot click suppression after a handled drag.

use rshogi_core::game::SoundCue;
use rshogi_core::gesture::GestureSession;
use rshogi_core::types::{Color, PieceType, Square};

fn sq(file: u8, rank: u8) -> Square {
    Square::new(file, rank).expect("valid board coordinate")
}

#[test]
fn plain_click_flows_through_the_session() {
    let mut s = GestureSession::new();
    s.on_square_click(sq(6, 6));
    assert_eq!(s.game.selected(), Some(sq(6, 6)));
    s.on_square_click(sq(6, 5));
    assert_eq!(s.game.take_pending_sound(), Some(SoundCue::Move));
    assert_eq!(s.game.ply(), 2);
}

#[test]
fn press_alone_does_not_select() {
    let mut s = GestureSession::new();
    s.on_board_mouse_down(sq(6, 6));
    assert!(s.drag.is_some());
    assert_eq!(s.game.selected(), None);
}

#[test]
fn press_on_opponent_piece_arms_nothing() {
    let mut s = GestureSession::new();
    s.on_board_mouse_down(sq(2, 2));
    assert!(s.drag.is_none());
    s.on_board_mouse_down(sq(4, 4));
    assert!(s.drag.is_none());
}

#[test]
fn crossing_the_threshold_previews_the_origin() {
    let mut s = GestureSession::new();
    s.on_board_mouse_down(sq(6, 6));
    s.on_root_mouse_move(false);
    assert_eq!(s.game.selected(), None);
    s.on_root_mouse_move(true);
    assert_eq!(s.game.selected(), Some(sq(6, 6)));
    assert!(s.game.is_legal_destination(sq(6, 5)));
}

#[test]
fn drag_release_on_board_commits_once() {
    let mut s = GestureSession::new();
    s.on_board_mouse_down(sq(6, 6));
    s.on_root_mouse_move(true);
    s.on_board_mouse_up(sq(6, 5));
    assert_eq!(s.game.take_pending_sound(), Some(SoundCue::Move));
    assert_eq!(s.game.ply(), 2);
    assert!(s.drag.is_none());
    // The synthetic click of the same press/release pair is swallowed once.
    s.on_square_click(sq(6, 5));
    assert_eq!(s.game.selected(), None);
    assert_eq!(s.game.ply(), 2);
    // The next real click works again.
    s.on_square_click(sq(2, 2));
    assert_eq!(s.game.selected(), Some(sq(2, 2)));
}

#[test]
fn short_press_release_stays_a_click() {
    let mut s = GestureSession::new();
    s.on_board_mouse_down(sq(6, 6));
    s.on_root_mouse_move(false);
    s.on_board_mouse_up(sq(6, 6));
    // The press never became a drag, so nothing was committed and the click
    // that follows is handled normally.
    assert_eq!(s.game.ply(), 1);
    s.on_square_click(sq(6, 6));
    assert_eq!(s.game.selected(), Some(sq(6, 6)));
}

#[test]
fn drag_released_outside_clears_and_commits_nothing() {
    let mut s = GestureSession::new();
    s.on_board_mouse_down(sq(6, 6));
    s.on_root_mouse_move(true);
    assert_eq!(s.game.selected(), Some(sq(6, 6)));
    s.on_root_mouse_up();
    assert_eq!(s.game.selected(), None);
    assert_eq!(s.game.ply(), 1);
    assert_eq!(s.game.last_action_to(), None);
    assert_eq!(s.game.take_pending_sound(), None);
    assert!(s.drag.is_none());
}

#[test]
fn hand_press_needs_a_held_piece() {
    let mut s = GestureSession::new();
    s.on_hand_mouse_down(Color::Black, PieceType::Pawn);
    assert!(s.drag.is_none());
    s.on_hand_mouse_down(Color::White, PieceType::Pawn);
    assert!(s.drag.is_none());
}

#[test]
fn hand_drag_drops_through_the_session() {
    let mut s = GestureSession::new();
    // Open the diagonals, exchange bishops on 2b, recapture with the silver.
    s.on_square_click(sq(6, 6));
    s.on_square_click(sq(6, 5));
    s.on_square_click(sq(2, 2));
    s.on_square_click(sq(2, 3));
    s.on_square_click(sq(7, 7));
    s.on_square_click(sq(1, 1));
    s.on_choose_promotion(true);
    s.on_square_click(sq(2, 0));
    s.on_square_click(sq(1, 1));
    let _ = s.game.take_pending_sound();
    assert_eq!(s.game.hand_count(Color::Black, PieceType::Bishop), 1);

    s.on_hand_mouse_down(Color::Black, PieceType::Bishop);
    assert!(s.drag.is_some());
    s.on_root_mouse_move(true);
    assert_eq!(s.game.selected_hand_piece(), Some(PieceType::Bishop));
    s.on_board_mouse_up(sq(4, 4));
    assert_eq!(s.game.take_pending_sound(), Some(SoundCue::Move));
    assert_eq!(s.game.hand_count(Color::Black, PieceType::Bishop), 0);
    assert_eq!(s.game.last_action_to(), Some(sq(4, 4)));
    assert_eq!(s.game.last_action_from(), None);
}

#[test]
fn alternate_gesture_invalidates_the_drag() {
    let mut s = GestureSession::new();
    s.on_board_mouse_down(sq(6, 6));
    s.on_root_mouse_move(true);
    assert_eq!(s.game.selected(), Some(sq(6, 6)));
    s.on_draw_start();
    assert!(s.drag.is_none());
    assert_eq!(s.game.selected(), None);
    assert_eq!(s.game.ply(), 1);
}

#[test]
fn cancel_promotion_through_the_session() {
    let mut s = GestureSession::new();
    s.on_square_click(sq(6, 6));
    s.on_square_click(sq(6, 5));
    s.on_square_click(sq(2, 2));
    s.on_square_click(sq(2, 3));
    s.on_square_click(sq(7, 7));
    s.on_square_click(sq(1, 1));
    assert!(s.game.has_pending_promotion());
    s.on_cancel_promotion();
    assert!(!s.game.has_pending_promotion());
    assert_eq!(s.game.ply(), 3);
}

#[test]
fn consume_suppressed_click_reads_once() {
    let mut s = GestureSession::new();
    assert!(!s.consume_suppressed_click());
    s.on_board_mouse_down(sq(6, 6));
    s.on_root_mouse_move(true);
    s.on_root_mouse_up();
    assert!(s.consume_suppressed_click());
    assert!(!s.consume_suppressed_click());
}
