//! Discrete UI actions and the reducer that applies them to a game.

use vstd::prelude::*;

use crate::game::{choose_post, click_post, hand_select_post, GameState, PendingPromotion};
use crate::types::{PieceType, Square};

verus! {

/// A discrete input action produced by the UI layer.
#[derive(Clone, Copy, Debug, PartialEq, Eq, Structural)]
pub enum Action {
    ClickSquare(Square),
    SelectHandPiece(PieceType),
    ChoosePromotion(bool),
    CancelPromotion,
}

impl Action {
    /// Any square carried by the action lies on the board.
    pub open spec fn wf(self) -> bool {
        match self {
            Action::ClickSquare(sq) => sq.wf(),
            _ => true,
        }
    }
}

/// What applying `action` to a game leaves behind: exactly the contract of
/// the operation the action stands for.
pub open spec fn reduce_post(pre: GameState, post: GameState, action: Action) -> bool {
    match action {
        Action::ClickSquare(sq) => click_post(pre, post, sq),
        Action::SelectHandPiece(k) => hand_select_post(pre, post, k),
        Action::ChoosePromotion(promote) => choose_post(pre, post, promote),
        Action::CancelPromotion => post == (GameState {
            pending_promotion: None::<PendingPromotion>,
            ..pre
        }),
    }
}

/// Applies one discrete action to the game.
pub fn reduce_game(game: &mut GameState, action: Action)
    requires
        old(game).wf(),
        action.wf(),
    ensures
        final(game).wf(),
        reduce_post(*old(game), *final(game), action),
{
    match action {
        Action::ClickSquare(sq) => game.on_square_clicked(sq),
        Action::SelectHandPiece(piece_type) => game.select_hand_piece(piece_type),
        Action::ChoosePromotion(promote) => game.choose_promotion(promote),
        Action::CancelPromotion => game.cancel_promotion(),
    }
}

} // verus!
