//! The gesture state machine: one press/move/release interpreter shared by
//! both front-end input surfaces.
//!
//! The caller resolves pixels: it reports whether the pointer displacement
//! crossed the drag threshold and which square (if any) lies under a release.
//! This module owns everything else — arming, previewing, committing, and the
//! one-shot suppression of the synthetic click that follows a drag, so a
//! single gesture is never handled twice.

use vstd::prelude::*;

use crate::game::{
    board_drag_post, choose_post, click_post, hand_drag_post, hand_select_post,
    preview_board_post, selection_cleared, GameState, PendingPromotion,
};
use crate::oracle::{board_of, hands_of, side_of};
use crate::types::{Color, Piece, PieceType, Square};

verus! {

/// What a drag gesture started from: a board square with its piece, or a
/// hand bucket.
#[derive(Clone, Copy, Debug, PartialEq, Eq, Structural)]
pub enum DragSource {
    Board { from: Square, piece: Piece },
    Hand { piece_type: PieceType, color: Color },
}

/// A press that may become a drag: its origin and whether the pointer has
/// crossed the drag threshold since the press.
#[derive(Clone, Copy, Debug, PartialEq, Eq, Structural)]
pub struct DragState {
    pub source: DragSource,
    pub started: bool,
}

/// The origin square of a board drag lies on the board.
pub open spec fn drag_wf(d: DragState) -> bool {
    match d.source {
        DragSource::Board { from, piece: _ } => from.wf(),
        DragSource::Hand { piece_type: _, color: _ } => true,
    }
}

/// One game together with the transient gesture state of its input surfaces.
pub struct GestureSession {
    /// The game the gestures drive.
    pub game: GameState,
    /// The press that may still become, or already is, a drag.
    pub drag: Option<DragState>,
    /// Consume-on-read flag: the next synthetic click belongs to a drag that
    /// was already handled and must be ignored once.
    pub suppress_next_click: bool,
}

impl GestureSession {
    pub open spec fn wf(self) -> bool {
        &&& self.game.wf()
        &&& self.drag matches Some(d) ==> drag_wf(d)
    }

    /// A fresh session around a fresh game.
    pub fn new() -> (r: GestureSession)
        ensures
            r.wf(),
            r.drag is None,
            !r.suppress_next_click,
            r.game.pending_promotion is None,
            r.game.selected is None,
            r.game.selected_hand is None,
    {
        GestureSession { game: GameState::new(), drag: None, suppress_next_click: false }
    }

    /// Press on board square `sq`: arms a drag candidate when the square
    /// holds a piece of the side to move and no promotion is pending; the
    /// selection itself is not yet touched.
    pub fn on_board_mouse_down(&mut self, sq: Square)
        requires
            old(self).wf(),
            sq.wf(),
        ensures
            final(self).wf(),
            final(self).game == old(self).game,
            final(self).suppress_next_click == old(self).suppress_next_click,
            ({
                let pc = board_of(old(self).game.pos)[sq.spec_index()];
                if old(self).game.pending_promotion is None && (pc matches Some(piece)
                    && piece.color == side_of(old(self).game.pos)) {
                    final(self).drag == Some(
                        DragState {
                            source: DragSource::Board { from: sq, piece: pc->0 },
                            started: false,
                        },
                    )
                } else {
                    final(self).drag == old(self).drag
                }
            }),
    {
        if self.game.has_pending_promotion() {
            return ;
        }
        let piece = match self.game.piece_at(sq) {
            Some(piece) => piece,
            None => {
                return ;
            },
        };
        if piece.color != self.game.side_to_move() {
            return ;
        }
        self.drag = Some(
            DragState { source: DragSource::Board { from: sq, piece }, started: false },
        );
    }

    /// Press on the hand bucket of `piece_type` owned by `color`: arms a
    /// drag candidate when that side is to move and holds such a piece.
    pub fn on_hand_mouse_down(&mut self, color: Color, piece_type: PieceType)
        requires
            old(self).wf(),
        ensures
            final(self).wf(),
            final(self).game == old(self).game,
            final(self).suppress_next_click == old(self).suppress_next_click,
            ({
                let held = hands_of(old(self).game.pos)[Piece { piece_type, color }];
                if old(self).game.pending_promotion is None && color == side_of(
                    old(self).game.pos,
                ) && held != 0 {
                    final(self).drag == Some(
                        DragState { source: DragSource::Hand { piece_type, color }, started: false },
                    )
                } else {
                    final(self).drag == old(self).drag
                }
            }),
    {
        if self.game.has_pending_promotion() {
            return ;
        }
        let side = self.game.side_to_move();
        if color != side || self.game.hand_count(color, piece_type) == 0 {
            return ;
        }
        self.drag = Some(DragState { source: DragSource::Hand { piece_type, color }, started: false });
    }

    /// Pointer movement; `crossed_threshold` reports whether the cumulative
    /// displacement since the press exceeds the drag threshold.  The first
    /// crossing turns the candidate into a started drag and previews the
    /// origin's destinations.
    pub fn on_root_mouse_move(&mut self, crossed_threshold: bool)
        requires
            old(self).wf(),
        ensures
            final(self).wf(),
            final(self).suppress_next_click == old(self).suppress_next_click,
            ({
                if old(self).drag is Some && !old(self).drag->0.started && crossed_threshold {
                    let d = old(self).drag->0;
                    &&& final(self).drag == Some(DragState { source: d.source, started: true })
                    &&& match d.source {
                        DragSource::Board { from, piece: _ } => preview_board_post(
                            old(self).game,
                            final(self).game,
                            from,
                        ),
                        DragSource::Hand { piece_type, color: _ } => hand_select_post(
                            old(self).game,
                            final(self).game,
                            piece_type,
                        ),
                    }
                } else {
                    final(self).drag == old(self).drag && final(self).game == old(self).game
                }
            }),
    {
        let drag = match self.drag {
            Some(d) => d,
            None => {
                return ;
            },
        };
        if !drag.started && crossed_threshold {
            match drag.source {
                DragSource::Board { from, piece: _ } => self.game.preview_board_drag_from(from),
                DragSource::Hand { piece_type, color: _ } => self.game.preview_hand_drag_from(
                    piece_type,
                ),
            }
            self.drag = Some(DragState { source: drag.source, started: true });
        }
    }

    /// Release over board square `sq`.  A started drag commits against `sq`
    /// and suppresses the synthetic click that follows; a press that never
    /// crossed the threshold stays armed for the click event.
    pub fn on_board_mouse_up(&mut self, sq: Square)
        requires
            old(self).wf(),
            sq.wf(),
        ensures
            final(self).wf(),
            ({
                if old(self).drag is Some && old(self).drag->0.started {
                    let d = old(self).drag->0;
                    &&& final(self).drag is None
                    &&& final(self).suppress_next_click
                    &&& match d.source {
                        DragSource::Board { from, piece: _ } => board_drag_post(
                            old(self).game,
                            final(self).game,
                            from,
                            sq,
                        ),
                        DragSource::Hand { piece_type, color: _ } => hand_drag_post(
                            old(self).game,
                            final(self).game,
                            piece_type,
                            sq,
                        ),
                    }
                } else {
                    *final(self) == *old(self)
                }
            }),
    {
        let drag = match self.drag.take() {
            Some(d) => d,
            None => {
                return ;
            },
        };
        if !drag.started {
            self.drag = Some(drag);
            return ;
        }
        match drag.source {
            DragSource::Board { from, piece: _ } => self.game.perform_board_drag(from, sq),
            DragSource::Hand { piece_type, color: _ } => self.game.perform_hand_drag(
                piece_type,
                sq,
            ),
        }
        self.suppress_next_click = true;
    }

    /// Release outside the board.  A started drag clears the selection and
    /// commits nothing; either way the drag is over.
    pub fn on_root_mouse_up(&mut self)
        requires
            old(self).wf(),
        ensures
            final(self).wf(),
            final(self).drag is None,
            ({
                if old(self).drag matches Some(d) && d.started {
                    selection_cleared(old(self).game, final(self).game)
                        && final(self).suppress_next_click
                } else {
                    final(self).game == old(self).game && final(self).suppress_next_click == old(
                        self,
                    ).suppress_next_click
                }
            }),
    {
        let drag = match self.drag.take() {
            Some(d) => d,
            None => {
                return ;
            },
        };
        if drag.started {
            self.game.clear_active_selection();
            self.suppress_next_click = true;
        }
    }

    /// Discrete click on board square `sq`; ignored exactly once after a
    /// handled drag.
    pub fn on_square_click(&mut self, sq: Square)
        requires
            old(self).wf(),
            sq.wf(),
        ensures
            final(self).wf(),
            final(self).drag == old(self).drag,
            !final(self).suppress_next_click,
            old(self).suppress_next_click ==> final(self).game == old(self).game,
            !old(self).suppress_next_click ==> click_post(old(self).game, final(self).game, sq),
    {
        if self.consume_suppressed_click() {
            return ;
        }
        self.game.on_square_clicked(sq);
    }

    /// Discrete click on the hand bucket of `piece_type`; ignored exactly
    /// once after a handled drag.
    pub fn on_hand_piece_click(&mut self, piece_type: PieceType)
        requires
            old(self).wf(),
        ensures
            final(self).wf(),
            final(self).drag == old(self).drag,
            !final(self).suppress_next_click,
            old(self).suppress_next_click ==> final(self).game == old(self).game,
            !old(self).suppress_next_click ==> hand_select_post(
                old(self).game,
                final(self).game,
                piece_type,
            ),
    {
        if self.consume_suppressed_click() {
            return ;
        }
        self.game.select_hand_piece(piece_type);
    }

    /// The user's promotion decision.
    pub fn on_choose_promotion(&mut self, promote: bool)
        requires
            old(self).wf(),
        ensures
            final(self).wf(),
            final(self).drag == old(self).drag,
            final(self).suppress_next_click == old(self).suppress_next_click,
            choose_post(old(self).game, final(self).game, promote),
    {
        self.game.choose_promotion(promote);
    }

    /// The user dismissed the promotion dialog.
    pub fn on_cancel_promotion(&mut self)
        requires
            old(self).wf(),
        ensures
            final(self).wf(),
            final(self).drag == old(self).drag,
            final(self).suppress_next_click == old(self).suppress_next_click,
            final(self).game == (GameState {
                pending_promotion: None::<PendingPromotion>,
                ..old(self).game
            }),
    {
        self.game.cancel_promotion();
    }

    /// An alternate gesture (such as a right-button annotation) begins:
    /// unless a promotion is pending, any drag candidate is invalidated and
    /// the selection cleared.
    pub fn on_draw_start(&mut self)
        requires
            old(self).wf(),
        ensures
            final(self).wf(),
            final(self).suppress_next_click == old(self).suppress_next_click,
            old(self).game.pending_promotion is Some ==> *final(self) == *old(self),
            old(self).game.pending_promotion is None ==> final(self).drag is None
                && selection_cleared(old(self).game, final(self).game),
    {
        if self.game.has_pending_promotion() {
            return ;
        }
        self.drag = None;
        self.game.clear_active_selection();
    }

    /// Reads and clears the one-shot click-suppression flag.
    pub fn consume_suppressed_click(&mut self) -> (r: bool)
        ensures
            r == old(self).suppress_next_click,
            !final(self).suppress_next_click,
            final(self).game == old(self).game,
            final(self).drag == old(self).drag,
    {
        if self.suppress_next_click {
            self.suppress_next_click = false;
            true
        } else {
            false
        }
    }
}

} // verus!
