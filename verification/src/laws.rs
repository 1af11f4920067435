//! The guarantees of the interaction core, stated and proved on their own:
//! how the derived destination set, the selection toggles, the promotion
//! lock and the commit effects behave across the operations' contracts.

use vstd::prelude::*;

use crate::game::{
    board_drag_post, board_moves_from, click_post, committed_post, drop_moves_upto,
    hand_select_post, last_drop_to, last_normal_to, moves_dests, normal_moves_upto,
    normal_scan_clean, selection_cleared, spec_legal_normals, GameState, PendingPromotion,
    SoundCue,
};
use crate::oracle::{apply_ok, board_of, cands_of, hands_of, side_of};
use crate::types::{Move, Piece, PieceType, Square};

verus! {

/// The derived destination set is exactly the projection of the legal moves
/// onto their destinations, in every well-formed state: same length,
/// pointwise the move's target, and the same membership.
pub proof fn lemma_destinations_are_move_targets(g: GameState)
    requires
        g.wf(),
    ensures
        g.legal_destinations@.len() == g.legal_moves@.len(),
        forall|i: int|
            0 <= i < g.legal_moves@.len() ==> (#[trigger] g.legal_destinations@[i])
                == g.legal_moves@[i].spec_to(),
        forall|sq: Square|
            #[trigger] g.legal_destinations@.contains(sq) <==> (exists|i: int|
                0 <= i < g.legal_moves@.len() && (#[trigger] g.legal_moves@[i]).spec_to() == sq),
{
    assert forall|sq: Square| #[trigger]
        g.legal_destinations@.contains(sq) implies (exists|i: int|
        0 <= i < g.legal_moves@.len() && (#[trigger] g.legal_moves@[i]).spec_to() == sq) by {
        let j = choose|j: int| 0 <= j < g.legal_destinations@.len() && g.legal_destinations@[j] == sq;
        assert(g.legal_moves@[j].spec_to() == sq);
    }
    assert forall|sq: Square|
        (exists|i: int|
            0 <= i < g.legal_moves@.len() && (#[trigger] g.legal_moves@[i]).spec_to()
                == sq) implies #[trigger] g.legal_destinations@.contains(sq) by {
        let j = choose|j: int| 0 <= j < g.legal_moves@.len() && g.legal_moves@[j].spec_to() == sq;
        assert(g.legal_destinations@[j] == sq);
    }
}

/// Selecting a hand kind of which the side to move holds nothing always
/// leaves the selection empty.
pub proof fn lemma_empty_hand_select_clears(pre: GameState, post: GameState, k: PieceType)
    requires
        pre.pending_promotion is None,
        hands_of(pre.pos)[Piece { piece_type: k, color: side_of(pre.pos) }] == 0,
        hand_select_post(pre, post, k),
    ensures
        post.selected is None,
        post.selected_hand is None,
        post.legal_moves@.len() == 0,
        post.pos == pre.pos,
{
}

/// Clicking the hand kind that is already armed, and then anything the
/// second click of the pair does, ends with no selection: a pair of clicks
/// on one kind always restores the empty selection.
pub proof fn lemma_hand_toggle_pair(pre: GameState, mid: GameState, post: GameState, k: PieceType)
    requires
        pre.pending_promotion is None,
        pre.selected_hand != Some(k),
        hands_of(pre.pos)[Piece { piece_type: k, color: side_of(pre.pos) }] != 0,
        hand_select_post(pre, mid, k),
        hand_select_post(mid, post, k),
    ensures
        post.selected is None,
        post.selected_hand is None,
{
}

/// There is no drop among moves that all leave from one board square.
proof fn lemma_board_moves_have_no_drop(ms: Seq<Move>, from: Square, to: Square, n: int)
    requires
        n <= ms.len(),
        board_moves_from(ms, from),
    ensures
        last_drop_to(ms, to, n) is None,
    decreases n,
{
    if n > 0 {
        lemma_board_moves_have_no_drop(ms, from, to, n - 1);
    }
}

/// A destination reachable both with and without promotion never commits:
/// the click opens the promotion choice, both pending candidates aim at the
/// clicked square, and the position and the move markers stay untouched.
pub proof fn lemma_ambiguous_click_opens_promotion(pre: GameState, post: GameState, sq: Square)
    requires
        pre.wf(),
        pre.pending_promotion is None,
        pre.selected matches Some(ssq) && ssq != sq,
        pre.legal_destinations@.contains(sq),
        last_normal_to(pre.legal_moves@, sq, true, pre.legal_moves@.len() as int) is Some,
        last_normal_to(pre.legal_moves@, sq, false, pre.legal_moves@.len() as int) is Some,
        click_post(pre, post, sq),
    ensures
        post.pending_promotion is Some,
        post.pending_promotion->0.promote.spec_to() == sq,
        post.pending_promotion->0.non_promote.spec_to() == sq,
        post.pos == pre.pos,
        post.last_action_from == pre.last_action_from,
        post.last_action_to == pre.last_action_to,
        post.pending_sound == pre.pending_sound,
{
    let ssq = pre.selected->0;
    let n = pre.legal_moves@.len() as int;
    lemma_board_moves_have_no_drop(pre.legal_moves@, ssq, sq, n);
    crate::game::lemma_last_normal_member(pre.legal_moves@, sq, true, n);
    crate::game::lemma_last_normal_member(pre.legal_moves@, sq, false, n);
}

/// Every move of the board scan leaves from the scanned square.
proof fn lemma_normals_are_from(p: shogi::Position, cands: Seq<Square>, from: Square, n: int)
    requires
        0 <= n,
    ensures
        board_moves_from(normal_moves_upto(p, cands, from, n), from),
    decreases n,
{
    if n > 0 {
        lemma_normals_are_from(p, cands, from, n - 1);
        let prev = normal_moves_upto(p, cands, from, n - 1);
        let cur = normal_moves_upto(p, cands, from, n);
        assert forall|i: int|
            0 <= i < cur.len() implies ((#[trigger] cur[i]) matches Move::Normal {
            from: f,
            to: _,
            promote: _,
        } && f == from) by {
            if i < prev.len() {
                assert(cur[i] == prev[i]);
            }
        }
    }
}

/// The drag counterpart: a drag released on a destination reachable both
/// with and without promotion never commits either — it opens the promotion
/// choice for two candidates aiming at the release square and leaves the
/// position and the move markers untouched.
pub proof fn lemma_ambiguous_drag_opens_promotion(
    pre: GameState,
    post: GameState,
    from: Square,
    to: Square,
)
    requires
        pre.wf(),
        pre.pending_promotion is None,
        from != to,
        board_of(pre.pos)[from.spec_index()] matches Some(pc) && pc.color == side_of(pre.pos),
        normal_scan_clean(pre.pos, from, board_of(pre.pos)[from.spec_index()]->0),
        ({
            let ms = spec_legal_normals(pre.pos, from, board_of(pre.pos)[from.spec_index()]->0);
            &&& moves_dests(ms).contains(to)
            &&& last_normal_to(ms, to, true, ms.len() as int) is Some
            &&& last_normal_to(ms, to, false, ms.len() as int) is Some
        }),
        board_drag_post(pre, post, from, to),
    ensures
        post.pending_promotion is Some,
        post.pending_promotion->0.promote.spec_to() == to,
        post.pending_promotion->0.non_promote.spec_to() == to,
        post.pos == pre.pos,
        post.last_action_from == pre.last_action_from,
        post.last_action_to == pre.last_action_to,
        post.pending_sound == pre.pending_sound,
{
    let piece = board_of(pre.pos)[from.spec_index()]->0;
    let cs = cands_of(pre.pos, from, piece);
    let ms = spec_legal_normals(pre.pos, from, piece);
    lemma_normals_are_from(pre.pos, cs, from, cs.len() as int);
    lemma_board_moves_have_no_drop(ms, from, to, ms.len() as int);
    crate::game::lemma_last_normal_member(ms, to, true, ms.len() as int);
    crate::game::lemma_last_normal_member(ms, to, false, ms.len() as int);
}

/// While a promotion choice is pending, a board click changes nothing.
pub proof fn lemma_pending_blocks_click(pre: GameState, post: GameState, sq: Square)
    requires
        pre.pending_promotion is Some,
        click_post(pre, post, sq),
    ensures
        post == pre,
{
}

/// While a promotion choice is pending, selecting a hand kind changes
/// nothing.
pub proof fn lemma_pending_blocks_hand_select(pre: GameState, post: GameState, k: PieceType)
    requires
        pre.pending_promotion is Some,
        hand_select_post(pre, post, k),
    ensures
        post == pre,
{
}

/// Cancelling a pending promotion leaves an empty selection and touches
/// neither the oracle nor the move markers.
pub proof fn lemma_cancel_promotion_restores(pre: GameState, post: GameState)
    requires
        pre.wf(),
        pre.pending_promotion is Some,
        post == (GameState { pending_promotion: None::<PendingPromotion>, ..pre }),
    ensures
        post.selected is None,
        post.selected_hand is None,
        post.pending_promotion is None,
        post.pos == pre.pos,
        post.last_action_from == pre.last_action_from,
        post.last_action_to == pre.last_action_to,
{
}

/// A drag released outside the board commits nothing: the selection is
/// cleared while the position, the move markers and the status survive.
pub proof fn lemma_outside_release_commits_nothing(pre: GameState, post: GameState)
    requires
        selection_cleared(pre, post),
    ensures
        post.pos == pre.pos,
        post.last_action_from == pre.last_action_from,
        post.last_action_to == pre.last_action_to,
        post.pending_sound == pre.pending_sound,
        post.status == pre.status,
        post.selected is None,
        post.selected_hand is None,
{
}

/// A refused commit leaves the move markers exactly as they were and asks
/// for the error cue.
pub proof fn lemma_commit_failure_preserves_markers(pre: GameState, post: GameState, mv: Move)
    requires
        committed_post(pre, post, mv),
        !apply_ok(pre.pos, mv),
    ensures
        post.last_action_from == pre.last_action_from,
        post.last_action_to == pre.last_action_to,
        post.pending_sound == Some(SoundCue::Error),
        post.status@.len() > 0,
{
}

/// A committed drop is exactly one placement: the dropped piece stands on
/// the release square, the dropping side's hand holds one piece of the kind
/// fewer, the markers name the drop, and the cue is the plain move sound.
pub proof fn lemma_drop_commit_effects(pre: GameState, post: GameState, to: Square, k: PieceType)
    requires
        committed_post(pre, post, Move::Drop { to, piece_type: k }),
        apply_ok(pre.pos, Move::Drop { to, piece_type: k }),
    ensures
        ({
            let pc = Piece { piece_type: k, color: side_of(pre.pos) };
            &&& board_of(post.pos)[to.spec_index()] == Some(pc)
            &&& hands_of(post.pos)[pc] == hands_of(pre.pos)[pc] - 1
        }),
        side_of(post.pos) == side_of(pre.pos).spec_flip(),
        post.last_action_from is None,
        post.last_action_to == Some(to),
        post.pending_sound == Some(SoundCue::Move),
        post.status@.len() == 0,
        post.selected is None,
        post.selected_hand is None,
{
}

/// Every move the drop scan yields was accepted by the oracle in the
/// scanned position, targets an empty cell, and drops the scanned kind.
pub proof fn lemma_resolved_drops_accepted(p: shogi::Position, k: PieceType, n: int)
    requires
        0 <= n,
    ensures
        forall|i: int|
            0 <= i < drop_moves_upto(p, k, n).len() ==> apply_ok(
                p,
                #[trigger] drop_moves_upto(p, k, n)[i],
            ),
    decreases n,
{
    if n > 0 {
        lemma_resolved_drops_accepted(p, k, n - 1);
        let prev = drop_moves_upto(p, k, n - 1);
        let cur = drop_moves_upto(p, k, n);
        assert forall|i: int| 0 <= i < cur.len() implies apply_ok(p, #[trigger] cur[i]) by {
            if i < prev.len() {
                assert(cur[i] == prev[i]);
            }
        }
    }
}

/// Every move the board scan yields was accepted by the oracle in the
/// scanned position.
pub proof fn lemma_resolved_normals_accepted(
    p: shogi::Position,
    cands: Seq<Square>,
    from: Square,
    n: int,
)
    requires
        0 <= n,
    ensures
        forall|i: int|
            0 <= i < normal_moves_upto(p, cands, from, n).len() ==> apply_ok(
                p,
                #[trigger] normal_moves_upto(p, cands, from, n)[i],
            ),
    decreases n,
{
    if n > 0 {
        lemma_resolved_normals_accepted(p, cands, from, n - 1);
        let prev = normal_moves_upto(p, cands, from, n - 1);
        let cur = normal_moves_upto(p, cands, from, n);
        assert forall|i: int| 0 <= i < cur.len() implies apply_ok(p, #[trigger] cur[i]) by {
            if i < prev.len() {
                assert(cur[i] == prev[i]);
            }
        }
    }
}

} // verus!
