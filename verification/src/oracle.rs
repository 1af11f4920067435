//! Trusted boundary to the position oracle, `shogi::Position`.
//!
//! The oracle owns the board, the hands and the side to move, and is the only
//! judge of move legality.  Verified code reaches it exclusively through the
//! wrappers below; what each call returns is captured by the uninterpreted
//! spec functions, which name the oracle's answers without restating shogi's
//! rules.

use vstd::prelude::*;

use crate::types::{Color, Move, Piece, Square};

verus! {

#[verifier::external_type_specification]
#[verifier::external_body]
pub struct ExPosition(shogi::Position);

/// What stands on each board cell, keyed by `Square::spec_index`.
pub uninterp spec fn board_of(p: shogi::Position) -> Map<int, Option<Piece>>;

/// How many captured pieces of each kind and owner wait in the hands.
pub uninterp spec fn hands_of(p: shogi::Position) -> Map<Piece, int>;

/// The side to make the next move.
pub uninterp spec fn side_of(p: shogi::Position) -> Color;

/// The number of plies completed so far, starting at 1.
pub uninterp spec fn ply_of(p: shogi::Position) -> int;

/// The squares geometrically reachable by `piece` standing on `from`,
/// in the order the oracle enumerates them.
pub uninterp spec fn cands_of(p: shogi::Position, from: Square, piece: Piece) -> Seq<Square>;

/// Whether the oracle accepts `mv` in position `p`.
pub uninterp spec fn apply_ok(p: shogi::Position, mv: Move) -> bool;

/// The position after the oracle accepted `mv` in position `p`.
pub uninterp spec fn applied(p: shogi::Position, mv: Move) -> shogi::Position;

/// Whether the oracle refuses `mv` in `p` only after having already applied
/// it: this happens exactly for the repetition family of refusals, which are
/// detected after the move has been recorded, and it leaves the position
/// altered.
pub uninterp spec fn apply_fault(p: shogi::Position, mv: Move) -> bool;

/// The position that undoing the most recent applied move restores.
pub uninterp spec fn undone(p: shogi::Position) -> shogi::Position;

/// Whether the oracle can load the given SFEN position description.
pub uninterp spec fn sfen_ok(s: Seq<char>) -> bool;

/// The SFEN description of the standard starting position: the one board
/// description this library ever asks the oracle to load.
pub open spec fn spec_start_sfen() -> Seq<char> {
    "lnsgkgsnl/1r5b1/ppppppppp/9/9/9/PPPPPPPPP/1B5R1/LNSGKGSNL b - 1"@
}

/// Builds a fresh oracle position from an SFEN description; on a parse
/// failure the diagnostic text comes back beside the (unusable) position.
///
/// Relies on `shogi::Position::new` and `shogi::Position::set_sfen`: parsing
/// succeeds or fails on the string alone, and the starting description names
/// Black to move at ply 1.  The `requires` admits only the fixed starting
/// description, because `set_sfen`'s hand-count parser does unchecked `u8`
/// arithmetic and an adversarial hand field could make it panic.  Also calls
/// `shogi::bitboard::Factory::init`, which the oracle requires once per
/// process before any move generation; the call is idempotent.
#[verifier::external_body]
pub(crate) fn oracle_new_position(sfen: &str) -> (r: (shogi::Position, Option<String>))
    requires
        sfen@ == spec_start_sfen(),
    ensures
        r.1 is None <==> sfen_ok(sfen@),
        r.1 matches Some(m) ==> m@.len() > 0,
        r.1 is None ==> side_of(r.0) == Color::Black && ply_of(r.0) == 1,
{
    shogi::bitboard::Factory::init();
    let mut pos = shogi::Position::new();
    match pos.set_sfen(sfen) {
        Ok(()) => (pos, None),
        Err(e) => (pos, Some(format!("{:?}", e))),
    }
}

/// Relies on `shogi::Position::piece_at`: reads the piece standing on the
/// given square, if any.
#[verifier::external_body]
pub(crate) fn oracle_piece_at(p: &shogi::Position, sq: Square) -> (r: Option<Piece>)
    requires
        sq.wf(),
    ensures
        r == board_of(*p)[sq.spec_index()],
{
    let ssq = shogi::Square::new(sq.file, sq.rank).unwrap();
    match *p.piece_at(ssq) {
        None => None,
        Some(pc) => Some(Piece {
            piece_type: crate::types::PieceType::from_ord(pc.piece_type.index() as u8),
            color: if pc.color == shogi::Color::Black { Color::Black } else { Color::White },
        }),
    }
}

/// Relies on `shogi::Position::hand`: reads the captured-piece count for the
/// given kind and owner.  Kinds that can never be held in hand count 0.
#[verifier::external_body]
pub(crate) fn oracle_hand(p: &shogi::Position, piece: Piece) -> (r: u8)
    ensures
        r as int == hands_of(*p)[piece],
{
    p.hand(shogi::Piece {
        piece_type: shogi::PieceType::iter().nth(piece.piece_type.ord() as usize).unwrap(),
        color: if piece.color == Color::Black { shogi::Color::Black } else { shogi::Color::White },
    })
}

/// Relies on `shogi::Position::side_to_move`.
#[verifier::external_body]
pub(crate) fn oracle_side_to_move(p: &shogi::Position) -> (r: Color)
    ensures
        r == side_of(*p),
{
    if p.side_to_move() == shogi::Color::Black { Color::Black } else { Color::White }
}

/// Relies on `shogi::Position::ply`.
#[verifier::external_body]
pub(crate) fn oracle_ply(p: &shogi::Position) -> (r: u16)
    ensures
        r as int == ply_of(*p),
{
    p.ply()
}

/// Relies on `shogi::Position::move_candidates`: the squares the piece could
/// geometrically reach from `from`, unconstrained by check rules.  Every
/// returned square lies on the board.
#[verifier::external_body]
pub(crate) fn oracle_move_candidates(p: &shogi::Position, from: Square, piece: Piece) -> (r: Vec<
    Square,
>)
    requires
        from.wf(),
    ensures
        r@ == cands_of(*p, from, piece),
        forall|i: int| 0 <= i < r@.len() ==> (#[trigger] r@[i]).wf(),
{
    let ssq = shogi::Square::new(from.file, from.rank).unwrap();
    let spc = shogi::Piece {
        piece_type: shogi::PieceType::iter().nth(piece.piece_type.ord() as usize).unwrap(),
        color: if piece.color == Color::Black { shogi::Color::Black } else { shogi::Color::White },
    };
    let mut out = Vec::new();
    for sq in p.move_candidates(ssq, spc) {
        out.push(Square { file: sq.file(), rank: sq.rank() });
    }
    out
}

/// Relies on `shogi::Position::make_move`: an accepted move is applied and
/// recorded so that it can be undone, and the exact previous position is what
/// undoing it restores; the turn passes to the other side, and an accepted
/// drop places the dropped piece on its target and takes one such piece from
/// the dropping side's hand.  A refused move leaves the position as it was —
/// with the one exception of the repetition family of refusals, which the
/// oracle detects only after applying the move, and which therefore leave the
/// position altered.
///
/// The oracle counts plies in a `u16` with unchecked arithmetic; a game long
/// enough to overrun it lies far beyond any flow of this library, and the
/// contract claims nothing about the ply of the successor position.
#[verifier::external_body]
pub(crate) fn oracle_apply(p: &mut shogi::Position, mv: Move) -> (r: Option<String>)
    requires
        mv.wf(),
    ensures
        r is None <==> apply_ok(*old(p), mv),
        apply_ok(*old(p), mv) ==> *final(p) == applied(*old(p), mv) && undone(
            applied(*old(p), mv),
        ) == *old(p),
        apply_ok(*old(p), mv) ==> side_of(applied(*old(p), mv)) == side_of(*old(p)).spec_flip(),
        apply_ok(*old(p), mv) && (mv matches Move::Drop { to: _, piece_type: _ }) ==> ({
            let pc = Piece { piece_type: mv->Drop_piece_type, color: side_of(*old(p)) };
            &&& board_of(applied(*old(p), mv))[mv.spec_to().spec_index()] == Some(pc)
            &&& hands_of(applied(*old(p), mv))[pc] == hands_of(*old(p))[pc] - 1
        }),
        !apply_ok(*old(p), mv) && !apply_fault(*old(p), mv) ==> *final(p) == *old(p),
        apply_fault(*old(p), mv) ==> !apply_ok(*old(p), mv),
        r matches Some(m) ==> m@.len() > 0,
{
    let sm = match mv {
        Move::Normal { from, to, promote } => shogi::Move::Normal {
            from: shogi::Square::new(from.file, from.rank).unwrap(),
            to: shogi::Square::new(to.file, to.rank).unwrap(),
            promote,
        },
        Move::Drop { to, piece_type } => shogi::Move::Drop {
            to: shogi::Square::new(to.file, to.rank).unwrap(),
            piece_type: shogi::PieceType::iter().nth(piece_type.ord() as usize).unwrap(),
        },
    };
    match p.make_move(sm) {
        Ok(()) => None,
        Err(e) => Some(format!("{:?}", e)),
    }
}

/// Relies on `shogi::Position::unmake_move`: undoing the most recently
/// applied move restores the exact previous position.
#[verifier::external_body]
pub(crate) fn oracle_rollback(p: &mut shogi::Position)
    requires
        exists|q: shogi::Position, m: Move| apply_ok(q, m) && *old(p) == applied(q, m),
    ensures
        *final(p) == undone(*old(p)),
{
    let _ = p.unmake_move();
}

/// The probe of the move resolver: tentatively applies `mv` and rolls it back
/// at once, reporting whether the oracle accepted it.  Except for a
/// repetition-family refusal, the position is exactly as before afterwards.
pub(crate) fn probe_move(p: &mut shogi::Position, mv: Move) -> (ok: bool)
    requires
        mv.wf(),
    ensures
        ok == apply_ok(*old(p), mv),
        !apply_fault(*old(p), mv) ==> *final(p) == *old(p),
{
    let r = oracle_apply(p, mv);
    if r.is_none() {
        proof {
            assert(apply_ok(*old(p), mv) && *p == applied(*old(p), mv));
        }
        oracle_rollback(p);
        true
    } else {
        false
    }
}

} // verus!
