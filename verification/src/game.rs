//! The interaction state machine: selection, move resolution, promotion
//! disambiguation and commit effects for one game in progress.

use vstd::prelude::*;

use crate::oracle::{
    applied, apply_fault, apply_ok, board_of, cands_of, hands_of, oracle_apply, oracle_hand,
    oracle_move_candidates, oracle_new_position, oracle_piece_at, oracle_ply, oracle_side_to_move,
    ply_of, probe_move, sfen_ok, side_of, spec_start_sfen,
};
use crate::types::{Color, Move, Piece, PieceType, Square};

verus! {

/// The sound cue the UI should play after the most recent action.
#[derive(Clone, Copy, Debug, PartialEq, Eq, Structural)]
pub enum SoundCue {
    Move,
    Capture,
    Error,
}

/// The two candidate moves of an unresolved promotion choice; they share the
/// origin and the destination square and differ only in the promote flag.
#[derive(Clone, Copy, Debug, PartialEq, Eq, Structural)]
pub struct PendingPromotion {
    pub promote: Move,
    pub non_promote: Move,
}

/// How the move disambiguator classifies a chosen destination.
#[derive(Clone, Copy, Debug, PartialEq, Eq, Structural)]
pub enum MoveChoice {
    Single(Move),
    NeedsPromotion { promote: Move, non_promote: Move },
    NoMatch,
}

/// All mutable interaction state for one game in progress.
///
/// The fields are public so that the contracts can speak about them plainly;
/// mutate the state only through the operations below, which keep `wf`.
pub struct GameState {
    /// The position oracle; the sole owner of board, hands and legality.
    pub pos: shogi::Position,
    /// The armed board square, if any.
    pub selected: Option<Square>,
    /// The armed hand piece kind, if any.
    pub selected_hand: Option<PieceType>,
    /// The probed-and-accepted candidate moves of the armed selection.
    pub legal_moves: Vec<Move>,
    /// Always exactly the destinations of `legal_moves`, in the same order.
    pub legal_destinations: Vec<Square>,
    /// The unresolved promotion choice, if any; locks out selection changes.
    pub pending_promotion: Option<PendingPromotion>,
    /// Origin marker of the most recently committed move (absent for drops).
    pub last_action_from: Option<Square>,
    /// Destination marker of the most recently committed move.
    pub last_action_to: Option<Square>,
    /// The single most recent sound cue; replaced, never queued.
    pub pending_sound: Option<SoundCue>,
    /// Diagnostic text of the last failure; empty after a successful commit.
    pub status: String,
}

/// The destinations of the given moves, in order.
pub open spec fn moves_dests(ms: Seq<Move>) -> Seq<Square> {
    ms.map_values(|m: Move| m.spec_to())
}

/// Every move has its squares on the board.
pub open spec fn moves_wf(ms: Seq<Move>) -> bool {
    forall|i: int| 0 <= i < ms.len() ==> (#[trigger] ms[i]).wf()
}

/// Every move is a normal move leaving from `from`.
pub open spec fn board_moves_from(ms: Seq<Move>, from: Square) -> bool {
    forall|i: int|
        0 <= i < ms.len() ==> ((#[trigger] ms[i]) matches Move::Normal { from: f, to: _, promote: _ }
            && f == from)
}

/// Every move is a drop of kind `k`.
pub open spec fn drops_of_kind(ms: Seq<Move>, k: PieceType) -> bool {
    forall|i: int|
        0 <= i < ms.len() ==> ((#[trigger] ms[i]) matches Move::Drop { to: _, piece_type: kk }
            && kk == k)
}

/// The two pending candidates are normal moves sharing origin and
/// destination, one promoting and one not.
pub open spec fn pending_wf(pp: PendingPromotion) -> bool {
    &&& pp.promote matches Move::Normal { from, to, promote } && promote && from.wf() && to.wf()
    &&& pp.non_promote matches Move::Normal { from, to, promote } && !promote
    &&& pp.promote->Normal_from == pp.non_promote->Normal_from
    &&& pp.promote->Normal_to == pp.non_promote->Normal_to
}

impl GameState {
    /// Structural well-formedness: the invariants of the data model.
    pub open spec fn wf(self) -> bool {
        &&& self.legal_destinations@ == moves_dests(self.legal_moves@)
        &&& moves_wf(self.legal_moves@)
        &&& !(self.selected is Some && self.selected_hand is Some)
        &&& self.selected matches Some(sq) ==> sq.wf() && board_moves_from(self.legal_moves@, sq)
        &&& self.selected_hand matches Some(k) ==> drops_of_kind(self.legal_moves@, k)
        &&& self.selected is None && self.selected_hand is None ==> self.legal_moves@.len() == 0
        &&& self.pending_promotion is Some ==> self.selected is None && self.selected_hand is None
        &&& self.pending_promotion matches Some(pp) ==> pending_wf(pp)
        &&& self.last_action_from matches Some(sq) ==> sq.wf()
        &&& self.last_action_to matches Some(sq) ==> sq.wf()
    }
}

/// The selection and its derived candidates are empty and everything else is
/// as it was before.
pub open spec fn selection_cleared(pre: GameState, post: GameState) -> bool {
    &&& post.selected is None
    &&& post.selected_hand is None
    &&& post.legal_moves@.len() == 0
    &&& post.legal_destinations@.len() == 0
    &&& post.pos == pre.pos
    &&& post.pending_promotion == pre.pending_promotion
    &&& post.last_action_from == pre.last_action_from
    &&& post.last_action_to == pre.last_action_to
    &&& post.pending_sound == pre.pending_sound
    &&& post.status == pre.status
}

impl GameState {
    /// Creates the game from the standard starting position.  If the oracle
    /// refuses the starting SFEN the failure is recorded in `status` and the
    /// game stays inert; otherwise `status` is empty.
    pub fn new() -> (r: GameState)
        ensures
            r.wf(),
            r.selected is None,
            r.selected_hand is None,
            r.legal_moves@.len() == 0,
            r.legal_destinations@.len() == 0,
            r.pending_promotion is None,
            r.last_action_from is None,
            r.last_action_to is None,
            r.pending_sound is None,
            r.status@.len() == 0 <==> sfen_ok(spec_start_sfen()),
            r.status@.len() == 0 ==> side_of(r.pos) == Color::Black && ply_of(r.pos) == 1,
    {
        let (pos, err) = oracle_new_position(
            "lnsgkgsnl/1r5b1/ppppppppp/9/9/9/PPPPPPPPP/1B5R1/LNSGKGSNL b - 1",
        );
        let status = match err {
            None => String::new(),
            Some(e) => e,
        };
        let st = GameState {
            pos,
            selected: None,
            selected_hand: None,
            legal_moves: Vec::new(),
            legal_destinations: Vec::new(),
            pending_promotion: None,
            last_action_from: None,
            last_action_to: None,
            pending_sound: None,
            status,
        };
        proof {
            assert(st.legal_destinations@ =~= moves_dests(st.legal_moves@));
        }
        st
    }

    /// The side to make the next move.
    pub fn side_to_move(&self) -> (r: Color)
        ensures
            r == side_of(self.pos),
    {
        oracle_side_to_move(&self.pos)
    }

    /// The number of plies completed so far.
    pub fn ply(&self) -> (r: u16)
        ensures
            r as int == ply_of(self.pos),
    {
        oracle_ply(&self.pos)
    }

    /// The diagnostic text of the last failure; empty when the last commit
    /// succeeded.
    pub fn status(&self) -> (r: &str)
        ensures
            r@ == self.status@,
    {
        self.status.as_str()
    }

    /// The armed board square, if any.
    pub fn selected(&self) -> (r: Option<Square>)
        ensures
            r == self.selected,
    {
        self.selected
    }

    /// The armed hand piece kind, if any.
    pub fn selected_hand_piece(&self) -> (r: Option<PieceType>)
        ensures
            r == self.selected_hand,
    {
        self.selected_hand
    }

    /// Whether a promotion choice is waiting for the user.
    pub fn has_pending_promotion(&self) -> (r: bool)
        ensures
            r == (self.pending_promotion is Some),
    {
        self.pending_promotion.is_some()
    }

    /// Origin marker of the most recently committed move.
    pub fn last_action_from(&self) -> (r: Option<Square>)
        ensures
            r == self.last_action_from,
    {
        self.last_action_from
    }

    /// Destination marker of the most recently committed move.
    pub fn last_action_to(&self) -> (r: Option<Square>)
        ensures
            r == self.last_action_to,
    {
        self.last_action_to
    }

    /// Returns and clears the pending sound cue.
    pub fn take_pending_sound(&mut self) -> (r: Option<SoundCue>)
        ensures
            r == old(self).pending_sound,
            *final(self) == (GameState { pending_sound: None, ..*old(self) }),
    {
        self.pending_sound.take()
    }

    /// Whether the armed selection is a hand piece awaiting a drop.
    pub fn is_drop_mode(&self) -> (r: bool)
        ensures
            r == (self.selected_hand is Some),
    {
        self.selected_hand.is_some()
    }

    /// Whether `sq` is a destination of one of the armed selection's legal
    /// moves.
    pub fn is_legal_destination(&self, sq: Square) -> (r: bool)
        ensures
            r == self.legal_destinations@.contains(sq),
    {
        contains_square(&self.legal_destinations, sq)
    }

    /// The piece standing on `sq`, if any.
    pub fn piece_at(&self, sq: Square) -> (r: Option<Piece>)
        requires
            sq.wf(),
        ensures
            r == board_of(self.pos)[sq.spec_index()],
    {
        oracle_piece_at(&self.pos, sq)
    }

    /// How many captured pieces of the given kind `color` holds in hand.
    pub fn hand_count(&self, color: Color, piece_type: PieceType) -> (r: u8)
        ensures
            r as int == hands_of(self.pos)[Piece { piece_type, color }],
    {
        oracle_hand(&self.pos, Piece { piece_type, color })
    }

    /// Empties the selection and its derived candidates; idempotent.
    fn clear_selection(&mut self)
        ensures
            selection_cleared(*old(self), *final(self)),
    {
        self.selected = None;
        self.selected_hand = None;
        self.legal_moves = Vec::new();
        self.legal_destinations = Vec::new();
    }

    /// Empties the selection; the public entry used by the gesture layer.
    pub fn clear_active_selection(&mut self)
        requires
            old(self).wf(),
        ensures
            final(self).wf(),
            selection_cleared(*old(self), *final(self)),
    {
        self.clear_selection();
        proof {
            assert(self.legal_destinations@ =~= moves_dests(self.legal_moves@));
        }
    }
}

/// The square with the given cell number in 0..81, file-major.
pub open spec fn square_at(i: int) -> Square {
    Square { file: (i / 9) as u8, rank: (i % 9) as u8 }
}

/// The legal drops of kind `k` found by scanning the first `n` cells in
/// file-major order: for each empty cell, the drop the oracle accepts.
pub open spec fn drop_moves_upto(p: shogi::Position, k: PieceType, n: int) -> Seq<Move>
    decreases n,
{
    if n <= 0 {
        Seq::empty()
    } else {
        let prev = drop_moves_upto(p, k, n - 1);
        let mv = Move::Drop { to: square_at(n - 1), piece_type: k };
        if board_of(p)[n - 1] is None && apply_ok(p, mv) {
            prev.push(mv)
        } else {
            prev
        }
    }
}

/// The drop candidates of kind `k`: every empty cell whose drop the oracle
/// accepts, in file-major scan order.
pub open spec fn spec_legal_drops(p: shogi::Position, k: PieceType) -> Seq<Move> {
    drop_moves_upto(p, k, 81)
}

/// No probe of the first `n` cells of the drop scan hits a repetition-family
/// refusal, so the scan leaves the position untouched.
pub open spec fn drops_clean_upto(p: shogi::Position, k: PieceType, n: int) -> bool
    decreases n,
{
    n <= 0 || (drops_clean_upto(p, k, n - 1) && (board_of(p)[n - 1] is None ==> !apply_fault(
        p,
        Move::Drop { to: square_at(n - 1), piece_type: k },
    )))
}

/// The whole drop scan of kind `k` leaves the position untouched.
pub open spec fn drop_scan_clean(p: shogi::Position, k: PieceType) -> bool {
    drops_clean_upto(p, k, 81)
}

/// The legal moves found by probing the first `n` candidate destinations:
/// for each, the non-promoting and then the promoting variant that the
/// oracle accepts.
pub open spec fn normal_moves_upto(
    p: shogi::Position,
    cands: Seq<Square>,
    from: Square,
    n: int,
) -> Seq<Move>
    decreases n,
{
    if n <= 0 {
        Seq::empty()
    } else {
        let prev = normal_moves_upto(p, cands, from, n - 1);
        let plain = Move::Normal { from, to: cands[n - 1], promote: false };
        let promoting = Move::Normal { from, to: cands[n - 1], promote: true };
        let with_plain = if apply_ok(p, plain) {
            prev.push(plain)
        } else {
            prev
        };
        if apply_ok(p, promoting) {
            with_plain.push(promoting)
        } else {
            with_plain
        }
    }
}

/// The legal moves of the piece on `from`: both variants of every candidate
/// destination that the oracle accepts, in candidate order.
pub open spec fn spec_legal_normals(p: shogi::Position, from: Square, piece: Piece) -> Seq<Move> {
    normal_moves_upto(p, cands_of(p, from, piece), from, cands_of(p, from, piece).len() as int)
}

/// No probe of the first `n` candidates hits a repetition-family refusal.
pub open spec fn normals_clean_upto(
    p: shogi::Position,
    cands: Seq<Square>,
    from: Square,
    n: int,
) -> bool
    decreases n,
{
    n <= 0 || (normals_clean_upto(p, cands, from, n - 1) && !apply_fault(
        p,
        Move::Normal { from, to: cands[n - 1], promote: false },
    ) && !apply_fault(p, Move::Normal { from, to: cands[n - 1], promote: true }))
}

/// The whole scan of the piece on `from` leaves the position untouched.
pub open spec fn normal_scan_clean(p: shogi::Position, from: Square, piece: Piece) -> bool {
    normals_clean_upto(p, cands_of(p, from, piece), from, cands_of(p, from, piece).len() as int)
}

/// A clean scan prefix is clean at every earlier length.
proof fn lemma_drops_clean_mono(p: shogi::Position, k: PieceType, m: int, n: int)
    requires
        m <= n,
        drops_clean_upto(p, k, n),
    ensures
        drops_clean_upto(p, k, m),
    decreases n - m,
{
    if m < n {
        lemma_drops_clean_mono(p, k, m, n - 1);
    }
}

/// A clean candidate prefix is clean at every earlier length.
proof fn lemma_normals_clean_mono(
    p: shogi::Position,
    cands: Seq<Square>,
    from: Square,
    m: int,
    n: int,
)
    requires
        m <= n,
        normals_clean_upto(p, cands, from, n),
    ensures
        normals_clean_upto(p, cands, from, m),
    decreases n - m,
{
    if m < n {
        lemma_normals_clean_mono(p, cands, from, m, n - 1);
    }
}

impl GameState {
    /// Probes every empty cell for a legal drop of kind `k`, in file-major
    /// order.  When no probe hits a repetition-family refusal — the ordinary
    /// run of things — the position is untouched and the result is exactly
    /// `spec_legal_drops`.
    fn legal_drops_for(p: &mut shogi::Position, piece_type: PieceType) -> (out: Vec<Move>)
        ensures
            moves_wf(out@),
            drops_of_kind(out@, piece_type),
            drop_scan_clean(*old(p), piece_type) ==> *final(p) == *old(p) && out@
                == spec_legal_drops(*old(p), piece_type),
    {
        let ghost p0 = *old(p);
        let ghost mut clean: bool = true;
        let mut out: Vec<Move> = Vec::new();
        let mut i: u8 = 0;
        while i < 81
            invariant
                i <= 81,
                moves_wf(out@),
                drops_of_kind(out@, piece_type),
                clean ==> *p == p0 && out@ == drop_moves_upto(p0, piece_type, i as int)
                    && drops_clean_upto(p0, piece_type, i as int),
                !clean ==> !drop_scan_clean(p0, piece_type),
            decreases 81 - i,
        {
            let sq = Square { file: i / 9, rank: i % 9 };
            proof {
                assert(sq == square_at(i as int));
                assert(sq.spec_index() == i as int);
            }
            if oracle_piece_at(p, sq).is_none() {
                let mv = Move::Drop { to: sq, piece_type };
                let ghost p_before = *p;
                let ok = probe_move(p, mv);
                proof {
                    if clean && apply_fault(p_before, mv) {
                        if drops_clean_upto(p0, piece_type, 81) {
                            lemma_drops_clean_mono(p0, piece_type, i as int + 1, 81);
                        }
                        clean = false;
                    }
                }
                if ok {
                    out.push(mv);
                }
            }
            i += 1;
        }
        out
    }

    /// Probes both variants of every candidate destination of `piece` on
    /// `from`.  When no probe hits a repetition-family refusal the position
    /// is untouched and the result is exactly `spec_legal_normals`.
    fn legal_moves_from(p: &mut shogi::Position, from: Square, piece: Piece) -> (out: Vec<Move>)
        requires
            from.wf(),
        ensures
            moves_wf(out@),
            board_moves_from(out@, from),
            normal_scan_clean(*old(p), from, piece) ==> *final(p) == *old(p) && out@
                == spec_legal_normals(*old(p), from, piece),
    {
        let ghost p0 = *old(p);
        let cands = oracle_move_candidates(p, from, piece);
        let ghost cs = cands@;
        let ghost mut clean: bool = true;
        let mut out: Vec<Move> = Vec::new();
        let mut i: usize = 0;
        while i < cands.len()
            invariant
                i <= cands.len(),
                cands@ == cs,
                cs == cands_of(p0, from, piece),
                from.wf(),
                forall|j: int| 0 <= j < cs.len() ==> (#[trigger] cs[j]).wf(),
                moves_wf(out@),
                board_moves_from(out@, from),
                clean ==> *p == p0 && out@ == normal_moves_upto(p0, cs, from, i as int)
                    && normals_clean_upto(p0, cs, from, i as int),
                !clean ==> !normal_scan_clean(p0, from, piece),
            decreases cands.len() - i,
        {
            let to = cands[i];
            let plain = Move::Normal { from, to, promote: false };
            let ghost p_before_plain = *p;
            let ok_plain = probe_move(p, plain);
            proof {
                if clean && apply_fault(p_before_plain, plain) {
                    if normals_clean_upto(p0, cs, from, cs.len() as int) {
                        lemma_normals_clean_mono(p0, cs, from, i as int + 1, cs.len() as int);
                    }
                    clean = false;
                }
            }
            if ok_plain {
                out.push(plain);
            }
            let promoting = Move::Normal { from, to, promote: true };
            let ghost p_before_promoting = *p;
            let ok_promoting = probe_move(p, promoting);
            proof {
                if clean && apply_fault(p_before_promoting, promoting) {
                    if normals_clean_upto(p0, cs, from, cs.len() as int) {
                        lemma_normals_clean_mono(p0, cs, from, i as int + 1, cs.len() as int);
                    }
                    clean = false;
                }
            }
            if ok_promoting {
                out.push(promoting);
            }
            i += 1;
        }
        out
    }
}

/// The last drop move among the first `n` whose destination is `to`.
pub open spec fn last_drop_to(ms: Seq<Move>, to: Square, n: int) -> Option<Move>
    decreases n,
{
    if n <= 0 {
        None
    } else if ms[n - 1] matches Move::Drop { to: _, piece_type: _ } && ms[n - 1].spec_to() == to {
        Some(ms[n - 1])
    } else {
        last_drop_to(ms, to, n - 1)
    }
}

/// The last normal move among the first `n` whose destination is `to` and
/// whose promote flag is `promote`.
pub open spec fn last_normal_to(ms: Seq<Move>, to: Square, promote: bool, n: int) -> Option<Move>
    decreases n,
{
    if n <= 0 {
        None
    } else if ms[n - 1] matches Move::Normal { from: _, to: t, promote: pr } && t == to && pr
        == promote {
        Some(ms[n - 1])
    } else {
        last_normal_to(ms, to, promote, n - 1)
    }
}

/// How the disambiguator classifies destination `to` against the moves `ms`:
/// a drop wins outright; both normal variants present ask for a choice; one
/// variant is a single match; nothing matching is a defensive no-op.
pub open spec fn spec_pick(ms: Seq<Move>, to: Square) -> MoveChoice {
    let n = ms.len() as int;
    let drop_mv = last_drop_to(ms, to, n);
    let promoting = last_normal_to(ms, to, true, n);
    let plain = last_normal_to(ms, to, false, n);
    if drop_mv is Some {
        MoveChoice::Single(drop_mv->0)
    } else if promoting is Some && plain is Some {
        MoveChoice::NeedsPromotion { promote: promoting->0, non_promote: plain->0 }
    } else if promoting is Some {
        MoveChoice::Single(promoting->0)
    } else if plain is Some {
        MoveChoice::Single(plain->0)
    } else {
        MoveChoice::NoMatch
    }
}

/// A found drop is one of the moves.
pub(crate) proof fn lemma_last_drop_member(ms: Seq<Move>, to: Square, n: int)
    requires
        n <= ms.len(),
        last_drop_to(ms, to, n) is Some,
    ensures
        exists|i: int|
            0 <= i < n && ms[i] == last_drop_to(ms, to, n)->0 && ms[i].spec_to() == to && ms[i]
                matches Move::Drop { to: _, piece_type: _ },
    decreases n,
{
    if n > 0 {
        if !(ms[n - 1] matches Move::Drop { to: _, piece_type: _ } && ms[n - 1].spec_to() == to) {
            lemma_last_drop_member(ms, to, n - 1);
        }
    }
}

/// A found normal move is one of the moves, with the asked-for flag.
pub(crate) proof fn lemma_last_normal_member(ms: Seq<Move>, to: Square, promote: bool, n: int)
    requires
        n <= ms.len(),
        last_normal_to(ms, to, promote, n) is Some,
    ensures
        exists|i: int|
            0 <= i < n && ms[i] == last_normal_to(ms, to, promote, n)->0 && (ms[i]
                matches Move::Normal { from: _, to: t, promote: pr } && t == to && pr == promote),
    decreases n,
{
    if n > 0 {
        if !(ms[n - 1] matches Move::Normal { from: _, to: t, promote: pr } && t == to && pr
            == promote) {
            lemma_last_normal_member(ms, to, promote, n - 1);
        }
    }
}

impl GameState {
    /// Scans the armed selection's legal moves for matches on `to`,
    /// classifying the destination as the disambiguator specifies.
    fn pick_move_to(&self, to: Square) -> (r: MoveChoice)
        ensures
            r == spec_pick(self.legal_moves@, to),
    {
        let ms = &self.legal_moves;
        let mut drop_mv: Option<Move> = None;
        let mut promoting: Option<Move> = None;
        let mut plain: Option<Move> = None;
        let mut i: usize = 0;
        while i < ms.len()
            invariant
                i <= ms.len(),
                drop_mv == last_drop_to(ms@, to, i as int),
                promoting == last_normal_to(ms@, to, true, i as int),
                plain == last_normal_to(ms@, to, false, i as int),
            decreases ms.len() - i,
        {
            let mv = ms[i];
            match mv {
                Move::Drop { to: dst, piece_type: _ } => {
                    if dst == to {
                        drop_mv = Some(mv);
                    }
                },
                Move::Normal { from: _, to: dst, promote } => {
                    if dst == to {
                        if promote {
                            promoting = Some(mv);
                        } else {
                            plain = Some(mv);
                        }
                    }
                },
            }
            i += 1;
        }
        if let Some(mv) = drop_mv {
            return MoveChoice::Single(mv);
        }
        match (promoting, plain) {
            (Some(p), Some(np)) => MoveChoice::NeedsPromotion { promote: p, non_promote: np },
            (Some(p), None) => MoveChoice::Single(p),
            (None, Some(np)) => MoveChoice::Single(np),
            (None, None) => MoveChoice::NoMatch,
        }
    }
}

/// What a commit attempt of `mv` leaves behind.  On success the move markers,
/// the sound cue and the cleared status are exact; on refusal the markers are
/// untouched, the cue is `Error` and a diagnostic is recorded.  Either way
/// the selection and any pending promotion are cleared and the move is never
/// retried.
pub open spec fn committed_post(pre: GameState, post: GameState, mv: Move) -> bool {
    let was_capture = (mv matches Move::Normal { from: _, to: _, promote: _ }) && board_of(pre.pos)[
        mv.spec_to().spec_index()
    ] is Some;
    &&& post.selected is None
    &&& post.selected_hand is None
    &&& post.legal_moves@.len() == 0
    &&& post.legal_destinations@.len() == 0
    &&& post.pending_promotion is None
    &&& if apply_ok(pre.pos, mv) {
        &&& post.pos == applied(pre.pos, mv)
        &&& side_of(post.pos) == side_of(pre.pos).spec_flip()
        &&& (mv matches Move::Drop { to: _, piece_type: _ }) ==> ({
            let pc = Piece { piece_type: mv->Drop_piece_type, color: side_of(pre.pos) };
            &&& board_of(post.pos)[mv.spec_to().spec_index()] == Some(pc)
            &&& hands_of(post.pos)[pc] == hands_of(pre.pos)[pc] - 1
        })
        &&& post.last_action_from == (match mv {
            Move::Normal { from, to: _, promote: _ } => Some(from),
            Move::Drop { to: _, piece_type: _ } => None,
        })
        &&& post.last_action_to == Some(mv.spec_to())
        &&& post.pending_sound == Some(
            if was_capture {
                SoundCue::Capture
            } else {
                SoundCue::Move
            },
        )
        &&& post.status@.len() == 0
    } else {
        &&& post.pending_sound == Some(SoundCue::Error)
        &&& post.status@.len() > 0
        &&& post.last_action_from == pre.last_action_from
        &&& post.last_action_to == pre.last_action_to
        &&& !apply_fault(pre.pos, mv) ==> post.pos == pre.pos
    }
}

impl GameState {
    /// Applies the resolved move: records the move markers and a `Move` or
    /// `Capture` cue on success, an `Error` cue and a diagnostic on refusal;
    /// clears the selection and any pending promotion either way.
    fn execute_move(&mut self, mv: Move)
        requires
            old(self).wf(),
            mv.wf(),
        ensures
            final(self).wf(),
            committed_post(*old(self), *final(self), mv),
    {
        let is_capture = match mv {
            Move::Normal { from: _, to, promote: _ } => self.piece_at(to).is_some(),
            Move::Drop { to: _, piece_type: _ } => false,
        };
        self.pending_promotion = None;
        match oracle_apply(&mut self.pos, mv) {
            None => {
                match mv {
                    Move::Normal { from, to, promote: _ } => {
                        self.last_action_from = Some(from);
                        self.last_action_to = Some(to);
                    },
                    Move::Drop { to, piece_type: _ } => {
                        self.last_action_from = None;
                        self.last_action_to = Some(to);
                    },
                }
                self.pending_sound = Some(
                    if is_capture {
                        SoundCue::Capture
                    } else {
                        SoundCue::Move
                    },
                );
                self.status = String::new();
                self.clear_selection();
            },
            Some(err) => {
                self.pending_sound = Some(SoundCue::Error);
                self.status = err;
                self.clear_selection();
            },
        }
        proof {
            assert(self.legal_destinations@ =~= moves_dests(self.legal_moves@));
        }
    }
}

/// What arming the board square `sq` (holding `piece`) leaves behind: the
/// selection is the square, the candidates come from the scan, and nothing
/// else changes.  When the scan was clean the candidates and the untouched
/// position are exact.
pub open spec fn selected_board_post(
    pre: GameState,
    post: GameState,
    sq: Square,
    piece: Piece,
) -> bool {
    &&& post.selected == Some(sq)
    &&& post.selected_hand is None
    &&& post.pending_promotion == pre.pending_promotion
    &&& post.last_action_from == pre.last_action_from
    &&& post.last_action_to == pre.last_action_to
    &&& post.pending_sound == pre.pending_sound
    &&& post.status == pre.status
    &&& post.legal_destinations@ == moves_dests(post.legal_moves@)
    &&& board_moves_from(post.legal_moves@, sq)
    &&& normal_scan_clean(pre.pos, sq, piece) ==> post.pos == pre.pos && post.legal_moves@
        == spec_legal_normals(pre.pos, sq, piece)
}

/// What arming the hand kind `k` leaves behind, in the same manner.
pub open spec fn selected_hand_post(pre: GameState, post: GameState, k: PieceType) -> bool {
    &&& post.selected is None
    &&& post.selected_hand == Some(k)
    &&& post.pending_promotion == pre.pending_promotion
    &&& post.last_action_from == pre.last_action_from
    &&& post.last_action_to == pre.last_action_to
    &&& post.pending_sound == pre.pending_sound
    &&& post.status == pre.status
    &&& post.legal_destinations@ == moves_dests(post.legal_moves@)
    &&& drops_of_kind(post.legal_moves@, k)
    &&& drop_scan_clean(pre.pos, k) ==> post.pos == pre.pos && post.legal_moves@
        == spec_legal_drops(pre.pos, k)
}

impl GameState {
    /// Arms the board square `sq` whose piece is `piece` and resolves its
    /// legal moves by probing the oracle.
    fn select_square(&mut self, sq: Square, piece: Piece)
        requires
            old(self).wf(),
            old(self).pending_promotion is None,
            sq.wf(),
        ensures
            final(self).wf(),
            selected_board_post(*old(self), *final(self), sq, piece),
    {
        self.selected = Some(sq);
        self.selected_hand = None;
        self.legal_moves = GameState::legal_moves_from(&mut self.pos, sq, piece);
        self.legal_destinations = dests_of(&self.legal_moves);
    }

    /// Arms the hand kind `k` and resolves its drop candidates by probing
    /// the oracle.
    fn arm_hand_piece(&mut self, piece_type: PieceType)
        requires
            old(self).wf(),
            old(self).pending_promotion is None,
        ensures
            final(self).wf(),
            selected_hand_post(*old(self), *final(self), piece_type),
    {
        self.selected = None;
        self.selected_hand = Some(piece_type);
        self.legal_moves = GameState::legal_drops_for(&mut self.pos, piece_type);
        self.legal_destinations = dests_of(&self.legal_moves);
    }
}

/// What a `select_hand_piece(k)` call leaves behind: a no-op while a
/// promotion is pending; a cleared selection when the side to move holds no
/// piece of the kind, or when the kind was already armed (the toggle);
/// otherwise the kind is armed and its drops resolved.
pub open spec fn hand_select_post(pre: GameState, post: GameState, k: PieceType) -> bool {
    if pre.pending_promotion is Some {
        post == pre
    } else if hands_of(pre.pos)[Piece { piece_type: k, color: side_of(pre.pos) }] == 0 {
        selection_cleared(pre, post)
    } else if pre.selected_hand == Some(k) {
        selection_cleared(pre, post)
    } else {
        selected_hand_post(pre, post, k)
    }
}

impl GameState {
    /// Discrete click on the hand bucket of kind `piece_type`.
    pub fn select_hand_piece(&mut self, piece_type: PieceType)
        requires
            old(self).wf(),
        ensures
            final(self).wf(),
            hand_select_post(*old(self), *final(self), piece_type),
    {
        if self.pending_promotion.is_some() {
            return ;
        }
        let color = self.side_to_move();
        if self.hand_count(color, piece_type) == 0 {
            self.clear_selection();
            proof {
                assert(self.legal_destinations@ =~= moves_dests(self.legal_moves@));
            }
            return ;
        }
        let already = match self.selected_hand {
            Some(k) => k == piece_type,
            None => false,
        };
        if already {
            self.clear_selection();
            proof {
                assert(self.legal_destinations@ =~= moves_dests(self.legal_moves@));
            }
            return ;
        }
        self.arm_hand_piece(piece_type);
    }
}

/// A promotion choice was opened for the two candidates: the selection is
/// cleared, the pair is pending, and nothing is committed.
pub open spec fn pending_set_post(
    pre: GameState,
    post: GameState,
    promoting: Move,
    plain: Move,
) -> bool {
    &&& post.selected is None
    &&& post.selected_hand is None
    &&& post.legal_moves@.len() == 0
    &&& post.legal_destinations@.len() == 0
    &&& post.pending_promotion == Some(PendingPromotion { promote: promoting, non_promote: plain })
    &&& post.pos == pre.pos
    &&& post.last_action_from == pre.last_action_from
    &&& post.last_action_to == pre.last_action_to
    &&& post.pending_sound == pre.pending_sound
    &&& post.status == pre.status
}

/// What a discrete click on board square `sq` leaves behind: a no-op while a
/// promotion is pending; with a hand kind armed, a drop on a marked
/// destination or a re-selection; with a board square armed, a toggle-off on
/// the same square, a resolved move on a marked destination, or a
/// re-selection; otherwise arming the clicked own piece or clearing.
pub open spec fn click_post(pre: GameState, post: GameState, sq: Square) -> bool {
    if pre.pending_promotion is Some {
        post == pre
    } else {
        let clicked = board_of(pre.pos)[sq.spec_index()];
        let own_piece = clicked matches Some(pc) && pc.color == side_of(pre.pos);
        if pre.selected_hand is Some {
            let k = pre.selected_hand->0;
            if pre.legal_destinations@.contains(sq) {
                committed_post(pre, post, Move::Drop { to: sq, piece_type: k })
            } else if own_piece {
                selected_board_post(pre, post, sq, clicked->0)
            } else {
                selection_cleared(pre, post)
            }
        } else if pre.selected == Some(sq) {
            selection_cleared(pre, post)
        } else if pre.selected is Some && pre.legal_destinations@.contains(sq) {
            match spec_pick(pre.legal_moves@, sq) {
                MoveChoice::Single(m) => committed_post(pre, post, m),
                MoveChoice::NeedsPromotion { promote, non_promote } => pending_set_post(
                    pre,
                    post,
                    promote,
                    non_promote,
                ),
                MoveChoice::NoMatch => post == pre,
            }
        } else if own_piece {
            selected_board_post(pre, post, sq, clicked->0)
        } else {
            selection_cleared(pre, post)
        }
    }
}

impl GameState {
    /// Opens the promotion choice for the classified pair and clears the
    /// selection, so that the choice is the only possible next step.
    fn open_promotion(&mut self, to: Square, promoting: Move, plain: Move)
        requires
            old(self).wf(),
            spec_pick(old(self).legal_moves@, to) == (MoveChoice::NeedsPromotion {
                promote: promoting,
                non_promote: plain,
            }),
            old(self).selected matches Some(ssq) && board_moves_from(old(self).legal_moves@, ssq),
        ensures
            final(self).wf(),
            pending_set_post(*old(self), *final(self), promoting, plain),
    {
        proof {
            let ms = self.legal_moves@;
            lemma_last_normal_member(ms, to, true, ms.len() as int);
            lemma_last_normal_member(ms, to, false, ms.len() as int);
        }
        self.pending_promotion = Some(PendingPromotion { promote: promoting, non_promote: plain });
        self.clear_selection();
        proof {
            assert(self.legal_destinations@ =~= moves_dests(self.legal_moves@));
        }
    }

    /// Discrete click on board square `sq`.
    pub fn on_square_clicked(&mut self, sq: Square)
        requires
            old(self).wf(),
            sq.wf(),
        ensures
            final(self).wf(),
            click_post(*old(self), *final(self), sq),
    {
        if self.pending_promotion.is_some() {
            return ;
        }
        let clicked_piece = self.piece_at(sq);
        let side = self.side_to_move();

        if let Some(piece_type) = self.selected_hand {
            if self.is_legal_destination(sq) {
                self.execute_move(Move::Drop { to: sq, piece_type });
                return ;
            }
            match clicked_piece {
                Some(piece) => {
                    if piece.color == side {
                        self.select_square(sq, piece);
                    } else {
                        self.clear_selection();
                        proof {
                            assert(self.legal_destinations@ =~= moves_dests(self.legal_moves@));
                        }
                    }
                },
                None => {
                    self.clear_selection();
                    proof {
                        assert(self.legal_destinations@ =~= moves_dests(self.legal_moves@));
                    }
                },
            }
            return ;
        }
        if let Some(selected_sq) = self.selected {
            if selected_sq == sq {
                self.clear_selection();
                proof {
                    assert(self.legal_destinations@ =~= moves_dests(self.legal_moves@));
                }
                return ;
            }
            if self.is_legal_destination(sq) {
                match self.pick_move_to(sq) {
                    MoveChoice::Single(chosen) => {
                        proof {
                            let ms = self.legal_moves@;
                            if last_drop_to(ms, sq, ms.len() as int) is Some {
                                lemma_last_drop_member(ms, sq, ms.len() as int);
                            } else if last_normal_to(ms, sq, true, ms.len() as int) is Some {
                                lemma_last_normal_member(ms, sq, true, ms.len() as int);
                            } else {
                                lemma_last_normal_member(ms, sq, false, ms.len() as int);
                            }
                        }
                        self.execute_move(chosen);
                    },
                    MoveChoice::NeedsPromotion { promote, non_promote } => {
                        self.open_promotion(sq, promote, non_promote);
                    },
                    MoveChoice::NoMatch => {},
                }
                return ;
            }
        }
        match clicked_piece {
            Some(piece) => {
                if piece.color == side {
                    self.select_square(sq, piece);
                } else {
                    self.clear_selection();
                    proof {
                        assert(self.legal_destinations@ =~= moves_dests(self.legal_moves@));
                    }
                }
            },
            None => {
                self.clear_selection();
                proof {
                    assert(self.legal_destinations@ =~= moves_dests(self.legal_moves@));
                }
            },
        }
    }
}

/// What a promotion decision leaves behind: with no choice pending, nothing;
/// otherwise the chosen candidate is committed.
pub open spec fn choose_post(pre: GameState, post: GameState, promote: bool) -> bool {
    match pre.pending_promotion {
        None => post == pre,
        Some(pp) => committed_post(
            pre,
            post,
            if promote {
                pp.promote
            } else {
                pp.non_promote
            },
        ),
    }
}

impl GameState {
    /// Resolves the pending promotion choice and commits the chosen variant.
    pub fn choose_promotion(&mut self, promote: bool)
        requires
            old(self).wf(),
        ensures
            final(self).wf(),
            choose_post(*old(self), *final(self), promote),
    {
        match self.pending_promotion {
            Some(pending) => {
                let mv = if promote {
                    pending.promote
                } else {
                    pending.non_promote
                };
                self.execute_move(mv);
            },
            None => {},
        }
    }

    /// Discards the pending promotion choice without committing anything;
    /// the board and the move markers stay as they were.
    pub fn cancel_promotion(&mut self)
        requires
            old(self).wf(),
        ensures
            final(self).wf(),
            *final(self) == (GameState { pending_promotion: None, ..*old(self) }),
    {
        self.pending_promotion = None;
    }
}

/// What a board drag from `from` released on `to` leaves behind: a no-op
/// while a promotion is pending; a cleared selection for a dragged-in-place,
/// foreign or illegal target; else the origin is armed and the target
/// resolved exactly as a click on it would be.
pub open spec fn board_drag_post(pre: GameState, post: GameState, from: Square, to: Square) -> bool {
    if pre.pending_promotion is Some {
        post == pre
    } else if from == to {
        selection_cleared(pre, post)
    } else {
        let origin = board_of(pre.pos)[from.spec_index()];
        if !(origin matches Some(pc) && pc.color == side_of(pre.pos)) {
            selection_cleared(pre, post)
        } else if normal_scan_clean(pre.pos, from, origin->0) {
            let ms = spec_legal_normals(pre.pos, from, origin->0);
            if !moves_dests(ms).contains(to) {
                selection_cleared(pre, post)
            } else {
                match spec_pick(ms, to) {
                    MoveChoice::Single(m) => committed_post(pre, post, m),
                    MoveChoice::NeedsPromotion { promote, non_promote } => pending_set_post(
                        pre,
                        post,
                        promote,
                        non_promote,
                    ),
                    MoveChoice::NoMatch => selection_cleared(pre, post),
                }
            }
        } else {
            post.selected is None && post.selected_hand is None && post.legal_moves@.len() == 0
                && post.legal_destinations@.len() == 0
        }
    }
}

/// What a hand drag of kind `k` released on `to` leaves behind.
pub open spec fn hand_drag_post(pre: GameState, post: GameState, k: PieceType, to: Square) -> bool {
    if pre.pending_promotion is Some {
        post == pre
    } else if hands_of(pre.pos)[Piece { piece_type: k, color: side_of(pre.pos) }] == 0 {
        selection_cleared(pre, post)
    } else if drop_scan_clean(pre.pos, k) {
        let ms = spec_legal_drops(pre.pos, k);
        if moves_dests(ms).contains(to) {
            committed_post(pre, post, Move::Drop { to, piece_type: k })
        } else {
            selection_cleared(pre, post)
        }
    } else {
        post.selected is None && post.selected_hand is None && post.legal_moves@.len() == 0
            && post.legal_destinations@.len() == 0
    }
}

/// What previewing a board drag from `from` leaves behind: the origin is
/// armed as a click on it would arm it.
pub open spec fn preview_board_post(pre: GameState, post: GameState, from: Square) -> bool {
    if pre.pending_promotion is Some {
        post == pre
    } else {
        let origin = board_of(pre.pos)[from.spec_index()];
        if origin matches Some(pc) && pc.color == side_of(pre.pos) {
            selected_board_post(pre, post, from, origin->0)
        } else {
            selection_cleared(pre, post)
        }
    }
}

impl GameState {
    /// Commits a completed drag gesture from board square `from` to `to`.
    pub fn perform_board_drag(&mut self, from: Square, to: Square)
        requires
            old(self).wf(),
            from.wf(),
            to.wf(),
        ensures
            final(self).wf(),
            board_drag_post(*old(self), *final(self), from, to),
    {
        if self.pending_promotion.is_some() {
            return ;
        }
        if from == to {
            self.clear_selection();
            proof {
                assert(self.legal_destinations@ =~= moves_dests(self.legal_moves@));
            }
            return ;
        }
        let piece = match self.piece_at(from) {
            Some(piece) => {
                if piece.color == self.side_to_move() {
                    Some(piece)
                } else {
                    None
                }
            },
            None => None,
        };
        let piece = match piece {
            Some(piece) => piece,
            None => {
                self.clear_selection();
                proof {
                    assert(self.legal_destinations@ =~= moves_dests(self.legal_moves@));
                }
                return ;
            },
        };
        self.select_square(from, piece);
        if !self.is_legal_destination(to) {
            self.clear_selection();
            proof {
                assert(self.legal_destinations@ =~= moves_dests(self.legal_moves@));
            }
            return ;
        }
        match self.pick_move_to(to) {
            MoveChoice::Single(chosen) => {
                proof {
                    let ms = self.legal_moves@;
                    if last_drop_to(ms, to, ms.len() as int) is Some {
                        lemma_last_drop_member(ms, to, ms.len() as int);
                    } else if last_normal_to(ms, to, true, ms.len() as int) is Some {
                        lemma_last_normal_member(ms, to, true, ms.len() as int);
                    } else {
                        lemma_last_normal_member(ms, to, false, ms.len() as int);
                    }
                }
                self.execute_move(chosen);
            },
            MoveChoice::NeedsPromotion { promote, non_promote } => {
                self.open_promotion(to, promote, non_promote);
            },
            MoveChoice::NoMatch => {
                self.clear_selection();
                proof {
                    assert(self.legal_destinations@ =~= moves_dests(self.legal_moves@));
                }
            },
        }
    }

    /// Commits a completed drag gesture of hand kind `piece_type` to `to`.
    pub fn perform_hand_drag(&mut self, piece_type: PieceType, to: Square)
        requires
            old(self).wf(),
            to.wf(),
        ensures
            final(self).wf(),
            hand_drag_post(*old(self), *final(self), piece_type, to),
    {
        if self.pending_promotion.is_some() {
            return ;
        }
        let color = self.side_to_move();
        if self.hand_count(color, piece_type) == 0 {
            self.clear_selection();
            proof {
                assert(self.legal_destinations@ =~= moves_dests(self.legal_moves@));
            }
            return ;
        }
        self.arm_hand_piece(piece_type);
        if self.is_legal_destination(to) {
            self.execute_move(Move::Drop { to, piece_type });
        } else {
            self.clear_selection();
            proof {
                assert(self.legal_destinations@ =~= moves_dests(self.legal_moves@));
            }
        }
    }

    /// Arms the origin of a drag that crossed the threshold, so destination
    /// highlighting is visible while dragging.
    pub fn preview_board_drag_from(&mut self, from: Square)
        requires
            old(self).wf(),
            from.wf(),
        ensures
            final(self).wf(),
            preview_board_post(*old(self), *final(self), from),
    {
        if self.pending_promotion.is_some() {
            return ;
        }
        let piece = match self.piece_at(from) {
            Some(piece) => {
                if piece.color == self.side_to_move() {
                    Some(piece)
                } else {
                    None
                }
            },
            None => None,
        };
        match piece {
            Some(piece) => self.select_square(from, piece),
            None => {
                self.clear_selection();
                proof {
                    assert(self.legal_destinations@ =~= moves_dests(self.legal_moves@));
                }
            },
        }
    }

    /// Arms the hand kind of a drag that crossed the threshold.
    pub fn preview_hand_drag_from(&mut self, piece_type: PieceType)
        requires
            old(self).wf(),
        ensures
            final(self).wf(),
            hand_select_post(*old(self), *final(self), piece_type),
    {
        self.select_hand_piece(piece_type);
    }

    /// The piece awaiting the promotion decision, read from the board.
    pub fn pending_promotion_piece(&self) -> (r: Option<Piece>)
        requires
            self.wf(),
        ensures
            r == (match self.pending_promotion {
                Some(pp) => (match pp.non_promote {
                    Move::Normal { from, to: _, promote: _ } => board_of(self.pos)[
                        from.spec_index()
                    ],
                    Move::Drop { to: _, piece_type: _ } => None,
                }),
                None => None::<Piece>,
            }),
    {
        match self.pending_promotion {
            None => None,
            Some(pp) => match pp.non_promote {
                Move::Normal { from, to: _, promote: _ } => self.piece_at(from),
                Move::Drop { to: _, piece_type: _ } => None,
            },
        }
    }

    /// The destination square of the pending promotion choice.
    pub fn pending_promotion_target_square(&self) -> (r: Option<Square>)
        ensures
            r == (match self.pending_promotion {
                Some(pp) => Some(pp.non_promote.spec_to()),
                None => None::<Square>,
            }),
    {
        match self.pending_promotion {
            None => None,
            Some(pp) => Some(pp.non_promote.to()),
        }
    }
}

/// Collects the destination of each move, in order.
fn dests_of(moves: &Vec<Move>) -> (out: Vec<Square>)
    ensures
        out@ == moves_dests(moves@),
{
    let mut out: Vec<Square> = Vec::new();
    let mut i: usize = 0;
    while i < moves.len()
        invariant
            i <= moves.len(),
            out@ == moves_dests(moves@.subrange(0, i as int)),
        decreases moves.len() - i,
    {
        out.push(moves[i].to());
        proof {
            assert(moves@.subrange(0, i + 1 as int) =~= moves@.subrange(0, i as int).push(
                moves@[i as int],
            ));
            assert(out@ =~= moves_dests(moves@.subrange(0, i + 1 as int)));
        }
        i += 1;
    }
    proof {
        assert(moves@.subrange(0, moves@.len() as int) =~= moves@);
    }
    out
}

/// Whether `v` holds `sq`.
fn contains_square(v: &Vec<Square>, sq: Square) -> (r: bool)
    ensures
        r == v@.contains(sq),
{
    let mut i: usize = 0;
    while i < v.len()
        invariant
            i <= v.len(),
            forall|j: int| 0 <= j < i ==> v@[j] != sq,
        decreases v.len() - i,
    {
        if v[i] == sq {
            return true;
        }
        i += 1;
    }
    false
}

} // verus!
