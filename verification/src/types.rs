//! Plain board vocabulary: sides, piece kinds, squares, pieces and moves.
//!
//! These types mirror the position oracle's vocabulary with plain values so
//! that the interaction logic can be specified and verified over them.

use vstd::prelude::*;

verus! {

/// One of the two players. Black moves first.
#[derive(Clone, Copy, Debug, PartialEq, Eq, Structural)]
pub enum Color {
    Black,
    White,
}

impl Color {
    /// The opposite side.
    pub open spec fn spec_flip(self) -> Color {
        match self {
            Color::Black => Color::White,
            Color::White => Color::Black,
        }
    }

    pub fn flip(self) -> (r: Color)
        ensures
            r == self.spec_flip(),
    {
        match self {
            Color::Black => Color::White,
            Color::White => Color::Black,
        }
    }
}

/// A kind of piece, promoted kinds included.
#[derive(Clone, Copy, Debug, PartialEq, Eq, Structural)]
pub enum PieceType {
    King,
    Rook,
    Bishop,
    Gold,
    Silver,
    Knight,
    Lance,
    Pawn,
    ProRook,
    ProBishop,
    ProSilver,
    ProKnight,
    ProLance,
    ProPawn,
}

impl PieceType {
    /// The ordinal the oracle uses for this kind.
    pub open spec fn spec_ord(self) -> int {
        match self {
            PieceType::King => 0,
            PieceType::Rook => 1,
            PieceType::Bishop => 2,
            PieceType::Gold => 3,
            PieceType::Silver => 4,
            PieceType::Knight => 5,
            PieceType::Lance => 6,
            PieceType::Pawn => 7,
            PieceType::ProRook => 8,
            PieceType::ProBishop => 9,
            PieceType::ProSilver => 10,
            PieceType::ProKnight => 11,
            PieceType::ProLance => 12,
            PieceType::ProPawn => 13,
        }
    }

    /// The kind with the given ordinal; out-of-range ordinals yield the king.
    pub fn from_ord(o: u8) -> (r: PieceType)
        ensures
            o < 14 ==> r.spec_ord() == o as int,
    {
        match o {
            0 => PieceType::King,
            1 => PieceType::Rook,
            2 => PieceType::Bishop,
            3 => PieceType::Gold,
            4 => PieceType::Silver,
            5 => PieceType::Knight,
            6 => PieceType::Lance,
            7 => PieceType::Pawn,
            8 => PieceType::ProRook,
            9 => PieceType::ProBishop,
            10 => PieceType::ProSilver,
            11 => PieceType::ProKnight,
            12 => PieceType::ProLance,
            13 => PieceType::ProPawn,
            _ => PieceType::King,
        }
    }

    pub fn ord(self) -> (r: u8)
        ensures
            r as int == self.spec_ord(),
            r < 14,
    {
        match self {
            PieceType::King => 0,
            PieceType::Rook => 1,
            PieceType::Bishop => 2,
            PieceType::Gold => 3,
            PieceType::Silver => 4,
            PieceType::Knight => 5,
            PieceType::Lance => 6,
            PieceType::Pawn => 7,
            PieceType::ProRook => 8,
            PieceType::ProBishop => 9,
            PieceType::ProSilver => 10,
            PieceType::ProKnight => 11,
            PieceType::ProLance => 12,
            PieceType::ProPawn => 13,
        }
    }
}

/// A piece: a kind together with its owner.
#[derive(Clone, Copy, Debug, PartialEq, Eq, Structural)]
pub struct Piece {
    pub piece_type: PieceType,
    pub color: Color,
}

/// A cell of the 9x9 board. `file` counts 0..9 from the right-hand '1' file,
/// `rank` counts 0..9 from the top 'a' rank, as the oracle does.
#[derive(Clone, Copy, Debug, PartialEq, Eq, Structural)]
pub struct Square {
    pub file: u8,
    pub rank: u8,
}

impl Square {
    /// Both coordinates lie on the board.
    pub open spec fn wf(self) -> bool {
        self.file < 9 && self.rank < 9
    }

    /// The unique cell number in 0..81, file-major.
    pub open spec fn spec_index(self) -> int {
        self.file * 9 + self.rank
    }

    /// Builds a square, rejecting coordinates off the board.
    pub fn new(file: u8, rank: u8) -> (r: Option<Square>)
        ensures
            file < 9 && rank < 9 ==> r == Some(Square { file, rank }),
            !(file < 9 && rank < 9) ==> r is None,
    {
        if file < 9 && rank < 9 {
            Some(Square { file, rank })
        } else {
            None
        }
    }

    pub fn index(self) -> (r: u8)
        requires
            self.wf(),
        ensures
            r as int == self.spec_index(),
            r < 81,
    {
        self.file * 9 + self.rank
    }
}

/// A move: either moving the piece standing on `from`, or dropping a captured
/// piece of the given kind from the hand.
#[derive(Clone, Copy, Debug, PartialEq, Eq, Structural)]
pub enum Move {
    Normal { from: Square, to: Square, promote: bool },
    Drop { to: Square, piece_type: PieceType },
}

impl Move {
    /// All squares of the move lie on the board.
    pub open spec fn wf(self) -> bool {
        match self {
            Move::Normal { from, to, promote: _ } => from.wf() && to.wf(),
            Move::Drop { to, piece_type: _ } => to.wf(),
        }
    }

    /// The destination square.
    pub open spec fn spec_to(self) -> Square {
        match self {
            Move::Normal { from: _, to, promote: _ } => to,
            Move::Drop { to, piece_type: _ } => to,
        }
    }

    pub fn to(self) -> (r: Square)
        ensures
            r == self.spec_to(),
    {
        match self {
            Move::Normal { from: _, to, promote: _ } => to,
            Move::Drop { to, piece_type: _ } => to,
        }
    }
}

/// The kind a piece of the given kind turns into when it promotes; kinds that
/// cannot promote are returned unchanged.
pub open spec fn spec_promoted_piece_type(piece_type: PieceType) -> PieceType {
    match piece_type {
        PieceType::Rook => PieceType::ProRook,
        PieceType::Bishop => PieceType::ProBishop,
        PieceType::Silver => PieceType::ProSilver,
        PieceType::Knight => PieceType::ProKnight,
        PieceType::Lance => PieceType::ProLance,
        PieceType::Pawn => PieceType::ProPawn,
        _ => piece_type,
    }
}

/// The one- or two-letter notation for a piece: upper case for Black, lower
/// case for White, with a `+` prefix for promoted kinds.
pub open spec fn spec_piece_label(piece: Piece) -> Seq<char> {
    match piece.color {
        Color::Black => match piece.piece_type {
            PieceType::King => "K"@,
            PieceType::Rook => "R"@,
            PieceType::Bishop => "B"@,
            PieceType::Gold => "G"@,
            PieceType::Silver => "S"@,
            PieceType::Knight => "N"@,
            PieceType::Lance => "L"@,
            PieceType::Pawn => "P"@,
            PieceType::ProRook => "+R"@,
            PieceType::ProBishop => "+B"@,
            PieceType::ProSilver => "+S"@,
            PieceType::ProKnight => "+N"@,
            PieceType::ProLance => "+L"@,
            PieceType::ProPawn => "+P"@,
        },
        Color::White => match piece.piece_type {
            PieceType::King => "k"@,
            PieceType::Rook => "r"@,
            PieceType::Bishop => "b"@,
            PieceType::Gold => "g"@,
            PieceType::Silver => "s"@,
            PieceType::Knight => "n"@,
            PieceType::Lance => "l"@,
            PieceType::Pawn => "p"@,
            PieceType::ProRook => "+r"@,
            PieceType::ProBishop => "+b"@,
            PieceType::ProSilver => "+s"@,
            PieceType::ProKnight => "+n"@,
            PieceType::ProLance => "+l"@,
            PieceType::ProPawn => "+p"@,
        },
    }
}

/// The notation label drawn on a piece when no image is available.
pub fn piece_label(piece: Piece) -> (r: String)
    ensures
        r@ == spec_piece_label(piece),
{
    let base = match piece.color {
        Color::Black => match piece.piece_type {
            PieceType::King => "K",
            PieceType::Rook => "R",
            PieceType::Bishop => "B",
            PieceType::Gold => "G",
            PieceType::Silver => "S",
            PieceType::Knight => "N",
            PieceType::Lance => "L",
            PieceType::Pawn => "P",
            PieceType::ProRook => "+R",
            PieceType::ProBishop => "+B",
            PieceType::ProSilver => "+S",
            PieceType::ProKnight => "+N",
            PieceType::ProLance => "+L",
            PieceType::ProPawn => "+P",
        },
        Color::White => match piece.piece_type {
            PieceType::King => "k",
            PieceType::Rook => "r",
            PieceType::Bishop => "b",
            PieceType::Gold => "g",
            PieceType::Silver => "s",
            PieceType::Knight => "n",
            PieceType::Lance => "l",
            PieceType::Pawn => "p",
            PieceType::ProRook => "+r",
            PieceType::ProBishop => "+b",
            PieceType::ProSilver => "+s",
            PieceType::ProKnight => "+n",
            PieceType::ProLance => "+l",
            PieceType::ProPawn => "+p",
        },
    };
    base.to_owned()
}

/// The English name of a piece kind.
pub open spec fn spec_piece_type_label(piece_type: PieceType) -> Seq<char> {
    match piece_type {
        PieceType::King => "King"@,
        PieceType::Rook => "Rook"@,
        PieceType::Bishop => "Bishop"@,
        PieceType::Gold => "Gold"@,
        PieceType::Silver => "Silver"@,
        PieceType::Knight => "Knight"@,
        PieceType::Lance => "Lance"@,
        PieceType::Pawn => "Pawn"@,
        PieceType::ProRook => "Dragon"@,
        PieceType::ProBishop => "Horse"@,
        PieceType::ProSilver => "Promoted Silver"@,
        PieceType::ProKnight => "Promoted Knight"@,
        PieceType::ProLance => "Promoted Lance"@,
        PieceType::ProPawn => "Tokin"@,
    }
}

/// The English name of a piece kind, for the status line.
pub fn piece_type_label(piece_type: PieceType) -> (r: &'static str)
    ensures
        r@ == spec_piece_type_label(piece_type),
{
    match piece_type {
        PieceType::King => "King",
        PieceType::Rook => "Rook",
        PieceType::Bishop => "Bishop",
        PieceType::Gold => "Gold",
        PieceType::Silver => "Silver",
        PieceType::Knight => "Knight",
        PieceType::Lance => "Lance",
        PieceType::Pawn => "Pawn",
        PieceType::ProRook => "Dragon",
        PieceType::ProBishop => "Horse",
        PieceType::ProSilver => "Promoted Silver",
        PieceType::ProKnight => "Promoted Knight",
        PieceType::ProLance => "Promoted Lance",
        PieceType::ProPawn => "Tokin",
    }
}

pub fn promoted_piece_type(piece_type: PieceType) -> (r: PieceType)
    ensures
        r == spec_promoted_piece_type(piece_type),
{
    match piece_type {
        PieceType::Rook => PieceType::ProRook,
        PieceType::Bishop => PieceType::ProBishop,
        PieceType::Silver => PieceType::ProSilver,
        PieceType::Knight => PieceType::ProKnight,
        PieceType::Lance => PieceType::ProLance,
        PieceType::Pawn => PieceType::ProPawn,
        other => other,
    }
}

} // verus!
