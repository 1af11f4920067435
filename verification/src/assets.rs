//! Names and asset paths of the selectable board and piece artwork, the
//! sound cue files, and the board-grid geometry shared with the UI layer.

use vstd::prelude::*;

use crate::game::SoundCue;
use crate::types::{Color, Piece, PieceType, Square};

verus! {

/// Where a hand panel is anchored on the screen.
#[derive(Clone, Copy)]
pub enum HandPanelAnchor {
    Top,
    Bottom,
}

/// The selectable piece artwork sets.
#[derive(Clone, Copy, Debug, PartialEq, Eq, Structural)]
pub enum PieceWallpaper {
    RyokoKanji,
    Western,
}

impl PieceWallpaper {
    /// Every artwork set, in menu order.
    pub fn all() -> (r: [PieceWallpaper; 2])
        ensures
            r@ == seq![PieceWallpaper::RyokoKanji, PieceWallpaper::Western],
    {
        [PieceWallpaper::RyokoKanji, PieceWallpaper::Western]
    }

    /// The menu label of the set.
    pub open spec fn spec_label(self) -> Seq<char> {
        match self {
            PieceWallpaper::RyokoKanji => "Ryoko 1kanji"@,
            PieceWallpaper::Western => "Western"@,
        }
    }

    pub fn label(self) -> (r: &'static str)
        ensures
            r@ == self.spec_label(),
    {
        match self {
            PieceWallpaper::RyokoKanji => "Ryoko 1kanji",
            PieceWallpaper::Western => "Western",
        }
    }

    /// The directory under the piece-asset root that holds the set.
    pub open spec fn spec_folder(self) -> Seq<char> {
        match self {
            PieceWallpaper::RyokoKanji => "ryoko_1kanji"@,
            PieceWallpaper::Western => "western"@,
        }
    }

    pub fn folder(self) -> (r: &'static str)
        ensures
            r@ == self.spec_folder(),
    {
        match self {
            PieceWallpaper::RyokoKanji => "ryoko_1kanji",
            PieceWallpaper::Western => "western",
        }
    }
}

/// The selectable board backgrounds.
#[derive(Clone, Copy, Debug, PartialEq, Eq, Structural)]
pub enum BoardWallpaper {
    Oak,
    Kaya1,
    Kaya2,
    Wood,
    Wood1,
    Kinkaku,
    Painting1,
    Painting2,
    Space,
    Dobutsu,
    DobutsuFlip,
}

impl BoardWallpaper {
    /// Every board background, in menu order.
    pub fn all() -> (r: [BoardWallpaper; 11])
        ensures
            r@ == seq![
                BoardWallpaper::Oak,
                BoardWallpaper::Kaya1,
                BoardWallpaper::Kaya2,
                BoardWallpaper::Wood,
                BoardWallpaper::Wood1,
                BoardWallpaper::Kinkaku,
                BoardWallpaper::Painting1,
                BoardWallpaper::Painting2,
                BoardWallpaper::Space,
                BoardWallpaper::Dobutsu,
                BoardWallpaper::DobutsuFlip,
            ],
    {
        [
            BoardWallpaper::Oak,
            BoardWallpaper::Kaya1,
            BoardWallpaper::Kaya2,
            BoardWallpaper::Wood,
            BoardWallpaper::Wood1,
            BoardWallpaper::Kinkaku,
            BoardWallpaper::Painting1,
            BoardWallpaper::Painting2,
            BoardWallpaper::Space,
            BoardWallpaper::Dobutsu,
            BoardWallpaper::DobutsuFlip,
        ]
    }

    /// The menu label of the background.
    pub open spec fn spec_label(self) -> Seq<char> {
        match self {
            BoardWallpaper::Oak => "Oak"@,
            BoardWallpaper::Kaya1 => "Kaya 1"@,
            BoardWallpaper::Kaya2 => "Kaya 2"@,
            BoardWallpaper::Wood => "Wood"@,
            BoardWallpaper::Wood1 => "Wood 1"@,
            BoardWallpaper::Kinkaku => "Kinkaku"@,
            BoardWallpaper::Painting1 => "Painting 1"@,
            BoardWallpaper::Painting2 => "Painting 2"@,
            BoardWallpaper::Space => "Space"@,
            BoardWallpaper::Dobutsu => "Dobutsu"@,
            BoardWallpaper::DobutsuFlip => "Dobutsu Flip"@,
        }
    }

    pub fn label(self) -> (r: &'static str)
        ensures
            r@ == self.spec_label(),
    {
        match self {
            BoardWallpaper::Oak => "Oak",
            BoardWallpaper::Kaya1 => "Kaya 1",
            BoardWallpaper::Kaya2 => "Kaya 2",
            BoardWallpaper::Wood => "Wood",
            BoardWallpaper::Wood1 => "Wood 1",
            BoardWallpaper::Kinkaku => "Kinkaku",
            BoardWallpaper::Painting1 => "Painting 1",
            BoardWallpaper::Painting2 => "Painting 2",
            BoardWallpaper::Space => "Space",
            BoardWallpaper::Dobutsu => "Dobutsu",
            BoardWallpaper::DobutsuFlip => "Dobutsu Flip",
        }
    }
}

/// The embedded-asset path of a board background.
pub open spec fn spec_board_asset_path(board: BoardWallpaper) -> Seq<char> {
    match board {
        BoardWallpaper::Oak => "boards/lishogi/oak.png"@,
        BoardWallpaper::Kaya1 => "boards/lishogi/kaya1.jpg"@,
        BoardWallpaper::Kaya2 => "boards/lishogi/kaya2.jpg"@,
        BoardWallpaper::Wood => "boards/lishogi/wood.png"@,
        BoardWallpaper::Wood1 => "boards/lishogi/wood1.jpg"@,
        BoardWallpaper::Kinkaku => "boards/lishogi/kinkaku.jpg"@,
        BoardWallpaper::Painting1 => "boards/lishogi/painting1.jpg"@,
        BoardWallpaper::Painting2 => "boards/lishogi/painting2.jpg"@,
        BoardWallpaper::Space => "boards/lishogi/space.png"@,
        BoardWallpaper::Dobutsu => "boards/lishogi/dobutsu.png"@,
        BoardWallpaper::DobutsuFlip => "boards/lishogi/dobutsu_flip.png"@,
    }
}

pub fn board_asset_path(board: BoardWallpaper) -> (r: &'static str)
    ensures
        r@ == spec_board_asset_path(board),
{
    match board {
        BoardWallpaper::Oak => "boards/lishogi/oak.png",
        BoardWallpaper::Kaya1 => "boards/lishogi/kaya1.jpg",
        BoardWallpaper::Kaya2 => "boards/lishogi/kaya2.jpg",
        BoardWallpaper::Wood => "boards/lishogi/wood.png",
        BoardWallpaper::Wood1 => "boards/lishogi/wood1.jpg",
        BoardWallpaper::Kinkaku => "boards/lishogi/kinkaku.jpg",
        BoardWallpaper::Painting1 => "boards/lishogi/painting1.jpg",
        BoardWallpaper::Painting2 => "boards/lishogi/painting2.jpg",
        BoardWallpaper::Space => "boards/lishogi/space.png",
        BoardWallpaper::Dobutsu => "boards/lishogi/dobutsu.png",
        BoardWallpaper::DobutsuFlip => "boards/lishogi/dobutsu_flip.png",
    }
}

/// The file stem of a piece image: a side digit (0 for Black, 1 for White)
/// followed by the CSA-style piece code; the White king uses GY.
pub open spec fn spec_piece_asset_key(piece: Piece) -> Seq<char> {
    match piece.color {
        Color::Black => match piece.piece_type {
            PieceType::King => "0OU"@,
            PieceType::Rook => "0HI"@,
            PieceType::Bishop => "0KA"@,
            PieceType::Gold => "0KI"@,
            PieceType::Silver => "0GI"@,
            PieceType::Knight => "0KE"@,
            PieceType::Lance => "0KY"@,
            PieceType::Pawn => "0FU"@,
            PieceType::ProRook => "0RY"@,
            PieceType::ProBishop => "0UM"@,
            PieceType::ProSilver => "0NG"@,
            PieceType::ProKnight => "0NK"@,
            PieceType::ProLance => "0NY"@,
            PieceType::ProPawn => "0TO"@,
        },
        Color::White => match piece.piece_type {
            PieceType::King => "1GY"@,
            PieceType::Rook => "1HI"@,
            PieceType::Bishop => "1KA"@,
            PieceType::Gold => "1KI"@,
            PieceType::Silver => "1GI"@,
            PieceType::Knight => "1KE"@,
            PieceType::Lance => "1KY"@,
            PieceType::Pawn => "1FU"@,
            PieceType::ProRook => "1RY"@,
            PieceType::ProBishop => "1UM"@,
            PieceType::ProSilver => "1NG"@,
            PieceType::ProKnight => "1NK"@,
            PieceType::ProLance => "1NY"@,
            PieceType::ProPawn => "1TO"@,
        },
    }
}

/// The file stem of a piece's image asset.
pub fn piece_asset_key(piece: Piece) -> (r: String)
    ensures
        r@ == spec_piece_asset_key(piece),
{
    let key = match piece.color {
        Color::Black => match piece.piece_type {
            PieceType::King => "0OU",
            PieceType::Rook => "0HI",
            PieceType::Bishop => "0KA",
            PieceType::Gold => "0KI",
            PieceType::Silver => "0GI",
            PieceType::Knight => "0KE",
            PieceType::Lance => "0KY",
            PieceType::Pawn => "0FU",
            PieceType::ProRook => "0RY",
            PieceType::ProBishop => "0UM",
            PieceType::ProSilver => "0NG",
            PieceType::ProKnight => "0NK",
            PieceType::ProLance => "0NY",
            PieceType::ProPawn => "0TO",
        },
        Color::White => match piece.piece_type {
            PieceType::King => "1GY",
            PieceType::Rook => "1HI",
            PieceType::Bishop => "1KA",
            PieceType::Gold => "1KI",
            PieceType::Silver => "1GI",
            PieceType::Knight => "1KE",
            PieceType::Lance => "1KY",
            PieceType::Pawn => "1FU",
            PieceType::ProRook => "1RY",
            PieceType::ProBishop => "1UM",
            PieceType::ProSilver => "1NG",
            PieceType::ProKnight => "1NK",
            PieceType::ProLance => "1NY",
            PieceType::ProPawn => "1TO",
        },
    };
    key.to_owned()
}

/// The file of a sound cue, relative to the asset root.
pub open spec fn spec_sound_path(cue: SoundCue) -> Seq<char> {
    match cue {
        SoundCue::Move => "assets/sounds/lishogi/shogi/move.ogg"@,
        SoundCue::Capture => "assets/sounds/lishogi/shogi/capture.ogg"@,
        SoundCue::Error => "assets/sounds/lishogi/shogi/error.ogg"@,
    }
}

pub fn sound_path(cue: SoundCue) -> (r: &'static str)
    ensures
        r@ == spec_sound_path(cue),
{
    match cue {
        SoundCue::Move => "assets/sounds/lishogi/shogi/move.ogg",
        SoundCue::Capture => "assets/sounds/lishogi/shogi/capture.ogg",
        SoundCue::Error => "assets/sounds/lishogi/shogi/error.ogg",
    }
}

/// The square drawn in the given board-grid cell.  The UI counts columns
/// left to right and rows top to bottom, so column 0 is file 8 and row 0 is
/// rank 0.
pub fn square_from_ui(row: u8, col: u8) -> (r: Square)
    requires
        row < 9,
        col < 9,
    ensures
        r == (Square { file: (8 - col as int) as u8, rank: row }),
        r.wf(),
{
    Square { file: 8 - col, rank: row }
}

} // verus!
