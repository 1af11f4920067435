//! The plain vocabulary: squares, piece kinds, labels, asset paths and the
//! action reducer.

use rshogi_core::action::{reduce_game, Action};
use rshogi_core::assets::{
    board_asset_path, piece_asset_key, sound_path, square_from_ui, BoardWallpaper, PieceWallpaper,
};
use rshogi_core::game::{GameState, SoundCue};
use rshogi_core::types::{
    piece_label, piece_type_label, promoted_piece_type, Color, Piece, PieceType, Square,
};

fn sq(file: u8, rank: u8) -> Square {
    Square::new(file, rank).expect("valid board coordinate")
}

#[test]
fn square_construction_and_index() {
    assert_eq!(Square::new(4, 4), Some(Square { file: 4, rank: 4 }));
    assert_eq!(Square::new(9, 0), None);
    assert_eq!(Square::new(0, 9), None);
    assert_eq!(sq(0, 0).index(), 0);
    assert_eq!(sq(4, 4).index(), 40);
    assert_eq!(sq(8, 8).index(), 80);
}

#[test]
fn square_from_ui_mirrors_the_grid() {
    // The top-left grid cell is the 9a corner, the top-right cell is 1a.
    assert_eq!(square_from_ui(0, 0), sq(8, 0));
    assert_eq!(square_from_ui(0, 8), sq(0, 0));
    assert_eq!(square_from_ui(8, 0), sq(8, 8));
    assert_eq!(square_from_ui(6, 2), sq(6, 6));
}

#[test]
fn color_flip_swaps_sides() {
    assert_eq!(Color::Black.flip(), Color::White);
    assert_eq!(Color::White.flip(), Color::Black);
}

#[test]
fn piece_type_ordinals_round_trip() {
    let kinds = [
        PieceType::King,
        PieceType::Rook,
        PieceType::Bishop,
        PieceType::Gold,
        PieceType::Silver,
        PieceType::Knight,
        PieceType::Lance,
        PieceType::Pawn,
        PieceType::ProRook,
        PieceType::ProBishop,
        PieceType::ProSilver,
        PieceType::ProKnight,
        PieceType::ProLance,
        PieceType::ProPawn,
    ];
    for (i, kind) in kinds.iter().enumerate() {
        assert_eq!(kind.ord() as usize, i);
        assert_eq!(PieceType::from_ord(kind.ord()), *kind);
    }
}

#[test]
fn promotion_table() {
    assert_eq!(promoted_piece_type(PieceType::Pawn), PieceType::ProPawn);
    assert_eq!(promoted_piece_type(PieceType::Lance), PieceType::ProLance);
    assert_eq!(promoted_piece_type(PieceType::Knight), PieceType::ProKnight);
    assert_eq!(promoted_piece_type(PieceType::Silver), PieceType::ProSilver);
    assert_eq!(promoted_piece_type(PieceType::Bishop), PieceType::ProBishop);
    assert_eq!(promoted_piece_type(PieceType::Rook), PieceType::ProRook);
    assert_eq!(promoted_piece_type(PieceType::Gold), PieceType::Gold);
    assert_eq!(promoted_piece_type(PieceType::King), PieceType::King);
    assert_eq!(promoted_piece_type(PieceType::ProPawn), PieceType::ProPawn);
}

#[test]
fn labels_follow_notation() {
    let bp = Piece { piece_type: PieceType::Pawn, color: Color::Black };
    let wp = Piece { piece_type: PieceType::Pawn, color: Color::White };
    let bd = Piece { piece_type: PieceType::ProRook, color: Color::Black };
    let wh = Piece { piece_type: PieceType::ProBishop, color: Color::White };
    assert_eq!(piece_label(bp), "P");
    assert_eq!(piece_label(wp), "p");
    assert_eq!(piece_label(bd), "+R");
    assert_eq!(piece_label(wh), "+b");
    assert_eq!(piece_type_label(PieceType::ProRook), "Dragon");
    assert_eq!(piece_type_label(PieceType::ProPawn), "Tokin");
    assert_eq!(piece_type_label(PieceType::Silver), "Silver");
}

#[test]
fn asset_keys_follow_the_csa_codes() {
    let bk = Piece { piece_type: PieceType::King, color: Color::Black };
    let wk = Piece { piece_type: PieceType::King, color: Color::White };
    let bp = Piece { piece_type: PieceType::Pawn, color: Color::Black };
    let wt = Piece { piece_type: PieceType::ProPawn, color: Color::White };
    assert_eq!(piece_asset_key(bk), "0OU");
    assert_eq!(piece_asset_key(wk), "1GY");
    assert_eq!(piece_asset_key(bp), "0FU");
    assert_eq!(piece_asset_key(wt), "1TO");
}

#[test]
fn wallpaper_menus_are_complete() {
    assert_eq!(PieceWallpaper::all().len(), 2);
    assert_eq!(PieceWallpaper::RyokoKanji.label(), "Ryoko 1kanji");
    assert_eq!(PieceWallpaper::Western.label(), "Western");
    assert_eq!(PieceWallpaper::Western.folder(), "western");
    assert_eq!(PieceWallpaper::RyokoKanji.folder(), "ryoko_1kanji");
    let boards = BoardWallpaper::all();
    assert_eq!(boards.len(), 11);
    assert_eq!(boards[0], BoardWallpaper::Oak);
    assert_eq!(BoardWallpaper::Oak.label(), "Oak");
    assert_eq!(BoardWallpaper::DobutsuFlip.label(), "Dobutsu Flip");
}

#[test]
fn board_asset_paths_are_exact() {
    assert_eq!(board_asset_path(BoardWallpaper::Oak), "boards/lishogi/oak.png");
    assert_eq!(board_asset_path(BoardWallpaper::Kaya1), "boards/lishogi/kaya1.jpg");
    assert_eq!(
        board_asset_path(BoardWallpaper::DobutsuFlip),
        "boards/lishogi/dobutsu_flip.png"
    );
}

#[test]
fn sound_paths_are_exact() {
    assert_eq!(sound_path(SoundCue::Move), "assets/sounds/lishogi/shogi/move.ogg");
    assert_eq!(sound_path(SoundCue::Capture), "assets/sounds/lishogi/shogi/capture.ogg");
    assert_eq!(sound_path(SoundCue::Error), "assets/sounds/lishogi/shogi/error.ogg");
}

#[test]
fn reducer_drives_the_game() {
    let mut g = GameState::new();
    reduce_game(&mut g, Action::ClickSquare(sq(6, 6)));
    assert_eq!(g.selected(), Some(sq(6, 6)));
    reduce_game(&mut g, Action::ClickSquare(sq(6, 5)));
    assert_eq!(g.ply(), 2);
    reduce_game(&mut g, Action::SelectHandPiece(PieceType::Pawn));
    assert_eq!(g.selected_hand_piece(), None);
    reduce_game(&mut g, Action::CancelPromotion);
    assert!(!g.has_pending_promotion());
}

#[test]
fn reducer_promotion_choice() {
    let mut g = GameState::new();
    reduce_game(&mut g, Action::ClickSquare(sq(6, 6)));
    reduce_game(&mut g, Action::ClickSquare(sq(6, 5)));
    reduce_game(&mut g, Action::ClickSquare(sq(2, 2)));
    reduce_game(&mut g, Action::ClickSquare(sq(2, 3)));
    reduce_game(&mut g, Action::ClickSquare(sq(7, 7)));
    reduce_game(&mut g, Action::ClickSquare(sq(1, 1)));
    assert!(g.has_pending_promotion());
    reduce_game(&mut g, Action::ChoosePromotion(true));
    assert!(!g.has_pending_promotion());
    assert_eq!(g.piece_at(sq(1, 1)).unwrap().piece_type, PieceType::ProBishop);
}
