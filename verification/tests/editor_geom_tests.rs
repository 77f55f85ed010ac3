//! Tests of the position editor and the coordinate mapper.

use chess_session::geom::{screen_to_tile, tile_to_screen};
use chess_session::play::PlayTab;
use chess_session::position_creator::PositionTab;
use chess_session::state::{NotationError, PieceKind};

const START_FEN: &str = "rnbqkbnr/pppppppp/8/8/8/8/PPPPPPPP/RNBQKBNR w KQkq - 0 1";

#[test]
fn new_editor_writes_the_standard_start() {
    let e = PositionTab::new();
    assert_eq!(e.to_fen(), START_FEN);
    assert!(e.white_to_play);
    assert!(e.castle_wk && e.castle_wq && e.castle_bk && e.castle_bq);
    assert_eq!(e.selected_piece, None);
}

#[test]
fn cleared_board_writes_empty_ranks() {
    let mut e = PositionTab::new();
    e.clear();
    assert_eq!(e.to_fen(), "8/8/8/8/8/8/8/8 w - - 0 1");
}

#[test]
fn placement_coalesces_empty_runs() {
    let mut e = PositionTab::new();
    e.clear();
    e.toggle_brush(PieceKind::King, true);
    e.click_tile(4); // e1
    e.toggle_brush(PieceKind::King, true); // release the brush
    e.toggle_brush(PieceKind::King, false);
    e.click_tile(56); // a8
    assert_eq!(e.to_fen(), "k7/8/8/8/8/8/8/4K3 w - - 0 1");
}

#[test]
fn brush_toggles_and_removal_works() {
    let mut e = PositionTab::new();
    e.toggle_brush(PieceKind::Queen, true);
    assert_eq!(e.selected_piece, Some((PieceKind::Queen, true)));
    e.toggle_brush(PieceKind::Queen, true);
    assert_eq!(e.selected_piece, None);
    // With no brush, a click removes the occupant.
    e.click_tile(0);
    assert_eq!(e.squares[0], 0);
    assert!(e.to_fen().starts_with("rnbqkbnr/pppppppp/8/8/8/8/PPPPPPPP/1NBQKBNR"));
}

#[test]
fn castling_and_turn_flags_are_written() {
    let mut e = PositionTab::new();
    e.set_turn(false);
    e.castle_wq = false;
    e.castle_bk = false;
    assert_eq!(
        e.to_fen(),
        "rnbqkbnr/pppppppp/8/8/8/8/PPPPPPPP/RNBQKBNR b Kq - 0 1"
    );
}

#[test]
fn malformed_notation_leaves_the_editor_unchanged() {
    let mut e = PositionTab::new();
    e.toggle_brush(PieceKind::Rook, false);
    let before_squares = e.squares.clone();
    let before_fen = e.to_fen();
    let r = e.load_fen("rnbqkbnr/ppp!pppp/8/x/8 nonsense");
    assert!(r.is_err());
    assert_eq!(e.squares, before_squares);
    assert_eq!(e.to_fen(), before_fen);
    assert_eq!(e.selected_piece, Some((PieceKind::Rook, false)));
}

#[test]
fn notation_errors_are_distinguished() {
    let mut e = PositionTab::new();
    // Unreadable text is a syntax error.
    assert_eq!(e.load_fen("garbage"), Err(NotationError::Syntax));
    // Readable text without kings is not a playable position.
    assert_eq!(
        e.load_fen("8/8/8/8/8/8/8/8 w - - 0 1"),
        Err(NotationError::Position)
    );
}

#[test]
fn loading_valid_notation_round_trips() {
    let mut e = PositionTab::new();
    e.clear();
    e.toggle_brush(PieceKind::King, true);
    e.click_tile(4);
    e.toggle_brush(PieceKind::King, true);
    e.toggle_brush(PieceKind::King, false);
    e.click_tile(56);
    let text = e.to_fen();
    let mut other = PositionTab::new();
    assert!(other.load_fen(&text).is_ok());
    assert_eq!(other.to_fen(), text);
}

#[test]
fn edited_position_starts_a_session() {
    let mut e = PositionTab::new();
    e.clear();
    e.toggle_brush(PieceKind::King, true);
    e.click_tile(4);
    e.toggle_brush(PieceKind::King, true);
    e.toggle_brush(PieceKind::King, false);
    e.click_tile(56);
    let s = PlayTab::from_fen(&e.to_fen()).unwrap();
    assert_eq!(s.live_fen(), "k7/8/8/8/8/8/8/4K3 w - - 0 1");
    // An empty board is refused by the authority; the handoff surfaces it.
    let mut empty = PositionTab::new();
    empty.clear();
    assert!(PlayTab::from_fen(&empty.to_fen()).is_err());
}

#[test]
fn tiles_map_to_screen_regions() {
    // 800-pixel board at the origin, white at the bottom: e2 sits in the
    // fifth column, second row from the bottom.
    let (x, y, ts) = tile_to_screen(4, 1, 0, 0, 800, false);
    assert_eq!(ts, 100);
    assert_eq!((x, y), (400, 600));
    // Flipped, the same tile mirrors horizontally and vertically.
    let (x, y, _) = tile_to_screen(4, 1, 0, 0, 800, true);
    assert_eq!((x, y), (300, 100));
}

#[test]
fn points_map_back_to_tiles() {
    assert_eq!(screen_to_tile(450, 650, 0, 0, 800, false), (4, 1));
    assert_eq!(screen_to_tile(350, 150, 0, 0, 800, true), (4, 1));
    // Points outside the board clamp onto its edge.
    assert_eq!(screen_to_tile(-50, 10_000, 0, 0, 800, false), (0, 0));
    assert_eq!(screen_to_tile(10_000, -50, 0, 0, 800, false), (7, 7));
    // The region of a tile maps back to that tile.
    let (x, y, ts) = tile_to_screen(6, 3, 40, 20, 640, false);
    assert_eq!(
        screen_to_tile(x + ts as i64 / 2, y + ts as i64 / 2, 40, 20, 640, false),
        (6, 3)
    );
}
