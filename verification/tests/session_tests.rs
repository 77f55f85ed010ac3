//! Tests of the live session: state machine, replay cursor, input router
//! and scheduler.

use chess_session::play::PlayTab;
use chess_session::state::{ClickOutcome, Engine, MoveRec, Outcome, PieceKind, PlayState};

const START_FEN: &str = "rnbqkbnr/pppppppp/8/8/8/8/PPPPPPPP/RNBQKBNR w KQkq - 0 1";
const AFTER_E4_FEN: &str = "rnbqkbnr/pppppppp/8/8/4P3/8/PPPP1PPP/RNBQKBNR b KQkq e3 0 1";

// Square indices: a1 = 0, b1 = 1, ..., h8 = 63.
const E2: u8 = 12;
const E4: u8 = 28;
const E5: u8 = 36;
const E7: u8 = 52;
const E8: u8 = 60;
const G1: u8 = 6;
const F3: u8 = 21;
const G8: u8 = 62;
const F6: u8 = 45;

fn play(s: &mut PlayTab, from: u8, to: u8) {
    assert_eq!(s.click_tile(from), ClickOutcome::Selected);
    assert_eq!(s.click_tile(to), ClickOutcome::Moved);
}

#[test]
fn new_session_is_fresh() {
    let s = PlayTab::new();
    assert_eq!(s.state, PlayState::Playing(Outcome::Ongoing));
    assert_eq!(s.selected, None);
    assert_eq!(s.history_len(), 0);
    assert_eq!(s.live_fen(), START_FEN);
    assert_eq!(s.live_legal_moves().len(), 20);
}

#[test]
fn click_moves_a_pawn() {
    let mut s = PlayTab::new();
    assert_eq!(s.click_tile(E2), ClickOutcome::Selected);
    assert_eq!(s.selected, Some(E2));
    assert_eq!(s.click_tile(E4), ClickOutcome::Moved);
    assert_eq!(s.selected, None);
    assert_eq!(s.history_len(), 1);
    assert_eq!(
        s.history()[0],
        MoveRec { from: E2, to: E4, promo: None }
    );
    assert_eq!(s.live_fen(), AFTER_E4_FEN);
    assert_eq!(s.state, PlayState::Playing(Outcome::Ongoing));
}

#[test]
fn click_same_tile_deselects() {
    let mut s = PlayTab::new();
    assert_eq!(s.click_tile(E2), ClickOutcome::Selected);
    assert_eq!(s.click_tile(E2), ClickOutcome::Deselected);
    assert_eq!(s.selected, None);
    assert_eq!(s.history_len(), 0);
}

#[test]
fn illegal_destination_keeps_selection() {
    let mut s = PlayTab::new();
    assert_eq!(s.click_tile(E2), ClickOutcome::Selected);
    // e2 to e5 is not a legal pawn move.
    assert_eq!(s.click_tile(E5), ClickOutcome::Illegal);
    assert_eq!(s.selected, Some(E2));
    assert_eq!(s.history_len(), 0);
    assert_eq!(s.live_fen(), START_FEN);
}

#[test]
fn click_empty_square_without_selection_is_ignored() {
    let mut s = PlayTab::new();
    assert_eq!(s.click_tile(E4), ClickOutcome::Ignored);
    assert_eq!(s.selected, None);
}

#[test]
fn viewing_zero_on_empty_history_collapses_to_ongoing() {
    let mut s = PlayTab::new();
    s.jump_to_ply(0);
    assert_eq!(s.state, PlayState::Viewing(0));
    s.reconcile();
    assert_eq!(s.state, PlayState::Playing(Outcome::Ongoing));
}

#[test]
fn viewing_tip_collapses_after_moves() {
    let mut s = PlayTab::new();
    play(&mut s, E2, E4);
    play(&mut s, E7, E5);
    s.jump_to_ply(2);
    s.reconcile();
    assert_eq!(s.state, PlayState::Playing(Outcome::Ongoing));
}

#[test]
fn inspection_equals_full_replay() {
    let mut s = PlayTab::new();
    play(&mut s, E2, E4);
    play(&mut s, E7, E5);
    play(&mut s, G1, F3);
    // Inspect each ply and compare with a from-scratch session replaying
    // exactly the first `ply` recorded moves.
    let recs: Vec<MoveRec> = s.history().clone();
    for ply in 0..4usize {
        s.jump_to_ply(ply);
        s.reconcile();
        let mut fresh = PlayTab::new();
        for r in recs.iter().take(ply) {
            play(&mut fresh, r.from, r.to);
        }
        if ply < 3 {
            assert_eq!(s.state, PlayState::Viewing(ply));
            assert_eq!(s.view_fen(), fresh.live_fen());
            assert_eq!(s.displayed_fen(), fresh.live_fen());
        } else {
            // The live tip collapses back to play; the live board is shown.
            assert_eq!(s.state, PlayState::Playing(Outcome::Ongoing));
            assert_eq!(s.displayed_fen(), fresh.live_fen());
        }
    }
}

#[test]
fn cursor_moves_backward_and_forward() {
    let mut s = PlayTab::new();
    play(&mut s, E2, E4);
    play(&mut s, E7, E5);
    s.step_back();
    assert_eq!(s.state, PlayState::Viewing(1));
    assert_eq!(s.selected, None);
    s.reconcile();
    assert_eq!(s.view_fen(), AFTER_E4_FEN);
    s.step_back();
    assert_eq!(s.state, PlayState::Viewing(0));
    s.reconcile();
    assert_eq!(s.view_fen(), START_FEN);
    // Stepping below ply zero is a no-op.
    s.step_back();
    assert_eq!(s.state, PlayState::Viewing(0));
    s.step_forward();
    assert_eq!(s.state, PlayState::Viewing(1));
    s.step_forward();
    assert_eq!(s.state, PlayState::Viewing(2));
    s.reconcile();
    assert_eq!(s.state, PlayState::Playing(Outcome::Ongoing));
}

#[test]
fn undo_then_redo_reproduces_position() {
    let mut s = PlayTab::new();
    play(&mut s, E2, E4);
    play(&mut s, E7, E5);
    play(&mut s, G1, F3);
    let recorded: Vec<MoveRec> = s.history().clone();
    let fen_before = s.live_fen();
    s.undo();
    s.undo();
    s.undo();
    assert_eq!(s.history_len(), 0);
    assert_eq!(s.live_fen(), START_FEN);
    for r in recorded.iter() {
        play(&mut s, r.from, r.to);
    }
    assert_eq!(s.live_fen(), fen_before);
}

#[test]
fn undo_outside_live_play_changes_nothing() {
    let mut s = PlayTab::new();
    play(&mut s, E2, E4);
    s.jump_to_ply(0);
    s.undo();
    assert_eq!(s.history_len(), 1);
    assert_eq!(s.state, PlayState::Viewing(0));
}

#[test]
fn reset_returns_to_fresh_start() {
    let mut s = PlayTab::new();
    s.set_engine(Engine::Black);
    s.set_auto_queen(true);
    play(&mut s, E2, E4);
    s.click_tile(E7);
    s.reset();
    assert_eq!(s.history_len(), 0);
    assert_eq!(s.live_fen(), START_FEN);
    assert_eq!(s.state, PlayState::Playing(Outcome::Ongoing));
    assert_eq!(s.selected, None);
    // Settings survive a reset.
    assert_eq!(s.engine_plays, Engine::Black);
    assert!(s.auto_queen);
}

#[test]
fn promotion_needs_a_choice() {
    let mut s = PlayTab::from_fen("k7/4P3/8/8/8/8/8/4K3 w - - 0 1").unwrap();
    assert_eq!(s.click_tile(E7), ClickOutcome::Selected);
    assert_eq!(s.click_tile(E8), ClickOutcome::PromotionStarted);
    assert_eq!(s.state, PlayState::Promotion(E8));
    assert_eq!(s.selected, Some(E7));
    assert_eq!(s.history_len(), 0);
    let applied = s.choose_promotion(PieceKind::Queen);
    assert!(applied);
    assert_eq!(s.selected, None);
    assert_eq!(s.history_len(), 1);
    assert_eq!(
        s.history()[0],
        MoveRec { from: E7, to: E8, promo: Some(PieceKind::Queen) }
    );
    assert!(matches!(s.state, PlayState::Playing(_)));
}

#[test]
fn auto_queen_skips_the_promotion_state() {
    let mut s = PlayTab::from_fen("k7/4P3/8/8/8/8/8/4K3 w - - 0 1").unwrap();
    s.set_auto_queen(true);
    assert_eq!(s.click_tile(E7), ClickOutcome::Selected);
    assert_eq!(s.click_tile(E8), ClickOutcome::Moved);
    assert_eq!(s.selected, None);
    assert_eq!(s.history_len(), 1);
    assert_eq!(
        s.history()[0],
        MoveRec { from: E7, to: E8, promo: Some(PieceKind::Queen) }
    );
    assert!(matches!(s.state, PlayState::Playing(_)));
}

#[test]
fn underpromotion_is_accepted() {
    let mut s = PlayTab::from_fen("k7/4P3/8/8/8/8/8/4K3 w - - 0 1").unwrap();
    s.click_tile(E7);
    s.click_tile(E8);
    assert!(s.choose_promotion(PieceKind::Knight));
    assert_eq!(
        s.history()[0],
        MoveRec { from: E7, to: E8, promo: Some(PieceKind::Knight) }
    );
}

#[test]
fn scheduler_waits_for_the_interval() {
    let mut s = PlayTab::new();
    s.set_engine(Engine::Both);
    s.set_interval_ms(1000);
    let repaint = s.frame(500);
    assert_eq!(s.history_len(), 0);
    assert_eq!(s.timer_ms, 500);
    assert!(repaint);
    s.frame(500);
    assert_eq!(s.history_len(), 1);
    assert!(s.timer_ms < s.interval_ms);
    assert_eq!(s.timer_ms, 0);
    assert_eq!(s.selected, None);
}

#[test]
fn timer_never_exceeds_the_interval_on_human_turns() {
    let mut s = PlayTab::new();
    // No side is automated: the timer accumulates only up to the interval.
    s.set_interval_ms(500);
    s.frame(10_000);
    assert_eq!(s.timer_ms, 500);
    s.frame(10_000);
    assert_eq!(s.timer_ms, 500);
    assert_eq!(s.history_len(), 0);
    // Shrinking the interval clamps the timer with it.
    s.set_interval_ms(200);
    assert_eq!(s.timer_ms, 200);
}

#[test]
fn inspection_board_follows_the_live_tip() {
    let mut s = PlayTab::new();
    play(&mut s, E2, E4);
    s.reconcile();
    // Not viewing: the inspection position materialises the live tip.
    assert_eq!(s.view_fen(), s.live_fen());
    play(&mut s, E7, E5);
    s.reconcile();
    assert_eq!(s.view_fen(), s.live_fen());
}

#[test]
fn scheduler_ignores_human_turns() {
    let mut s = PlayTab::new();
    s.set_engine(Engine::Black);
    s.set_interval_ms(100);
    assert!(!s.engine_turn());
    s.frame(1000);
    assert_eq!(s.history_len(), 0);
    // After the human's move it is the automated side's turn.
    play(&mut s, E2, E4);
    assert!(s.engine_turn());
    s.frame(2000);
    assert_eq!(s.history_len(), 2);
}

#[test]
fn scheduler_on_terminal_position_changes_nothing() {
    // Black is checkmated; the automated player has no move.
    let mut s = PlayTab::from_fen("7k/6Q1/6K1/8/8/8/8/8 b - - 0 1").unwrap();
    s.set_engine(Engine::Both);
    s.set_interval_ms(10);
    s.frame(100);
    assert_eq!(s.history_len(), 0);
    assert_eq!(s.timer_ms, 0);
}

#[test]
fn checkmate_is_classified() {
    let mut s = PlayTab::from_fen("7k/6Q1/6K1/8/8/8/8/8 b - - 0 1").unwrap();
    let made = s.random_move();
    assert!(!made);
    assert_eq!(
        s.state,
        PlayState::Playing(Outcome::Checkmate { white_lost: false })
    );
    assert_eq!(
        PlayState::Playing(Outcome::Checkmate { white_lost: false }),
        s.state
    );
}

#[test]
fn stalemate_is_classified() {
    let mut s = PlayTab::from_fen("7k/5Q2/6K1/8/8/8/8/8 b - - 0 1").unwrap();
    assert!(!s.random_move());
    assert_eq!(s.state, PlayState::Playing(Outcome::Stalemate));
}

#[test]
fn insufficient_material_is_classified() {
    let mut s = PlayTab::from_fen("k7/8/8/8/8/8/8/K7 w - - 0 1").unwrap();
    s.jump_to_ply(0);
    s.reconcile();
    assert_eq!(s.state, PlayState::Playing(Outcome::InsufficientMaterial));
}

#[test]
fn fifty_move_rule_is_classified() {
    let mut s = PlayTab::from_fen("7k/8/6K1/8/6R1/8/8/8 w - - 100 60").unwrap();
    s.jump_to_ply(0);
    s.reconcile();
    assert_eq!(s.state, PlayState::Playing(Outcome::FiftyMoveRule));
}

#[test]
fn threefold_repetition_is_classified() {
    let mut s = PlayTab::new();
    for _ in 0..2 {
        play(&mut s, G1, F3);
        play(&mut s, G8, F6);
        play(&mut s, F3, G1);
        play(&mut s, F6, G8);
    }
    // The starting position has now occurred three times.
    assert_eq!(s.state, PlayState::Playing(Outcome::ThreeRepetition));
}

#[test]
fn external_records_drive_the_live_position() {
    let mut s = PlayTab::new();
    // An externally chosen legal move is applied and recorded.
    assert!(s.play_record(MoveRec { from: E2, to: E4, promo: None }));
    assert_eq!(s.live_fen(), AFTER_E4_FEN);
    assert_eq!(s.history_len(), 1);
    assert_eq!(s.selected, None);
    // An illegal record changes nothing of the game.
    assert!(!s.play_record(MoveRec { from: E2, to: E4, promo: None }));
    assert_eq!(s.live_fen(), AFTER_E4_FEN);
    assert_eq!(s.history_len(), 1);
}

#[test]
fn promotion_annotations_are_confined_to_the_last_ranks() {
    // The en-passant capture is addressable even with a stray promotion
    // annotation (the authority's lookup drops it), but no promotion choice
    // is ever offered off the last ranks.
    let mut s = PlayTab::from_fen("k7/8/8/3pP3/8/8/8/K7 w - d6 0 2").unwrap();
    assert_eq!(s.click_tile(36), ClickOutcome::Selected);
    assert_eq!(s.click_tile(43), ClickOutcome::Moved);
    assert!(matches!(s.state, PlayState::Playing(_)));
    assert_eq!(s.history()[0], MoveRec { from: 36, to: 43, promo: None });
}

#[test]
fn random_move_plays_one_legal_move() {
    let mut s = PlayTab::new();
    let made = s.random_move();
    assert!(made);
    assert_eq!(s.history_len(), 1);
    assert_eq!(s.selected, None);
    assert_ne!(s.live_fen(), START_FEN);
}

#[test]
fn moves_are_rejected_after_the_game_ends() {
    let mut s = PlayTab::from_fen("7k/6Q1/6K1/8/8/8/8/8 b - - 0 1").unwrap();
    assert!(!s.random_move());
    // The session is concluded: clicks no longer move pieces.
    assert_eq!(s.click_tile(63), ClickOutcome::Ignored);
    assert_eq!(s.history_len(), 0);
}

#[test]
fn from_fen_rejects_malformed_text() {
    assert!(PlayTab::from_fen("this is not notation").is_err());
    assert!(PlayTab::from_fen("").is_err());
    assert!(PlayTab::from_fen(START_FEN).is_ok());
}

#[test]
fn game_notation_lists_standard_names() {
    let mut s = PlayTab::new();
    play(&mut s, E2, E4);
    play(&mut s, E7, E5);
    play(&mut s, G1, F3);
    let tokens = s.game_notation();
    assert_eq!(tokens, vec!["e4".to_string(), "e5".to_string(), "Nf3".to_string()]);
}

#[test]
fn game_record_text_is_numbered() {
    let mut s = PlayTab::new();
    assert_eq!(s.pgn_text(), "");
    play(&mut s, E2, E4);
    play(&mut s, E7, E5);
    play(&mut s, G1, F3);
    assert_eq!(s.pgn_text(), "1. e4 e5 2. Nf3");
}

#[test]
fn displayed_pieces_follow_the_cursor() {
    let mut s = PlayTab::new();
    let grid = s.displayed_pieces();
    assert_eq!(grid.len(), 64);
    assert_eq!(grid[0], 4); // white rook on a1
    assert_eq!(grid[E2 as usize], 1); // white pawn on e2
    assert_eq!(grid[63], 10); // black rook on h8
    play(&mut s, E2, E4);
    let grid = s.displayed_pieces();
    assert_eq!(grid[E2 as usize], 0);
    assert_eq!(grid[E4 as usize], 1);
}

#[test]
fn legal_destinations_highlight_pawn_moves() {
    let s = PlayTab::new();
    let mut d = s.legal_destinations_from(E2);
    d.sort();
    assert_eq!(d, vec![20, E4]); // e3 and e4
    assert_eq!(s.legal_destinations_from(E5), Vec::<u8>::new());
}

#[test]
fn legal_destinations_list_each_square_once() {
    // Four promotion moves share the single destination square.
    let s = PlayTab::from_fen("k7/4P3/8/8/8/8/8/4K3 w - - 0 1").unwrap();
    assert_eq!(s.legal_destinations_from(E7), vec![E8]);
}

#[test]
fn castling_by_king_destination_click() {
    let mut s = PlayTab::from_fen("r3k2r/8/8/8/8/8/8/R3K2R w KQkq - 0 1").unwrap();
    // e1, then the king's destination g1.
    assert_eq!(s.click_tile(4), ClickOutcome::Selected);
    assert_eq!(s.click_tile(6), ClickOutcome::Moved);
    assert_eq!(s.live_fen(), "r3k2r/8/8/8/8/8/8/R4RK1 b kq - 1 1");
}

#[test]
fn en_passant_capture_by_click() {
    let mut s = PlayTab::from_fen("k7/8/8/3pP3/8/8/8/K7 w - d6 0 2").unwrap();
    // e5 takes d6 en passant.
    assert_eq!(s.click_tile(36), ClickOutcome::Selected);
    assert_eq!(s.click_tile(43), ClickOutcome::Moved);
    assert_eq!(s.live_fen(), "k7/8/3P4/8/8/8/8/K7 b - - 0 2");
}

#[test]
fn clicking_another_own_piece_reselects() {
    let mut s = PlayTab::new();
    assert_eq!(s.click_tile(E2), ClickOutcome::Selected);
    assert_eq!(s.click_tile(G1), ClickOutcome::Selected);
    assert_eq!(s.selected, Some(G1));
}

#[test]
fn step_back_with_no_history_is_a_no_op() {
    let mut s = PlayTab::new();
    s.step_back();
    assert_eq!(s.state, PlayState::Playing(Outcome::Ongoing));
}

#[test]
fn engine_labels_match() {
    assert_eq!(Engine::Neither.to_string(), "Neither");
    assert_eq!(Engine::White.to_string(), "White");
    assert_eq!(Engine::Black.to_string(), "Black");
    assert_eq!(Engine::Both.to_string(), "Both");
}

#[test]
fn outcome_messages_match() {
    assert_eq!(
        Outcome::Checkmate { white_lost: true }.message(),
        "Checkmate! Black wins."
    );
    assert_eq!(
        Outcome::Checkmate { white_lost: false }.message(),
        "Checkmate! White wins."
    );
    assert_eq!(Outcome::Stalemate.message(), "Stalemate! It's a draw.");
    assert_eq!(
        Outcome::InsufficientMaterial.message(),
        "Draw: Insufficient material."
    );
    assert_eq!(Outcome::FiftyMoveRule.message(), "Draw: 50-move rule.");
    assert_eq!(
        Outcome::ThreeRepetition.message(),
        "Draw: Threefold repetition."
    );
}
