//! The trusted boundary to the rules authority.
//!
//! The session treats a chess position as an opaque value of
//! `shakmaty::Chess` and consumes the chess rules (move legality, move
//! application, terminal classification, notation) through the wrappers in
//! this module.  Each wrapper's contract is stated over uninterpreted names:
//! `board_rep` stands for the canonical notation text of the position a
//! board holds, and the other names are fixed functions of that text.  The
//! rules of chess make every operation below a deterministic function of the
//! position (and the submitted move record), which is what justifies naming
//! their results.

use vstd::prelude::*;

use crate::state::{MoveRec, NotationError, PieceKind};
use rand::Rng;
use shakmaty::zobrist::ZobristHash;
use shakmaty::Position;

verus! {

#[verifier::external_type_specification]
#[verifier::external_body]
pub struct ExChess(shakmaty::Chess);

/// The canonical notation text (FEN, with the en passant square always
/// written) of the position a board holds.  Two boards with equal `board_rep`
/// are the same position in every respect the wrappers below depend on.
pub uninterp spec fn board_rep(b: &shakmaty::Chess) -> Seq<char>;

/// The position reached from position `p` by playing the legal move that the
/// coordinate record `m` resolves to.  Meaningful only when `uci_legal(p, m)`.
pub uninterp spec fn step_rep(p: Seq<char>, m: MoveRec) -> Seq<char>;

/// Whether the coordinate record `m` resolves to a legal move in position `p`.
/// A pawn advance to the last rank with no promotion piece given does not.
pub uninterp spec fn uci_legal(p: Seq<char>, m: MoveRec) -> bool;

/// The legal moves of position `p`, as coordinate records, in the authority's
/// generation order.
pub uninterp spec fn legal_ucis(p: Seq<char>) -> Seq<MoveRec>;

/// Whether white is the side to move in position `p`.
pub uninterp spec fn white_to_move(p: Seq<char>) -> bool;

/// Whether the side to move in `p` is checkmated.
pub uninterp spec fn checkmate_pos(p: Seq<char>) -> bool;

/// Whether the side to move in `p` is stalemated.
pub uninterp spec fn stalemate_pos(p: Seq<char>) -> bool;

/// Whether neither side of `p` has sufficient winning material.
pub uninterp spec fn insufficient_pos(p: Seq<char>) -> bool;

/// The half-move clock of `p`: half-moves since the last capture or pawn move.
pub uninterp spec fn clock_of(p: Seq<char>) -> u32;

/// The repetition digest of `p`: a hash of the position without its move
/// counters, so that repeated positions repeat the digest.
pub uninterp spec fn hash_of(p: Seq<char>) -> u64;

/// Whether square `sq` of position `p` holds a piece of the side to move.
pub uninterp spec fn own_piece_at(p: Seq<char>, sq: u8) -> bool;

/// Whether the text `s` is valid notation for a playable position.
pub uninterp spec fn fen_ok(s: Seq<char>) -> bool;

/// The canonical notation text of the position described by `s`.
/// Meaningful only when `fen_ok(s)`.
pub uninterp spec fn parsed_rep(s: Seq<char>) -> Seq<char>;

/// The standard algebraic notation of the move that `m` resolves to in `p`.
/// Meaningful only when `uci_legal(p, m)`.
pub uninterp spec fn san_text(p: Seq<char>, m: MoveRec) -> Seq<char>;

/// The occupant of each of the 64 squares of `p`, by square index:
/// 0 for an empty square, 1..=6 for a white pawn..king, 7..=12 for a black
/// pawn..king.
pub uninterp spec fn pieces_of(p: Seq<char>) -> Seq<u8>;

/// The castling rights of `p` as a bit mask: 1 white kingside, 2 white
/// queenside, 4 black kingside, 8 black queenside.
pub uninterp spec fn castles_of(p: Seq<char>) -> u8;

/// The canonical notation text of the standard initial position.
pub open spec fn start_rep() -> Seq<char> {
    "rnbqkbnr/pppppppp/8/8/8/8/PPPPPPPP/RNBQKBNR w KQkq - 0 1"@
}

/// Relies on `shakmaty::Chess::default`: the standard initial position.
#[verifier::external_body]
pub fn standard_board() -> (b: shakmaty::Chess)
    ensures
        board_rep(&b) == start_rep(),
{
    shakmaty::Chess::default()
}

/// Relies on `shakmaty::Chess`'s derived `Clone`: the copy is the same
/// position.
#[verifier::external_body]
pub fn clone_board(b: &shakmaty::Chess) -> (c: shakmaty::Chess)
    ensures
        board_rep(&c) == board_rep(b),
{
    b.clone()
}

/// Relies on `shakmaty::uci::UciMove::to_move` (legality lookup of a
/// coordinate move) and `shakmaty::Position::play_unchecked` (move
/// application): plays the move `m` resolves to, if it is legal, and
/// otherwise leaves the board unchanged.
#[verifier::external_body]
pub fn play_uci(b: &mut shakmaty::Chess, m: MoveRec) -> (ok: bool)
    requires
        m.squares_ok(),
    ensures
        ok == uci_legal(board_rep(old(b)), m),
        ok ==> board_rep(final(b)) == step_rep(board_rep(old(b)), m),
        !ok ==> board_rep(final(b)) == board_rep(old(b)),
{
    let uci = shakmaty::uci::UciMove::Normal {
        from: shakmaty::Square::new(m.from as u32),
        to: shakmaty::Square::new(m.to as u32),
        promotion: m.promo.map(|k| shakmaty::Role::ALL[(k.code() - 1) as usize]),
    };
    match uci.to_move(&*b) {
        Ok(mv) => {
            b.play_unchecked(mv);
            true
        },
        Err(_) => false,
    }
}

/// Relies on `shakmaty::Position::legal_moves` and
/// `shakmaty::Move::to_uci`: the legal moves of the position, each as its
/// coordinate record.  Every listed record resolves to a legal move; a
/// legal promotion — necessarily into the first or last rank — is always
/// listed under its exact record, and every listed record carrying a
/// promotion targets those ranks; an empty list means the position has no
/// legal move at all.  Two records stay outside these clauses: a castling
/// move can also be addressed by the king's move onto the rook's square,
/// and a promotion-annotated record whose destination is off the last rank
/// can resolve to an en-passant capture (the annotation is dropped by the
/// lookup); the list repeats neither.
#[verifier::external_body]
pub fn legal_recs(b: &shakmaty::Chess) -> (v: Vec<MoveRec>)
    ensures
        v@ == legal_ucis(board_rep(b)),
        forall|m: MoveRec| #[trigger] v@.contains(m) ==> uci_legal(board_rep(b), m),
        forall|m: MoveRec|
            #[trigger] uci_legal(board_rep(b), m) && m.promo is Some && (m.to < 8 || m.to >= 56)
                ==> v@.contains(m),
        forall|i: int|
            0 <= i < v@.len() && (#[trigger] v@[i]).promo is Some ==> v@[i].to < 8 || v@[i].to
                >= 56,
        v@.len() == 0 ==> (forall|m: MoveRec| !(#[trigger] uci_legal(board_rep(b), m))),
        forall|i: int| 0 <= i < v@.len() ==> (#[trigger] v@[i]).squares_ok(),
{
    let mut v = Vec::new();
    for mv in b.legal_moves() {
        if let shakmaty::uci::UciMove::Normal { from, to, promotion } = mv.to_uci(
            shakmaty::CastlingMode::Standard,
        ) {
            let promo = promotion.map(|r| PieceKind::from_code(r as u8));
            v.push(MoveRec { from: from as u8, to: to as u8, promo });
        }
    }
    v
}

/// Relies on `shakmaty::Position::is_checkmate`.
#[verifier::external_body]
pub fn board_checkmate(b: &shakmaty::Chess) -> (r: bool)
    ensures
        r == checkmate_pos(board_rep(b)),
{
    b.is_checkmate()
}

/// Relies on `shakmaty::Position::is_stalemate`.
#[verifier::external_body]
pub fn board_stalemate(b: &shakmaty::Chess) -> (r: bool)
    ensures
        r == stalemate_pos(board_rep(b)),
{
    b.is_stalemate()
}

/// Relies on `shakmaty::Position::is_insufficient_material`.
#[verifier::external_body]
pub fn board_insufficient(b: &shakmaty::Chess) -> (r: bool)
    ensures
        r == insufficient_pos(board_rep(b)),
{
    b.is_insufficient_material()
}

/// Relies on `shakmaty::Position::halfmoves`: the half-move clock.
#[verifier::external_body]
pub fn board_clock(b: &shakmaty::Chess) -> (r: u32)
    ensures
        r == clock_of(board_rep(b)),
{
    b.halfmoves()
}

/// Relies on `shakmaty::Position::turn`.
#[verifier::external_body]
pub fn board_white_to_move(b: &shakmaty::Chess) -> (r: bool)
    ensures
        r == white_to_move(board_rep(b)),
{
    b.turn().is_white()
}

/// Relies on `shakmaty::zobrist::ZobristHash::zobrist_hash`: a digest of the
/// position without its move counters, deterministic for equal positions.
#[verifier::external_body]
pub fn board_hash(b: &shakmaty::Chess) -> (r: u64)
    ensures
        r == hash_of(board_rep(b)),
{
    b.zobrist_hash::<shakmaty::zobrist::Zobrist64>(shakmaty::EnPassantMode::Legal).0
}

/// Relies on `shakmaty::board::Board::by_color` and
/// `shakmaty::Position::turn`: whether the square holds a piece of the side
/// to move.
#[verifier::external_body]
pub fn board_own_piece(b: &shakmaty::Chess, sq: u8) -> (r: bool)
    requires
        sq < 64,
    ensures
        r == own_piece_at(board_rep(b), sq),
{
    b.board().by_color(b.turn()).contains(shakmaty::Square::new(sq as u32))
}

/// Relies on `shakmaty::fen::Fen::from_position` with the en passant square
/// always written: renders the canonical notation text of the position.
#[verifier::external_body]
pub fn board_fen(b: &shakmaty::Chess) -> (r: String)
    ensures
        r@ == board_rep(b),
{
    shakmaty::fen::Fen::from_position(b, shakmaty::EnPassantMode::Always).to_string()
}

/// Relies on `shakmaty::fen::Fen::from_ascii` (notation syntax) and
/// `shakmaty::fen::Fen::into_position` (position validity): parses a
/// notation text into a playable position, or says why it cannot.
#[verifier::external_body]
pub fn parse_fen(s: &str) -> (r: Result<shakmaty::Chess, NotationError>)
    ensures
        r is Ok <==> fen_ok(s@),
        r matches Ok(b) ==> board_rep(&b) == parsed_rep(s@),
{
    match shakmaty::fen::Fen::from_ascii(s.as_bytes()) {
        Err(_) => Err(NotationError::Syntax),
        Ok(f) => match f.into_position(shakmaty::CastlingMode::Standard) {
            Ok(p) => Ok(p),
            Err(_) => Err(NotationError::Position),
        },
    }
}

/// Relies on `shakmaty::uci::UciMove::to_move` and
/// `shakmaty::san::San::from_move`: the standard algebraic notation of the
/// legal move that `m` resolves to.
#[verifier::external_body]
pub fn board_san(b: &shakmaty::Chess, m: MoveRec) -> (r: Option<String>)
    requires
        m.squares_ok(),
    ensures
        r is Some <==> uci_legal(board_rep(b), m),
        r matches Some(s) ==> s@ == san_text(board_rep(b), m),
{
    let uci = shakmaty::uci::UciMove::Normal {
        from: shakmaty::Square::new(m.from as u32),
        to: shakmaty::Square::new(m.to as u32),
        promotion: m.promo.map(|k| shakmaty::Role::ALL[(k.code() - 1) as usize]),
    };
    match uci.to_move(b) {
        Ok(mv) => Some(shakmaty::san::San::from_move(b, mv).to_string()),
        Err(_) => None,
    }
}

/// Relies on `shakmaty::board::Board::piece_at`: the occupant of each square,
/// encoded as 0 for empty, 1..=6 for a white pawn..king, 7..=12 for a black
/// pawn..king.
#[verifier::external_body]
pub fn board_pieces(b: &shakmaty::Chess) -> (v: Vec<u8>)
    ensures
        v@ == pieces_of(board_rep(b)),
        v@.len() == 64,
        forall|i: int| 0 <= i < 64 ==> v@[i] <= 12,
{
    let mut v = Vec::with_capacity(64);
    for i in 0..64u32 {
        v.push(match b.board().piece_at(shakmaty::Square::new(i)) {
            None => 0u8,
            Some(p) => (p.role as u8) + if p.color.is_white() { 0 } else { 6 },
        });
    }
    v
}

/// Relies on `shakmaty::Position::castles` and
/// `shakmaty::setup::Castles::castling_rights`: the castling rights as a bit
/// mask (1 white kingside, 2 white queenside, 4 black kingside, 8 black
/// queenside).
#[verifier::external_body]
pub fn board_castles(b: &shakmaty::Chess) -> (r: u8)
    ensures
        r == castles_of(board_rep(b)),
        r < 16,
{
    let rights = b.castles().castling_rights();
    let mut mask = 0u8;
    if rights.contains(shakmaty::Square::H1) { mask |= 1; }
    if rights.contains(shakmaty::Square::A1) { mask |= 2; }
    if rights.contains(shakmaty::Square::H8) { mask |= 4; }
    if rights.contains(shakmaty::Square::A8) { mask |= 8; }
    mask
}

/// Relies on `rand::rng` and `rand::Rng::random_range`: a uniformly random
/// index below `n`.  Nothing more is promised of the value.
#[verifier::external_body]
pub fn random_below(n: usize) -> (r: usize)
    requires
        n > 0,
    ensures
        r < n,
{
    rand::rng().random_range(0..n)
}

} // verus!
