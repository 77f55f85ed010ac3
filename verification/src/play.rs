//! The live play session: session state machine, replay cursor engine,
//! input router and automated-move scheduler.
//!
//! A session owns the authoritative live position, an inspection position
//! re-derived from the recorded move history, and the session state proper.
//! Both positions are characterised, through [`crate::authority::board_rep`],
//! as replays of prefixes of the history from the initial position, so the
//! well-formedness predicate [`PlayTab::wf`] ties every board the session
//! holds to the history that produced it.

use vstd::prelude::*;

use crate::authority::{
    board_checkmate, board_clock, board_fen, board_hash, board_insufficient, board_own_piece,
    board_pieces, board_rep, board_san, board_stalemate, board_white_to_move, checkmate_pos,
    clock_of, clone_board, fen_ok, hash_of, insufficient_pos, legal_recs, legal_ucis,
    own_piece_at, parse_fen, parsed_rep, pieces_of, play_uci, random_below, san_text,
    standard_board, start_rep, stalemate_pos, step_rep, uci_legal, white_to_move,
};
use crate::replay::{lemma_replay_push, lemma_replay_take_push, lemma_replay_take_step, replay};
use crate::state::{ClickOutcome, Engine, MoveRec, NotationError, Outcome, PieceKind, PlayState};

verus! {

/// How often a value occurs in a sequence of digests.
pub open spec fn count_eq(hs: Seq<u64>, x: u64) -> nat
    decreases hs.len(),
{
    if hs.len() == 0 {
        0
    } else {
        count_eq(hs.drop_last(), x) + if hs.last() == x {
            1nat
        } else {
            0nat
        }
    }
}

/// The outcome of position `p`, classified the way the session derives it:
/// checkmate and stalemate and insufficient material from the rules
/// authority, the fifty-move rule from the half-move clock, and threefold
/// repetition from the digests of the positions the game has passed through
/// (`hs` holds one digest per visited position, the current one included).
pub open spec fn outcome_of(p: Seq<char>, hs: Seq<u64>) -> Outcome {
    if checkmate_pos(p) {
        Outcome::Checkmate { white_lost: white_to_move(p) }
    } else if stalemate_pos(p) {
        Outcome::Stalemate
    } else if insufficient_pos(p) {
        Outcome::InsufficientMaterial
    } else if clock_of(p) >= 100 {
        Outcome::FiftyMoveRule
    } else if count_eq(hs, hash_of(p)) >= 3 {
        Outcome::ThreeRepetition
    } else {
        Outcome::Ongoing
    }
}

/// Whether some promotion move from `s` to `t` is legal in position `p`.
/// A promotion necessarily lands on the first or last rank.
pub open spec fn promotion_available(p: Seq<char>, s: u8, t: u8) -> bool {
    &&& (t < 8 || t >= 56)
    &&& exists|k: PieceKind| #[trigger] uci_legal(p, MoveRec { from: s, to: t, promo: Some(k) })
}

/// Whether some move of `moves` leaves `from` towards `d`.
pub open spec fn moves_from_to(moves: Seq<MoveRec>, from: u8, d: u8) -> bool {
    exists|j: int| 0 <= j < moves.len() && (#[trigger] moves[j]).from == from && moves[j].to == d
}

/// The decimal digit character of `n` in `0..=9`.
pub open spec fn dec_digit(n: nat) -> char {
    if n == 0 {
        '0'
    } else if n == 1 {
        '1'
    } else if n == 2 {
        '2'
    } else if n == 3 {
        '3'
    } else if n == 4 {
        '4'
    } else if n == 5 {
        '5'
    } else if n == 6 {
        '6'
    } else if n == 7 {
        '7'
    } else if n == 8 {
        '8'
    } else {
        '9'
    }
}

/// The decimal digits of `n`, most significant first.
#[verifier::opaque]
pub open spec fn dec_digits(n: nat) -> Seq<char>
    decreases n,
{
    if n < 10 {
        seq![dec_digit(n)]
    } else {
        dec_digits(n / 10).push(dec_digit(n % 10))
    }
}

/// A saturating 64-bit addition, the timer's accumulation step.
pub open spec fn sat_add(a: u64, b: u64) -> u64 {
    if a + b > u64::MAX {
        u64::MAX
    } else {
        (a + b) as u64
    }
}

/// The live play session.
pub struct PlayTab {
    /// The position the session started from; never mutated.  The methods
    /// of this type keep [`PlayTab::wf`]; callers outside the crate must not
    /// write the fields directly.
    pub initial: shakmaty::Chess,
    /// The authoritative live position.
    pub board: shakmaty::Chess,
    /// The inspection position, re-derived from the history by the replay
    /// cursor.
    pub view_board: shakmaty::Chess,
    /// The ply the inspection position currently materialises.
    pub view_ply: usize,
    /// The ordered, append-only move history of the live position.
    pub history: Vec<MoveRec>,
    /// One repetition digest per position the game has passed through:
    /// `hashes[i]` belongs to the position after the first `i` moves.
    pub hashes: Vec<u64>,
    /// The session state proper.
    pub state: PlayState,
    /// The picked-up tile, if any.
    pub selected: Option<u8>,
    /// Whether the board is drawn with black at the bottom.
    pub flipped: bool,
    /// Whether promotions silently resolve to a queen.
    pub auto_queen: bool,
    /// Which sides the automated player controls.
    pub engine_plays: Engine,
    /// Elapsed milliseconds since the automated player last acted.
    pub timer_ms: u64,
    /// The configured automated-move interval in milliseconds.
    pub interval_ms: u64,
}

impl PlayTab {
    /// The notation text of the initial position.
    pub open spec fn start(self) -> Seq<char> {
        board_rep(&self.initial)
    }

    /// The position after the first `i` recorded moves.
    pub open spec fn rep_at(self, i: int) -> Seq<char> {
        replay(self.start(), self.history@.take(i))
    }

    /// The live position: the whole history replayed from the start.
    pub open spec fn live_rep(self) -> Seq<char> {
        replay(self.start(), self.history@)
    }

    /// The recorded history.
    pub open spec fn hist(self) -> Seq<MoveRec> {
        self.history@
    }

    /// The session state proper.
    pub open spec fn st(self) -> PlayState {
        self.state
    }

    /// The picked-up tile, if any.
    pub open spec fn sel(self) -> Option<u8> {
        self.selected
    }

    /// The position digests, one per visited position.
    pub open spec fn digests(self) -> Seq<u64> {
        self.hashes@
    }

    /// Well-formedness: every board the session holds is the replay of a
    /// history prefix, every recorded move was legal where it was played,
    /// the digests track the visited positions, and the state's payloads
    /// stay within the history.
    pub open spec fn wf(self) -> bool {
        &&& board_rep(&self.board) == self.live_rep()
        &&& self.view_ply <= self.history@.len()
        &&& board_rep(&self.view_board) == self.rep_at(self.view_ply as int)
        &&& self.hashes@.len() == self.history@.len() + 1
        &&& (forall|i: int|
            0 <= i <= self.history@.len() ==> self.hashes@[i] == hash_of(self.rep_at(i)))
        &&& (forall|i: int|
            0 <= i < self.history@.len() ==> uci_legal(
                self.rep_at(i),
                #[trigger] self.history@[i],
            ))
        &&& (forall|i: int| 0 <= i < self.history@.len() ==> (#[trigger] self.history@[i]).squares_ok())
        &&& (self.state matches PlayState::Viewing(p) ==> p <= self.history@.len())
        &&& (self.state matches PlayState::Promotion(t) ==> self.selected is Some && t < 64)
        &&& (self.selected is Some ==> !(self.state is Viewing))
        &&& (self.selected matches Some(t) ==> t < 64)
        &&& self.interval_ms >= 1
        &&& self.timer_ms <= self.interval_ms
    }

    /// The ply the inspection position must materialise: the inspected ply
    /// while viewing, the live tip otherwise.
    pub open spec fn inspected_ply(self) -> int {
        match self.state {
            PlayState::Viewing(p) => p as int,
            _ => self.history@.len() as int,
        }
    }

    /// The replay cursor agrees with the state: the inspection position
    /// materialises exactly the inspected ply (the live tip when not
    /// viewing), and a viewed ply lies strictly inside the history
    /// (inspection at the live tip has collapsed to live play).
    pub open spec fn reconciled(self) -> bool {
        &&& self.wf()
        &&& self.view_ply == self.inspected_ply()
        &&& (self.state matches PlayState::Viewing(p) ==> p < self.history@.len())
    }

    /// The user-configurable settings, unchanged by the game actions.
    pub open spec fn same_settings(self, o: Self) -> bool {
        &&& self.flipped == o.flipped
        &&& self.auto_queen == o.auto_queen
        &&& self.engine_plays == o.engine_plays
        &&& self.interval_ms == o.interval_ms
    }

    /// The live game (initial position, live position, history, digests)
    /// unchanged.
    pub open spec fn same_game(self, o: Self) -> bool {
        &&& self.initial == o.initial
        &&& board_rep(&self.board) == board_rep(&o.board)
        &&& self.history@ == o.history@
        &&& self.hashes@ == o.hashes@
    }

    /// The inspection cursor unchanged.
    pub open spec fn same_view(self, o: Self) -> bool {
        &&& self.view_board == o.view_board
        &&& self.view_ply == o.view_ply
    }

    /// Whether the side to move of the live position is automated.
    pub open spec fn engine_turn_spec(self) -> bool {
        match self.engine_plays {
            Engine::Neither => false,
            Engine::Both => true,
            Engine::White => white_to_move(self.live_rep()),
            Engine::Black => !white_to_move(self.live_rep()),
        }
    }

    /// A fresh session from the given starting board.
    fn from_board(initial: shakmaty::Chess) -> (s: Self)
        ensures
            s.wf(),
            s.start() == board_rep(&initial),
            s.hist().len() == 0,
            s.st() == PlayState::Playing(Outcome::Ongoing),
            s.sel() is None,
            !s.flipped && !s.auto_queen,
            s.engine_plays == Engine::Neither,
            s.timer_ms == 0,
            s.interval_ms == 1000,
    {
        let board = clone_board(&initial);
        let view_board = clone_board(&initial);
        let h0 = board_hash(&board);
        let mut hashes: Vec<u64> = Vec::new();
        hashes.push(h0);
        let s = PlayTab {
            initial,
            board,
            view_board,
            view_ply: 0,
            history: Vec::new(),
            hashes,
            state: PlayState::Playing(Outcome::Ongoing),
            selected: None,
            flipped: false,
            auto_queen: false,
            engine_plays: Engine::Neither,
            timer_ms: 0,
            interval_ms: 1000,
        };
        proof {
            assert(s.history@.take(0) =~= Seq::<MoveRec>::empty());
            assert(s.history@ =~= Seq::<MoveRec>::empty());
        }
        s
    }

    /// A fresh session at the standard initial position.
    pub fn new() -> (s: Self)
        ensures
            s.wf(),
            s.start() == start_rep(),
            s.hist().len() == 0,
            s.st() == PlayState::Playing(Outcome::Ongoing),
            s.sel() is None,
            !s.flipped && !s.auto_queen,
            s.engine_plays == Engine::Neither,
            s.timer_ms == 0,
            s.interval_ms == 1000,
    {
        Self::from_board(standard_board())
    }

    /// A fresh session at the position the notation text describes, or the
    /// reason the text was refused.  The session is created if and only if
    /// the text is valid notation for a playable position.
    pub fn from_fen(text: &str) -> (r: Result<Self, NotationError>)
        ensures
            r is Ok <==> fen_ok(text@),
            r matches Ok(s) ==> {
                &&& s.wf()
                &&& s.start() == parsed_rep(text@)
                &&& s.hist().len() == 0
                &&& s.st() == PlayState::Playing(Outcome::Ongoing)
                &&& s.sel() is None
            },
    {
        match parse_fen(text) {
            Ok(b) => Ok(Self::from_board(b)),
            Err(e) => Err(e),
        }
    }

    /// The session state.
    pub fn state(&self) -> (r: PlayState)
        ensures
            r == self.st(),
    {
        self.state
    }

    /// The picked-up tile, if any.
    pub fn selected(&self) -> (r: Option<u8>)
        ensures
            r == self.sel(),
    {
        self.selected
    }

    /// The number of recorded half-moves.
    pub fn history_len(&self) -> (r: usize)
        ensures
            r == self.hist().len(),
    {
        self.history.len()
    }

    /// The recorded history.
    pub fn history(&self) -> (r: &Vec<MoveRec>)
        ensures
            r@ == self.hist(),
    {
        &self.history
    }

    /// Whether the board is drawn flipped.
    pub fn flipped(&self) -> (r: bool)
        ensures
            r == self.flipped,
    {
        self.flipped
    }

    /// Whether promotions silently resolve to a queen.
    pub fn auto_queen(&self) -> (r: bool)
        ensures
            r == self.auto_queen,
    {
        self.auto_queen
    }

    /// Which sides the automated player controls.
    pub fn engine(&self) -> (r: Engine)
        ensures
            r == self.engine_plays,
    {
        self.engine_plays
    }

    /// Elapsed milliseconds since the automated player last acted.
    pub fn timer(&self) -> (r: u64)
        ensures
            r == self.timer_ms,
    {
        self.timer_ms
    }

    /// The configured automated-move interval in milliseconds.
    pub fn interval(&self) -> (r: u64)
        ensures
            r == self.interval_ms,
    {
        self.interval_ms
    }

    /// Flips the board orientation.
    pub fn flip(&mut self)
        requires
            old(self).wf(),
        ensures
            final(self).wf(),
            final(self).flipped == !old(self).flipped,
            final(self).same_game(*old(self)),
            final(self).same_view(*old(self)),
            final(self).st() == old(self).st(),
            final(self).sel() == old(self).sel(),
            final(self).auto_queen == old(self).auto_queen,
            final(self).engine_plays == old(self).engine_plays,
            final(self).timer_ms == old(self).timer_ms,
            final(self).interval_ms == old(self).interval_ms,
    {
        self.flipped = !self.flipped;
    }

    /// Configures silent queen promotion.
    pub fn set_auto_queen(&mut self, on: bool)
        requires
            old(self).wf(),
        ensures
            final(self).wf(),
            final(self).auto_queen == on,
            final(self).same_game(*old(self)),
            final(self).same_view(*old(self)),
            final(self).st() == old(self).st(),
            final(self).sel() == old(self).sel(),
            final(self).flipped == old(self).flipped,
            final(self).engine_plays == old(self).engine_plays,
            final(self).timer_ms == old(self).timer_ms,
            final(self).interval_ms == old(self).interval_ms,
    {
        self.auto_queen = on;
    }

    /// Assigns the sides the automated player controls.
    pub fn set_engine(&mut self, e: Engine)
        requires
            old(self).wf(),
        ensures
            final(self).wf(),
            final(self).engine_plays == e,
            final(self).same_game(*old(self)),
            final(self).same_view(*old(self)),
            final(self).st() == old(self).st(),
            final(self).sel() == old(self).sel(),
            final(self).flipped == old(self).flipped,
            final(self).auto_queen == old(self).auto_queen,
            final(self).timer_ms == old(self).timer_ms,
            final(self).interval_ms == old(self).interval_ms,
    {
        self.engine_plays = e;
    }

    /// Configures the automated-move interval; intervals below one
    /// millisecond are raised to one, and the timer is clamped so that it
    /// never exceeds the interval.
    pub fn set_interval_ms(&mut self, ms: u64)
        requires
            old(self).wf(),
        ensures
            final(self).wf(),
            final(self).interval_ms == if ms >= 1 {
                ms
            } else {
                1u64
            },
            final(self).same_game(*old(self)),
            final(self).same_view(*old(self)),
            final(self).st() == old(self).st(),
            final(self).sel() == old(self).sel(),
            final(self).flipped == old(self).flipped,
            final(self).auto_queen == old(self).auto_queen,
            final(self).engine_plays == old(self).engine_plays,
            final(self).timer_ms == (if old(self).timer_ms <= final(self).interval_ms {
                old(self).timer_ms
            } else {
                final(self).interval_ms
            }),
    {
        self.interval_ms = if ms >= 1 {
            ms
        } else {
            1
        };
        if self.timer_ms > self.interval_ms {
            self.timer_ms = self.interval_ms;
        }
    }

    /// Whether the side to move of the live position is automated.
    pub fn engine_turn(&self) -> (r: bool)
        requires
            self.wf(),
        ensures
            r == self.engine_turn_spec(),
    {
        match self.engine_plays {
            Engine::Neither => false,
            Engine::Both => true,
            Engine::White => board_white_to_move(&self.board),
            Engine::Black => !board_white_to_move(&self.board),
        }
    }

    /// The notation text of the live position.
    pub fn live_fen(&self) -> (r: String)
        requires
            self.wf(),
        ensures
            r@ == self.live_rep(),
    {
        board_fen(&self.board)
    }

    /// The notation text of the inspection position.
    pub fn view_fen(&self) -> (r: String)
        requires
            self.wf(),
        ensures
            r@ == self.rep_at(self.view_ply as int),
    {
        board_fen(&self.view_board)
    }

    /// The position to draw: the inspection position while browsing
    /// history, the live position otherwise.
    pub open spec fn displayed_rep(self) -> Seq<char> {
        if self.state is Viewing {
            self.rep_at(self.view_ply as int)
        } else {
            self.live_rep()
        }
    }

    /// The notation text of the displayed position.
    pub fn displayed_fen(&self) -> (r: String)
        requires
            self.wf(),
        ensures
            r@ == self.displayed_rep(),
    {
        match self.state {
            PlayState::Viewing(_) => board_fen(&self.view_board),
            _ => board_fen(&self.board),
        }
    }

    /// The occupant of each square of the displayed position (0 empty,
    /// 1..=6 white pawn..king, 7..=12 black pawn..king).
    pub fn displayed_pieces(&self) -> (v: Vec<u8>)
        requires
            self.wf(),
        ensures
            v@ == pieces_of(self.displayed_rep()),
            v@.len() == 64,
    {
        match self.state {
            PlayState::Viewing(_) => board_pieces(&self.view_board),
            _ => board_pieces(&self.board),
        }
    }

    /// The legal moves of the live position, as coordinate records: every
    /// listed record resolves to a legal move, every legal promotion is
    /// listed, and an empty list means no legal move exists.
    pub fn live_legal_moves(&self) -> (v: Vec<MoveRec>)
        requires
            self.wf(),
        ensures
            v@ == legal_ucis(self.live_rep()),
            forall|m: MoveRec| #[trigger] v@.contains(m) ==> uci_legal(self.live_rep(), m),
            v@.len() == 0 ==> (forall|m: MoveRec| !(#[trigger] uci_legal(self.live_rep(), m))),
    {
        legal_recs(&self.board)
    }

    /// The destination squares of the legal moves that leave `from`, in the
    /// live position, each square listed once: what the renderer highlights
    /// for a selected piece.
    pub fn legal_destinations_from(&self, from: u8) -> (v: Vec<u8>)
        requires
            self.wf(),
        ensures
            forall|d: u8| #[trigger] v@.contains(d) <==> moves_from_to(
                legal_ucis(self.live_rep()),
                from,
                d,
            ),
            forall|k1: int, k2: int| 0 <= k1 < k2 < v@.len() ==> v@[k1] != v@[k2],
    {
        let all = legal_recs(&self.board);
        let ghost p = self.live_rep();
        let mut v: Vec<u8> = Vec::new();
        let mut i: usize = 0;
        while i < all.len()
            invariant
                i <= all@.len(),
                p == self.live_rep(),
                all@ == legal_ucis(p),
                forall|k: int| 0 <= k < v@.len() ==> moves_from_to(all@, from, #[trigger] v@[k]),
                forall|j: int|
                    0 <= j < i && (#[trigger] all@[j]).from == from ==> v@.contains(all@[j].to),
                forall|k1: int, k2: int| 0 <= k1 < k2 < v@.len() ==> v@[k1] != v@[k2],
            decreases all@.len() - i,
        {
            let m = all[i];
            if m.from == from && !contains_square(&v, m.to) {
                let ghost prev = v@;
                v.push(m.to);
                proof {
                    assert(all@[i as int].from == from && all@[i as int].to == m.to);
                    assert(moves_from_to(all@, from, m.to));
                    assert forall|k: int| 0 <= k < v@.len() implies moves_from_to(
                        all@,
                        from,
                        #[trigger] v@[k],
                    ) by {
                        if k < prev.len() {
                            assert(v@[k] == prev[k]);
                        } else {
                            assert(v@[k] == m.to);
                        }
                    }
                    assert forall|j: int|
                        0 <= j < i + 1 && (#[trigger] all@[j]).from == from implies v@.contains(
                        all@[j].to,
                    ) by {
                        if j < i {
                            let k = choose|k: int| 0 <= k < prev.len() && prev[k] == all@[j].to;
                            assert(v@[k] == all@[j].to);
                        } else {
                            assert(v@[prev.len() as int] == m.to);
                        }
                    }
                    assert forall|k1: int, k2: int| 0 <= k1 < k2 < v@.len() implies v@[k1]
                        != v@[k2] by {
                        if k2 == prev.len() {
                            assert(v@[k1] == prev[k1]);
                            assert(!prev.contains(m.to));
                        }
                    }
                }
            } else {
                proof {
                    if m.from == from {
                        assert(v@.contains(m.to));
                        assert(all@[i as int].to == m.to);
                    }
                }
            }
            i = i + 1;
        }
        proof {
            assert forall|d: u8| v@.contains(d) implies moves_from_to(legal_ucis(p), from, d) by {
                let k = choose|k: int| 0 <= k < v@.len() && v@[k] == d;
            }
            assert forall|d: u8| moves_from_to(legal_ucis(p), from, d) implies v@.contains(d) by {
                let j = choose|j: int|
                    0 <= j < all@.len() && (#[trigger] all@[j]).from == from && all@[j].to == d;
                assert(v@.contains(all@[j].to));
            }
        }
        v
    }

    /// The outcome of the live position, derived from the rules authority
    /// and the visited-position digests.
    pub fn classify(&self) -> (o: Outcome)
        requires
            self.wf(),
        ensures
            o == outcome_of(self.live_rep(), self.digests()),
    {
        if board_checkmate(&self.board) {
            Outcome::Checkmate { white_lost: board_white_to_move(&self.board) }
        } else if board_stalemate(&self.board) {
            Outcome::Stalemate
        } else if board_insufficient(&self.board) {
            Outcome::InsufficientMaterial
        } else if board_clock(&self.board) >= 100 {
            Outcome::FiftyMoveRule
        } else {
            let h = board_hash(&self.board);
            if count_hash(&self.hashes, h) >= 3 {
                Outcome::ThreeRepetition
            } else {
                Outcome::Ongoing
            }
        }
    }

    /// Applies the move record to the live position if it is legal, records
    /// it in the history and extends the digests; an illegal record changes
    /// nothing.  The session state and the selection are left to the caller.
    fn apply_move(&mut self, m: MoveRec) -> (ok: bool)
        requires
            old(self).wf(),
            m.squares_ok(),
        ensures
            final(self).wf(),
            ok == uci_legal(old(self).live_rep(), m),
            ok ==> final(self).hist() == old(self).hist().push(m),
            ok ==> final(self).live_rep() == step_rep(old(self).live_rep(), m),
            !ok ==> final(self).same_game(*old(self)),
            final(self).initial == old(self).initial,
            final(self).same_view(*old(self)),
            final(self).state == old(self).state,
            final(self).selected == old(self).selected,
            final(self).same_settings(*old(self)),
            final(self).timer_ms == old(self).timer_ms,
    {
        let ghost st = self.start();
        let ghost oldh = self.history@;
        let ok = play_uci(&mut self.board, m);
        if ok {
            self.history.push(m);
            proof {
                let newh = self.history@;
                assert(newh == oldh.push(m));
                lemma_replay_push(st, oldh, m);
                assert forall|i: int| 0 <= i <= oldh.len() implies replay(st, newh.take(i))
                    == replay(st, oldh.take(i)) by {
                    lemma_replay_take_push(st, oldh, m, i);
                }
                assert(newh.take(newh.len() as int) =~= newh);
                assert(newh.take(oldh.len() as int) =~= oldh);
                assert(oldh.take(oldh.len() as int) =~= oldh);
            }
            let h = board_hash(&self.board);
            self.hashes.push(h);
        }
        ok
    }

    /// Rebuilds the inspection position so that it materialises ply `p`:
    /// forward steps apply the next history moves incrementally; backward
    /// steps rebuild from the initial position, since the rules authority
    /// only applies moves forward.
    fn seek_view(&mut self, p: usize)
        requires
            old(self).wf(),
            p <= old(self).hist().len(),
        ensures
            final(self).wf(),
            final(self).view_ply == p,
            board_rep(&final(self).view_board) == old(self).rep_at(p as int),
            final(self).same_game(*old(self)),
            final(self).state == old(self).state,
            final(self).selected == old(self).selected,
            final(self).same_settings(*old(self)),
            final(self).timer_ms == old(self).timer_ms,
    {
        if p < self.view_ply {
            let nb = rebuild_board(&self.initial, &self.history, p);
            self.view_board = nb;
            self.view_ply = p;
        } else {
            while self.view_ply < p
                invariant
                    self.wf(),
                    self.view_ply <= p <= self.history@.len(),
                    self.initial == old(self).initial,
                    self.board == old(self).board,
                    self.history@ == old(self).history@,
                    self.hashes@ == old(self).hashes@,
                    self.state == old(self).state,
                    self.selected == old(self).selected,
                    self.flipped == old(self).flipped,
                    self.auto_queen == old(self).auto_queen,
                    self.engine_plays == old(self).engine_plays,
                    self.interval_ms == old(self).interval_ms,
                    self.timer_ms == old(self).timer_ms,
                decreases p - self.view_ply,
            {
                let m = self.history[self.view_ply];
                proof {
                    lemma_replay_take_step(self.start(), self.history@, self.view_ply as int);
                }
                let ok = play_uci(&mut self.view_board, m);
                self.view_ply = self.view_ply + 1;
            }
        }
    }

    /// One reconciliation step of the replay cursor engine, run once per
    /// frame before input and rendering consume the inspection position.
    /// Inspecting the history at its full length collapses to live play with
    /// a freshly derived outcome, for any history length including zero;
    /// the inspection position is then brought to the inspected ply — the
    /// live tip when not viewing — so that after reconciliation it always
    /// equals the full replay of the first `inspected_ply` recorded moves.
    pub fn reconcile(&mut self)
        requires
            old(self).wf(),
        ensures
            final(self).reconciled(),
            final(self).same_game(*old(self)),
            final(self).selected == old(self).selected,
            final(self).same_settings(*old(self)),
            final(self).timer_ms == old(self).timer_ms,
            old(self).state matches PlayState::Viewing(p) ==> if p == old(self).hist().len() {
                final(self).state == PlayState::Playing(
                    outcome_of(old(self).live_rep(), old(self).digests()),
                )
            } else {
                final(self).state == old(self).state && final(self).view_ply == p && board_rep(
                    &final(self).view_board,
                ) == old(self).rep_at(p as int)
            },
            !(old(self).state is Viewing) ==> final(self).state == old(self).state,
    {
        match self.state {
            PlayState::Viewing(p) => {
                let len = self.history.len();
                if p == len {
                    let o = self.classify();
                    self.state = PlayState::Playing(o);
                    self.seek_view(len);
                } else {
                    self.seek_view(p);
                }
            },
            _ => {
                let len = self.history.len();
                self.seek_view(len);
            },
        }
    }

    /// Starts a new game: a fresh standard position, live play, no history
    /// and no selection.  The user's settings are kept.
    pub fn reset(&mut self)
        requires
            old(self).wf(),
        ensures
            final(self).wf(),
            final(self).start() == start_rep(),
            final(self).hist().len() == 0,
            final(self).state == PlayState::Playing(Outcome::Ongoing),
            final(self).selected is None,
            final(self).same_settings(*old(self)),
            final(self).timer_ms == old(self).timer_ms,
    {
        let b = standard_board();
        self.board = clone_board(&b);
        self.view_board = clone_board(&b);
        self.initial = b;
        self.view_ply = 0;
        self.history = Vec::new();
        let h0 = board_hash(&self.board);
        let mut hs: Vec<u64> = Vec::new();
        hs.push(h0);
        self.hashes = hs;
        self.state = PlayState::Playing(Outcome::Ongoing);
        self.selected = None;
        proof {
            assert(self.history@.take(0) =~= Seq::<MoveRec>::empty());
            assert(self.history@ =~= Seq::<MoveRec>::empty());
        }
    }

    /// Removes the most recent history entry while in live play, rebuilds
    /// the live position and re-derives the outcome (undoing across a
    /// terminal state re-opens the game only if the authority says so).
    /// Outside live play, or with no history, nothing changes.
    pub fn undo(&mut self)
        requires
            old(self).wf(),
        ensures
            final(self).wf(),
            final(self).same_settings(*old(self)),
            final(self).timer_ms == old(self).timer_ms,
            old(self).state is Playing && old(self).hist().len() > 0 ==> {
                &&& final(self).hist() == old(self).hist().drop_last()
                &&& final(self).start() == old(self).start()
                &&& final(self).state == PlayState::Playing(
                    outcome_of(final(self).live_rep(), final(self).digests()),
                )
                &&& final(self).selected is None
            },
            !(old(self).state is Playing) || old(self).hist().len() == 0 ==> final(self).same_game(
                *old(self),
            ) && final(self).state == old(self).state && final(self).selected == old(self).selected
                && final(self).same_view(*old(self)),
    {
        match self.state {
            PlayState::Playing(_) => {},
            _ => {
                return ;
            },
        }
        if self.history.len() == 0 {
            return ;
        }
        let ghost st = self.start();
        let ghost oldh = self.history@;
        self.history.pop();
        self.hashes.pop();
        proof {
            let newh = self.history@;
            assert(newh == oldh.drop_last());
            assert forall|i: int| 0 <= i <= newh.len() implies newh.take(i) =~= oldh.take(i) by {}
            assert(newh.take(newh.len() as int) =~= newh);
        }
        let nb = rebuild_board(&self.initial, &self.history, self.history.len());
        self.board = nb;
        if self.view_ply > self.history.len() {
            self.view_board = clone_board(&self.board);
            self.view_ply = self.history.len();
        }
        self.selected = None;
        let o = self.classify();
        self.state = PlayState::Playing(o);
    }

    /// Whether some promotion move from `from` to `to` is legal in the live
    /// position.
    fn promotion_possible(&self, from: u8, to: u8) -> (r: bool)
        requires
            self.wf(),
        ensures
            r == promotion_available(self.live_rep(), from, to),
    {
        let v = legal_recs(&self.board);
        let ghost p = self.live_rep();
        let mut i: usize = 0;
        while i < v.len()
            invariant
                i <= v@.len(),
                p == self.live_rep(),
                v@ == legal_ucis(p),
                forall|m: MoveRec| #[trigger] v@.contains(m) ==> uci_legal(p, m),
                forall|m: MoveRec|
                    #[trigger] uci_legal(p, m) && m.promo is Some && (m.to < 8 || m.to >= 56)
                        ==> v@.contains(m),
                forall|j: int|
                    0 <= j < v@.len() && (#[trigger] v@[j]).promo is Some ==> v@[j].to < 8
                        || v@[j].to >= 56,
                forall|j: int|
                    0 <= j < i ==> !((#[trigger] v@[j]).from == from && v@[j].to == to
                        && v@[j].promo is Some),
            decreases v@.len() - i,
        {
            let m = v[i];
            if m.from == from && m.to == to {
                if let Some(k0) = m.promo {
                    proof {
                        assert(v@.contains(v@[i as int]));
                        assert(m == (MoveRec { from, to, promo: Some(k0) }));
                        assert(uci_legal(p, MoveRec { from, to, promo: Some(k0) }));
                        assert(v@[i as int].to < 8 || v@[i as int].to >= 56);
                        assert(promotion_available(p, from, to));
                    }
                    return true;
                }
            }
            i = i + 1;
        }
        proof {
            if to < 8 || to >= 56 {
                assert forall|k: PieceKind| !uci_legal(
                    p,
                    MoveRec { from, to, promo: Some(k) },
                ) by {
                    let mk = MoveRec { from, to, promo: Some(k) };
                    if uci_legal(p, mk) {
                        assert(v@.contains(mk));
                        let j = choose|j: int| 0 <= j < v@.len() && v@[j] == mk;
                        assert(false);
                    }
                }
            }
        }
        false
    }

    /// Routes one pointer click on board square `sq`, per the input
    /// contract: picking up or releasing a piece of the side to move,
    /// submitting a move from the selected square, starting (or, with
    /// auto-queen, silently resolving) a promotion, or absorbing an illegal
    /// submission.  Clicks are accepted only during ongoing live play.
    pub fn click_tile(&mut self, sq: u8) -> (r: ClickOutcome)
        requires
            old(self).wf(),
            sq < 64,
        ensures
            final(self).wf(),
            final(self).same_settings(*old(self)),
            final(self).timer_ms == old(self).timer_ms,
            final(self).start() == old(self).start(),
            old(self).state != PlayState::Playing(Outcome::Ongoing) ==> r
                == ClickOutcome::Ignored && final(self).same_game(*old(self)) && final(self).same_view(*old(self)) && final(self).state == old(self).state && final(self).selected
                == old(self).selected,
            old(self).state == PlayState::Playing(Outcome::Ongoing) && own_piece_at(
                old(self).live_rep(),
                sq,
            ) ==> {
                &&& final(self).same_game(*old(self))
                &&& final(self).same_view(*old(self))
                &&& final(self).state == old(self).state
                &&& (old(self).selected == Some(sq) ==> final(self).selected is None && r
                    == ClickOutcome::Deselected)
                &&& (old(self).selected != Some(sq) ==> final(self).selected == Some(sq) && r
                    == ClickOutcome::Selected)
            },
            old(self).state == PlayState::Playing(Outcome::Ongoing) && !own_piece_at(
                old(self).live_rep(),
                sq,
            ) && old(self).selected is None ==> final(self).same_game(*old(self)) && final(self).same_view(*old(self)) && final(self).state == old(self).state && final(self).selected
                is None && r == ClickOutcome::Ignored,
            old(self).state == PlayState::Playing(Outcome::Ongoing) && !own_piece_at(
                old(self).live_rep(),
                sq,
            ) ==> (old(self).selected matches Some(s) ==> {
                let direct = (MoveRec { from: s, to: sq, promo: None });
                let queen = (MoveRec { from: s, to: sq, promo: Some(PieceKind::Queen) });
                &&& (uci_legal(old(self).live_rep(), direct) ==> final(self).hist() == old(self).hist().push(direct) && final(self).state == PlayState::Playing(
                    outcome_of(final(self).live_rep(), final(self).digests()),
                ) && final(self).selected is None && r == ClickOutcome::Moved)
                &&& (!uci_legal(old(self).live_rep(), direct) && promotion_available(
                    old(self).live_rep(),
                    s,
                    sq,
                ) && !old(self).auto_queen ==> final(self).same_game(*old(self)) && final(self).state == PlayState::Promotion(sq) && final(self).selected == old(self).selected
                    && r == ClickOutcome::PromotionStarted)
                &&& (!uci_legal(old(self).live_rep(), direct) && promotion_available(
                    old(self).live_rep(),
                    s,
                    sq,
                ) && old(self).auto_queen ==> final(self).selected is None && final(self).state
                    == PlayState::Playing(outcome_of(final(self).live_rep(), final(self).digests()))
                    && (uci_legal(old(self).live_rep(), queen) ==> final(self).hist() == old(self).hist().push(queen) && r == ClickOutcome::Moved) && (!uci_legal(
                    old(self).live_rep(),
                    queen,
                ) ==> final(self).same_game(*old(self)) && r == ClickOutcome::Illegal))
                &&& (!uci_legal(old(self).live_rep(), direct) && !promotion_available(
                    old(self).live_rep(),
                    s,
                    sq,
                ) ==> final(self).same_game(*old(self)) && final(self).state == old(self).state
                    && final(self).selected == old(self).selected && final(self).same_view(
                    *old(self),
                ) && r == ClickOutcome::Illegal)
            }),
    {
        let gate = match self.state {
            PlayState::Playing(o) => match o {
                Outcome::Ongoing => true,
                _ => false,
            },
            _ => false,
        };
        if !gate {
            return ClickOutcome::Ignored;
        }
        if board_own_piece(&self.board, sq) {
            match self.selected {
                Some(t) if t == sq => {
                    self.selected = None;
                    ClickOutcome::Deselected
                },
                _ => {
                    self.selected = Some(sq);
                    ClickOutcome::Selected
                },
            }
        } else {
            let s = match self.selected {
                Some(s) => s,
                None => {
                    return ClickOutcome::Ignored;
                },
            };
            let direct = MoveRec { from: s, to: sq, promo: None };
            let ok = self.apply_move(direct);
            if ok {
                self.selected = None;
                let o = self.classify();
                self.state = PlayState::Playing(o);
                ClickOutcome::Moved
            } else if self.promotion_possible(s, sq) {
                if self.auto_queen {
                    let queen = MoveRec { from: s, to: sq, promo: Some(PieceKind::Queen) };
                    let okq = self.apply_move(queen);
                    self.selected = None;
                    let o = self.classify();
                    self.state = PlayState::Playing(o);
                    if okq {
                        ClickOutcome::Moved
                    } else {
                        ClickOutcome::Illegal
                    }
                } else {
                    self.state = PlayState::Promotion(sq);
                    ClickOutcome::PromotionStarted
                }
            } else {
                ClickOutcome::Illegal
            }
        }
    }

    /// Completes the pending promotion with the chosen piece kind.  The
    /// completed move is applied if the authority accepts it; either way the
    /// selection is released and the session returns to live play with a
    /// freshly derived outcome.
    pub fn choose_promotion(&mut self, kind: PieceKind) -> (applied: bool)
        requires
            old(self).wf(),
            old(self).state is Promotion,
        ensures
            final(self).wf(),
            final(self).same_settings(*old(self)),
            final(self).timer_ms == old(self).timer_ms,
            final(self).start() == old(self).start(),
            final(self).selected is None,
            final(self).state == PlayState::Playing(
                outcome_of(final(self).live_rep(), final(self).digests()),
            ),
            old(self).state matches PlayState::Promotion(t) ==> (old(self).selected matches Some(
                s0,
            ) ==> {
                let m = (MoveRec { from: s0, to: t, promo: Some(kind) });
                &&& applied == uci_legal(old(self).live_rep(), m)
                &&& (applied ==> final(self).hist() == old(self).hist().push(m))
                &&& (!applied ==> final(self).same_game(*old(self)))
            }),
    {
        let t = match self.state {
            PlayState::Promotion(t) => t,
            _ => {
                proof {
                    assert(false);
                }
                0u8
            },
        };
        let s0 = match self.selected {
            Some(s) => s,
            None => {
                proof {
                    assert(false);
                }
                0u8
            },
        };
        let m = MoveRec { from: s0, to: t, promo: Some(kind) };
        let applied = self.apply_move(m);
        let o = self.classify();
        self.state = PlayState::Playing(o);
        self.selected = None;
        applied
    }

    /// Plays an externally chosen move record on the live position — the
    /// entry point for a pluggable search collaborator driven from outside
    /// the library.  A legal record is applied and recorded; an illegal one
    /// changes the game not at all.  Either way the selection is released
    /// and the session returns to live play with a freshly derived outcome.
    pub fn play_record(&mut self, m: MoveRec) -> (applied: bool)
        requires
            old(self).wf(),
            m.squares_ok(),
        ensures
            final(self).wf(),
            final(self).same_settings(*old(self)),
            final(self).timer_ms == old(self).timer_ms,
            final(self).start() == old(self).start(),
            applied == uci_legal(old(self).live_rep(), m),
            applied ==> final(self).hist() == old(self).hist().push(m),
            !applied ==> final(self).same_game(*old(self)),
            final(self).selected is None,
            final(self).state == PlayState::Playing(
                outcome_of(final(self).live_rep(), final(self).digests()),
            ),
    {
        let applied = self.apply_move(m);
        let o = self.classify();
        self.state = PlayState::Playing(o);
        self.selected = None;
        applied
    }

    /// Plays a uniformly chosen random legal move on the live position, if
    /// one exists, releases the selection and returns to live play with a
    /// freshly derived outcome.
    pub fn random_move(&mut self) -> (made: bool)
        requires
            old(self).wf(),
        ensures
            final(self).wf(),
            final(self).same_settings(*old(self)),
            final(self).timer_ms == old(self).timer_ms,
            final(self).start() == old(self).start(),
            made == (legal_ucis(old(self).live_rep()).len() > 0),
            made ==> (exists|m: MoveRec|
                #[trigger] legal_ucis(old(self).live_rep()).contains(m) && final(self).hist()
                    == old(self).hist().push(m)),
            !made ==> final(self).same_game(*old(self)),
            final(self).selected is None,
            final(self).state == PlayState::Playing(
                outcome_of(final(self).live_rep(), final(self).digests()),
            ),
    {
        let v = legal_recs(&self.board);
        let made = v.len() > 0;
        if made {
            let idx = random_below(v.len());
            let m = v[idx];
            proof {
                assert(v@.contains(v@[idx as int]));
            }
            let ok = self.apply_move(m);
        }
        let o = self.classify();
        self.state = PlayState::Playing(o);
        self.selected = None;
        made
    }

    /// Steps the inspection cursor one ply towards the live tip.  Stepping
    /// is unclamped upward: reaching the history's full length is collapsed
    /// by the next reconciliation.  Outside inspection, nothing changes.
    pub fn step_forward(&mut self)
        requires
            old(self).wf(),
        ensures
            final(self).wf(),
            final(self).same_game(*old(self)),
            final(self).same_view(*old(self)),
            final(self).selected == old(self).selected,
            final(self).same_settings(*old(self)),
            final(self).timer_ms == old(self).timer_ms,
            old(self).state matches PlayState::Viewing(p) ==> if p < old(self).hist().len() {
                final(self).state == PlayState::Viewing((p + 1) as usize)
            } else {
                final(self).state == old(self).state
            },
            !(old(self).state is Viewing) ==> final(self).state == old(self).state,
    {
        match self.state {
            PlayState::Viewing(p) => {
                if p < self.history.len() {
                    self.state = PlayState::Viewing(p + 1);
                }
            },
            _ => {},
        }
    }

    /// Steps the inspection cursor one ply away from the live tip, clamped
    /// at ply zero.  From live play it enters inspection one ply before the
    /// tip and releases the selection.  During a pending promotion, history
    /// stepping is not accepted.
    pub fn step_back(&mut self)
        requires
            old(self).wf(),
        ensures
            final(self).wf(),
            final(self).same_game(*old(self)),
            final(self).same_view(*old(self)),
            final(self).same_settings(*old(self)),
            final(self).timer_ms == old(self).timer_ms,
            old(self).state matches PlayState::Viewing(p) ==> final(self).selected == old(self).selected && (if p > 0 {
                final(self).state == PlayState::Viewing((p - 1) as usize)
            } else {
                final(self).state == old(self).state
            }),
            old(self).state is Playing ==> (if old(self).hist().len() > 0 {
                final(self).state == PlayState::Viewing((old(self).hist().len() - 1) as usize)
                    && final(self).selected is None
            } else {
                final(self).state == old(self).state && final(self).selected == old(self).selected
            }),
            old(self).state is Promotion ==> final(self).state == old(self).state && final(self).selected == old(self).selected,
    {
        match self.state {
            PlayState::Viewing(p) => {
                if p > 0 {
                    self.state = PlayState::Viewing(p - 1);
                }
            },
            PlayState::Playing(_) => {
                let len = self.history.len();
                if len > 0 {
                    self.selected = None;
                    self.state = PlayState::Viewing(len - 1);
                }
            },
            PlayState::Promotion(_) => {},
        }
    }

    /// Jumps the inspection cursor to an explicit ply (from a history-entry
    /// selection), releasing the selection.  During a pending promotion the
    /// jump is not accepted.
    pub fn jump_to_ply(&mut self, p: usize)
        requires
            old(self).wf(),
            p <= old(self).hist().len(),
        ensures
            final(self).wf(),
            final(self).same_game(*old(self)),
            final(self).same_view(*old(self)),
            final(self).same_settings(*old(self)),
            final(self).timer_ms == old(self).timer_ms,
            !(old(self).state is Promotion) ==> final(self).state == PlayState::Viewing(p) && final(self).selected is None,
            old(self).state is Promotion ==> final(self).state == old(self).state && final(self).selected == old(self).selected,
    {
        match self.state {
            PlayState::Promotion(_) => {},
            _ => {
                self.selected = None;
                self.state = PlayState::Viewing(p);
            },
        }
    }

    /// One scheduler step: accumulates the frame's elapsed time into the
    /// timer and, when the side to move is automated and the timer has
    /// reached the configured interval (and no promotion choice is
    /// pending), plays one automated move and resets the timer to zero.  If
    /// the position has no legal moves, the position is left unchanged and
    /// the next reconciliation reflects the terminal outcome.  While control
    /// is yielded to a human side the timer accumulates only up to the
    /// interval, so it never exceeds the interval.
    pub fn scheduler_step(&mut self, dt_ms: u64)
        requires
            old(self).wf(),
        ensures
            final(self).wf(),
            final(self).same_settings(*old(self)),
            final(self).start() == old(self).start(),
            final(self).same_view(*old(self)),
            final(self).timer_ms <= final(self).interval_ms,
            ({
                let t1 = sat_add(old(self).timer_ms, dt_ms);
                let armed = old(self).engine_turn_spec() && !(old(self).state is Promotion);
                &&& (!armed ==> final(self).timer_ms == (if t1 <= old(self).interval_ms {
                    t1
                } else {
                    old(self).interval_ms
                }) && final(self).same_game(*old(self)) && final(self).state == old(self).state
                    && final(self).selected == old(self).selected)
                &&& (armed && t1 < old(self).interval_ms ==> final(self).timer_ms == t1 && final(self).same_game(*old(self)) && final(self).state == old(self).state && final(self).selected == old(self).selected)
                &&& (armed && t1 >= old(self).interval_ms ==> final(self).timer_ms == 0 && (
                legal_ucis(old(self).live_rep()).len() == 0 ==> final(self).same_game(*old(self))
                    && final(self).state == old(self).state && final(self).selected == old(self).selected) && (legal_ucis(old(self).live_rep()).len() > 0 ==> (exists|m: MoveRec|
                    #[trigger] legal_ucis(old(self).live_rep()).contains(m) && final(self).hist()
                        == old(self).hist().push(m)) && final(self).selected is None && (old(self).state is Playing ==> final(self).state == PlayState::Playing(
                    outcome_of(final(self).live_rep(), final(self).digests()),
                )) && (!(old(self).state is Playing) ==> final(self).state == old(self).state)))
            }),
    {
        let t1 = if dt_ms > u64::MAX - self.timer_ms {
            u64::MAX
        } else {
            self.timer_ms + dt_ms
        };
        let pending = match self.state {
            PlayState::Promotion(_) => true,
            _ => false,
        };
        let armed = !pending && self.engine_turn();
        if armed {
            if t1 >= self.interval_ms {
                self.timer_ms = 0;
                let v = legal_recs(&self.board);
                if v.len() > 0 {
                    let idx = random_below(v.len());
                    let m = v[idx];
                    proof {
                        assert(v@.contains(v@[idx as int]));
                    }
                    let ok = self.apply_move(m);
                    self.selected = None;
                    match self.state {
                        PlayState::Playing(_) => {
                            let o = self.classify();
                            self.state = PlayState::Playing(o);
                        },
                        _ => {},
                    }
                }
            } else {
                self.timer_ms = t1;
            }
        } else {
            self.timer_ms = if t1 <= self.interval_ms {
                t1
            } else {
                self.interval_ms
            };
        }
    }

    /// One frame of session logic, in the required order: the scheduler
    /// step strictly before the replay-cursor reconciliation.  Returns
    /// whether another frame must be scheduled so that a waiting automated
    /// move's countdown stays observable.  When the scheduler does not act,
    /// the whole game (initial position, live position, history, digests)
    /// and the selection survive the frame, and the timer never ends above
    /// the interval.
    pub fn frame(&mut self, dt_ms: u64) -> (repaint: bool)
        requires
            old(self).wf(),
        ensures
            final(self).reconciled(),
            final(self).same_settings(*old(self)),
            final(self).start() == old(self).start(),
            final(self).timer_ms <= final(self).interval_ms,
            repaint == (final(self).engine_turn_spec() && final(self).timer_ms < final(self).interval_ms),
            ({
                let t1 = sat_add(old(self).timer_ms, dt_ms);
                let armed = old(self).engine_turn_spec() && !(old(self).state is Promotion);
                &&& (!armed ==> final(self).same_game(*old(self)) && final(self).selected == old(self).selected && final(self).timer_ms == (if t1 <= old(self).interval_ms {
                    t1
                } else {
                    old(self).interval_ms
                }))
                &&& (armed && t1 < old(self).interval_ms ==> final(self).same_game(*old(self))
                    && final(self).selected == old(self).selected && final(self).timer_ms == t1)
                &&& (armed && t1 >= old(self).interval_ms ==> final(self).timer_ms == 0 && (
                legal_ucis(old(self).live_rep()).len() > 0 ==> final(self).hist().len() == old(self).hist().len() + 1) && (legal_ucis(old(self).live_rep()).len() == 0 ==> final(self).same_game(*old(self)) && final(self).selected == old(self).selected))
            }),
    {
        self.scheduler_step(dt_ms);
        self.reconcile();
        let rp = self.engine_turn() && self.timer_ms < self.interval_ms;
        rp
    }


    /// The standard algebraic notation of every recorded move, for the
    /// game-record export.
    pub fn game_notation(&self) -> (v: Vec<String>)
        requires
            self.wf(),
        ensures
            v@.len() == self.hist().len(),
            forall|i: int|
                0 <= i < v@.len() ==> (#[trigger] v@[i])@ == san_text(
                    self.rep_at(i),
                    self.hist()[i],
                ),
    {
        let mut b = clone_board(&self.initial);
        let mut v: Vec<String> = Vec::new();
        proof {
            assert(self.history@.take(0) =~= Seq::<MoveRec>::empty());
        }
        let mut i: usize = 0;
        while i < self.history.len()
            invariant
                self.wf(),
                i <= self.history@.len(),
                v@.len() == i,
                board_rep(&b) == self.rep_at(i as int),
                forall|j: int|
                    0 <= j < i ==> (#[trigger] v@[j])@ == san_text(self.rep_at(j), self.history@[j]),
            decreases self.history@.len() - i,
        {
            let m = self.history[i];
            match board_san(&b, m) {
                Some(s) => {
                    v.push(s);
                },
                None => {
                    proof {
                        assert(false);
                    }
                },
            }
            proof {
                lemma_replay_take_step(self.start(), self.history@, i as int);
            }
            let ok = play_uci(&mut b, m);
            i = i + 1;
        }
        v
    }

    /// The text of move `j` in the game record: white moves carry their
    /// move number, and a single space separates moves.
    pub open spec fn move_text(self, j: int) -> Seq<char> {
        (if j % 2 == 0 {
            dec_digits((j / 2 + 1) as nat) + seq!['.', ' ']
        } else {
            Seq::<char>::empty()
        }) + san_text(self.rep_at(j), self.history@[j]) + (if j + 1 < self.history@.len() {
            seq![' ']
        } else {
            Seq::<char>::empty()
        })
    }

    /// The game-record text of the first `i` recorded moves.
    #[verifier::opaque]
    pub open spec fn pgn_upto(self, i: int) -> Seq<char>
        decreases i,
    {
        if i <= 0 {
            Seq::empty()
        } else {
            self.pgn_upto(i - 1) + self.move_text(i - 1)
        }
    }

    /// The portable game-record text of the whole history (the save
    /// action's export).
    pub fn pgn_text(&self) -> (r: String)
        requires
            self.wf(),
        ensures
            r@ == self.pgn_upto(self.hist().len() as int),
    {
        pgn_lines(self)
    }
}

/// Builds the game-record text by one replay of the history, writing each
/// move's numbered standard-notation token.
#[verifier::rlimit(100)]
fn pgn_lines(s: &PlayTab) -> (r: String)
    requires
        forall|j: int|
            0 <= j < s.history@.len() ==> uci_legal(s.rep_at(j), #[trigger] s.history@[j]),
        forall|j: int| 0 <= j < s.history@.len() ==> (#[trigger] s.history@[j]).squares_ok(),
    ensures
        r@ == s.pgn_upto(s.history@.len() as int),
{
    let mut b = clone_board(&s.initial);
    let mut out = String::new();
    proof {
        assert(s.history@.take(0) =~= Seq::<MoveRec>::empty());
        assert(out@ == s.pgn_upto(0)) by {
            reveal(PlayTab::pgn_upto);
        }
    }
    let mut i: usize = 0;
    while i < s.history.len()
        invariant
            i <= s.history@.len(),
            board_rep(&b) == s.rep_at(i as int),
            out@ == s.pgn_upto(i as int),
            forall|j: int|
                0 <= j < s.history@.len() ==> uci_legal(
                    s.rep_at(j),
                    #[trigger] s.history@[j],
                ),
            forall|j: int|
                0 <= j < s.history@.len() ==> (#[trigger] s.history@[j]).squares_ok(),
        decreases s.history@.len() - i,
    {
        let ghost before = out@;
        let m = s.history[i];
        if i % 2 == 0 {
            push_decimal(&mut out, i / 2 + 1);
            out.append(". ");
        }
        match board_san(&b, m) {
            Some(t) => {
                out.append(t.as_str());
            },
            None => {
                proof {
                    assert(false);
                }
            },
        }
        if i + 1 < s.history.len() {
            out.append(" ");
        }
        proof {
            reveal_strlit(". ");
            reveal_strlit(" ");
            assert(out@ =~= before + s.move_text(i as int));
            assert(s.pgn_upto(i as int + 1) == s.pgn_upto(i as int) + s.move_text(
                i as int,
            )) by {
                reveal(PlayTab::pgn_upto);
            }
        }
        proof {
            lemma_replay_take_step(s.start(), s.history@, i as int);
        }
        let _moved = play_uci(&mut b, m);
        i = i + 1;
    }
    out
}

/// Appends the decimal digits of `n`, most significant first.
fn push_decimal(out: &mut String, n: usize)
    ensures
        final(out)@ == old(out)@ + dec_digits(n as nat),
    decreases n,
{
    if n >= 10 {
        push_decimal(out, n / 10);
    }
    let d = (n % 10) as u8;
    out.append(decimal_str(d));
    proof {
        reveal(dec_digits);
        if n >= 10 {
            assert(out@ =~= old(out)@ + dec_digits(n as nat));
        } else {
            assert(out@ =~= old(out)@ + dec_digits(n as nat));
        }
    }
}

/// The one-character text of a decimal digit.
fn decimal_str(d: u8) -> (r: &'static str)
    requires
        d < 10,
    ensures
        r@ == seq![dec_digit(d as nat)],
{
    proof {
        reveal_strlit("0");
        reveal_strlit("1");
        reveal_strlit("2");
        reveal_strlit("3");
        reveal_strlit("4");
        reveal_strlit("5");
        reveal_strlit("6");
        reveal_strlit("7");
        reveal_strlit("8");
        reveal_strlit("9");
    }
    match d {
        0 => "0",
        1 => "1",
        2 => "2",
        3 => "3",
        4 => "4",
        5 => "5",
        6 => "6",
        7 => "7",
        8 => "8",
        _ => "9",
    }
}

/// Rebuilds the position at ply `upto` by a full replay of the history
/// prefix from the initial position.
fn rebuild_board(initial: &shakmaty::Chess, history: &Vec<MoveRec>, upto: usize) -> (b:
    shakmaty::Chess)
    requires
        upto <= history@.len(),
        forall|i: int|
            0 <= i < history@.len() ==> uci_legal(
                replay(board_rep(initial), history@.take(i)),
                #[trigger] history@[i],
            ),
        forall|i: int| 0 <= i < history@.len() ==> (#[trigger] history@[i]).squares_ok(),
    ensures
        board_rep(&b) == replay(board_rep(initial), history@.take(upto as int)),
{
    let mut b = clone_board(initial);
    proof {
        assert(history@.take(0) =~= Seq::<MoveRec>::empty());
    }
    let mut i: usize = 0;
    while i < upto
        invariant
            i <= upto <= history@.len(),
            board_rep(&b) == replay(board_rep(initial), history@.take(i as int)),
            forall|j: int|
                0 <= j < history@.len() ==> uci_legal(
                    replay(board_rep(initial), history@.take(j)),
                    #[trigger] history@[j],
                ),
            forall|j: int| 0 <= j < history@.len() ==> (#[trigger] history@[j]).squares_ok(),
        decreases upto - i,
    {
        let m = history[i];
        proof {
            lemma_replay_take_step(board_rep(initial), history@, i as int);
        }
        let ok = play_uci(&mut b, m);
        i = i + 1;
    }
    b
}

/// After reconciliation the inspection position always equals the full
/// replay of the first `inspected_ply` recorded moves from the initial
/// position — the inspected ply while viewing, the live tip otherwise: the
/// incremental replay cursor and a from-scratch replay agree.
pub proof fn lemma_inspection_is_full_replay(s: PlayTab)
    requires
        s.reconciled(),
    ensures
        board_rep(&s.view_board) == replay(
            board_rep(&s.initial),
            s.hist().take(s.inspected_ply()),
        ),
{
}

/// A reconciled session never lingers at the live tip: while inspecting,
/// the inspected ply lies strictly inside the history, for any history
/// length including zero.
pub proof fn lemma_viewing_is_inside_history(s: PlayTab, p: usize)
    requires
        s.reconciled(),
        s.st() == PlayState::Viewing(p),
    ensures
        p < s.hist().len(),
{
}

/// Whether a square index already occurs in the vector.
fn contains_square(v: &Vec<u8>, x: u8) -> (r: bool)
    ensures
        r == v@.contains(x),
{
    let mut i: usize = 0;
    while i < v.len()
        invariant
            i <= v@.len(),
            forall|k: int| 0 <= k < i ==> v@[k] != x,
        decreases v@.len() - i,
    {
        if v[i] == x {
            return true;
        }
        i = i + 1;
    }
    proof {
        if v@.contains(x) {
            let k = choose|k: int| 0 <= k < v@.len() && v@[k] == x;
            assert(false);
        }
    }
    false
}

/// Counts how often `x` occurs among the digests.
fn count_hash(hashes: &Vec<u64>, x: u64) -> (c: usize)
    ensures
        c == count_eq(hashes@, x),
{
    let mut c: usize = 0;
    let mut i: usize = 0;
    while i < hashes.len()
        invariant
            i <= hashes@.len(),
            c == count_eq(hashes@.take(i as int), x),
            c <= i,
        decreases hashes@.len() - i,
    {
        proof {
            assert(hashes@.take(i + 1).drop_last() =~= hashes@.take(i as int));
            assert(hashes@.take(i + 1).last() == hashes@[i as int]);
        }
        if hashes[i] == x {
            c = c + 1;
        }
        i = i + 1;
    }
    proof {
        assert(hashes@.take(hashes@.len() as int) =~= hashes@);
    }
    c
}

} // verus!
