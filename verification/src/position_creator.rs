//! The position editor: an independent, non-temporal board for composing an
//! arbitrary starting position.
//!
//! The editor owns a plain 64-square board (one occupant code per square),
//! a side-to-move flag and four castling-right flags, edited with a piece
//! "brush".  "Play this position" packages the edited board into notation
//! text — written here as a verified function against [`editor_fen`] — and
//! the session constructs a live position from it through the rules
//! authority, which performs the validation.

use vstd::prelude::*;

use vstd::string::StringExecFns;

use crate::authority::{
    board_castles, board_pieces, board_white_to_move, castles_of, fen_ok, parse_fen, parsed_rep,
    pieces_of, standard_board, start_rep, white_to_move,
};
use crate::state::{kind_code, NotationError, PieceKind};

verus! {

/// The notation character of an occupant code (1..=6 white pawn..king,
/// 7..=12 black pawn..king).
pub open spec fn piece_char(c: u8) -> char {
    if c == 1 {
        'P'
    } else if c == 2 {
        'N'
    } else if c == 3 {
        'B'
    } else if c == 4 {
        'R'
    } else if c == 5 {
        'Q'
    } else if c == 6 {
        'K'
    } else if c == 7 {
        'p'
    } else if c == 8 {
        'n'
    } else if c == 9 {
        'b'
    } else if c == 10 {
        'r'
    } else if c == 11 {
        'q'
    } else {
        'k'
    }
}

/// The digit character of an empty-run length in `1..=8`.
pub open spec fn digit_char(n: int) -> char {
    if n == 1 {
        '1'
    } else if n == 2 {
        '2'
    } else if n == 3 {
        '3'
    } else if n == 4 {
        '4'
    } else if n == 5 {
        '5'
    } else if n == 6 {
        '6'
    } else if n == 7 {
        '7'
    } else {
        '8'
    }
}

/// The rest of one rank's placement text, from file `f` on, with `run`
/// empty squares pending: empty squares coalesce into a single digit,
/// written out before the next piece or at the rank's end.
pub open spec fn row_fen(sq: Seq<u8>, r: int, f: int, run: int) -> Seq<char>
    recommends
        sq.len() == 64,
        0 <= r < 8,
        0 <= f <= 8,
        0 <= run <= f,
    decreases 8 - f,
{
    if f < 0 || f >= 8 {
        if run > 0 {
            seq![digit_char(run)]
        } else {
            Seq::empty()
        }
    } else {
        let c = sq[r * 8 + f];
        if c == 0 {
            row_fen(sq, r, f + 1, run + 1)
        } else {
            if run > 0 {
                seq![digit_char(run)] + seq![piece_char(c)] + row_fen(sq, r, f + 1, 0)
            } else {
                seq![piece_char(c)] + row_fen(sq, r, f + 1, 0)
            }
        }
    }
}

/// The placement text of ranks `r` down to 0, highest rank first,
/// separated by `/`.
pub open spec fn placement_fen(sq: Seq<u8>, r: int) -> Seq<char>
    recommends
        sq.len() == 64,
        0 <= r < 8,
    decreases r,
{
    if r <= 0 {
        row_fen(sq, 0, 0, 0)
    } else {
        row_fen(sq, r, 0, 0) + seq!['/'] + placement_fen(sq, r - 1)
    }
}

/// The castling-rights field: the present rights in `KQkq` order, or `-`
/// when none remain.
pub open spec fn castling_fen(wk: bool, wq: bool, bk: bool, bq: bool) -> Seq<char> {
    if !wk && !wq && !bk && !bq {
        seq!['-']
    } else {
        (if wk {
            seq!['K']
        } else {
            Seq::empty()
        }) + (if wq {
            seq!['Q']
        } else {
            Seq::empty()
        }) + (if bk {
            seq!['k']
        } else {
            Seq::empty()
        }) + (if bq {
            seq!['q']
        } else {
            Seq::empty()
        })
    }
}

/// The full notation text of an edited board: placement, side to move and
/// castling rights, with no en passant square and fresh move counters.
pub open spec fn editor_fen(
    sq: Seq<u8>,
    white: bool,
    wk: bool,
    wq: bool,
    bk: bool,
    bq: bool,
) -> Seq<char> {
    placement_fen(sq, 7) + seq![' '] + (if white {
        seq!['w']
    } else {
        seq!['b']
    }) + seq![' '] + castling_fen(wk, wq, bk, bq) + seq![' ', '-', ' ', '0', ' ', '1']
}

/// The position editor.
pub struct PositionTab {
    /// The occupant of each square, by square index (rank times eight plus
    /// file): 0 empty, 1..=6 white pawn..king, 7..=12 black pawn..king.
    pub squares: Vec<u8>,
    /// Whose turn the composed position gives.
    pub white_to_play: bool,
    /// The castling-right flags.
    pub castle_wk: bool,
    pub castle_wq: bool,
    pub castle_bk: bool,
    pub castle_bq: bool,
    /// The brush: the piece kind and colour the next click places, or none
    /// to remove occupants.
    pub selected_piece: Option<(PieceKind, bool)>,
}

impl PositionTab {
    /// Well-formedness: one occupant code per square, all in range.
    pub open spec fn wf(self) -> bool {
        &&& self.squares@.len() == 64
        &&& forall|i: int| 0 <= i < 64 ==> self.squares@[i] <= 12
    }

    /// The occupant code the brush writes: the brush's piece, or 0 when no
    /// brush is selected (removal).
    pub open spec fn brush_code(self) -> u8 {
        match self.selected_piece {
            Some((k, white)) => (kind_code(k) + if white {
                0u8
            } else {
                6u8
            }) as u8,
            None => 0u8,
        }
    }

    /// A fresh editor holding the standard initial position.
    pub fn new() -> (e: Self)
        ensures
            e.wf(),
            e.squares@ == pieces_of(start_rep()),
            e.white_to_play == white_to_move(start_rep()),
            e.selected_piece is None,
    {
        let b = standard_board();
        let squares = board_pieces(&b);
        let white_to_play = board_white_to_move(&b);
        let mask = board_castles(&b);
        PositionTab {
            squares,
            white_to_play,
            castle_wk: mask & 1 != 0,
            castle_wq: mask & 2 != 0,
            castle_bk: mask & 4 != 0,
            castle_bq: mask & 8 != 0,
            selected_piece: None,
        }
    }

    /// Empties the board and withdraws every castling right; the brush and
    /// the side to move are kept.
    pub fn clear(&mut self)
        requires
            old(self).wf(),
        ensures
            final(self).wf(),
            final(self).squares@.len() == 64,
            forall|i: int| 0 <= i < 64 ==> final(self).squares@[i] == 0,
            !final(self).castle_wk && !final(self).castle_wq && !final(self).castle_bk && !final(self).castle_bq,
            final(self).white_to_play == old(self).white_to_play,
            final(self).selected_piece == old(self).selected_piece,
    {
        let mut v: Vec<u8> = Vec::new();
        let mut i: usize = 0;
        while i < 64
            invariant
                i <= 64,
                v@.len() == i,
                forall|j: int| 0 <= j < i ==> v@[j] == 0,
            decreases 64 - i,
        {
            v.push(0);
            i = i + 1;
        }
        self.squares = v;
        self.castle_wk = false;
        self.castle_wq = false;
        self.castle_bk = false;
        self.castle_bq = false;
    }

    /// Puts the standard initial position back; the brush is kept.
    pub fn reset(&mut self)
        requires
            old(self).wf(),
        ensures
            final(self).wf(),
            final(self).squares@ == pieces_of(start_rep()),
            final(self).white_to_play == white_to_move(start_rep()),
            final(self).selected_piece == old(self).selected_piece,
    {
        let b = standard_board();
        self.squares = board_pieces(&b);
        self.white_to_play = board_white_to_move(&b);
        let mask = board_castles(&b);
        self.castle_wk = mask & 1 != 0;
        self.castle_wq = mask & 2 != 0;
        self.castle_bk = mask & 4 != 0;
        self.castle_bq = mask & 8 != 0;
    }

    /// Selects the brush, or releases it when the same piece and colour
    /// were already selected.
    pub fn toggle_brush(&mut self, kind: PieceKind, white: bool)
        requires
            old(self).wf(),
        ensures
            final(self).wf(),
            old(self).selected_piece == Some((kind, white)) ==> final(self).selected_piece is None,
            old(self).selected_piece != Some((kind, white)) ==> final(self).selected_piece == Some(
                (kind, white),
            ),
            final(self).squares@ == old(self).squares@,
            final(self).white_to_play == old(self).white_to_play,
            final(self).castle_wk == old(self).castle_wk,
            final(self).castle_wq == old(self).castle_wq,
            final(self).castle_bk == old(self).castle_bk,
            final(self).castle_bq == old(self).castle_bq,
    {
        let same = match self.selected_piece {
            Some((k, w)) => k == kind && w == white,
            None => false,
        };
        if same {
            self.selected_piece = None;
        } else {
            self.selected_piece = Some((kind, white));
        }
    }

    /// One placement click: writes the brush's occupant onto the square —
    /// a piece when a brush is selected, emptiness (removal) when not.
    pub fn click_tile(&mut self, sq: u8)
        requires
            old(self).wf(),
            sq < 64,
        ensures
            final(self).wf(),
            final(self).squares@ == old(self).squares@.update(sq as int, old(self).brush_code()),
            final(self).white_to_play == old(self).white_to_play,
            final(self).selected_piece == old(self).selected_piece,
            final(self).castle_wk == old(self).castle_wk,
            final(self).castle_wq == old(self).castle_wq,
            final(self).castle_bk == old(self).castle_bk,
            final(self).castle_bq == old(self).castle_bq,
    {
        let code: u8 = match self.selected_piece {
            Some((k, white)) => {
                let base = k.code();
                if white {
                    base
                } else {
                    base + 6
                }
            },
            None => 0,
        };
        self.squares.set(sq as usize, code);
    }

    /// Packages the edited board into notation text, per [`editor_fen`]:
    /// placement with coalesced empty runs, side to move, the castling
    /// rights that are switched on, no en passant square and fresh move
    /// counters.  The rules authority validates the text when a session is
    /// constructed from it.
    pub fn to_fen(&self) -> (r: String)
        requires
            self.wf(),
        ensures
            r@ == editor_fen(
                self.squares@,
                self.white_to_play,
                self.castle_wk,
                self.castle_wq,
                self.castle_bk,
                self.castle_bq,
            ),
    {
        let ghost sq = self.squares@;
        let mut out = String::new();
        let mut k: usize = 0;
        while k < 8
            invariant
                self.wf(),
                sq == self.squares@,
                k <= 8,
                k < 8 ==> out@ + placement_fen(sq, 7 - k) == placement_fen(sq, 7),
                k == 8 ==> out@ == placement_fen(sq, 7),
            decreases 8 - k,
        {
            let r = 7 - k;
            let ghost base = out@;
            let mut f: usize = 0;
            let mut run: u8 = 0;
            while f < 8
                invariant
                    self.wf(),
                    sq == self.squares@,
                    k < 8,
                    r == 7 - k,
                    f <= 8,
                    run <= f,
                    base + row_fen(sq, r as int, 0, 0) == out@ + row_fen(
                        sq,
                        r as int,
                        f as int,
                        run as int,
                    ),
                decreases 8 - f,
            {
                let c = self.squares[r * 8 + f];
                if c == 0 {
                    run = run + 1;
                } else {
                    proof {
                        assert(row_fen(sq, r as int, f as int, run as int) == (if run > 0 {
                            seq![digit_char(run as int)] + seq![piece_char(c)] + row_fen(
                                sq,
                                r as int,
                                f as int + 1,
                                0,
                            )
                        } else {
                            seq![piece_char(c)] + row_fen(sq, r as int, f as int + 1, 0)
                        }));
                    }
                    if run > 0 {
                        out.append(digit_str(run));
                    }
                    out.append(piece_str(c));
                    proof {
                        assert(base + row_fen(sq, r as int, 0, 0) =~= out@ + row_fen(
                            sq,
                            r as int,
                            f as int + 1,
                            0,
                        ));
                    }
                    run = 0;
                }
                f = f + 1;
            }
            if run > 0 {
                out.append(digit_str(run));
                proof {
                    assert(base + row_fen(sq, r as int, 0, 0) =~= out@);
                }
            }
            if r > 0 {
                out.append("/");
                proof {
                    reveal_strlit("/");
                    assert("/"@ =~= seq!['/']);
                    assert(placement_fen(sq, r as int) == row_fen(sq, r as int, 0, 0) + seq!['/']
                        + placement_fen(sq, r as int - 1));
                    assert(out@ + placement_fen(sq, r as int - 1) =~= base + placement_fen(
                        sq,
                        r as int,
                    ));
                }
            } else {
                proof {
                    assert(placement_fen(sq, 0) == row_fen(sq, 0, 0, 0));
                    assert(out@ =~= base + placement_fen(sq, 0));
                }
            }
            k = k + 1;
        }
        let ghost placement = out@;
        out.append(" ");
        if self.white_to_play {
            out.append("w");
        } else {
            out.append("b");
        }
        out.append(" ");
        let none = !self.castle_wk && !self.castle_wq && !self.castle_bk && !self.castle_bq;
        let ghost before_castling = out@;
        if none {
            out.append("-");
        } else {
            if self.castle_wk {
                out.append("K");
            }
            if self.castle_wq {
                out.append("Q");
            }
            if self.castle_bk {
                out.append("k");
            }
            if self.castle_bq {
                out.append("q");
            }
        }
        proof {
            reveal_strlit(" ");
            reveal_strlit("w");
            reveal_strlit("b");
            reveal_strlit("-");
            reveal_strlit("K");
            reveal_strlit("Q");
            reveal_strlit("k");
            reveal_strlit("q");
            assert(out@ =~= before_castling + castling_fen(
                self.castle_wk,
                self.castle_wq,
                self.castle_bk,
                self.castle_bq,
            ));
        }
        out.append(" - 0 1");
        proof {
            reveal_strlit(" - 0 1");
            assert(out@ =~= editor_fen(
                sq,
                self.white_to_play,
                self.castle_wk,
                self.castle_wq,
                self.castle_bk,
                self.castle_bq,
            ));
        }
        out
    }

    /// Loads a notation text into the editor: on success the board, the
    /// side to move and the castling rights become those of the described
    /// position; a refused text leaves the editor unchanged and says why it
    /// was refused.  The text is accepted if and only if it is valid
    /// notation for a playable position.
    pub fn load_fen(&mut self, text: &str) -> (r: Result<(), NotationError>)
        requires
            old(self).wf(),
        ensures
            final(self).wf(),
            r is Ok <==> fen_ok(text@),
            r is Err ==> *final(self) == *old(self),
            r is Ok ==> {
                &&& final(self).squares@ == pieces_of(parsed_rep(text@))
                &&& final(self).white_to_play == white_to_move(parsed_rep(text@))
                &&& final(self).castle_wk == (castles_of(parsed_rep(text@)) & 1 != 0)
                &&& final(self).castle_wq == (castles_of(parsed_rep(text@)) & 2 != 0)
                &&& final(self).castle_bk == (castles_of(parsed_rep(text@)) & 4 != 0)
                &&& final(self).castle_bq == (castles_of(parsed_rep(text@)) & 8 != 0)
                &&& final(self).selected_piece == old(self).selected_piece
            },
    {
        match parse_fen(text) {
            Err(e) => Err(e),
            Ok(b) => {
                self.squares = board_pieces(&b);
                self.white_to_play = board_white_to_move(&b);
                let mask = board_castles(&b);
                self.castle_wk = mask & 1 != 0;
                self.castle_wq = mask & 2 != 0;
                self.castle_bk = mask & 4 != 0;
                self.castle_bq = mask & 8 != 0;
                Ok(())
            },
        }
    }

    /// Sets the side to move of the composed position.
    pub fn set_turn(&mut self, white: bool)
        requires
            old(self).wf(),
        ensures
            final(self).wf(),
            final(self).white_to_play == white,
            final(self).squares@ == old(self).squares@,
            final(self).selected_piece == old(self).selected_piece,
            final(self).castle_wk == old(self).castle_wk,
            final(self).castle_wq == old(self).castle_wq,
            final(self).castle_bk == old(self).castle_bk,
            final(self).castle_bq == old(self).castle_bq,
    {
        self.white_to_play = white;
    }
}

/// The one-character text of an occupant code.
fn piece_str(c: u8) -> (r: &'static str)
    requires
        1 <= c <= 12,
    ensures
        r@ == seq![piece_char(c)],
{
    proof {
        reveal_strlit("P");
        reveal_strlit("N");
        reveal_strlit("B");
        reveal_strlit("R");
        reveal_strlit("Q");
        reveal_strlit("K");
        reveal_strlit("p");
        reveal_strlit("n");
        reveal_strlit("b");
        reveal_strlit("r");
        reveal_strlit("q");
        reveal_strlit("k");
    }
    match c {
        1 => "P",
        2 => "N",
        3 => "B",
        4 => "R",
        5 => "Q",
        6 => "K",
        7 => "p",
        8 => "n",
        9 => "b",
        10 => "r",
        11 => "q",
        _ => "k",
    }
}

/// The one-character text of an empty-run length.
fn digit_str(run: u8) -> (r: &'static str)
    requires
        1 <= run <= 8,
    ensures
        r@ == seq![digit_char(run as int)],
{
    proof {
        reveal_strlit("1");
        reveal_strlit("2");
        reveal_strlit("3");
        reveal_strlit("4");
        reveal_strlit("5");
        reveal_strlit("6");
        reveal_strlit("7");
        reveal_strlit("8");
    }
    match run {
        1 => "1",
        2 => "2",
        3 => "3",
        4 => "4",
        5 => "5",
        6 => "6",
        7 => "7",
        _ => "8",
    }
}

} // verus!
