//! Plain data types shared by the session, the editor and the callers.

use vstd::prelude::*;

verus! {

/// A piece kind, used for promotion choices and for the editor's brush.
#[derive(Clone, Copy, PartialEq, Eq, Structural, Debug)]
pub enum PieceKind {
    Pawn,
    Knight,
    Bishop,
    Rook,
    Queen,
    King,
}

/// One entry of the session's move history, in coordinate notation:
/// origin and destination square (index `0..64`, a1 = 0, b1 = 1, ..., h8 = 63)
/// and the chosen promotion piece, if any.
#[derive(Clone, Copy, PartialEq, Eq, Structural, Debug)]
pub struct MoveRec {
    pub from: u8,
    pub to: u8,
    pub promo: Option<PieceKind>,
}

impl MoveRec {
    /// Both squares of the record lie on the board.
    pub open spec fn squares_ok(self) -> bool {
        self.from < 64 && self.to < 64
    }
}

/// The numeric code of a piece kind: pawn 1, knight 2, bishop 3, rook 4,
/// queen 5, king 6.
pub open spec fn kind_code(k: PieceKind) -> u8 {
    match k {
        PieceKind::Pawn => 1,
        PieceKind::Knight => 2,
        PieceKind::Bishop => 3,
        PieceKind::Rook => 4,
        PieceKind::Queen => 5,
        PieceKind::King => 6,
    }
}

impl PieceKind {
    /// The numeric code of this piece kind.
    pub fn code(self) -> (c: u8)
        ensures
            c == kind_code(self),
    {
        match self {
            PieceKind::Pawn => 1,
            PieceKind::Knight => 2,
            PieceKind::Bishop => 3,
            PieceKind::Rook => 4,
            PieceKind::Queen => 5,
            PieceKind::King => 6,
        }
    }

    /// The piece kind of a numeric code in `1..=6`; other codes give the king.
    pub fn from_code(c: u8) -> (k: PieceKind)
        ensures
            1 <= c <= 6 ==> kind_code(k) == c,
    {
        match c {
            1 => PieceKind::Pawn,
            2 => PieceKind::Knight,
            3 => PieceKind::Bishop,
            4 => PieceKind::Rook,
            5 => PieceKind::Queen,
            _ => PieceKind::King,
        }
    }
}

/// Terminal or non-terminal classification of a position.
#[derive(Clone, Copy, PartialEq, Eq, Structural, Debug)]
pub enum Outcome {
    Ongoing,
    Checkmate { white_lost: bool },
    Stalemate,
    InsufficientMaterial,
    FiftyMoveRule,
    ThreeRepetition,
}

impl Outcome {
    /// A user-facing description of the outcome.
    pub fn message(&self) -> (r: &'static str)
        ensures
            *self is Ongoing ==> r@ == "ongoing"@,
            *self matches Outcome::Checkmate { white_lost } && white_lost ==> r@
                == "Checkmate! Black wins."@,
            *self matches Outcome::Checkmate { white_lost } && !white_lost ==> r@
                == "Checkmate! White wins."@,
            *self is Stalemate ==> r@ == "Stalemate! It's a draw."@,
            *self is InsufficientMaterial ==> r@ == "Draw: Insufficient material."@,
            *self is FiftyMoveRule ==> r@ == "Draw: 50-move rule."@,
            *self is ThreeRepetition ==> r@ == "Draw: Threefold repetition."@,
    {
        proof {
            reveal_strlit("ongoing");
            reveal_strlit("Checkmate! Black wins.");
            reveal_strlit("Checkmate! White wins.");
            reveal_strlit("Stalemate! It's a draw.");
            reveal_strlit("Draw: Insufficient material.");
            reveal_strlit("Draw: 50-move rule.");
            reveal_strlit("Draw: Threefold repetition.");
        }
        match *self {
            Outcome::Ongoing => "ongoing",
            Outcome::Checkmate { white_lost: true } => "Checkmate! Black wins.",
            Outcome::Checkmate { white_lost: false } => "Checkmate! White wins.",
            Outcome::Stalemate => "Stalemate! It's a draw.",
            Outcome::InsufficientMaterial => "Draw: Insufficient material.",
            Outcome::FiftyMoveRule => "Draw: 50-move rule.",
            Outcome::ThreeRepetition => "Draw: Threefold repetition.",
        }
    }
}

/// The session's mutually exclusive mode: live play with the last derived
/// outcome, inspecting history at a ply index, or waiting for a promotion
/// choice for the move into the given destination square.
#[derive(Clone, Copy, PartialEq, Eq, Structural, Debug)]
pub enum PlayState {
    Playing(Outcome),
    Viewing(usize),
    Promotion(u8),
}

/// Which side or sides the automated player controls.
#[derive(Clone, Copy, PartialEq, Eq, Structural, Debug)]
pub enum Engine {
    Neither,
    White,
    Black,
    Both,
}

impl Engine {
    /// The label shown for the side assignment.
    pub fn to_string(&self) -> (r: &'static str)
        ensures
            *self is Neither ==> r@ == "Neither"@,
            *self is White ==> r@ == "White"@,
            *self is Black ==> r@ == "Black"@,
            *self is Both ==> r@ == "Both"@,
    {
        proof {
            reveal_strlit("Neither");
            reveal_strlit("White");
            reveal_strlit("Black");
            reveal_strlit("Both");
        }
        match *self {
            Engine::Neither => "Neither",
            Engine::White => "White",
            Engine::Black => "Black",
            Engine::Both => "Both",
        }
    }
}

/// The application's top-level sections.
#[derive(Clone, Copy, PartialEq, Eq, Structural, Debug)]
pub enum Tab {
    Play,
    PositionCreator,
    Statistics,
}

/// Why a notation text was refused by the rules authority.
#[derive(Clone, Copy, PartialEq, Eq, Structural, Debug)]
pub enum NotationError {
    /// The text is not syntactically valid notation.
    Syntax,
    /// The text parses but does not describe a playable position.
    Position,
}

impl NotationError {
    /// A user-facing description of the failure.
    pub fn message(&self) -> (r: &'static str)
        ensures
            *self is Syntax ==> r@ == "The notation text is malformed."@,
            *self is Position ==> r@ == "The notation text is not a playable position."@,
    {
        proof {
            reveal_strlit("The notation text is malformed.");
            reveal_strlit("The notation text is not a playable position.");
        }
        match *self {
            NotationError::Syntax => "The notation text is malformed.",
            NotationError::Position => "The notation text is not a playable position.",
        }
    }
}

/// What a routed board click did to the session.
#[derive(Clone, Copy, PartialEq, Eq, Structural, Debug)]
pub enum ClickOutcome {
    /// A piece of the side to move was picked up.
    Selected,
    /// The previously selected tile was clicked again and released.
    Deselected,
    /// A complete move was applied.
    Moved,
    /// The move needs a promotion choice before it can complete.
    PromotionStarted,
    /// The submitted move is not legal; the selection is kept.
    Illegal,
    /// The click changed nothing.
    Ignored,
}

} // verus!
