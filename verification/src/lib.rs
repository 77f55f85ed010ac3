//! Interactive control layer of a chessboard application.
//!
//! The crate decides, frame by frame, what board position is displayed,
//! which user input is legal to accept, and when an automated player should
//! move.  Chess rules themselves (move legality, terminal classification,
//! notation encoding and decoding) are consumed from the `shakmaty` crate as
//! an opaque authority behind the trusted declarations in [`authority`].
//!
//! - [`state`]: the plain data types (session states, move records, outcomes);
//! - [`authority`]: the trusted boundary to the rules authority;
//! - [`replay`]: the mathematical model of replaying a move history;
//! - [`play`]: the live session: session state machine, replay cursor,
//!   input router and automated-move scheduler;
//! - [`position_creator`]: the independent position editor;
//! - [`geom`]: the board/screen coordinate mapper.

pub mod authority;
pub mod geom;
pub mod play;
pub mod position_creator;
pub mod replay;
pub mod state;
