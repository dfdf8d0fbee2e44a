//! A small slot-machine core: a symbol resolver that maps drawn numbers to
//! reel symbols, a pure payout table, and a game state machine that owns the
//! credit balance and the current bet.

pub mod game;
pub mod payout;
pub mod symbol;
