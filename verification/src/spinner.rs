//! The waiting indicator: a symbol that turns in place while the program
//! works. Which symbol stands at which tick is decided here; drawing it and
//! waiting between ticks is the caller's part.

use vstd::prelude::*;

verus! {

/// How many times the indicator turns round.
pub const ROUNDS: usize = 5;

/// How many symbols make one round.
pub const SYMBOLS_PER_ROUND: usize = 4;

/// The terminal column in which the indicator is drawn.
pub const COLUMN: u16 = 30;

/// The pause between two ticks, in milliseconds.
pub const PAUSE_MILLIS: u64 = 100;

/// The symbols of one round, in the order in which they are drawn.
pub open spec fn symbols() -> Seq<char> {
    seq!['|', '/', '-', '\\']
}

/// The symbol drawn at `tick`, or none once the indicator has turned all its
/// rounds.
pub open spec fn spec_frame(tick: nat) -> Option<char> {
    if tick < ROUNDS * SYMBOLS_PER_ROUND {
        Some(symbols()[(tick % (SYMBOLS_PER_ROUND as nat)) as int])
    } else {
        None
    }
}

/// The symbol to draw at `tick`, or none once the indicator has turned all
/// its rounds.
pub fn frame(tick: usize) -> (symbol: Option<char>)
    ensures
        symbol == spec_frame(tick as nat),
{
    if tick < ROUNDS * SYMBOLS_PER_ROUND {
        let place: usize = tick % SYMBOLS_PER_ROUND;
        if place == 0 {
            Some('|')
        } else if place == 1 {
            Some('/')
        } else if place == 2 {
            Some('-')
        } else {
            Some('\\')
        }
    } else {
        None
    }
}

} // verus!
