//! The symbol resolver: maps a drawn number in `0..=127` to one of seven
//! reel symbols through contiguous sub-ranges.

use rand::Rng;
use vstd::prelude::*;

verus! {

/// Largest number that resolves to a symbol; draws are uniform over `0..=MAX_REEL_NUMBER`.
pub const MAX_REEL_NUMBER: u32 = 127;

/// A symbol shown on one reel.
#[derive(Debug, Clone, Copy, PartialEq, Eq, Structural)]
pub enum Symbol {
    Blank,
    Cherry,
    Bar,
    DoubleBar,
    TripleBar,
    Seven,
    Jackpot,
}

/// The mapping from a drawn number to a symbol: contiguous sub-ranges
/// partition `0..=127`, and anything outside resolves to nothing.
pub open spec fn spec_from_number(number: u32) -> Option<Symbol> {
    if number <= 72 {
        Some(Symbol::Blank)
    } else if number <= 77 {
        Some(Symbol::Cherry)
    } else if number <= 93 {
        Some(Symbol::Bar)
    } else if number <= 106 {
        Some(Symbol::DoubleBar)
    } else if number <= 117 {
        Some(Symbol::TripleBar)
    } else if number <= 125 {
        Some(Symbol::Seven)
    } else if number <= 127 {
        Some(Symbol::Jackpot)
    } else {
        None
    }
}

impl Symbol {
    /// Resolves `number` to its symbol, or to `None` when `number` lies
    /// outside `0..=127`.
    pub fn from_number(number: u32) -> (r: Option<Symbol>)
        ensures
            r == spec_from_number(number),
            r is Some <==> number <= MAX_REEL_NUMBER,
    {
        if number <= 72 {
            Some(Symbol::Blank)
        } else if number <= 77 {
            Some(Symbol::Cherry)
        } else if number <= 93 {
            Some(Symbol::Bar)
        } else if number <= 106 {
            Some(Symbol::DoubleBar)
        } else if number <= 117 {
            Some(Symbol::TripleBar)
        } else if number <= 125 {
            Some(Symbol::Seven)
        } else if number <= 127 {
            Some(Symbol::Jackpot)
        } else {
            None
        }
    }

    /// Draws a uniformly distributed number in `0..=127` and resolves it;
    /// every drawn number resolves, so the draw never fails.
    pub fn random() -> Symbol {
        let number = sample_reel_number();
        Symbol::from_number(number).unwrap()
    }
}

/// Relies on rand's `Uniform::new_inclusive(0, 127)` and `Rng::sample`: the
/// sampled value is uniformly distributed over the inclusive range, so it
/// never exceeds the upper bound.
#[verifier::external_body]
fn sample_reel_number() -> (r: u32)
    ensures
        r <= MAX_REEL_NUMBER,
{
    let uniform = rand::distributions::Uniform::new_inclusive(0u32, MAX_REEL_NUMBER);
    rand::thread_rng().sample(uniform)
}

/// Every number in `0..=127` resolves to a symbol, and no number outside
/// that range does: the sub-ranges of the mapping are a total, contiguous
/// partition of `0..=127`.
pub proof fn lemma_from_number_total(number: u32)
    ensures
        number <= MAX_REEL_NUMBER <==> spec_from_number(number) is Some,
{
}

} // verus!
