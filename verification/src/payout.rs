//! The payout table: a pure function from the three drawn symbols to an
//! integer multiplier, resolved top to bottom so that overlapping rules
//! (all Cherry before two Cherry) pick the highest prize first.

use crate::game::NUM_REELS;
use crate::symbol::Symbol;
use vstd::prelude::*;

verus! {

/// Holds when every symbol of `s` equals `expected`.
pub open spec fn spec_is_all(s: Seq<Symbol>, expected: Symbol) -> bool {
    forall|i: int| 0 <= i < s.len() ==> s[i] == expected
}

/// Holds of the three symbols that share the Bar mark: a mixed draw of them
/// pays like three Cherries.
pub open spec fn spec_is_bar_family(s: Symbol) -> bool {
    s == Symbol::Bar || s == Symbol::DoubleBar || s == Symbol::TripleBar
}

/// How many of the three drawn symbols are Cherry.
pub open spec fn spec_cherry_count(s: Seq<Symbol>) -> int
    recommends
        s.len() == NUM_REELS,
{
    (if s[0] == Symbol::Cherry {
        1int
    } else {
        0int
    }) + (if s[1] == Symbol::Cherry {
        1int
    } else {
        0int
    }) + (if s[2] == Symbol::Cherry {
        1int
    } else {
        0int
    })
}

/// The payout multiplier for a draw of exactly three symbols, first matching
/// rule wins: three Jackpots pay 1666, three Sevens 300, three TripleBars 100,
/// three DoubleBars 50, three Bars 25, three Cherries or any mixture from the
/// Bar family 12, exactly two Cherries 6, exactly one Cherry 3, anything
/// else 0.
pub open spec fn spec_payout(s: Seq<Symbol>) -> u32
    recommends
        s.len() == NUM_REELS,
{
    if spec_is_all(s, Symbol::Jackpot) {
        1666
    } else if spec_is_all(s, Symbol::Seven) {
        300
    } else if spec_is_all(s, Symbol::TripleBar) {
        100
    } else if spec_is_all(s, Symbol::DoubleBar) {
        50
    } else if spec_is_all(s, Symbol::Bar) {
        25
    } else if spec_is_all(s, Symbol::Cherry) || (spec_is_bar_family(s[0]) && spec_is_bar_family(
        s[1],
    ) && spec_is_bar_family(s[2])) {
        12
    } else if spec_cherry_count(s) == 2 {
        6
    } else if spec_cherry_count(s) == 1 {
        3
    } else {
        0
    }
}

/// The multiplier never exceeds the top prize of the table.
pub proof fn lemma_payout_bounded(s: Seq<Symbol>)
    ensures
        spec_payout(s) <= 1666,
{
}

/// Returns `true` if `vec` contains only `expected`.
pub fn is_all(vec: &Vec<Symbol>, expected: Symbol) -> (r: bool)
    ensures
        r == spec_is_all(vec@, expected),
{
    let mut i: usize = 0;
    while i < vec.len()
        invariant
            0 <= i <= vec@.len(),
            forall|j: int| 0 <= j < i ==> vec@[j] == expected,
        decreases vec@.len() - i,
    {
        if vec[i] != expected {
            return false;
        }
        i += 1;
    }
    true
}

/// Returns `true` if `s` carries the Bar mark (Bar, DoubleBar or TripleBar).
pub fn is_bar_family(s: Symbol) -> (r: bool)
    ensures
        r == spec_is_bar_family(s),
{
    match s {
        Symbol::Bar | Symbol::DoubleBar | Symbol::TripleBar => true,
        _ => false,
    }
}

/// Computes the payout multiplier for a draw of exactly three symbols.
pub fn payout(symbols: &Vec<Symbol>) -> (r: u32)
    requires
        symbols@.len() == NUM_REELS,
    ensures
        r == spec_payout(symbols@),
{
    if is_all(symbols, Symbol::Jackpot) {
        return 1666;
    } else if is_all(symbols, Symbol::Seven) {
        return 300;
    } else if is_all(symbols, Symbol::TripleBar) {
        return 100;
    } else if is_all(symbols, Symbol::DoubleBar) {
        return 50;
    } else if is_all(symbols, Symbol::Bar) {
        return 25;
    } else if is_all(symbols, Symbol::Cherry) || (is_bar_family(symbols[0]) && is_bar_family(
        symbols[1],
    ) && is_bar_family(symbols[2])) {
        return 12;
    }
    let mut cherries: u32 = 0;
    if symbols[0] == Symbol::Cherry {
        cherries += 1;
    }
    if symbols[1] == Symbol::Cherry {
        cherries += 1;
    }
    if symbols[2] == Symbol::Cherry {
        cherries += 1;
    }
    if cherries == 2 {
        6
    } else if cherries == 1 {
        3
    } else {
        0
    }
}

} // verus!
