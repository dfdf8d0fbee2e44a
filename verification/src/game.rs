//! The game state machine: a credit balance, a bounded bet, the last win and
//! the last-drawn symbols, mutated only through validated operations.

use crate::payout::{lemma_payout_bounded, payout, spec_payout};
use crate::symbol::Symbol;
use vstd::prelude::*;

verus! {

/// Number of virtual reels in a slot machine.
pub const NUM_REELS: usize = 3;

/// A bet configuration or bet-size mutation would violate `min <= size <= max`.
#[derive(Debug, Clone, PartialEq, Eq, Structural)]
pub struct InvalidBet;

/// There are not enough credits on the balance to cover the bet size.
#[derive(Debug, Clone, PartialEq, Eq, Structural)]
pub struct LowBalance;

/// The wagered amount per spin, bounded by a configured minimum and maximum.
/// A value of this type always satisfies `min <= size <= max`: construction
/// and mutation into a violating state fail with [`InvalidBet`].
#[derive(Debug, Clone, Copy, PartialEq, Eq, Structural)]
pub struct Bet {
    size: u32,
    min: u32,
    max: u32,
}

impl Bet {
    /// The bet size in credits.
    pub closed spec fn spec_size(&self) -> u32 {
        self.size
    }

    /// The minimum allowable bet.
    pub closed spec fn spec_min(&self) -> u32 {
        self.min
    }

    /// The maximum allowable bet.
    pub closed spec fn spec_max(&self) -> u32 {
        self.max
    }

    /// The bet invariant: the size lies within the configured bounds.
    pub open spec fn wf(&self) -> bool {
        self.spec_min() <= self.spec_size() && self.spec_size() <= self.spec_max()
    }

    /// Holds when a size of `bet` is allowed by the bounds `min` and `max`.
    pub open spec fn spec_is_valid(bet: u32, min: u32, max: u32) -> bool {
        min <= bet && bet <= max
    }

    /// Creates a new [`Bet`], or fails with [`InvalidBet`] when the requested
    /// configuration violates `min <= size <= max`.
    pub fn new(size: u32, min: u32, max: u32) -> (r: Result<Bet, InvalidBet>)
        ensures
            r is Ok <==> Bet::spec_is_valid(size, min, max),
            r matches Ok(b) ==> b.spec_size() == size && b.spec_min() == min && b.spec_max() == max
                && b.wf(),
    {
        if Bet::is_valid(size, min, max) {
            Ok(Bet { size, min, max })
        } else {
            Err(InvalidBet)
        }
    }

    /// Sets the bet size in credits, or fails with [`InvalidBet`] when `size`
    /// lies outside the configured bounds; the bounds never change, and a
    /// rejected attempt leaves the bet untouched.
    pub fn set_size(&mut self, size: u32) -> (r: Result<(), InvalidBet>)
        ensures
            r is Ok <==> Bet::spec_is_valid(size, old(self).spec_min(), old(self).spec_max()),
            r is Ok ==> final(self).spec_size() == size,
            r is Err ==> final(self).spec_size() == old(self).spec_size(),
            final(self).spec_min() == old(self).spec_min(),
            final(self).spec_max() == old(self).spec_max(),
            old(self).wf() ==> final(self).wf(),
    {
        if Bet::is_valid(size, self.min, self.max) {
            self.size = size;
            Ok(())
        } else {
            Err(InvalidBet)
        }
    }

    /// Returns the bet size in credits.
    pub fn size(&self) -> (r: u32)
        ensures
            r == self.spec_size(),
    {
        self.size
    }

    /// Returns the minimum allowable bet.
    pub fn min(&self) -> (r: u32)
        ensures
            r == self.spec_min(),
    {
        self.min
    }

    /// Returns the maximum allowable bet.
    pub fn max(&self) -> (r: u32)
        ensures
            r == self.spec_max(),
    {
        self.max
    }

    /// Returns `true` if all three conditions are satisfied: `bet >= min`,
    /// `bet <= max`, `min <= max` (the third follows from the first two).
    pub fn is_valid(bet: u32, min: u32, max: u32) -> (r: bool)
        ensures
            r == Bet::spec_is_valid(bet, min, max),
    {
        bet >= min && bet <= max && min <= max
    }
}

/// The game state: the credit balance, the current bet, the amount of the
/// last win and the symbols left on the reels by the last spin.
#[derive(Debug, Clone, PartialEq)]
pub struct Game {
    credits: u32,
    bet: Bet,
    win: u32,
    stops: Vec<Symbol>,
}

impl Game {
    /// The number of credits in the balance.
    pub closed spec fn spec_credits(&self) -> u32 {
        self.credits
    }

    /// The current bet.
    pub closed spec fn spec_bet(&self) -> Bet {
        self.bet
    }

    /// The amount of the last win.
    pub closed spec fn spec_win(&self) -> u32 {
        self.win
    }

    /// The symbols on the reels.
    pub closed spec fn spec_stops(&self) -> Seq<Symbol> {
        self.stops@
    }

    /// The game invariant: the bet satisfies its bounds and one symbol
    /// stands on each of the three reels.
    pub open spec fn wf(&self) -> bool {
        self.spec_bet().wf() && self.spec_stops().len() == NUM_REELS
    }

    /// Creates a new [`Game`] with the given balance and bet. The initial
    /// symbols are set randomly, the winnings are 0.
    pub fn new(credits: u32, bet: Bet) -> (g: Game)
        requires
            bet.wf(),
        ensures
            g.wf(),
            g.spec_credits() == credits,
            g.spec_bet() == bet,
            g.spec_win() == 0,
    {
        let stops = vec![Symbol::random(), Symbol::random(), Symbol::random()];
        Game { credits, bet, win: 0, stops }
    }

    /// Bet setter: replaces the whole bet configuration.
    pub fn set_bet(&mut self, bet: Bet)
        requires
            old(self).wf(),
            bet.wf(),
        ensures
            final(self).wf(),
            final(self).spec_bet() == bet,
            final(self).spec_credits() == old(self).spec_credits(),
            final(self).spec_win() == old(self).spec_win(),
            final(self).spec_stops() == old(self).spec_stops(),
    {
        self.bet = bet;
    }

    /// Sets the bet size in credits, or fails with [`InvalidBet`] when the
    /// new size lies outside the configured bounds; a rejected attempt
    /// leaves the whole game state untouched.
    pub fn set_bet_size(&mut self, bet_size: u32) -> (r: Result<(), InvalidBet>)
        requires
            old(self).wf(),
        ensures
            final(self).wf(),
            r is Ok <==> Bet::spec_is_valid(
                bet_size,
                old(self).spec_bet().spec_min(),
                old(self).spec_bet().spec_max(),
            ),
            r is Ok ==> final(self).spec_bet().spec_size() == bet_size,
            r is Err ==> *final(self) == *old(self),
            final(self).spec_bet().spec_min() == old(self).spec_bet().spec_min(),
            final(self).spec_bet().spec_max() == old(self).spec_bet().spec_max(),
            final(self).spec_credits() == old(self).spec_credits(),
            final(self).spec_win() == old(self).spec_win(),
            final(self).spec_stops() == old(self).spec_stops(),
    {
        self.bet.set_size(bet_size)
    }

    /// Returns the bet size in credits.
    pub fn bet_size(&self) -> (r: u32)
        ensures
            r == self.spec_bet().spec_size(),
    {
        self.bet.size()
    }

    /// Returns the current bet configuration.
    pub fn bet(&self) -> (r: Bet)
        ensures
            r == self.spec_bet(),
    {
        self.bet
    }

    /// Returns the number of credits in the balance.
    pub fn credits(&self) -> (r: u32)
        ensures
            r == self.spec_credits(),
    {
        self.credits
    }

    /// Returns the amount of the last win.
    pub fn win(&self) -> (r: u32)
        ensures
            r == self.spec_win(),
    {
        self.win
    }

    /// Symbols on the reels.
    pub fn symbols(&self) -> (r: Vec<Symbol>)
        ensures
            r@ == self.spec_stops(),
    {
        self.stops.clone()
    }

    /// Resolves one spin whose three reels stopped on `stops`: fails with
    /// [`LowBalance`], leaving the state untouched, exactly when the balance
    /// does not cover the bet size; otherwise stores the stops, sets the win
    /// to the payout multiplier times the bet size, and moves the balance by
    /// the bet size down and the win up.
    ///
    /// The balance bound keeps the new balance within the machine word: the
    /// multiplier never exceeds 1666, so the net gain of a spin never
    /// exceeds 1665 times the bet size.
    pub fn spin_with_symbols(&mut self, stops: Vec<Symbol>) -> (r: Result<(), LowBalance>)
        requires
            old(self).wf(),
            stops@.len() == NUM_REELS,
            old(self).spec_credits() >= old(self).spec_bet().spec_size()
                ==> old(self).spec_credits() + 1665 * old(self).spec_bet().spec_size()
                <= u32::MAX,
        ensures
            final(self).wf(),
            r is Err <==> old(self).spec_credits() < old(self).spec_bet().spec_size(),
            r is Err ==> *final(self) == *old(self),
            r is Ok ==> final(self).spec_stops() == stops@,
            r is Ok ==> final(self).spec_win() == spec_payout(stops@) * old(
                self,
            ).spec_bet().spec_size(),
            r is Ok ==> final(self).spec_credits() == old(self).spec_credits() - old(
                self,
            ).spec_bet().spec_size() + final(self).spec_win(),
            final(self).spec_bet() == old(self).spec_bet(),
    {
        if self.credits() < self.bet_size() {
            return Err(LowBalance);
        }
        let multiplier = payout(&stops);
        let bet_size = self.bet.size();
        proof {
            lemma_payout_bounded(stops@);
        }
        assert(multiplier * bet_size <= 1666 * bet_size) by (nonlinear_arith)
            requires
                multiplier <= 1666,
        ;
        self.stops = stops;
        self.credits = self.credits - bet_size;
        self.win = multiplier * bet_size;
        self.credits = self.credits + self.win;
        Ok(())
    }

    /// Simulates the rotation of the reels: draws three independent random
    /// symbols and resolves the spin on them. Fails with [`LowBalance`],
    /// leaving the state untouched, exactly when the balance does not cover
    /// the bet size.
    pub fn spin(&mut self) -> (r: Result<(), LowBalance>)
        requires
            old(self).wf(),
            old(self).spec_credits() >= old(self).spec_bet().spec_size()
                ==> old(self).spec_credits() + 1665 * old(self).spec_bet().spec_size()
                <= u32::MAX,
        ensures
            final(self).wf(),
            r is Err <==> old(self).spec_credits() < old(self).spec_bet().spec_size(),
            r is Err ==> *final(self) == *old(self),
            r is Ok ==> final(self).spec_stops().len() == NUM_REELS,
            r is Ok ==> final(self).spec_win() == spec_payout(final(self).spec_stops()) * old(
                self,
            ).spec_bet().spec_size(),
            r is Ok ==> final(self).spec_credits() == old(self).spec_credits() - old(
                self,
            ).spec_bet().spec_size() + final(self).spec_win(),
            final(self).spec_bet() == old(self).spec_bet(),
    {
        if self.credits() < self.bet_size() {
            return Err(LowBalance);
        }
        let mut stops: Vec<Symbol> = Vec::with_capacity(NUM_REELS);
        for _i in 0..NUM_REELS
            invariant
                stops@.len() == _i,
        {
            stops.push(Symbol::random());
        }
        self.spin_with_symbols(stops)
    }
}

/// Creates a game with the given balance and bet configuration, or fails
/// with [`InvalidBet`] exactly when `bet_min <= bet_size <= bet_max` does
/// not hold.
pub fn create_game(credits: u32, bet_size: u32, bet_min: u32, bet_max: u32) -> (r: Result<
    Game,
    InvalidBet,
>)
    ensures
        r is Ok <==> Bet::spec_is_valid(bet_size, bet_min, bet_max),
        r matches Ok(g) ==> g.wf() && g.spec_credits() == credits && g.spec_win() == 0
            && g.spec_bet().spec_size() == bet_size && g.spec_bet().spec_min() == bet_min
            && g.spec_bet().spec_max() == bet_max,
{
    match Bet::new(bet_size, bet_min, bet_max) {
        Ok(bet) => Ok(Game::new(credits, bet)),
        Err(e) => Err(e),
    }
}

/// The next size up the fixed bet ladder 1, 2, 3, 5, 10; nothing above the
/// top or off the ladder.
pub open spec fn spec_bet_up(size: u32) -> Option<u32> {
    if size == 1 {
        Some(2u32)
    } else if size == 2 {
        Some(3u32)
    } else if size == 3 {
        Some(5u32)
    } else if size == 5 {
        Some(10u32)
    } else {
        None
    }
}

/// The next size down the fixed bet ladder 1, 2, 3, 5, 10; nothing below the
/// bottom or off the ladder.
pub open spec fn spec_bet_down(size: u32) -> Option<u32> {
    if size == 10 {
        Some(5u32)
    } else if size == 5 {
        Some(3u32)
    } else if size == 3 {
        Some(2u32)
    } else if size == 2 {
        Some(1u32)
    } else {
        None
    }
}

/// Increases the bet size to the next step of the fixed ladder; fails at the
/// top of the ladder or off it, leaving the game untouched.
pub fn bet_plus(game: &mut Game) -> (r: Result<u32, String>)
    requires
        old(game).wf(),
        spec_bet_up(old(game).spec_bet().spec_size()) matches Some(s) ==> Bet::spec_is_valid(
            s,
            old(game).spec_bet().spec_min(),
            old(game).spec_bet().spec_max(),
        ),
    ensures
        final(game).wf(),
        spec_bet_up(old(game).spec_bet().spec_size()) matches Some(s) ==> (r matches Ok(v) && v
            == s && final(game).spec_bet().spec_size() == s),
        spec_bet_up(old(game).spec_bet().spec_size()) is None ==> r is Err && *final(game) == *old(
            game,
        ),
        r matches Err(e) ==> e@ == (if old(game).spec_bet().spec_size() == 10 {
            "Max bet size!"@
        } else {
            "Invalid bet size!"@
        }),
        final(game).spec_bet().spec_min() == old(game).spec_bet().spec_min(),
        final(game).spec_bet().spec_max() == old(game).spec_bet().spec_max(),
        final(game).spec_credits() == old(game).spec_credits(),
        final(game).spec_win() == old(game).spec_win(),
        final(game).spec_stops() == old(game).spec_stops(),
{
    let size = game.bet_size();
    let bet_size: u32 = if size == 1 {
        2
    } else if size == 2 {
        3
    } else if size == 3 {
        5
    } else if size == 5 {
        10
    } else if size == 10 {
        return Err("Max bet size!".to_owned());
    } else {
        return Err("Invalid bet size!".to_owned());
    };
    match game.set_bet_size(bet_size) {
        Ok(_) => Ok(bet_size),
        Err(_) => Err("Invalid bet size!".to_owned()),
    }
}

/// Decreases the bet size to the previous step of the fixed ladder; fails at
/// the bottom of the ladder or off it, leaving the game untouched.
pub fn bet_minus(game: &mut Game) -> (r: Result<u32, String>)
    requires
        old(game).wf(),
        spec_bet_down(old(game).spec_bet().spec_size()) matches Some(s) ==> Bet::spec_is_valid(
            s,
            old(game).spec_bet().spec_min(),
            old(game).spec_bet().spec_max(),
        ),
    ensures
        final(game).wf(),
        spec_bet_down(old(game).spec_bet().spec_size()) matches Some(s) ==> (r matches Ok(v) && v
            == s && final(game).spec_bet().spec_size() == s),
        spec_bet_down(old(game).spec_bet().spec_size()) is None ==> r is Err && *final(game)
            == *old(game),
        r matches Err(e) ==> e@ == (if old(game).spec_bet().spec_size() == 1 {
            "Min bet size!"@
        } else {
            "Invalid bet size!"@
        }),
        final(game).spec_bet().spec_min() == old(game).spec_bet().spec_min(),
        final(game).spec_bet().spec_max() == old(game).spec_bet().spec_max(),
        final(game).spec_credits() == old(game).spec_credits(),
        final(game).spec_win() == old(game).spec_win(),
        final(game).spec_stops() == old(game).spec_stops(),
{
    let size = game.bet_size();
    let bet_size: u32 = if size == 10 {
        5
    } else if size == 5 {
        3
    } else if size == 3 {
        2
    } else if size == 2 {
        1
    } else if size == 1 {
        return Err("Min bet size!".to_owned());
    } else {
        return Err("Invalid bet size!".to_owned());
    };
    match game.set_bet_size(bet_size) {
        Ok(_) => Ok(bet_size),
        Err(_) => Err("Invalid bet size!".to_owned()),
    }
}

} // verus!
