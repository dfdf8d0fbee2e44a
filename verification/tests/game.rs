use slot_machine::game::{bet_minus, bet_plus, create_game, Bet, Game, InvalidBet, LowBalance};
use slot_machine::symbol::Symbol;

#[test]
fn create_game_within_bounds() {
    let game = create_game(1000, 1, 1, 10).unwrap();
    assert_eq!(game.credits(), 1000);
    assert_eq!(game.bet_size(), 1);
    assert_eq!(game.win(), 0);
    assert_eq!(game.symbols().len(), 3);
}

#[test]
fn create_game_size_above_max() {
    assert!(matches!(create_game(1000, 11, 1, 10), Err(InvalidBet)));
}

#[test]
fn create_game_min_above_max() {
    assert!(matches!(create_game(1000, 1, 10, 1), Err(InvalidBet)));
}

#[test]
fn bet_new_validates_bounds() {
    assert!(Bet::new(1, 1, 1).is_ok());
    assert!(matches!(Bet::new(10, 1, 5), Err(InvalidBet)));
    assert!(matches!(Bet::new(0, 1, 5), Err(InvalidBet)));
    let bet = Bet::new(5, 1, 10).unwrap();
    assert_eq!(bet.size(), 5);
    assert_eq!(bet.min(), 1);
    assert_eq!(bet.max(), 10);
}

#[test]
fn bet_set_size_validates_bounds() {
    let mut bet = Bet::new(5, 1, 10).unwrap();
    assert!(matches!(bet.set_size(11), Err(InvalidBet)));
    assert_eq!(bet.size(), 5);
    assert!(matches!(bet.set_size(0), Err(InvalidBet)));
    assert_eq!(bet.size(), 5);
    assert_eq!(bet.set_size(10), Ok(()));
    assert_eq!(bet.size(), 10);
    assert_eq!(bet.min(), 1);
    assert_eq!(bet.max(), 10);
}

#[test]
fn bet_is_valid_conditions() {
    assert!(Bet::is_valid(1, 1, 1));
    assert!(!Bet::is_valid(10, 1, 5));
    assert!(!Bet::is_valid(0, 1, 5));
    assert!(!Bet::is_valid(3, 5, 1));
}

#[test]
fn adjust_bet_rejected_outside_bounds() {
    let mut game = create_game(1000, 5, 1, 10).unwrap();
    assert!(matches!(game.set_bet_size(11), Err(InvalidBet)));
    assert_eq!(game.bet_size(), 5);
    assert!(matches!(game.set_bet_size(0), Err(InvalidBet)));
    assert_eq!(game.bet_size(), 5);
    assert_eq!(game.set_bet_size(10), Ok(()));
    assert_eq!(game.bet_size(), 10);
}

#[test]
fn set_bet_replaces_configuration() {
    let mut game = create_game(1000, 1, 1, 10).unwrap();
    let bet = Bet::new(50, 1, 100).unwrap();
    game.set_bet(bet);
    assert_eq!(game.bet(), bet);
    assert_eq!(game.bet_size(), 50);
    assert_eq!(game.credits(), 1000);
}

#[test]
fn spin_with_symbols_two_cherries() {
    let mut game = create_game(1000, 10, 1, 10).unwrap();
    let stops = vec![Symbol::Cherry, Symbol::Cherry, Symbol::Blank];
    assert!(game.spin_with_symbols(stops.clone()).is_ok());
    assert_eq!(game.win(), 60);
    assert_eq!(game.credits(), 1000 - 10 + 60);
    assert_eq!(game.symbols(), stops);
}

#[test]
fn spin_with_symbols_jackpot() {
    let mut game = create_game(1000, 1, 1, 10).unwrap();
    let stops = vec![Symbol::Jackpot, Symbol::Jackpot, Symbol::Jackpot];
    assert!(game.spin_with_symbols(stops.clone()).is_ok());
    assert_eq!(game.win(), 1666);
    assert_eq!(game.credits(), 1000 - 1 + 1666);
    assert_eq!(game.symbols(), stops);
}

#[test]
fn spin_with_symbols_losing_draw() {
    let mut game = create_game(50, 10, 1, 10).unwrap();
    let stops = vec![Symbol::Bar, Symbol::Blank, Symbol::Seven];
    assert!(game.spin_with_symbols(stops).is_ok());
    assert_eq!(game.win(), 0);
    assert_eq!(game.credits(), 40);
}

#[test]
fn spin_low_balance_leaves_state_unchanged() {
    let mut game = create_game(5, 10, 1, 10).unwrap();
    let symbols_before = game.symbols();
    assert!(matches!(game.spin(), Err(LowBalance)));
    assert_eq!(game.credits(), 5);
    assert_eq!(game.bet_size(), 10);
    assert_eq!(game.win(), 0);
    assert_eq!(game.symbols(), symbols_before);
    let stops = vec![Symbol::Cherry, Symbol::Cherry, Symbol::Cherry];
    assert!(matches!(game.spin_with_symbols(stops), Err(LowBalance)));
    assert_eq!(game.credits(), 5);
    assert_eq!(game.win(), 0);
    assert_eq!(game.symbols(), symbols_before);
}

#[test]
fn spin_balance_equation_holds() {
    let mut game = create_game(1000, 10, 1, 10).unwrap();
    for _ in 0..20 {
        let before = game.credits();
        if before < game.bet_size() {
            break;
        }
        assert!(game.spin().is_ok());
        assert_eq!(game.credits(), before - game.bet_size() + game.win());
        assert_eq!(game.symbols().len(), 3);
    }
}

#[test]
fn bet_ladder_up_and_down() {
    let mut game = create_game(1000, 1, 1, 100).unwrap();
    assert_eq!(bet_plus(&mut game), Ok(2));
    assert_eq!(bet_plus(&mut game), Ok(3));
    assert_eq!(bet_plus(&mut game), Ok(5));
    assert_eq!(bet_plus(&mut game), Ok(10));
    assert_eq!(bet_plus(&mut game), Err("Max bet size!".to_owned()));
    assert_eq!(game.bet_size(), 10);
    assert_eq!(bet_minus(&mut game), Ok(5));
    assert_eq!(bet_minus(&mut game), Ok(3));
    assert_eq!(bet_minus(&mut game), Ok(2));
    assert_eq!(bet_minus(&mut game), Ok(1));
    assert_eq!(bet_minus(&mut game), Err("Min bet size!".to_owned()));
    assert_eq!(game.bet_size(), 1);
}

#[test]
fn bet_ladder_off_ladder_size() {
    let mut game = create_game(1000, 4, 1, 100).unwrap();
    assert_eq!(bet_plus(&mut game), Err("Invalid bet size!".to_owned()));
    assert_eq!(game.bet_size(), 4);
    assert_eq!(bet_minus(&mut game), Err("Invalid bet size!".to_owned()));
    assert_eq!(game.bet_size(), 4);
}

#[test]
fn game_new_sets_three_random_symbols() {
    for _ in 0..50 {
        let game = Game::new(10, Bet::new(1, 1, 10).unwrap());
        assert_eq!(game.symbols().len(), 3);
        assert_eq!(game.win(), 0);
        assert_eq!(game.credits(), 10);
    }
}
