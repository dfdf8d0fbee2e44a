use slot_machine::payout::{is_all, payout};
use slot_machine::symbol::Symbol::{Bar, Blank, Cherry, DoubleBar, Jackpot, Seven, TripleBar};

#[test]
fn test_payout() {
    assert_eq!(payout(&vec![Jackpot; 3]), 1666);
    assert_eq!(payout(&vec![Seven; 3]), 300);
    assert_eq!(payout(&vec![TripleBar; 3]), 100);
    assert_eq!(payout(&vec![DoubleBar; 3]), 50);
    assert_eq!(payout(&vec![Bar; 3]), 25);
    assert_eq!(payout(&vec![Cherry; 3]), 12);
    assert_eq!(payout(&vec![Bar, DoubleBar, TripleBar]), 12);
    assert_eq!(payout(&vec![Cherry, Cherry, Blank]), 6);
    assert_eq!(payout(&vec![Bar, Blank, Cherry]), 3);
    assert_eq!(payout(&vec![Bar, Blank, Seven]), 0);
}

#[test]
fn payout_mixed_bar_family_orders() {
    assert_eq!(payout(&vec![TripleBar, Bar, DoubleBar]), 12);
    assert_eq!(payout(&vec![DoubleBar, DoubleBar, Bar]), 12);
    assert_eq!(payout(&vec![Bar, Bar, TripleBar]), 12);
}

#[test]
fn payout_cherry_positions() {
    assert_eq!(payout(&vec![Cherry, Blank, Blank]), 3);
    assert_eq!(payout(&vec![Blank, Cherry, Blank]), 3);
    assert_eq!(payout(&vec![Blank, Cherry, Cherry]), 6);
    assert_eq!(payout(&vec![Cherry, Blank, Cherry]), 6);
    assert_eq!(payout(&vec![Cherry, Bar, Seven]), 3);
}

#[test]
fn payout_no_prize_combinations() {
    assert_eq!(payout(&vec![Blank, Blank, Blank]), 0);
    assert_eq!(payout(&vec![Seven, Seven, Jackpot]), 0);
    assert_eq!(payout(&vec![Bar, DoubleBar, Blank]), 0);
}

#[test]
fn is_all_detects_uniform_draws() {
    assert!(is_all(&vec![Bar, Bar, Bar], Bar));
    assert!(!is_all(&vec![Bar, Bar, Blank], Bar));
    assert!(!is_all(&vec![DoubleBar, Bar, Bar], Bar));
    assert!(is_all(&vec![], Bar));
}
