use axis_ledger::{add_purchase, commit_purchase, remove_purchase, show_status, GameState, Troops};

fn state_with(balance: i32, purchases: &[(Troops, i32)]) -> GameState {
    let mut s = GameState::new(balance);
    for (t, q) in purchases {
        s.purchase(*t, *q);
    }
    s
}

#[test]
fn costs_match_the_price_list() {
    let expected = [
        (Troops::Infantery, 3),
        (Troops::Tank, 6),
        (Troops::Artillery, 4),
        (Troops::AAA, 5),
        (Troops::IC, 15),
        (Troops::Fighter, 10),
        (Troops::Bomber, 12),
        (Troops::Battleship, 20),
        (Troops::AircraftCarrier, 14),
        (Troops::Destroyer, 8),
        (Troops::Cruiser, 12),
        (Troops::Submarine, 6),
        (Troops::Transport, 7),
    ];
    for (t, c) in expected {
        assert_eq!(t.get_cost(), c);
    }
}

#[test]
fn display_names() {
    assert_eq!(Troops::AircraftCarrier.name(), "Aircraft Carrier");
    assert_eq!(Troops::Infantery.name(), "Infantery");
    assert_eq!(Troops::AAA.name(), "AAA");
    assert_eq!(Troops::Transport.name(), "Transport");
}

#[test]
fn index_and_from_index_agree() {
    for i in 0..13usize {
        assert_eq!(Troops::from_index(i).index(), i);
    }
    assert_eq!(Troops::Battleship.index(), 7);
}

#[test]
fn new_state_is_empty() {
    let s = GameState::new(42);
    assert_eq!(s.balance(), 42);
    assert!(s.entries().is_empty());
    assert_eq!(s.get_total_cost(), 0);
    assert_eq!(s.remaining(), 42);
}

#[test]
fn purchase_accumulates() {
    let s = add_purchase(Some(GameState::new(100)), Troops::Tank, 2);
    let s = add_purchase(s, Troops::Tank, 3).unwrap();
    assert_eq!(s.quantity(Troops::Tank), Some(5));
    assert_eq!(s.get_total_cost(), 30);
    assert_eq!(s.remaining(), 70);
}

#[test]
fn purchase_negative_amount_is_kept() {
    let s = add_purchase(Some(GameState::new(10)), Troops::Fighter, -2).unwrap();
    assert_eq!(s.quantity(Troops::Fighter), Some(-2));
    assert_eq!(s.get_total_cost(), -20);
    assert_eq!(s.remaining(), 30);
}

#[test]
fn remove_below_zero_clears() {
    let s = state_with(50, &[(Troops::Infantery, 2)]);
    let s = remove_purchase(Some(s), Troops::Infantery, Some(5)).unwrap();
    assert_eq!(s.quantity(Troops::Infantery), None);
    assert!(s.entries().is_empty());
}

#[test]
fn remove_partial_keeps_rest() {
    let s = state_with(50, &[(Troops::Infantery, 5)]);
    let s = remove_purchase(Some(s), Troops::Infantery, Some(2)).unwrap();
    assert_eq!(s.quantity(Troops::Infantery), Some(3));
}

#[test]
fn remove_all_default() {
    let s = state_with(50, &[(Troops::Fighter, 4), (Troops::Tank, 1)]);
    let s = remove_purchase(Some(s), Troops::Fighter, None).unwrap();
    assert_eq!(s.quantity(Troops::Fighter), None);
    assert_eq!(s.quantity(Troops::Tank), Some(1));
}

#[test]
fn remove_of_absent_kind_still_saves() {
    let s = remove_purchase(Some(GameState::new(5)), Troops::Bomber, Some(1)).unwrap();
    assert_eq!(s.quantity(Troops::Bomber), None);
    assert_eq!(s.balance(), 5);
    let s = remove_purchase(Some(s), Troops::Bomber, None).unwrap();
    assert_eq!(s.quantity(Troops::Bomber), None);
}

#[test]
fn commit_rejection_is_non_mutating() {
    let s = state_with(10, &[(Troops::Battleship, 1)]);
    assert_eq!(s.remaining(), -10);
    assert!(commit_purchase(Some(s), 50).is_none());
    let mut s = state_with(10, &[(Troops::Battleship, 1)]);
    assert!(!s.commit(50));
    assert_eq!(s.balance(), 10);
    assert_eq!(s.entries(), vec![(Troops::Battleship, 1)]);
}

#[test]
fn commit_success_arithmetic() {
    let s = state_with(20, &[(Troops::Infantery, 2)]);
    let s = commit_purchase(Some(s), 30).unwrap();
    assert_eq!(s.balance(), 44);
    assert!(s.entries().is_empty());
}

#[test]
fn commit_with_exact_balance() {
    let s = state_with(6, &[(Troops::Tank, 1)]);
    let s = commit_purchase(Some(s), 0).unwrap();
    assert_eq!(s.balance(), 0);
}

#[test]
fn missing_state_is_a_no_op() {
    assert!(add_purchase(None, Troops::Tank, 1).is_none());
    assert!(remove_purchase(None, Troops::Tank, Some(1)).is_none());
    assert!(remove_purchase(None, Troops::Tank, None).is_none());
    assert!(commit_purchase(None, 10).is_none());
}

#[test]
fn status_on_missing_state_shows_nothing() {
    assert!(show_status(None).is_none());
}

#[test]
fn status_report_lines() {
    let s = state_with(100, &[(Troops::Submarine, 2), (Troops::Infantery, 3)]);
    let rep = show_status(Some(s)).unwrap();
    assert_eq!(rep.lines, vec![(Troops::Infantery, 3, 3), (Troops::Submarine, 2, 6)]);
    assert_eq!(rep.total, 21);
    assert_eq!(rep.remaining, 79);
}

#[test]
fn entries_round_trip() {
    let s = state_with(17, &[(Troops::IC, 1), (Troops::Cruiser, 4), (Troops::AAA, 0)]);
    let es = s.entries();
    assert_eq!(es, vec![(Troops::AAA, 0), (Troops::IC, 1), (Troops::Cruiser, 4)]);
    let back = GameState::from_entries(s.balance(), &es);
    assert_eq!(back.balance(), 17);
    assert_eq!(back.entries(), es);
}

#[test]
fn from_entries_later_entry_wins() {
    let es = vec![(Troops::Tank, 1), (Troops::Tank, 9)];
    let s = GameState::from_entries(3, &es);
    assert_eq!(s.quantity(Troops::Tank), Some(9));
}

#[test]
fn total_cost_does_not_overflow() {
    let s = state_with(i32::MAX, &[(Troops::Battleship, i32::MAX), (Troops::IC, i32::MAX)]);
    assert_eq!(s.get_total_cost(), 35 * (i32::MAX as i64));
    assert_eq!(s.remaining(), i32::MAX as i64 - 35 * (i32::MAX as i64));
}
