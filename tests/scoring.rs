use elevator_sim::elevator::{Direction, ElevatorState, OPPOSITE_PENALTY, REVERSAL_PENALTY};
use std::collections::BTreeSet;

fn at(id: usize, floor: i32, direction: Direction) -> ElevatorState {
    ElevatorState { id, current_floor: floor, direction, stops: BTreeSet::new() }
}

#[test]
fn idle_score_is_distance() {
    let s = at(0, 2, Direction::Idle);
    assert_eq!(s.calculate_score(7, Direction::Up), 5);
    assert_eq!(s.calculate_score(-3, Direction::Down), 5);
}

#[test]
fn up_sweep_scores() {
    let s = at(0, 4, Direction::Up);
    assert_eq!(s.calculate_score(6, Direction::Up), 2);
    assert_eq!(s.calculate_score(4, Direction::Up), 0);
    assert_eq!(s.calculate_score(2, Direction::Up), 1002);
    assert_eq!(s.calculate_score(6, Direction::Down), 502);
    assert_eq!(s.calculate_score(2, Direction::Down), 502);
    assert_eq!(REVERSAL_PENALTY, 1000);
    assert_eq!(OPPOSITE_PENALTY, 500);
}

#[test]
fn down_sweep_scores() {
    let s = at(0, 4, Direction::Down);
    assert_eq!(s.calculate_score(1, Direction::Down), 3);
    assert_eq!(s.calculate_score(4, Direction::Down), 0);
    assert_eq!(s.calculate_score(7, Direction::Down), 1003);
    assert_eq!(s.calculate_score(1, Direction::Up), 503);
}

#[test]
fn score_order_at_equal_distance() {
    let s = at(0, 10, Direction::Up);
    let ahead = s.calculate_score(13, Direction::Up);
    let other = s.calculate_score(13, Direction::Down);
    let passed = s.calculate_score(7, Direction::Up);
    assert!(ahead < other && other < passed);
}

#[test]
fn up_score_grows_with_floor_ahead() {
    let s = at(0, 2, Direction::Up);
    let mut last = s.calculate_score(2, Direction::Up);
    for f in 3..20 {
        let next = s.calculate_score(f, Direction::Up);
        assert!(last <= next);
        last = next;
    }
}

#[test]
fn extreme_floors_do_not_overflow() {
    let s = at(0, i32::MIN, Direction::Up);
    assert_eq!(s.calculate_score(i32::MAX, Direction::Down), 4294967295 + 500);
    let t = at(0, i32::MAX, Direction::Up);
    assert_eq!(t.calculate_score(i32::MIN, Direction::Up), 4294967295 + 1000);
}
