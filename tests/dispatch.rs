use elevator_sim::dispatch::Controller;
use elevator_sim::elevator::{Direction, ElevatorState};
use std::collections::BTreeSet;

fn at(id: usize, floor: i32, direction: Direction) -> ElevatorState {
    ElevatorState { id, current_floor: floor, direction, stops: BTreeSet::new() }
}

#[test]
fn dispatcher_picks_lowest_score() {
    let c = Controller::new(vec!["a", "b", "c"]);
    let states = vec![
        at(0, 0, Direction::Idle),
        at(1, 6, Direction::Up),
        at(2, 9, Direction::Down),
    ];
    assert_eq!(c.request_elevator(8, Direction::Up, &states), Some(1));
    assert_eq!(c.request_elevator(1, Direction::Down, &states), Some(0));
}

#[test]
fn dispatcher_tie_goes_to_first() {
    let c = Controller::new(vec![10u8, 20, 30]);
    let states = vec![
        at(0, 7, Direction::Down),
        at(1, 3, Direction::Idle),
        at(2, 7, Direction::Idle),
    ];
    assert_eq!(c.request_elevator(5, Direction::Up, &states), Some(1));
}

#[test]
fn repeated_request_picks_same_elevator() {
    let c = Controller::new(vec![(), (), ()]);
    let states = vec![
        at(0, 2, Direction::Up),
        at(1, 8, Direction::Down),
        at(2, 5, Direction::Idle),
    ];
    let first = c.request_elevator(4, Direction::Down, &states);
    let second = c.request_elevator(4, Direction::Down, &states);
    assert_eq!(first, Some(2));
    assert_eq!(first, second);
}

#[test]
fn empty_fleet_assigns_nothing() {
    let c: Controller<u32> = Controller::new(Vec::new());
    assert_eq!(c.len(), 0);
    assert_eq!(c.request_elevator(3, Direction::Up, &Vec::new()), None);
    assert_eq!(c.len(), 0);
}

#[test]
fn disconnected_elevator_is_skipped() {
    let mut c = Controller::new(vec![1u32, 2]);
    let states = vec![at(0, 3, Direction::Idle), at(1, 9, Direction::Idle)];
    assert_eq!(c.request_elevator(4, Direction::Up, &states), Some(0));
    c.disconnect(0);
    assert_eq!(c.connected, vec![false, true]);
    assert_eq!(c.request_elevator(4, Direction::Up, &states), Some(1));
    c.disconnect(1);
    assert_eq!(c.request_elevator(4, Direction::Up, &states), None);
    assert_eq!(c.len(), 2);
}

#[test]
fn new_controller_connects_every_elevator() {
    let c = Controller::new(vec!['x', 'y', 'z']);
    assert_eq!(c.elevators, vec!['x', 'y', 'z']);
    assert_eq!(c.connected, vec![true, true, true]);
}
