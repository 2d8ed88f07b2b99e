//! The state of one elevator, its scoring against a request, and the sweep
//! that moves it one floor per tick.
use std::collections::BTreeSet;
use vstd::prelude::*;
use vstd::std_specs::iter::IteratorSpec;

verus! {

/// Penalty for a request in the elevator's direction that it has already passed:
/// it is reached only after a full reversal of the sweep.
pub const REVERSAL_PENALTY: i64 = 1000;

/// Penalty for a request whose wanted direction is opposite to the sweep.
pub const OPPOSITE_PENALTY: i64 = 500;

/// The way an elevator is sweeping, or `Idle` when it has nothing to do.
#[derive(Debug, Clone, Copy, PartialEq, Eq, Structural)]
pub enum Direction {
    Up,
    Down,
    Idle,
}

/// A message from the dispatcher to one elevator.
#[derive(Debug, Clone, Copy, PartialEq, Eq, Structural)]
pub enum Command {
    /// Add a floor to the pending stops.
    AddStop(i32),
    /// Ask for the current state; changes nothing.
    Status,
}

/// One elevator: where it is, which way it sweeps, and where it must stop.
pub struct ElevatorState {
    pub id: usize,
    pub current_floor: i32,
    pub direction: Direction,
    pub stops: BTreeSet<i32>,
}

/// Distance between two floors.
pub open spec fn distance(a: i32, b: i32) -> int {
    if a >= b {
        a - b
    } else {
        b - a
    }
}

/// The cost of sending an elevator at `current`, sweeping in `sweep`, to `floor`
/// for a passenger who wants to go `wanted`. Lower is better.
pub open spec fn score_of(current: i32, sweep: Direction, floor: i32, wanted: Direction) -> int {
    let d = distance(current, floor);
    match sweep {
        Direction::Idle => d,
        Direction::Up => if wanted == Direction::Up && floor >= current {
            d
        } else if wanted == Direction::Up {
            d + REVERSAL_PENALTY
        } else {
            d + OPPOSITE_PENALTY
        },
        Direction::Down => if wanted == Direction::Down && floor <= current {
            d
        } else if wanted == Direction::Down {
            d + REVERSAL_PENALTY
        } else {
            d + OPPOSITE_PENALTY
        },
    }
}

impl ElevatorState {
    /// The score of this elevator for a request at `floor` going `wanted`.
    pub open spec fn score(&self, floor: i32, wanted: Direction) -> int {
        score_of(self.current_floor, self.direction, floor, wanted)
    }

    /// A fresh elevator: at floor 0, idle, with no stops.
    pub fn new(id: usize) -> (r: Self)
        ensures
            r.id == id,
            r.current_floor == 0,
            r.direction == Direction::Idle,
            r.stops@ == Set::<i32>::empty(),
    {
        ElevatorState { id, current_floor: 0, direction: Direction::Idle, stops: BTreeSet::new() }
    }

    /// How well this elevator suits a request at `floor` for a passenger going
    /// `direction`; the dispatcher picks the lowest.
    pub fn calculate_score(&self, floor: i32, direction: Direction) -> (r: i64)
        ensures
            r == self.score(floor, direction),
    {
        let here = self.current_floor as i64;
        let there = floor as i64;
        let distance: i64 = if here >= there {
            here - there
        } else {
            there - here
        };
        match self.direction {
            Direction::Idle => distance,
            Direction::Up => {
                if direction == Direction::Up && floor >= self.current_floor {
                    distance
                } else if direction == Direction::Up {
                    distance + REVERSAL_PENALTY
                } else {
                    distance + OPPOSITE_PENALTY
                }
            },
            Direction::Down => {
                if direction == Direction::Down && floor <= self.current_floor {
                    distance
                } else if direction == Direction::Down {
                    distance + REVERSAL_PENALTY
                } else {
                    distance + OPPOSITE_PENALTY
                }
            },
        }
    }
}

/// The nearest pending stop strictly above `floor`.
pub fn nearest_above(stops: &BTreeSet<i32>, floor: i32) -> (r: Option<i32>)
    ensures
        match r {
            Some(u) => stops@.contains(u) && u > floor && forall|s: i32|
                #[trigger] stops@.contains(s) && s > floor ==> u <= s,
            None => forall|s: i32| #[trigger] stops@.contains(s) ==> s <= floor,
        },
{
    broadcast use vstd::std_specs::btree::group_btree_axioms;

    let mut best: Option<i32> = None;
    let keys = stops.iter();
    for x in it: keys
        invariant
            it.seq().unref().to_set() == stops@,
            match best {
                Some(u) => stops@.contains(u) && u > floor && forall|j: int|
                    0 <= j < it.index() && *it.seq()[j] > floor ==> u <= *it.seq()[j],
                None => forall|j: int| 0 <= j < it.index() ==> *it.seq()[j] <= floor,
            },
    {
        let v = *x;
        if v > floor {
            match best {
                Some(u) => {
                    if v < u {
                        best = Some(v);
                    }
                },
                None => {
                    best = Some(v);
                },
            }
        }
    }
    best
}

/// The nearest pending stop strictly below `floor`.
pub fn nearest_below(stops: &BTreeSet<i32>, floor: i32) -> (r: Option<i32>)
    ensures
        match r {
            Some(d) => stops@.contains(d) && d < floor && forall|s: i32|
                #[trigger] stops@.contains(s) && s < floor ==> s <= d,
            None => forall|s: i32| #[trigger] stops@.contains(s) ==> s >= floor,
        },
{
    broadcast use vstd::std_specs::btree::group_btree_axioms;

    let mut best: Option<i32> = None;
    let keys = stops.iter();
    for x in it: keys
        invariant
            it.seq().unref().to_set() == stops@,
            match best {
                Some(d) => stops@.contains(d) && d < floor && forall|j: int|
                    0 <= j < it.index() && *it.seq()[j] < floor ==> *it.seq()[j] <= d,
                None => forall|j: int| 0 <= j < it.index() ==> *it.seq()[j] >= floor,
            },
    {
        let v = *x;
        if v < floor {
            match best {
                Some(d) => {
                    if v > d {
                        best = Some(v);
                    }
                },
                None => {
                    best = Some(v);
                },
            }
        }
    }
    best
}

/// The nearest pending stop at or below `floor`.
pub fn nearest_at_or_below(stops: &BTreeSet<i32>, floor: i32) -> (r: Option<i32>)
    ensures
        match r {
            Some(d) => stops@.contains(d) && d <= floor && forall|s: i32|
                #[trigger] stops@.contains(s) && s <= floor ==> s <= d,
            None => forall|s: i32| #[trigger] stops@.contains(s) ==> s > floor,
        },
{
    broadcast use vstd::std_specs::btree::group_btree_axioms;

    if stops.contains(&floor) {
        Some(floor)
    } else {
        nearest_below(stops, floor)
    }
}

/// Some stop lies strictly above `floor`.
pub open spec fn has_above(stops: Set<i32>, floor: i32) -> bool {
    exists|s: i32| #[trigger] stops.contains(s) && s > floor
}

/// Some stop lies strictly below `floor`.
pub open spec fn has_below(stops: Set<i32>, floor: i32) -> bool {
    exists|s: i32| #[trigger] stops.contains(s) && s < floor
}

/// An idle elevator at `floor` heads up: some stop above is at least as close
/// as every stop at or below (a tie goes up).
pub open spec fn idle_heads_up(stops: Set<i32>, floor: i32) -> bool {
    exists|u: i32|
        #[trigger] stops.contains(u) && u > floor && forall|d: i32|
            #[trigger] stops.contains(d) && d <= floor ==> u - floor <= floor - d
}

/// The direction after one tick of an elevator at `floor` sweeping `sweep`.
///
/// With no stops it goes idle. Otherwise it keeps its sweep while a stop lies
/// strictly ahead, and turns when none does; an idle elevator heads for the
/// nearer of the nearest stop above and the nearest stop at or below.
pub open spec fn next_direction(floor: i32, sweep: Direction, stops: Set<i32>) -> Direction {
    if stops.is_empty() {
        Direction::Idle
    } else {
        match sweep {
            Direction::Up => if has_above(stops, floor) {
                Direction::Up
            } else {
                Direction::Down
            },
            Direction::Down => if has_below(stops, floor) {
                Direction::Down
            } else {
                Direction::Up
            },
            Direction::Idle => if idle_heads_up(stops, floor) {
                Direction::Up
            } else {
                Direction::Down
            },
        }
    }
}

/// The floor after one tick: one floor in the new direction while any stop is
/// pending, the same floor when none is.
pub open spec fn next_floor(floor: i32, sweep: Direction, stops: Set<i32>) -> int {
    match next_direction(floor, sweep, stops) {
        Direction::Up => floor + 1,
        Direction::Down => floor - 1,
        Direction::Idle => floor as int,
    }
}

/// What one tick did: where the elevator now is, which way it sweeps, and
/// whether it stopped there to serve a stop (a dwell) or only passed.
#[derive(Debug, Clone, Copy, PartialEq, Eq, Structural)]
pub struct Step {
    pub floor: i32,
    pub direction: Direction,
    pub dwell: bool,
}

/// A stop at the floor the elevator stands on sends it away and back, so the
/// floor must not be the lowest or highest a floor number can hold.
pub open spec fn can_tick(state: ElevatorState) -> bool {
    state.stops@.contains(state.current_floor) ==> i32::MIN < state.current_floor < i32::MAX
}

/// `after` is `before` advanced by one tick of the sweep, which reported `step`:
/// it moved to `next_floor` in `next_direction`, and the floor reached, if
/// pending, was served (removed) and dwelt at.
pub open spec fn ticked(before: ElevatorState, after: ElevatorState, step: Step) -> bool {
    &&& after.id == before.id
    &&& after.current_floor == next_floor(before.current_floor, before.direction, before.stops@)
    &&& after.direction == next_direction(before.current_floor, before.direction, before.stops@)
    &&& after.stops@ == before.stops@.remove(after.current_floor)
    &&& step.floor == after.current_floor
    &&& step.direction == after.direction
    &&& step.dwell == before.stops@.contains(after.current_floor)
}

/// `after` is `before` with `floor` added to its stops, and `new` tells whether
/// the floor was not pending before.
pub open spec fn added_stop(before: ElevatorState, after: ElevatorState, floor: i32, new: bool) -> bool {
    &&& after.id == before.id
    &&& after.current_floor == before.current_floor
    &&& after.direction == before.direction
    &&& after.stops@ == before.stops@.insert(floor)
    &&& new == !before.stops@.contains(floor)
}

impl ElevatorState {
    /// Advance by one tick of the sweep: choose the direction, move one floor
    /// if any stop is pending, and serve the stop at the floor reached.
    pub fn tick(&mut self) -> (r: Step)
        requires
            can_tick(*old(self)),
        ensures
            ticked(*old(self), *final(self), r),
            !final(self).stops@.contains(final(self).current_floor),
    {
        broadcast use vstd::std_specs::btree::group_btree_axioms;

        let here = self.current_floor;
        if self.stops.is_empty() {
            self.direction = Direction::Idle;
            assert(self.stops@ =~= self.stops@.remove(here));
            return Step { floor: here, direction: Direction::Idle, dwell: false };
        }
        let ghost stops = self.stops@;
        let ghost any = choose|s: i32| stops.contains(s);
        assert(stops.contains(any)) by {
            assert(!(stops =~= Set::<i32>::empty()));
        }
        let direction;
        let next;
        match self.direction {
            Direction::Up => {
                if nearest_above(&self.stops, here).is_some() {
                    direction = Direction::Up;
                    next = here + 1;
                } else {
                    assert(any <= here);
                    direction = Direction::Down;
                    next = here - 1;
                }
            },
            Direction::Down => {
                if nearest_below(&self.stops, here).is_some() {
                    direction = Direction::Down;
                    next = here - 1;
                } else {
                    assert(any >= here);
                    direction = Direction::Up;
                    next = here + 1;
                }
            },
            Direction::Idle => {
                let above = nearest_above(&self.stops, here);
                let below = nearest_at_or_below(&self.stops, here);
                let up = match (above, below) {
                    (Some(u), Some(d)) => (u as i64) - (here as i64) <= (here as i64) - (d as i64),
                    (Some(_), None) => true,
                    (None, _) => false,
                };
                if up {
                    let u = above.unwrap();
                    assert(stops.contains(u));
                    direction = Direction::Up;
                    next = here + 1;
                } else {
                    assert(!idle_heads_up(stops, here)) by {
                        if idle_heads_up(stops, here) {
                            let w = choose|w: i32|
                                #[trigger] stops.contains(w) && w > here && forall|e: i32|
                                    #[trigger] stops.contains(e) && e <= here ==> w - here
                                        <= here - e;
                            let u = above.unwrap();
                            let d = below.unwrap();
                            assert(stops.contains(d));
                            assert(u <= w);
                        }
                    }
                    match below {
                        Some(d) => assert(stops.contains(d)),
                        None => assert(any > here),
                    }
                    direction = Direction::Down;
                    next = here - 1;
                }
            },
        }
        self.direction = direction;
        let dwell = self.stops.contains(&next);
        self.current_floor = next;
        if dwell {
            self.stops.remove(&next);
        }
        proof {
            assert(self.stops@ =~= stops.remove(next));
        }
        Step { floor: next, direction, dwell }
    }

    /// Add `floor` to the pending stops. Returns whether it was new; a floor
    /// already pending is left as it is.
    pub fn add_stop(&mut self, floor: i32) -> (r: bool)
        ensures
            added_stop(*old(self), *final(self), floor, r),
    {
        broadcast use vstd::std_specs::btree::group_btree_axioms;

        self.stops.insert(floor)
    }

    /// Apply one command: `AddStop` adds a pending stop, `Status` changes nothing.
    pub fn handle_command(&mut self, command: Command)
        ensures
            final(self).id == old(self).id,
            final(self).current_floor == old(self).current_floor,
            final(self).direction == old(self).direction,
            final(self).stops@ == match command {
                Command::AddStop(floor) => old(self).stops@.insert(floor),
                Command::Status => old(self).stops@,
            },
    {
        match command {
            Command::AddStop(floor) => {
                self.add_stop(floor);
            },
            Command::Status => {},
        }
    }

    /// Whether `tick` may be called: a pending stop at the current floor needs
    /// room to move away from it and back.
    pub fn can_tick(&self) -> (r: bool)
        ensures
            r == can_tick(*self),
    {
        broadcast use vstd::std_specs::btree::group_btree_axioms;

        !self.stops.contains(&self.current_floor) || (i32::MIN < self.current_floor
            && self.current_floor < i32::MAX)
    }

    /// Whether the worker may stop for good: its command channel is closed and
    /// no stop is left to serve.
    pub fn can_retire(&self, channel_open: bool) -> (r: bool)
        ensures
            r == (!channel_open && self.stops@.is_empty()),
    {
        !channel_open && self.stops.is_empty()
    }
}


/// For an elevator sweeping up, requests to go up at floors at or above it
/// score no worse the nearer they are.
pub proof fn lemma_score_monotone_ahead(state: &ElevatorState, f1: i32, f2: i32)
    requires
        state.direction == Direction::Up,
        state.current_floor <= f1 < f2,
    ensures
        state.score(f1, Direction::Up) <= state.score(f2, Direction::Up),
{
}

/// At equal distance, a request the sweep will pass on its way scores lower
/// than one wanting the opposite way, which scores lower than one the sweep
/// has already passed.
pub proof fn lemma_penalty_order(current: i32, ahead: i32, behind: i32, other: i32)
    requires
        current <= ahead,
        behind < current,
        distance(current, ahead) == distance(current, behind),
        distance(current, ahead) == distance(current, other),
    ensures
        score_of(current, Direction::Up, ahead, Direction::Up) < score_of(
            current,
            Direction::Up,
            other,
            Direction::Down,
        ),
        score_of(current, Direction::Up, other, Direction::Down) < score_of(
            current,
            Direction::Up,
            behind,
            Direction::Up,
        ),
        score_of(current, Direction::Down, behind, Direction::Down) < score_of(
            current,
            Direction::Down,
            other,
            Direction::Up,
        ),
{
}

/// A floor served by a tick is no longer pending: asking for it again with
/// `add_stop` is a new request, which makes it pending once more and leaves
/// the stops as they were before it was served.
pub proof fn lemma_served_stop_is_new_again(
    before: ElevatorState,
    served: ElevatorState,
    step: Step,
    again: ElevatorState,
    new: bool,
)
    requires
        ticked(before, served, step),
        step.dwell,
        added_stop(served, again, step.floor, new),
    ensures
        new,
        again.stops@.contains(step.floor),
        again.stops@ == before.stops@,
{
    assert(again.stops@ =~= before.stops@);
}

} // verus!
