//! The dispatcher: gives each request to the connected elevator with the
//! lowest score, the first such in fleet order on a tie.
use crate::elevator::{Direction, ElevatorState};
use vstd::prelude::*;

verus! {

/// Elevator `i` is the one a request at `floor` going `wanted` goes to: it is
/// connected, no connected elevator scores lower, and every connected one
/// before it scores higher.
pub open spec fn is_best(
    states: Seq<ElevatorState>,
    connected: Seq<bool>,
    floor: i32,
    wanted: Direction,
    i: int,
) -> bool {
    &&& 0 <= i < states.len()
    &&& i < connected.len()
    &&& connected[i]
    &&& forall|j: int|
        0 <= j < states.len() && j < connected.len() && #[trigger] connected[j] ==> states[i].score(
            floor,
            wanted,
        ) <= states[j].score(floor, wanted)
    &&& forall|j: int|
        0 <= j < i && #[trigger] connected[j] ==> states[i].score(floor, wanted) < states[j].score(
            floor,
            wanted,
        )
}

/// The dispatcher: one handle per elevator, in a fixed order, and whether each
/// is still reachable.
pub struct Controller<H> {
    pub elevators: Vec<H>,
    pub connected: Vec<bool>,
}

impl<H> Controller<H> {
    /// One flag per handle.
    pub open spec fn wf(&self) -> bool {
        self.connected@.len() == self.elevators@.len()
    }

    /// A dispatcher over `elevators`, all of them connected.
    pub fn new(elevators: Vec<H>) -> (r: Self)
        ensures
            r.wf(),
            r.elevators@ == elevators@,
            forall|i: int| 0 <= i < r.connected@.len() ==> #[trigger] r.connected@[i],
    {
        let n = elevators.len();
        let mut connected: Vec<bool> = Vec::new();
        for i in 0..n
            invariant
                connected@.len() == i,
                forall|j: int| 0 <= j < i ==> #[trigger] connected@[j],
        {
            connected.push(true);
        }
        Controller { elevators, connected }
    }

    /// How many elevators the dispatcher knows, connected or not.
    pub fn len(&self) -> (r: usize)
        ensures
            r == self.elevators@.len(),
    {
        self.elevators.len()
    }

    /// Leave elevator `index` out of all later assignments, for its worker is gone.
    pub fn disconnect(&mut self, index: usize)
        requires
            old(self).wf(),
            index < old(self).elevators@.len(),
        ensures
            final(self).wf(),
            final(self).elevators@ == old(self).elevators@,
            final(self).connected@ == old(self).connected@.update(index as int, false),
    {
        self.connected.set(index, false);
    }

    /// Pick the elevator for a request at `floor` going `direction`, given a
    /// snapshot of each elevator's state in fleet order. `None` when no elevator
    /// is connected, an empty fleet among them; nothing is changed either way.
    pub fn request_elevator(
        &self,
        floor: i32,
        direction: Direction,
        states: &Vec<ElevatorState>,
    ) -> (r: Option<usize>)
        requires
            self.wf(),
            states@.len() == self.elevators@.len(),
        ensures
            self.elevators@.len() == 0 ==> r is None,
            match r {
                Some(i) => is_best(states@, self.connected@, floor, direction, i as int),
                None => forall|j: int|
                    0 <= j < self.connected@.len() ==> !#[trigger] self.connected@[j],
            },
    {
        let mut best: Option<usize> = None;
        let mut best_score: i64 = 0;
        for i in 0..states.len()
            invariant
                self.wf(),
                states@.len() == self.elevators@.len(),
                match best {
                    Some(b) => is_best(
                        states@.take(i as int),
                        self.connected@.take(i as int),
                        floor,
                        direction,
                        b as int,
                    ) && best_score == states@[b as int].score(floor, direction),
                    None => forall|j: int| 0 <= j < i ==> !#[trigger] self.connected@[j],
                },
        {
            if self.connected[i] {
                let score = states[i].calculate_score(floor, direction);
                match best {
                    Some(_) => {
                        if score < best_score {
                            best = Some(i);
                            best_score = score;
                        }
                    },
                    None => {
                        best = Some(i);
                        best_score = score;
                    },
                }
            }
        }
        proof {
            assert(states@.take(states@.len() as int) =~= states@);
            assert(self.connected@.take(states@.len() as int) =~= self.connected@);
        }
        best
    }
}

/// Requests with the same arguments against the same states and fleet order go
/// to the same elevator: at most one elevator is the best.
pub proof fn lemma_assignment_deterministic(
    states: Seq<ElevatorState>,
    connected: Seq<bool>,
    floor: i32,
    wanted: Direction,
    i: int,
    j: int,
)
    requires
        is_best(states, connected, floor, wanted, i),
        is_best(states, connected, floor, wanted, j),
    ensures
        i == j,
{
    if i < j {
        assert(connected[i]);
    } else if j < i {
        assert(connected[j]);
    }
}

} // verus!
