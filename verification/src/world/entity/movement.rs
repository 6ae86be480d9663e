//! The walk of an entity along a path: its steps, and where the entity is
//! at a point in time.

use arrayvec::ArrayVec;
use vstd::prelude::*;

use crate::network::{Direction, TilePosition};
use crate::world::entity::pathing::{Pathing, PathingView};

verus! {

/// The number of steps that a walk can have.
pub const MAX_WALK_PATH_SIZE: usize = 32;

/// `arrayvec::ArrayVec`, a list of at most `CAP` items that lives where it
/// is declared. What a list of steps holds is told by `steps_of`.
#[verifier::external_type_specification]
#[verifier::external_body]
#[verifier::reject_recursive_types(T)]
pub struct ExArrayVec<T, const CAP: usize>(ArrayVec<T, CAP>);

/// A step of a walk: the tile that is reached, and when.
#[derive(Copy, Clone, Debug, PartialEq, Eq, Structural)]
pub struct Step {
    pub arrival_position: TilePosition,
    pub arrival_timestamp: u32,
}

/// The steps that a list of steps holds, from the first to the last.
pub uninterp spec fn steps_of(steps: ArrayVec<Step, MAX_WALK_PATH_SIZE>) -> Seq<Step>;

/// `ArrayVec::new`: a list that holds no step.
#[verifier::external_body]
pub(crate) fn steps_new() -> (steps: ArrayVec<Step, MAX_WALK_PATH_SIZE>)
    ensures
        steps_of(steps) == Seq::<Step>::empty(),
{
    ArrayVec::new()
}

/// `ArrayVec::len`: the number of steps in the list, which never exceeds
/// the list's capacity.
#[verifier::external_body]
pub(crate) fn steps_len(steps: &ArrayVec<Step, MAX_WALK_PATH_SIZE>) -> (len: usize)
    ensures
        len == steps_of(*steps).len(),
        len <= MAX_WALK_PATH_SIZE,
{
    steps.len()
}

/// `ArrayVec::push`: adds a step at the end of the list. The list must not
/// be full, or the call would panic.
#[verifier::external_body]
pub(crate) fn steps_push(steps: &mut ArrayVec<Step, MAX_WALK_PATH_SIZE>, step: Step)
    requires
        steps_of(*old(steps)).len() < MAX_WALK_PATH_SIZE,
    ensures
        steps_of(*final(steps)) == steps_of(*old(steps)).push(step),
{
    steps.push(step)
}

/// Indexing an `ArrayVec` through its slice: the step at `index`, which
/// must be inside the list, or the call would panic.
#[verifier::external_body]
pub(crate) fn steps_get(steps: &ArrayVec<Step, MAX_WALK_PATH_SIZE>, index: usize) -> (step: Step)
    requires
        index < steps_of(*steps).len(),
    ensures
        step == steps_of(*steps)[index as int],
{
    steps[index]
}

/// Whether `to` is a neighbour of `from`: one of the eight tiles around it.
pub open spec fn is_neighbour(from: TilePosition, to: TilePosition) -> bool {
    Direction::is_step(from.x - to.x, from.y - to.y)
}

/// Whether steps can be walked: there are at least two, each leads to a
/// neighbour of the one before, and none arrives before the one before.
pub open spec fn is_walk(steps: Seq<Step>) -> bool {
    &&& 2 <= steps.len() <= MAX_WALK_PATH_SIZE
    &&& forall|i: int|
        0 <= i < steps.len() - 1 ==> is_neighbour(
            (#[trigger] steps[i]).arrival_position,
            steps[i + 1].arrival_position,
        )
    &&& forall|i: int|
        0 <= i < steps.len() - 1 ==> (#[trigger] steps[i]).arrival_timestamp <= steps[i + 1].arrival_timestamp
}

/// Whether the entity is on the way from step `index` to the next at
/// `client_tick`: all steps up to `index`, but for the first, were reached
/// before, and the next step is not yet left behind.
pub open spec fn is_current_step(steps: Seq<Step>, client_tick: u32, index: int) -> bool {
    &&& 0 <= index < steps.len() - 1
    &&& forall|i: int| 0 < i <= index ==> (#[trigger] steps[i]).arrival_timestamp < client_tick
    &&& steps[index + 1].arrival_timestamp >= client_tick
}

/// The step that the entity is on at `client_tick`, on a walk whose last
/// step is not yet left behind.
pub open spec fn current_step(steps: Seq<Step>, client_tick: u32) -> int {
    choose|index: int| is_current_step(steps, client_tick, index)
}

/// At a point in time an entity is on one step of its walk, and no other.
pub proof fn lemma_current_step_is_unique(steps: Seq<Step>, client_tick: u32, index: int)
    requires
        is_current_step(steps, client_tick, index),
    ensures
        current_step(steps, client_tick) == index,
{
    let chosen = current_step(steps, client_tick);
    assert(is_current_step(steps, client_tick, chosen));
    if chosen < index {
        assert(steps[chosen + 1].arrival_timestamp < client_tick);
    }
    if index < chosen {
        assert(steps[index + 1].arrival_timestamp < client_tick);
    }
}

/// How long the step from one tile to a neighbour takes: the time for a
/// straight step if the tiles share a row or a column, else the time for a
/// diagonal step.
pub open spec fn step_duration(from: TilePosition, to: TilePosition, straight: u32, diagonal: u32) -> u32 {
    if from.x == to.x || from.y == to.y {
        straight
    } else {
        diagonal
    }
}

/// The tile of a step of the walk along `path`: the walk begins on
/// `start`, whatever the path says, and then follows the path.
pub open spec fn waypoint(path: Seq<TilePosition>, start: TilePosition, index: int) -> TilePosition {
    if index == 0 {
        start
    } else {
        path[index]
    }
}

/// When a step of the walk along `path` is reached: the first at the
/// beginning of the walk, each other a step's duration after the one before.
pub open spec fn arrival_time(
    path: Seq<TilePosition>,
    start: TilePosition,
    starting_timestamp: u32,
    straight: u32,
    diagonal: u32,
    index: nat,
) -> int
    decreases index,
{
    if index == 0 {
        starting_timestamp as int
    } else {
        arrival_time(path, start, starting_timestamp, straight, diagonal, (index - 1) as nat) + step_duration(
            waypoint(path, start, index - 1),
            waypoint(path, start, index as int),
            straight,
            diagonal,
        )
    }
}

/// The steps of the walk along `path`.
pub open spec fn planned_steps(
    path: Seq<TilePosition>,
    start: TilePosition,
    starting_timestamp: u32,
    straight: u32,
    diagonal: u32,
) -> Seq<Step> {
    Seq::new(
        path.len(),
        |index: int|
            Step {
                arrival_position: waypoint(path, start, index),
                arrival_timestamp: arrival_time(
                    path,
                    start,
                    starting_timestamp,
                    straight,
                    diagonal,
                    index as nat,
                ) as u32,
            },
    )
}

/// Whether a walk along `path` can be planned: the path is no longer than a
/// walk can be, and the last step is reached within the range of the clock.
pub open spec fn can_plan(
    path: Seq<TilePosition>,
    start: TilePosition,
    starting_timestamp: u32,
    straight: u32,
    diagonal: u32,
) -> bool {
    &&& path.len() <= MAX_WALK_PATH_SIZE
    &&& path.len() >= 1 ==> arrival_time(
        path,
        start,
        starting_timestamp,
        straight,
        diagonal,
        (path.len() - 1) as nat,
    ) <= u32::MAX
}

/// Whether each tile of the walk along `path` is a neighbour of the one
/// before.
pub open spec fn is_walkable(path: Seq<TilePosition>, start: TilePosition) -> bool {
    forall|index: int|
        0 <= index < path.len() - 1 ==> is_neighbour(
            #[trigger] waypoint(path, start, index),
            waypoint(path, start, index + 1),
        )
}

/// No step of a walk is reached before the one before it.
pub proof fn lemma_arrival_times_grow(
    path: Seq<TilePosition>,
    start: TilePosition,
    starting_timestamp: u32,
    straight: u32,
    diagonal: u32,
    earlier: nat,
    later: nat,
)
    requires
        earlier <= later,
    ensures
        starting_timestamp <= arrival_time(path, start, starting_timestamp, straight, diagonal, earlier)
            <= arrival_time(path, start, starting_timestamp, straight, diagonal, later),
    decreases later,
{
    if earlier < later {
        lemma_arrival_times_grow(path, start, starting_timestamp, straight, diagonal, earlier, (later - 1) as nat);
    } else if later > 0 {
        lemma_arrival_times_grow(path, start, starting_timestamp, straight, diagonal, 0, (later - 1) as nat);
        lemma_arrival_times_grow(
            path,
            start,
            starting_timestamp,
            straight,
            diagonal,
            (later - 1) as nat,
            (later - 1) as nat,
        );
    }
}

/// A walk that was planned along a walkable path of two tiles or more can
/// be walked.
pub proof fn lemma_planned_walk(
    path: Seq<TilePosition>,
    start: TilePosition,
    starting_timestamp: u32,
    straight: u32,
    diagonal: u32,
)
    requires
        path.len() >= 2,
        can_plan(path, start, starting_timestamp, straight, diagonal),
        is_walkable(path, start),
    ensures
        is_walk(planned_steps(path, start, starting_timestamp, straight, diagonal)),
{
    let steps = planned_steps(path, start, starting_timestamp, straight, diagonal);
    assert forall|i: int| 0 <= i < steps.len() - 1 implies is_neighbour(
        (#[trigger] steps[i]).arrival_position,
        steps[i + 1].arrival_position,
    ) by {
        assert(is_neighbour(waypoint(path, start, i), waypoint(path, start, i + 1)));
    }
    assert forall|i: int| 0 <= i < steps.len() - 1 implies (#[trigger] steps[i]).arrival_timestamp <= steps[i
        + 1].arrival_timestamp by {
        lemma_arrival_times_grow(path, start, starting_timestamp, straight, diagonal, i as nat, (i + 1) as nat);
        lemma_arrival_times_grow(
            path,
            start,
            starting_timestamp,
            straight,
            diagonal,
            (i + 1) as nat,
            (path.len() - 1) as nat,
        );
    }
}

/// A walk that is under way.
#[derive(Debug)]
pub struct Movement {
    pub(crate) steps: ArrayVec<Step, MAX_WALK_PATH_SIZE>,
    pub(crate) starting_timestamp: u32,
    pub(crate) pathing: Option<Pathing>,
}

/// What a walk consists of.
pub struct MovementView {
    pub steps: Seq<Step>,
    pub starting_timestamp: u32,
    /// The picture of the walk, if one was laid out.
    pub pathing: Option<PathingView>,
}

impl View for Movement {
    type V = MovementView;

    closed spec fn view(&self) -> MovementView {
        MovementView {
            steps: steps_of(self.steps),
            starting_timestamp: self.starting_timestamp,
            pathing: match self.pathing {
                Some(pathing) => Some(pathing@),
                None => None,
            },
        }
    }
}

impl Clone for Movement {
    fn clone(&self) -> (movement: Movement)
        ensures
            movement@ == self@,
    {
        let len = steps_len(&self.steps);
        let mut steps = steps_new();
        let mut index: usize = 0;
        while index < len
            invariant
                len == steps_of(self.steps).len(),
                len <= MAX_WALK_PATH_SIZE,
                index <= len,
                steps_of(steps) == steps_of(self.steps).take(index as int),
            decreases len - index,
        {
            steps_push(&mut steps, steps_get(&self.steps, index));
            assert(steps_of(self.steps).take(index as int).push(steps_of(self.steps)[index as int])
                =~= steps_of(self.steps).take(index + 1));
            index += 1;
        }
        assert(steps_of(self.steps).take(len as int) =~= steps_of(self.steps));
        let pathing = match &self.pathing {
            Some(pathing) => Some(pathing.clone()),
            None => None,
        };
        Movement { steps, starting_timestamp: self.starting_timestamp, pathing }
    }
}

impl Movement {
    pub fn new(steps: ArrayVec<Step, MAX_WALK_PATH_SIZE>, starting_timestamp: u32) -> (movement: Movement)
        ensures
            movement@ == (MovementView { steps: steps_of(steps), starting_timestamp, pathing: None }),
    {
        Movement { steps, starting_timestamp, pathing: None }
    }

    /// The picture of the walk, if one was laid out.
    pub fn pathing(&self) -> (pathing: Option<&Pathing>)
        ensures
            match pathing {
                Some(pathing) => self@.pathing == Some(pathing@),
                None => self@.pathing.is_none(),
            },
    {
        self.pathing.as_ref()
    }

    /// Keeps the picture of the walk.
    pub fn set_pathing(&mut self, pathing: Pathing)
        ensures
            final(self)@ == (MovementView { pathing: Some(pathing@), ..old(self)@ }),
    {
        self.pathing = Some(pathing);
    }

    /// The number of steps of the walk.
    pub fn len(&self) -> (len: usize)
        ensures
            len == self@.steps.len(),
            len <= MAX_WALK_PATH_SIZE,
    {
        steps_len(&self.steps)
    }

    /// The step at `index`, which the walk has to have.
    pub fn get(&self, index: usize) -> (step: Step)
        requires
            index < self@.steps.len(),
        ensures
            step == self@.steps[index as int],
    {
        steps_get(&self.steps, index)
    }

    /// The step at `index`, if the walk has that many steps.
    pub fn step(&self, index: usize) -> (step: Option<Step>)
        ensures
            step == if index < self@.steps.len() {
                Some(self@.steps[index as int])
            } else {
                None
            },
    {
        if index < steps_len(&self.steps) {
            Some(steps_get(&self.steps, index))
        } else {
            None
        }
    }

    /// The time at which the walk began.
    pub fn starting_timestamp(&self) -> (timestamp: u32)
        ensures
            timestamp == self@.starting_timestamp,
    {
        self.starting_timestamp
    }
}

} // verus!
