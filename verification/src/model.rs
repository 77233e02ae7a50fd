//! The mathematical model of a flight session: the set of states, the
//! commands, and the transition function that every enforcement strategy
//! in this crate is verified against.

use vstd::prelude::*;

verus! {

/// The phase of flight a vehicle is in. These three tags are the only
/// valid states; `Flying` is a transient phase entered and left inside a
/// single `move_to` call and is never observable between commands.
#[derive(Clone, Copy, Debug, PartialEq, Eq, Structural)]
pub enum VehicleState {
    Idle,
    Hovering,
    Flying,
}

/// The abstract vehicle: a state tag together with a position. Positions
/// are exact coordinates; motion overwrites them directly, so no rounding
/// is ever introduced.
pub struct Vehicle {
    pub state: VehicleState,
    pub x: i64,
    pub y: i64,
}

/// A command issued to the vehicle. `MoveTo` carries the target position.
#[derive(Clone, Copy, Debug, PartialEq, Eq, Structural)]
pub enum Command {
    TakeOff,
    Land,
    MoveTo(i64, i64),
}

/// The vehicle every flight session starts from: idle at the origin.
pub open spec fn initial_vehicle() -> Vehicle {
    Vehicle { state: VehicleState::Idle, x: 0, y: 0 }
}

/// Whether `c` is a legal command in state `s`: exactly the pairs listed
/// in the transition table. Taking off requires being idle, landing
/// requires hovering (landing while in motion is rejected), and moving
/// requires being airborne.
pub open spec fn legal(s: VehicleState, c: Command) -> bool {
    match c {
        Command::TakeOff => s == VehicleState::Idle,
        Command::Land => s == VehicleState::Hovering,
        Command::MoveTo(x, y) => s == VehicleState::Hovering || s == VehicleState::Flying,
    }
}

/// The transition function: an accepted command updates state and
/// position deterministically; a rejected command leaves the vehicle
/// unchanged. A completed `MoveTo` always ends back in `Hovering`,
/// because flight is instantaneous.
pub open spec fn step(v: Vehicle, c: Command) -> Vehicle {
    if legal(v.state, c) {
        match c {
            Command::TakeOff => Vehicle { state: VehicleState::Hovering, x: v.x, y: v.y },
            Command::Land => Vehicle { state: VehicleState::Idle, x: v.x, y: v.y },
            Command::MoveTo(x, y) => Vehicle { state: VehicleState::Hovering, x: x, y: y },
        }
    } else {
        v
    }
}

/// Running a whole command sequence, first command first.
pub open spec fn run(v: Vehicle, cs: Seq<Command>) -> Vehicle
    decreases cs.len(),
{
    if cs.len() == 0 {
        v
    } else {
        run(step(v, cs[0]), cs.subrange(1, cs.len() as int))
    }
}

/// Whether the vehicle is exactly at `(x, y)`. Arrival is exact equality:
/// the motion stub assigns coordinates directly, so no tolerance is needed.
pub open spec fn arrived(v: Vehicle, x: i64, y: i64) -> bool {
    v.x == x && v.y == y
}

/// Running a sequence extended by one command is running the sequence and
/// then stepping on the appended command.
pub proof fn lemma_run_snoc(v: Vehicle, cs: Seq<Command>, c: Command)
    ensures
        run(v, cs.push(c)) == step(run(v, cs), c),
    decreases cs.len(),
{
    if cs.len() == 0 {
        assert(cs.push(c)[0] == c);
        assert(cs.push(c).subrange(1, cs.push(c).len() as int) =~= Seq::<Command>::empty());
        assert(run(step(v, c), Seq::<Command>::empty()) == step(v, c));
        assert(run(v, cs) == v);
    } else {
        assert(cs.push(c)[0] == cs[0]);
        assert(cs.push(c).subrange(1, cs.push(c).len() as int) =~= cs.subrange(
            1,
            cs.len() as int,
        ).push(c));
        lemma_run_snoc(step(v, cs[0]), cs.subrange(1, cs.len() as int), c);
    }
}

/// Taking off and landing again is a round trip: from any idle vehicle,
/// `TakeOff` followed by `Land` returns the very vehicle it started from,
/// idle at its original position.
pub proof fn lemma_take_off_land_round_trip(v: Vehicle)
    requires
        v.state == VehicleState::Idle,
    ensures
        step(step(v, Command::TakeOff), Command::Land) == v,
{
}

/// Immediately after any completed move to `(x, y)` the vehicle has
/// arrived at exactly `(x, y)`: motion is instantaneous and exact.
pub proof fn lemma_move_to_arrives(v: Vehicle, x: i64, y: i64)
    requires
        legal(v.state, Command::MoveTo(x, y)),
    ensures
        arrived(step(v, Command::MoveTo(x, y)), x, y),
        step(v, Command::MoveTo(x, y)).state == VehicleState::Hovering,
{
}

/// The machine is deterministic and keeps no hidden state: two vehicles
/// that start equal and receive the same command sequence end equal, in
/// state and in position.
pub proof fn lemma_run_deterministic(v1: Vehicle, v2: Vehicle, cs: Seq<Command>)
    requires
        v1 == v2,
    ensures
        run(v1, cs) == run(v2, cs),
{
}

} // verus!
