//! Static enforcement of the flight rules: the vehicle's state is encoded
//! in its type. Each operation exists only on the type representing the
//! state that permits it and consumes the vehicle, producing the
//! successor-typed vehicle, so an illegal command does not compile and no
//! runtime error type is needed. Every transition is verified against the
//! same model as the dynamic machine: the two strategies differ only in
//! when an illegal command is caught.

use core::marker::PhantomData;
use vstd::prelude::*;

use crate::model::{arrived, initial_vehicle, step, Command, Vehicle, VehicleState};
use crate::sealed::Sealed;

verus! {

/// Marker type for the vehicle on the ground.
pub struct Idle;

/// Marker type for the vehicle airborne and holding its position.
pub struct Hovering;

/// Marker type for the vehicle in motion. It is transient: a vehicle of
/// this type exists only inside a `move_to` call and is never handed out.
pub struct Flying;

/// The states a vehicle's type may carry. The `Sealed` bound lives in a
/// private module, so no outside code can mark a type as a flight state
/// and fabricate a vehicle in a state it never legally reached.
pub trait DroneState: Sealed {
    /// The state tag this marker type stands for in the model.
    spec fn tag() -> VehicleState;
}

impl DroneState for Idle {
    open spec fn tag() -> VehicleState {
        VehicleState::Idle
    }
}

impl DroneState for Hovering {
    open spec fn tag() -> VehicleState {
        VehicleState::Hovering
    }
}

impl DroneState for Flying {
    open spec fn tag() -> VehicleState {
        VehicleState::Flying
    }
}

/// The vehicle under static enforcement: a position and a phantom state
/// tag. Only this module constructs it, so every value a caller can hold
/// was reached through legal transitions from the initial vehicle.
#[verifier::reject_recursive_types(State)]
pub struct Drone<State: DroneState> {
    x: i64,
    y: i64,
    state: PhantomData<State>,
}

impl<State: DroneState> View for Drone<State> {
    type V = Vehicle;

    closed spec fn view(&self) -> Vehicle {
        Vehicle { state: State::tag(), x: self.x, y: self.y }
    }
}

impl<State: DroneState> Drone<State> {
    /// The current x coordinate.
    pub fn x(&self) -> (r: i64)
        ensures
            r == self@.x,
    {
        self.x
    }

    /// The current y coordinate.
    pub fn y(&self) -> (r: i64)
        ensures
            r == self@.y,
    {
        self.y
    }
}

impl Drone<Idle> {
    /// A fresh vehicle: idle at the origin.
    pub fn new() -> (d: Drone<Idle>)
        ensures
            d@ == initial_vehicle(),
    {
        Drone { state: PhantomData, x: 0, y: 0 }
    }

    /// Leave the ground. Only an idle vehicle offers this operation; it
    /// consumes the idle vehicle and hovers at the same position.
    pub fn take_off(self) -> (d: Drone<Hovering>)
        ensures
            d@ == step(self@, Command::TakeOff),
    {
        Drone::<Hovering>::from(self)
    }
}

impl Drone<Hovering> {
    /// Return to the ground. Only a hovering vehicle offers this
    /// operation; the position is kept.
    pub fn land(self) -> (d: Drone<Idle>)
        ensures
            d@ == step(self@, Command::Land),
    {
        Drone::<Idle>::from(self)
    }

    /// Fly to `(x, y)`. The vehicle passes through the transient flying
    /// type and, since motion is instantaneous, always comes back
    /// hovering at exactly the target.
    pub fn move_to(self, x: i64, y: i64) -> (d: Drone<Hovering>)
        ensures
            d@ == step(self@, Command::MoveTo(x, y)),
    {
        let drone = Drone::<Flying>::from(self);
        drone.fly(x, y)
    }
}

impl Drone<Flying> {
    /// Whether the vehicle is exactly at `(x, y)`. Exact equality by
    /// design: the motion stub assigns coordinates directly, with no
    /// rounding. Only the transient flying vehicle offers the query, so
    /// it can only be asked as part of the internal move sequence.
    pub fn has_arrived(&self, x: i64, y: i64) -> (r: bool)
        ensures
            r == arrived(self@, x, y),
    {
        self.x == x && self.y == y
    }

    /// The motion stub: overwrite the position directly and settle back
    /// into hovering. No interpolation, no partial progress, no time
    /// component.
    fn fly(self, x: i64, y: i64) -> (d: Drone<Hovering>)
        ensures
            d@.state == VehicleState::Hovering,
            d@.x == x,
            d@.y == y,
    {
        let mut moved = self;
        moved.x = x;
        moved.y = y;
        Drone::<Hovering>::from(moved)
    }
}

impl From<Drone<Idle>> for Drone<Hovering> {
    /// Take-off transition: the position is carried over unchanged.
    fn from(drone: Drone<Idle>) -> Self {
        Self { x: drone.x, y: drone.y, state: PhantomData }
    }
}

impl vstd::std_specs::convert::FromSpecImpl<Drone<Idle>> for Drone<Hovering> {
    open spec fn obeys_from_spec() -> bool {
        true
    }

    closed spec fn from_spec(drone: Drone<Idle>) -> Drone<Hovering> {
        Drone { x: drone.x, y: drone.y, state: PhantomData }
    }
}

impl From<Drone<Hovering>> for Drone<Idle> {
    /// Landing transition: the position is carried over unchanged.
    fn from(drone: Drone<Hovering>) -> Self {
        Self { x: drone.x, y: drone.y, state: PhantomData }
    }
}

impl vstd::std_specs::convert::FromSpecImpl<Drone<Hovering>> for Drone<Idle> {
    open spec fn obeys_from_spec() -> bool {
        true
    }

    closed spec fn from_spec(drone: Drone<Hovering>) -> Drone<Idle> {
        Drone { x: drone.x, y: drone.y, state: PhantomData }
    }
}

impl From<Drone<Hovering>> for Drone<Flying> {
    /// Start of a move: the position is carried over unchanged.
    fn from(drone: Drone<Hovering>) -> Self {
        Self { x: drone.x, y: drone.y, state: PhantomData }
    }
}

impl vstd::std_specs::convert::FromSpecImpl<Drone<Hovering>> for Drone<Flying> {
    open spec fn obeys_from_spec() -> bool {
        true
    }

    closed spec fn from_spec(drone: Drone<Hovering>) -> Drone<Flying> {
        Drone { x: drone.x, y: drone.y, state: PhantomData }
    }
}

impl From<Drone<Flying>> for Drone<Hovering> {
    /// End of a move: the position is carried over unchanged.
    fn from(drone: Drone<Flying>) -> Self {
        Self { x: drone.x, y: drone.y, state: PhantomData }
    }
}

impl vstd::std_specs::convert::FromSpecImpl<Drone<Flying>> for Drone<Hovering> {
    open spec fn obeys_from_spec() -> bool {
        true
    }

    closed spec fn from_spec(drone: Drone<Flying>) -> Drone<Hovering> {
        Drone { x: drone.x, y: drone.y, state: PhantomData }
    }
}

} // verus!
