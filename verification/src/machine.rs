//! Dynamic enforcement of the flight rules: the vehicle's state is a
//! runtime tag, every operation checks it, and an illegal command is
//! rejected at the moment it executes with an explicit error value.
//! A rejected command has no side effect.

use vstd::prelude::*;

use crate::model::{arrived, initial_vehicle, legal, run, step, Command, Vehicle, VehicleState};

verus! {

/// The one failure a command can meet: it was attempted in a state that
/// does not permit it. Retrying without changing state never succeeds.
#[derive(Clone, Copy, Debug, PartialEq, Eq, Structural)]
pub struct InvalidTransition {
    /// The command that was rejected.
    pub attempted: Command,
    /// The state the vehicle was in when the command arrived.
    pub current: VehicleState,
}

/// The exact outcome of issuing `c` in state `s`: success when the
/// transition table permits it, and otherwise the error naming the
/// rejected command and the state that rejected it.
pub open spec fn outcome(s: VehicleState, c: Command) -> Result<(), InvalidTransition> {
    if legal(s, c) {
        Ok(())
    } else {
        Err(InvalidTransition { attempted: c, current: s })
    }
}

impl InvalidTransition {
    /// The text of the rejection: a take-off is refused because the
    /// vehicle is not idle, a move because it has not taken off, and a
    /// landing either because the vehicle is still in motion or because
    /// it is already idle.
    pub open spec fn spec_message(self) -> Seq<char> {
        match self.attempted {
            Command::TakeOff => "drone is not idle"@,
            Command::MoveTo(x, y) => "drone has not taken off"@,
            Command::Land => if self.current == VehicleState::Flying {
                "drone is currently flying"@
            } else {
                "drone is idle"@
            },
        }
    }

    /// A human-readable description of the rejection.
    pub fn message(&self) -> (m: &'static str)
        ensures
            m@ == self.spec_message(),
    {
        match self.attempted {
            Command::TakeOff => "drone is not idle",
            Command::MoveTo(_, _) => "drone has not taken off",
            Command::Land => match self.current {
                VehicleState::Flying => "drone is currently flying",
                _ => "drone is idle",
            },
        }
    }
}

/// The vehicle under dynamic enforcement. Only this module can alter the
/// state tag, so every value a caller can hold was reached through legal
/// transitions from the initial vehicle.
pub struct Drone {
    state: VehicleState,
    x: i64,
    y: i64,
}

impl View for Drone {
    type V = Vehicle;

    closed spec fn view(&self) -> Vehicle {
        Vehicle { state: self.state, x: self.x, y: self.y }
    }
}

impl Drone {
    /// A fresh vehicle: idle at the origin.
    pub fn new() -> (d: Drone)
        ensures
            d@ == initial_vehicle(),
    {
        Drone { state: VehicleState::Idle, x: 0, y: 0 }
    }

    /// The current state tag.
    pub fn state(&self) -> (s: VehicleState)
        ensures
            s == self@.state,
    {
        self.state
    }

    /// The current x coordinate.
    pub fn x(&self) -> (r: i64)
        ensures
            r == self@.x,
    {
        self.x
    }

    /// The current y coordinate.
    pub fn y(&self) -> (r: i64)
        ensures
            r == self@.y,
    {
        self.y
    }

    /// Leave the ground: legal only when idle. On success the vehicle
    /// hovers at its current position; on failure it is unchanged.
    pub fn take_off(&mut self) -> (r: Result<(), InvalidTransition>)
        ensures
            final(self)@ == step(old(self)@, Command::TakeOff),
            r == outcome(old(self)@.state, Command::TakeOff),
            r is Ok <==> old(self)@.state == VehicleState::Idle,
    {
        match self.state {
            VehicleState::Idle => {
                self.state = VehicleState::Hovering;
                Ok(())
            },
            _ => Err(InvalidTransition {
                attempted: Command::TakeOff,
                current: self.state,
            }),
        }
    }

    /// Fly to `(x, y)`: legal only when airborne. The move is modeled as
    /// instantaneous — the position is overwritten and the vehicle ends
    /// back hovering — so a vehicle that never took off is rejected and
    /// keeps its position.
    pub fn move_to(&mut self, x: i64, y: i64) -> (r: Result<(), InvalidTransition>)
        ensures
            final(self)@ == step(old(self)@, Command::MoveTo(x, y)),
            r == outcome(old(self)@.state, Command::MoveTo(x, y)),
            r is Ok <==> old(self)@.state != VehicleState::Idle,
    {
        match self.state {
            VehicleState::Idle => Err(InvalidTransition {
                attempted: Command::MoveTo(x, y),
                current: VehicleState::Idle,
            }),
            VehicleState::Hovering | VehicleState::Flying => {
                self.state = VehicleState::Flying;
                self.fly(x, y);
                if self.has_arrived(x, y) {
                    self.state = VehicleState::Hovering;
                }
                Ok(())
            },
        }
    }

    /// Whether the vehicle is exactly at `(x, y)`. Exact equality by
    /// design: the motion stub assigns coordinates directly, with no
    /// rounding, so immediately after a completed move to `(x, y)` this
    /// always holds.
    pub fn has_arrived(&self, x: i64, y: i64) -> (r: bool)
        ensures
            r == arrived(self@, x, y),
    {
        self.x == x && self.y == y
    }

    /// The motion stub: overwrite the position directly. No
    /// interpolation, no partial progress, no time component.
    fn fly(&mut self, x: i64, y: i64)
        ensures
            final(self)@.state == old(self)@.state,
            final(self)@.x == x,
            final(self)@.y == y,
    {
        self.x = x;
        self.y = y;
    }

    /// Return to the ground: legal only when hovering. Landing while in
    /// motion is rejected, as is landing a vehicle that is already idle;
    /// either rejection leaves state and position unchanged.
    pub fn land(&mut self) -> (r: Result<(), InvalidTransition>)
        ensures
            final(self)@ == step(old(self)@, Command::Land),
            r == outcome(old(self)@.state, Command::Land),
            r is Ok <==> old(self)@.state == VehicleState::Hovering,
    {
        match self.state {
            VehicleState::Flying => Err(InvalidTransition {
                attempted: Command::Land,
                current: VehicleState::Flying,
            }),
            VehicleState::Hovering => {
                self.state = VehicleState::Idle;
                Ok(())
            },
            VehicleState::Idle => Err(InvalidTransition {
                attempted: Command::Land,
                current: VehicleState::Idle,
            }),
        }
    }

    /// Issue one command: the runtime face of the transition function.
    /// The result and the vehicle after the call are determined by the
    /// vehicle before it and the command alone.
    pub fn apply(&mut self, c: Command) -> (r: Result<(), InvalidTransition>)
        ensures
            final(self)@ == step(old(self)@, c),
            r == outcome(old(self)@.state, c),
            r is Ok <==> legal(old(self)@.state, c),
    {
        match c {
            Command::TakeOff => self.take_off(),
            Command::Land => self.land(),
            Command::MoveTo(x, y) => self.move_to(x, y),
        }
    }

    /// Issue a whole command sequence in order, first command first.
    /// Rejected commands leave the vehicle unchanged and the run goes on;
    /// the result counts how many commands were accepted.
    pub fn run_commands(&mut self, cmds: &Vec<Command>) -> (accepted: usize)
        ensures
            final(self)@ == run(old(self)@, cmds@),
            accepted <= cmds@.len(),
    {
        let mut accepted: usize = 0;
        let mut i: usize = 0;
        proof {
            assert(cmds@.subrange(0, 0) =~= Seq::<Command>::empty());
        }
        while i < cmds.len()
            invariant
                i <= cmds@.len(),
                accepted <= i,
                self@ == run(old(self)@, cmds@.subrange(0, i as int)),
            decreases cmds@.len() - i,
        {
            let c = cmds[i];
            let ghost prefix = cmds@.subrange(0, i as int);
            let r = self.apply(c);
            if r.is_ok() {
                accepted = accepted + 1;
            }
            i = i + 1;
            proof {
                crate::model::lemma_run_snoc(old(self)@, prefix, c);
                assert(cmds@.subrange(0, i as int) =~= prefix.push(c));
            }
        }
        proof {
            assert(cmds@.subrange(0, cmds@.len() as int) =~= cmds@);
        }
        accepted
    }
}

} // verus!
