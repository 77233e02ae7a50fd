use flight_control::machine::{Drone, InvalidTransition};
use flight_control::model::{Command, VehicleState};

#[test]
fn main_drone_spawns_idle() {
    let drone = Drone::new();
    assert_eq!(drone.state(), VehicleState::Idle);
    assert_eq!(drone.x(), 0);
    assert_eq!(drone.y(), 0);
}

#[test]
fn main_drone_takes_off_n_lands() {
    let mut drone = Drone::new();
    assert!(drone.take_off().is_ok());
    assert_eq!(drone.state(), VehicleState::Hovering);
    assert!(drone.land().is_ok());
    assert_eq!(drone.state(), VehicleState::Idle);
}

#[test]
fn main_drone_flies() {
    let mut drone = Drone::new();
    assert!(drone.take_off().is_ok());
    assert!(drone.move_to(-5, -5).is_ok());
    assert!(drone.land().is_ok());
    assert_eq!(drone.x(), -5);
    assert_eq!(drone.y(), -5);
}

#[test]
fn main_drone_does_not_fly_idle() {
    let mut drone = Drone::new();
    assert!(drone.move_to(10, 10).is_err());
    assert_eq!(drone.x(), 0);
    assert_eq!(drone.y(), 0);
}

#[test]
fn drone_does_not_land_idle() {
    let mut drone = Drone::new();
    assert!(drone.land().is_err());
    assert_eq!(drone.x(), 0);
    assert_eq!(drone.y(), 0);
}

#[test]
fn drone_does_not_take_off_twice() {
    let mut drone = Drone::new();
    assert!(drone.take_off().is_ok());
    assert!(drone.take_off().is_err());
}

#[test]
fn rejected_take_off_names_command_and_state() {
    let mut drone = Drone::new();
    assert!(drone.take_off().is_ok());
    let err = drone.take_off().unwrap_err();
    assert_eq!(
        err,
        InvalidTransition { attempted: Command::TakeOff, current: VehicleState::Hovering }
    );
    assert_eq!(err.message(), "drone is not idle");
    assert_eq!(drone.state(), VehicleState::Hovering);
}

#[test]
fn rejected_move_names_command_and_state() {
    let mut drone = Drone::new();
    let err = drone.move_to(10, 10).unwrap_err();
    assert_eq!(
        err,
        InvalidTransition { attempted: Command::MoveTo(10, 10), current: VehicleState::Idle }
    );
    assert_eq!(err.message(), "drone has not taken off");
}

#[test]
fn rejected_land_names_command_and_state() {
    let mut drone = Drone::new();
    let err = drone.land().unwrap_err();
    assert_eq!(
        err,
        InvalidTransition { attempted: Command::Land, current: VehicleState::Idle }
    );
    assert_eq!(err.message(), "drone is idle");
}

#[test]
fn arrives_exactly_where_it_moved() {
    let mut drone = Drone::new();
    assert!(drone.take_off().is_ok());
    assert!(drone.move_to(3, 4).is_ok());
    assert_eq!(drone.state(), VehicleState::Hovering);
    assert!(drone.has_arrived(3, 4));
    assert!(!drone.has_arrived(0, 0));
}

#[test]
fn take_off_then_land_keeps_position() {
    let mut drone = Drone::new();
    assert!(drone.take_off().is_ok());
    assert!(drone.move_to(7, 9).is_ok());
    assert!(drone.land().is_ok());
    assert!(drone.take_off().is_ok());
    assert!(drone.land().is_ok());
    assert_eq!(drone.state(), VehicleState::Idle);
    assert_eq!(drone.x(), 7);
    assert_eq!(drone.y(), 9);
}

#[test]
fn apply_matches_the_named_operations() {
    let mut drone = Drone::new();
    assert!(drone.apply(Command::TakeOff).is_ok());
    assert_eq!(drone.state(), VehicleState::Hovering);
    assert!(drone.apply(Command::MoveTo(-2, 8)).is_ok());
    assert_eq!(drone.x(), -2);
    assert_eq!(drone.y(), 8);
    assert!(drone.apply(Command::Land).is_ok());
    assert_eq!(drone.state(), VehicleState::Idle);
    assert!(drone.apply(Command::Land).is_err());
}

#[test]
fn same_commands_same_outcome() {
    let commands = vec![
        Command::TakeOff,
        Command::TakeOff,
        Command::MoveTo(3, -2),
        Command::Land,
        Command::Land,
    ];
    let mut first = Drone::new();
    let mut second = Drone::new();
    let accepted_first = first.run_commands(&commands);
    let accepted_second = second.run_commands(&commands);
    assert_eq!(accepted_first, 3);
    assert_eq!(accepted_second, 3);
    assert_eq!(first.state(), second.state());
    assert_eq!(first.x(), second.x());
    assert_eq!(first.y(), second.y());
    assert_eq!(first.state(), VehicleState::Idle);
    assert_eq!(first.x(), 3);
    assert_eq!(first.y(), -2);
}
