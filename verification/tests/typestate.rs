use flight_control::typestate::{Drone, Idle};

#[test]
fn drone_drone_spawns_idle() {
    let drone = Drone::<Idle>::new();
    assert_eq!(drone.x(), 0);
    assert_eq!(drone.y(), 0);
}

#[test]
fn drone_drone_takes_off_n_lands() {
    let drone = Drone::<Idle>::new();
    let drone = drone.take_off();
    assert_eq!(drone.x(), 0);
    assert_eq!(drone.y(), 0);
    drone.land();
}

#[test]
fn drone_drone_flies() {
    let drone = Drone::<Idle>::new();
    let drone = drone.take_off();
    let drone = drone.move_to(-5, -5);
    let drone = drone.land();
    assert_eq!(drone.x(), -5);
    assert_eq!(drone.y(), -5);
}

#[test]
fn drone_drone_does_not_fly_idle() {
    let drone = Drone::<Idle>::new();
    // A move before take-off does not compile: `move_to` exists only on
    // `Drone<Hovering>`, and an idle vehicle is not of that type.
    assert_eq!(drone.x(), 0);
    assert_eq!(drone.y(), 0);
}

#[test]
fn typed_take_off_then_land_keeps_position() {
    let drone = Drone::<Idle>::new().take_off().move_to(7, 9).land();
    let drone = drone.take_off().land();
    assert_eq!(drone.x(), 7);
    assert_eq!(drone.y(), 9);
}
