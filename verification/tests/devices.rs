//! Device semantics against the default registry: the four kinds, their
//! defaults, the error taxonomy, and the end-to-end scenarios.

use sifis_api::device::DeviceKind;
use sifis_api::device::DoorLockStatus;
use sifis_api::device::DoorState;
use sifis_api::device::FridgeState;
use sifis_api::device::LampState;
use sifis_api::device::SinkState;
use sifis_api::registry::Registry;
use sifis_api::service::Error;

#[test]
fn lamp() {
    let mut reg = Registry::default();
    let lamps = reg.find_lamps().unwrap();
    assert!(!lamps.is_empty());

    for id in lamps {
        let on = reg.get_lamp_on_off(&id).unwrap();
        let brightness = reg.get_lamp_brightness(&id).unwrap();

        assert!(!on);
        assert_eq!(0, brightness);

        assert!(!reg.turn_lamp_off(&id).unwrap());
        assert!(reg.turn_lamp_on(&id).unwrap());
        assert_eq!(50, reg.set_lamp_brightness(&id, 50).unwrap());
        assert_eq!(100, reg.set_lamp_brightness(&id, 100).unwrap());
    }
}

#[test]
fn sink() {
    let mut reg = Registry::default();
    let sinks = reg.find_sinks().unwrap();
    assert!(!sinks.is_empty());

    for id in sinks {
        let flow = reg.get_sink_flow(&id).unwrap();
        let level = reg.get_sink_level(&id).unwrap();
        let temp = reg.get_sink_temp(&id).unwrap();

        assert_eq!(0, flow);
        assert_eq!(0, level);
        assert_eq!(20, temp);

        assert_eq!(0, reg.set_sink_flow(&id, 0).unwrap());
        assert!(reg.open_sink_drain(&id).unwrap());
        assert!(!reg.close_sink_drain(&id).unwrap());
        assert_eq!(50, reg.set_sink_flow(&id, 50).unwrap());
        assert_eq!(100, reg.set_sink_temp(&id, 100).unwrap());
    }
}

#[test]
fn door() {
    let mut reg = Registry::default();
    let doors = reg.find_doors().unwrap();
    assert!(!doors.is_empty());

    for id in doors {
        let open = reg.get_door_open(&id).unwrap();
        let lock = reg.get_door_lock_status(&id).unwrap();

        assert!(!open);
        assert_eq!(DoorLockStatus::Unlocked, lock);

        assert!(reg.unlock_door(&id).unwrap());
        assert!(reg.lock_door(&id).unwrap());
    }
}

#[test]
fn fridge() {
    let mut reg = Registry::default();
    let fridges = reg.find_fridges().unwrap();
    assert!(!fridges.is_empty());

    for id in fridges {
        let open = reg.get_fridge_open(&id).unwrap();
        let temp = reg.get_fridge_temperature(&id).unwrap();
        let targ = reg.get_fridge_target_temperature(&id).unwrap();

        assert!(!open);
        assert_eq!(5, temp);
        assert_eq!(4, targ);

        assert_eq!(0, reg.set_fridge_target_temperature(&id, 0).unwrap());
    }
}

#[test]
fn default_lamp_discovery_scenario() {
    let mut reg = Registry::default();

    let mut lamps = reg.find_lamps().unwrap();
    lamps.sort();
    assert_eq!(lamps, vec!["lamp1".to_string(), "lamp2".to_string()]);

    let lamp1 = "lamp1".to_string();
    assert!(!reg.get_lamp_on_off(&lamp1).unwrap());
    assert!(reg.turn_lamp_on(&lamp1).unwrap());
    assert!(reg.get_lamp_on_off(&lamp1).unwrap());
}

#[test]
fn default_sink_temperature_scenario() {
    let mut reg = Registry::default();

    let sinks = reg.find_sinks().unwrap();
    assert_eq!(sinks, vec!["sink 1".to_string()]);

    let id = &sinks[0];
    assert_eq!(20, reg.get_sink_temp(id).unwrap());
    assert_eq!(100, reg.set_sink_temp(id, 100).unwrap());
    assert_eq!(100, reg.get_sink_temp(id).unwrap());
}

#[test]
fn default_door_and_fridge_ids() {
    let reg = Registry::default();
    assert_eq!(reg.find_doors().unwrap(), vec!["door 1".to_string()]);
    assert_eq!(reg.find_fridges().unwrap(), vec!["fridge 1".to_string()]);
}

#[test]
fn brightness_round_trip_all_values() {
    let mut reg = Registry::default();
    let id = "lamp2".to_string();
    for v in 0..=100u8 {
        assert_eq!(v, reg.set_lamp_brightness(&id, v).unwrap());
        assert_eq!(v, reg.get_lamp_brightness(&id).unwrap());
    }
}

#[test]
fn lock_door_idempotent() {
    let mut reg = Registry::default();
    let id = "door 1".to_string();

    assert_eq!(DoorLockStatus::Unlocked, reg.get_door_lock_status(&id).unwrap());
    assert!(reg.lock_door(&id).unwrap());
    assert_eq!(DoorLockStatus::Locked, reg.get_door_lock_status(&id).unwrap());
    assert!(reg.lock_door(&id).unwrap());
    assert_eq!(DoorLockStatus::Locked, reg.get_door_lock_status(&id).unwrap());

    assert!(reg.unlock_door(&id).unwrap());
    assert_eq!(DoorLockStatus::Unlocked, reg.get_door_lock_status(&id).unwrap());
    assert!(reg.unlock_door(&id).unwrap());
    assert_eq!(DoorLockStatus::Unlocked, reg.get_door_lock_status(&id).unwrap());
}

#[test]
fn jammed_lock_is_terminal() {
    let mut reg = Registry::default();
    let id = "door 2".to_string();
    reg.insert(
        id.clone(),
        "Stuck Door".to_string(),
        DeviceKind::Door(DoorState { is_open: false, lock: DoorLockStatus::Jammed }),
    );

    assert!(!reg.lock_door(&id).unwrap());
    assert_eq!(DoorLockStatus::Jammed, reg.get_door_lock_status(&id).unwrap());
    assert!(!reg.unlock_door(&id).unwrap());
    assert_eq!(DoorLockStatus::Jammed, reg.get_door_lock_status(&id).unwrap());
}

#[test]
fn absent_id_answers_not_found() {
    let mut reg = Registry::default();
    let id = "missing".to_string();

    assert_eq!(Err(Error::NotFound(id.clone())), reg.turn_lamp_on(&id));
    assert_eq!(Err(Error::NotFound(id.clone())), reg.get_sink_flow(&id));
    assert_eq!(Err(Error::NotFound(id.clone())), reg.lock_door(&id));
    assert_eq!(Err(Error::NotFound(id.clone())), reg.get_fridge_open(&id));
}

#[test]
fn wrong_kind_answers_mismatch_naming_stored_kind() {
    let mut reg = Registry::default();

    let lamp = "lamp1".to_string();
    assert_eq!(
        Err(Error::Mismatch { found: "Lamp".to_string(), req: "Door".to_string() }),
        reg.lock_door(&lamp)
    );
    assert_eq!(
        Err(Error::Mismatch { found: "Lamp".to_string(), req: "Sink".to_string() }),
        reg.set_sink_flow(&lamp, 1)
    );

    let door = "door 1".to_string();
    assert_eq!(
        Err(Error::Mismatch { found: "Door".to_string(), req: "Lamp".to_string() }),
        reg.get_lamp_brightness(&door)
    );
    assert_eq!(
        Err(Error::Mismatch { found: "Door".to_string(), req: "Fridge".to_string() }),
        reg.set_fridge_target_temperature(&door, 0)
    );
}

#[test]
fn serialized_flow_writes_keep_last_value() {
    let mut reg = Registry::default();
    let id = "sink 1".to_string();

    let submitted = [13u8, 87, 42, 99, 7];
    for v in submitted {
        assert_eq!(v, reg.set_sink_flow(&id, v).unwrap());
    }
    let last = reg.get_sink_flow(&id).unwrap();
    assert_eq!(7, last);
    assert!(submitted.contains(&last));
}

#[test]
fn insert_overwrites_kind_under_same_id() {
    let mut reg = Registry::default();
    reg.insert(
        "lamp1".to_string(),
        "Converted".to_string(),
        DeviceKind::Sink(SinkState::default()),
    );

    let mut lamps = reg.find_lamps().unwrap();
    lamps.sort();
    assert_eq!(lamps, vec!["lamp2".to_string()]);

    let mut sinks = reg.find_sinks().unwrap();
    sinks.sort();
    assert_eq!(sinks, vec!["lamp1".to_string(), "sink 1".to_string()]);
}

#[test]
fn insert_fresh_id_adds_device() {
    let mut reg = Registry::new();
    assert!(reg.find_lamps().unwrap().is_empty());

    reg.insert(
        "lamp9".to_string(),
        "Desk lamp".to_string(),
        DeviceKind::Lamp(LampState { brightness: 3, on: true }),
    );
    assert_eq!(reg.find_lamps().unwrap(), vec!["lamp9".to_string()]);
    assert!(reg.get_lamp_on_off(&"lamp9".to_string()).unwrap());
    assert_eq!(3, reg.get_lamp_brightness(&"lamp9".to_string()).unwrap());
}

#[test]
fn state_defaults_match_documented_values() {
    let lamp = LampState::default();
    assert_eq!(0, lamp.brightness);
    assert!(!lamp.on);

    let sink = SinkState::default();
    assert_eq!(0, sink.flow);
    assert_eq!(20, sink.temp);
    assert_eq!(0, sink.level);
    assert!(sink.drain);

    let door = DoorState::default();
    assert!(!door.is_open);
    assert_eq!(DoorLockStatus::Unlocked, door.lock);

    let fridge = FridgeState::default();
    assert!(!fridge.open);
    assert_eq!(5, fridge.temperature);
    assert_eq!(4, fridge.target_temperature);
}

#[test]
fn kind_and_status_labels() {
    assert_eq!("unlocked", DoorLockStatus::Unlocked.label());
    assert_eq!("locked", DoorLockStatus::Locked.label());
    assert_eq!("jammed", DoorLockStatus::Jammed.label());

    assert_eq!("Lamp", DeviceKind::Lamp(LampState::default()).display());
    assert_eq!("Sink", DeviceKind::Sink(SinkState::default()).display());
    assert_eq!("Door", DeviceKind::Door(DoorState::default()).display());
    assert_eq!("Fridge", DeviceKind::Fridge(FridgeState::default()).display());
}
