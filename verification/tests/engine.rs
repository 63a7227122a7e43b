//! The dispatch engine, the hazard table, the admission bound, and the
//! client-side lookup logic.

use sifis_api::client;
use sifis_api::device::DoorLockStatus;
use sifis_api::registry::Registry;
use sifis_api::service::Error;
use sifis_api::service::Hazard;
use sifis_api::service::Reply;
use sifis_api::service::Request;
use sifis_api::session::Admission;
use sifis_api::session::MAX_CONCURRENT_CONNECTIONS;
use sifis_api::dispatch::dispatch;

#[test]
fn dispatch_routes_each_request_kind() {
    let mut reg = Registry::default();
    let lamp = "lamp1".to_string();
    let sink = "sink 1".to_string();
    let door = "door 1".to_string();
    let fridge = "fridge 1".to_string();

    let r = dispatch(&mut reg, Request::FindLamps).unwrap();
    match r {
        Reply::Ids(mut ids) => {
            ids.sort();
            assert_eq!(ids, vec!["lamp1".to_string(), "lamp2".to_string()]);
        }
        other => panic!("unexpected reply {:?}", other),
    }

    assert_eq!(Ok(Reply::Flag(true)), dispatch(&mut reg, Request::TurnLampOn(lamp.clone())));
    assert_eq!(Ok(Reply::Flag(true)), dispatch(&mut reg, Request::GetLampOnOff(lamp.clone())));
    assert_eq!(Ok(Reply::Flag(false)), dispatch(&mut reg, Request::TurnLampOff(lamp.clone())));
    assert_eq!(
        Ok(Reply::Level(77)),
        dispatch(&mut reg, Request::SetLampBrightness(lamp.clone(), 77))
    );
    assert_eq!(Ok(Reply::Level(77)), dispatch(&mut reg, Request::GetLampBrightness(lamp.clone())));

    assert_eq!(Ok(Reply::Level(30)), dispatch(&mut reg, Request::SetSinkFlow(sink.clone(), 30)));
    assert_eq!(Ok(Reply::Level(30)), dispatch(&mut reg, Request::GetSinkFlow(sink.clone())));
    assert_eq!(Ok(Reply::Level(45)), dispatch(&mut reg, Request::SetSinkTemp(sink.clone(), 45)));
    assert_eq!(Ok(Reply::Level(45)), dispatch(&mut reg, Request::GetSinkTemp(sink.clone())));
    assert_eq!(Ok(Reply::Flag(false)), dispatch(&mut reg, Request::CloseSinkDrain(sink.clone())));
    assert_eq!(Ok(Reply::Flag(true)), dispatch(&mut reg, Request::OpenSinkDrain(sink.clone())));
    assert_eq!(Ok(Reply::Level(0)), dispatch(&mut reg, Request::GetSinkLevel(sink.clone())));

    assert_eq!(Ok(Reply::Flag(false)), dispatch(&mut reg, Request::GetDoorOpen(door.clone())));
    assert_eq!(
        Ok(Reply::Lock(DoorLockStatus::Unlocked)),
        dispatch(&mut reg, Request::GetDoorLockStatus(door.clone()))
    );
    assert_eq!(Ok(Reply::Flag(true)), dispatch(&mut reg, Request::LockDoor(door.clone())));
    assert_eq!(
        Ok(Reply::Lock(DoorLockStatus::Locked)),
        dispatch(&mut reg, Request::GetDoorLockStatus(door.clone()))
    );
    assert_eq!(Ok(Reply::Flag(true)), dispatch(&mut reg, Request::UnlockDoor(door.clone())));

    assert_eq!(
        Ok(Reply::Degrees(5)),
        dispatch(&mut reg, Request::GetFridgeTemperature(fridge.clone()))
    );
    assert_eq!(
        Ok(Reply::Degrees(4)),
        dispatch(&mut reg, Request::GetFridgeTargetTemperature(fridge.clone()))
    );
    assert_eq!(
        Ok(Reply::Degrees(-7)),
        dispatch(&mut reg, Request::SetFridgeTargetTemperature(fridge.clone(), -7))
    );
    assert_eq!(Ok(Reply::Flag(false)), dispatch(&mut reg, Request::GetFridgeOpen(fridge.clone())));

    match dispatch(&mut reg, Request::FindSinks).unwrap() {
        Reply::Ids(ids) => assert_eq!(ids, vec!["sink 1".to_string()]),
        other => panic!("unexpected reply {:?}", other),
    }
    match dispatch(&mut reg, Request::FindDoors).unwrap() {
        Reply::Ids(ids) => assert_eq!(ids, vec!["door 1".to_string()]),
        other => panic!("unexpected reply {:?}", other),
    }
    match dispatch(&mut reg, Request::FindFridges).unwrap() {
        Reply::Ids(ids) => assert_eq!(ids, vec!["fridge 1".to_string()]),
        other => panic!("unexpected reply {:?}", other),
    }
}

#[test]
fn dispatch_returns_protocol_errors_unchanged() {
    let mut reg = Registry::default();

    assert_eq!(
        Err(Error::NotFound("ghost".to_string())),
        dispatch(&mut reg, Request::TurnLampOn("ghost".to_string()))
    );
    assert_eq!(
        Err(Error::Mismatch { found: "Sink".to_string(), req: "Lamp".to_string() }),
        dispatch(&mut reg, Request::GetLampBrightness("sink 1".to_string()))
    );
}

#[test]
fn hazard_table_matches_documentation() {
    let id = "x".to_string();

    assert_eq!(
        vec![Hazard::Fire, Hazard::LogEnergyConsumption, Hazard::EnergyConsumption],
        Request::TurnLampOn(id.clone()).hazards()
    );
    assert_eq!(vec![Hazard::LogEnergyConsumption], Request::TurnLampOff(id.clone()).hazards());
    assert_eq!(
        vec![Hazard::Fire, Hazard::LogEnergyConsumption, Hazard::EnergyConsumption],
        Request::SetLampBrightness(id.clone(), 1).hazards()
    );
    assert_eq!(vec![Hazard::Flood], Request::SetSinkFlow(id.clone(), 1).hazards());
    assert_eq!(vec![Hazard::Scald], Request::SetSinkTemp(id.clone(), 1).hazards());
    assert_eq!(vec![Hazard::Flood], Request::CloseSinkDrain(id.clone()).hazards());

    assert!(Request::FindLamps.hazards().is_empty());
    assert!(Request::OpenSinkDrain(id.clone()).hazards().is_empty());
    assert!(Request::GetLampOnOff(id.clone()).hazards().is_empty());
    assert!(Request::LockDoor(id.clone()).hazards().is_empty());
    assert!(Request::SetFridgeTargetTemperature(id.clone(), 0).hazards().is_empty());
}

#[test]
fn hazard_labels() {
    assert_eq!("Fire", Hazard::Fire.label());
    assert_eq!("LogEnergyConsumption", Hazard::LogEnergyConsumption.label());
    assert_eq!("EnergyConsumption", Hazard::EnergyConsumption.label());
    assert_eq!("PowerOutage", Hazard::PowerOutage.label());
    assert_eq!("Flood", Hazard::Flood.label());
    assert_eq!("Scald", Hazard::Scald.label());
}

#[test]
fn admission_serves_at_most_ten_at_once() {
    assert_eq!(10, MAX_CONCURRENT_CONNECTIONS);

    let mut admission = Admission::new();
    assert_eq!(10, admission.limit());

    let mut served = 0;
    for _ in 0..11 {
        if admission.try_admit() {
            served += 1;
        }
    }
    assert_eq!(10, served);
    assert_eq!(10, admission.active_count());

    // The eleventh connection becomes active only after one of the first
    // ten closes.
    assert!(!admission.try_admit());
    admission.release();
    assert!(admission.try_admit());
    assert_eq!(10, admission.active_count());
}

#[test]
fn admission_with_custom_limit() {
    let mut admission = Admission::with_limit(2);
    assert!(admission.try_admit());
    assert!(admission.try_admit());
    assert!(!admission.try_admit());
    assert_eq!(2, admission.active_count());
    admission.release();
    admission.release();
    assert_eq!(0, admission.active_count());
}

#[test]
fn lookup_finds_listed_ids_only() {
    let reg = Registry::default();
    let lamp_ids = reg.find_lamps().unwrap();

    let found = client::Lamp::lookup(&lamp_ids, "lamp1").unwrap();
    assert_eq!("lamp1", found.id);

    assert_eq!(Err(client::Error::NotFound), client::Lamp::lookup(&lamp_ids, "sink 1"));
    assert_eq!(Err(client::Error::NotFound), client::Lamp::lookup(&lamp_ids, "lamp"));

    let sink_ids = reg.find_sinks().unwrap();
    assert_eq!("sink 1", client::Sink::lookup(&sink_ids, "sink 1").unwrap().id);

    let door_ids = reg.find_doors().unwrap();
    assert_eq!("door 1", client::Door::lookup(&door_ids, "door 1").unwrap().id);
    let fridge_ids = reg.find_fridges().unwrap();
    assert_eq!("fridge 1", client::Fridge::lookup(&fridge_ids, "fridge 1").unwrap().id);
    assert_eq!(Err(client::Error::NotFound), client::Fridge::lookup(&fridge_ids, "door 1"));
}

#[test]
fn handles_wrap_every_discovered_id() {
    let reg = Registry::default();

    let lamp_ids = reg.find_lamps().unwrap();
    let lamps = client::Lamp::from_ids(&lamp_ids);
    assert_eq!(lamp_ids.len(), lamps.len());
    for (handle, id) in lamps.iter().zip(lamp_ids.iter()) {
        assert_eq!(&handle.id, id);
    }

    let sinks = client::Sink::from_ids(&reg.find_sinks().unwrap());
    assert_eq!(1, sinks.len());
    assert_eq!("sink 1", sinks[0].id);

    let doors = client::Door::from_ids(&reg.find_doors().unwrap());
    assert_eq!(1, doors.len());
    assert_eq!("door 1", doors[0].id);

    let fridges = client::Fridge::from_ids(&reg.find_fridges().unwrap());
    assert_eq!(1, fridges.len());
    assert_eq!("fridge 1", fridges[0].id);
}
