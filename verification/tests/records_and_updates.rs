use svc_assets::error::StatusCode;
use svc_assets::flows::Resource;
use svc_assets::handlers::{
    get_aircraft_by_id, register_aircraft, register_vertipad, register_vertiport, update_aircraft,
    update_vertipad, update_vertiport,
};
use svc_assets::records::{
    apply_aircraft_patch, apply_vertipad_patch, apply_vertiport_patch, update_vehicle,
    AircraftPatch, RegisterAircraftPayload, RegisterVertipadPayload, RegisterVertiportPayload,
    UpdateAircraftPayload, UpdateVertipadPayload, UpdateVertiportPayload, VehicleData,
    VertipadData, VertipadPatch, VertiportData, VertiportPatch,
};
use svc_assets::timestamp::Timestamp;

const ID: &str = "936da01f-9abd-4d9d-80c7-02af85c822a8";
const PARSE_FAILURE: &str = "failed to parse RFC-3339 formatted timestamp";

fn empty_aircraft_patch() -> AircraftPatch {
    AircraftPatch {
        last_vertiport_id: None,
        vehicle_model_id: None,
        serial_number: None,
        registration_number: None,
        description: None,
        asset_group_id: None,
        schedule: None,
        last_maintenance: None,
        next_maintenance: None,
    }
}

fn stored_vehicle() -> VehicleData {
    VehicleData {
        last_vertiport_id: Some("port-1".to_string()),
        vehicle_model_id: "model-1".to_string(),
        serial_number: "S-1".to_string(),
        registration_number: "N-1".to_string(),
        description: Some("blue".to_string()),
        asset_group_id: Some("group-1".to_string()),
        schedule: Some("sched".to_string()),
        last_maintenance: Some(Timestamp { seconds: 10, nanos: 0 }),
        next_maintenance: Some(Timestamp { seconds: 20, nanos: 5 }),
    }
}

fn register_payload(last: Option<&str>, next: Option<&str>) -> RegisterAircraftPayload {
    RegisterAircraftPayload {
        last_vertiport_id: Some("port-9".to_string()),
        serial_number: "SER".to_string(),
        registration_number: "REG".to_string(),
        name: Some("Mantis".to_string()),
        last_maintenance: last.map(|s| s.to_string()),
        next_maintenance: next.map(|s| s.to_string()),
    }
}

#[test]
fn aircraft_registration_builds_the_record() {
    let reg = register_aircraft(register_payload(Some("2022-10-12T10:00:00Z"), None))
        .on_client(true)
        .unwrap();
    let insert = reg.prepare().unwrap();
    assert_eq!(insert.resource(), Resource::Aircraft);
    let d = insert.data();
    assert_eq!(d.last_vertiport_id.as_deref(), Some("port-9"));
    assert_eq!(d.serial_number, "SER");
    assert_eq!(d.registration_number, "REG");
    assert_eq!(d.description.as_deref(), Some("Mantis"));
    assert_eq!(d.asset_group_id, None);
    assert_eq!(d.schedule, None);
    assert_eq!(d.last_maintenance, Some(Timestamp { seconds: 1665568800, nanos: 0 }));
    assert_eq!(d.next_maintenance, None);
    assert_eq!(d.vehicle_model_id.len(), 36);
    assert_eq!(d.vehicle_model_id.as_bytes()[14], b'4');
    assert_eq!(insert.on_inserted(Ok(Some("new-id".to_string()))).unwrap(), "new-id");
}

#[test]
fn aircraft_registration_refuses_unparsable_times() {
    let reg = register_aircraft(register_payload(Some("yesterday"), Some("also bad")))
        .on_client(true)
        .unwrap();
    let e = reg.prepare().err().unwrap();
    assert_eq!(e.status, StatusCode::InternalServerError);
    assert_eq!(e.message, format!("Error converting last_maintenance to Timestamp: {}", PARSE_FAILURE));
    let reg = register_aircraft(register_payload(None, Some("2023-13-01T00:00:00Z")))
        .on_client(true)
        .unwrap();
    let e = reg.prepare().err().unwrap();
    assert_eq!(e.message, format!("Error converting next_maintenance to Timestamp: {}", PARSE_FAILURE));
}

#[test]
fn registration_waits_for_the_client_first() {
    let e = register_aircraft(register_payload(Some("bad"), None)).on_client(false).err().unwrap();
    assert_eq!(e.status, StatusCode::ServiceUnavailable);
}

#[test]
fn insert_replies() {
    let payload = RegisterVertiportPayload { name: None, description: None, latitude: 1.5f64, longitude: -2.0f64 };
    let insert = register_vertiport(payload).on_client(true).unwrap();
    let e = insert.on_inserted(Ok(None)).unwrap_err();
    assert_eq!(e.status, StatusCode::InternalServerError);
    assert_eq!(e.message, "Could not insert vertiport");
    let payload = RegisterVertipadPayload {
        name: None,
        vertiport_id: "p".to_string(),
        latitude: 0.0f64,
        longitude: 0.0f64,
        enabled: true,
        occupied: false,
    };
    let insert = register_vertipad(payload).on_client(true).unwrap();
    let e = insert.on_inserted(Err("status: Internal".to_string())).unwrap_err();
    assert_eq!(e.message, "status: Internal");
    let insert = register_aircraft(register_payload(None, None)).on_client(true).unwrap().prepare().unwrap();
    assert_eq!(insert.on_inserted(Ok(None)).unwrap_err().message, "Could not insert vehicle");
}

#[test]
fn vertiport_registration_defaults() {
    let payload = RegisterVertiportPayload { name: None, description: None, latitude: 1.5f64, longitude: -2.0f64 };
    let insert = register_vertiport(payload).on_client(true).unwrap();
    let d = insert.data();
    assert_eq!(d.name, "unnamed");
    assert_eq!(d.description, "N/A");
    assert_eq!(d.latitude, 1.5);
    assert_eq!(d.longitude, -2.0);
    assert_eq!(d.schedule.as_deref(), Some(""));

    let payload = RegisterVertiportPayload {
        name: Some("Hub".to_string()),
        description: Some("Main".to_string()),
        latitude: 0.0f64,
        longitude: 0.0f64,
    };
    let insert = register_vertiport(payload).on_client(true).unwrap();
    assert_eq!(insert.data().name, "Hub");
    assert_eq!(insert.data().description, "Main");
}

#[test]
fn vertipad_registration_defaults() {
    let payload = RegisterVertipadPayload {
        name: None,
        vertiport_id: "port".to_string(),
        latitude: 3.0f64,
        longitude: 4.0f64,
        enabled: true,
        occupied: true,
    };
    let insert = register_vertipad(payload).on_client(true).unwrap();
    let d = insert.data();
    assert_eq!(d.name, "unnamed");
    assert_eq!(d.vertiport_id, "port");
    assert_eq!(d.schedule.as_deref(), Some(""));
    assert!(d.enabled && d.occupied);
    assert_eq!(insert.on_inserted(Ok(Some("pad".to_string()))).unwrap(), "pad");
}

#[test]
fn empty_aircraft_update_keeps_record_but_clears_last_vertiport() {
    let d = update_vehicle(empty_aircraft_patch(), stored_vehicle()).unwrap();
    let s = stored_vehicle();
    assert_eq!(d.last_vertiport_id, None);
    assert_eq!(d.vehicle_model_id, s.vehicle_model_id);
    assert_eq!(d.serial_number, s.serial_number);
    assert_eq!(d.registration_number, s.registration_number);
    assert_eq!(d.description, s.description);
    assert_eq!(d.asset_group_id, s.asset_group_id);
    assert_eq!(d.schedule, s.schedule);
    assert_eq!(d.last_maintenance, s.last_maintenance);
    assert_eq!(d.next_maintenance, s.next_maintenance);
}

#[test]
fn aircraft_update_sets_clears_and_parses() {
    let patch = AircraftPatch {
        last_vertiport_id: Some("port-2".to_string()),
        vehicle_model_id: Some("model-2".to_string()),
        serial_number: None,
        registration_number: Some("N-2".to_string()),
        description: Some(None),
        asset_group_id: Some(Some("group-2".to_string())),
        schedule: None,
        last_maintenance: Some(Some("2023-01-01T00:00:00Z".to_string())),
        next_maintenance: Some(None),
    };
    let d = update_vehicle(patch, stored_vehicle()).unwrap();
    assert_eq!(d.last_vertiport_id.as_deref(), Some("port-2"));
    assert_eq!(d.vehicle_model_id, "model-2");
    assert_eq!(d.serial_number, "S-1");
    assert_eq!(d.registration_number, "N-2");
    assert_eq!(d.description, None);
    assert_eq!(d.asset_group_id.as_deref(), Some("group-2"));
    assert_eq!(d.schedule.as_deref(), Some("sched"));
    assert_eq!(d.last_maintenance, Some(Timestamp { seconds: 1672531200, nanos: 0 }));
    assert_eq!(d.next_maintenance, None);
}

#[test]
fn aircraft_update_refuses_unparsable_time() {
    let mut patch = empty_aircraft_patch();
    patch.next_maintenance = Some(Some("soon".to_string()));
    assert_eq!(update_vehicle(patch, stored_vehicle()).unwrap_err(), PARSE_FAILURE);
}

#[test]
fn aircraft_update_twice_is_once() {
    let make = || AircraftPatch {
        last_vertiport_id: Some("port-2".to_string()),
        vehicle_model_id: None,
        serial_number: Some("S-2".to_string()),
        registration_number: None,
        description: Some(Some("red".to_string())),
        asset_group_id: None,
        schedule: Some(None),
        last_maintenance: Some(Some("2022-10-12T10:00:00Z".to_string())),
        next_maintenance: None,
    };
    let once = update_vehicle(make(), stored_vehicle()).unwrap();
    let once_again = update_vehicle(make(), stored_vehicle()).unwrap();
    let twice = update_vehicle(make(), once_again).unwrap();
    assert_eq!(format!("{:?}", once), format!("{:?}", twice));
}

#[test]
fn aircraft_patch_with_given_times() {
    let t = Some(Timestamp { seconds: 1, nanos: 2 });
    let d = apply_aircraft_patch(empty_aircraft_patch(), stored_vehicle(), t, None);
    assert_eq!(d.last_maintenance, t);
    assert_eq!(d.next_maintenance, None);
    assert_eq!(d.serial_number, "S-1");
}

#[test]
fn aircraft_update_flow() {
    let payload = UpdateAircraftPayload {
        id: ID.to_string(),
        patch: AircraftPatch { serial_number: Some("S-9".to_string()), ..empty_aircraft_patch() },
        mask: vec!["serial_number".to_string()],
    };
    let upd = update_aircraft(payload).on_client(true).unwrap();
    assert_eq!(upd.id(), ID);
    let call = upd.on_current(Ok(Some(stored_vehicle()))).unwrap();
    assert_eq!(call.id(), ID);
    assert_eq!(call.data().serial_number, "S-9");
    assert_eq!(call.mask(), &vec!["serial_number".to_string()]);
    assert_eq!(call.on_updated(Ok(())).unwrap(), ID);
}

#[test]
fn aircraft_update_flow_failures() {
    let payload = || UpdateAircraftPayload { id: ID.to_string(), patch: empty_aircraft_patch(), mask: vec![] };
    let e = update_aircraft(payload()).on_client(true).unwrap().on_current(Ok(None)).err().unwrap();
    assert_eq!(e.status, StatusCode::NotFound);
    assert_eq!(e.message, "Vehicle not found");
    let e = update_aircraft(payload()).on_client(true).unwrap().on_current(Err("down".to_string())).err().unwrap();
    assert_eq!(e.status, StatusCode::InternalServerError);
    assert_eq!(e.message, "down");
    let bad = UpdateAircraftPayload {
        id: ID.to_string(),
        patch: AircraftPatch { last_maintenance: Some(Some("never".to_string())), ..empty_aircraft_patch() },
        mask: vec![],
    };
    let e = update_aircraft(bad).on_client(true).unwrap().on_current(Ok(Some(stored_vehicle()))).err().unwrap();
    assert_eq!(e.status, StatusCode::InternalServerError);
    assert_eq!(e.message, PARSE_FAILURE);
    let call = update_aircraft(payload()).on_client(true).unwrap().on_current(Ok(Some(stored_vehicle()))).unwrap();
    let e = call.on_updated(Err("refused".to_string())).unwrap_err();
    assert_eq!(e.message, "refused");
    let e = update_aircraft(payload()).on_client(false).err().unwrap();
    assert_eq!(e.status, StatusCode::ServiceUnavailable);
}

fn stored_vertiport() -> VertiportData<f64> {
    VertiportData {
        name: "Hub".to_string(),
        description: "Main".to_string(),
        latitude: 10.0,
        longitude: 20.0,
        schedule: Some("s".to_string()),
    }
}

#[test]
fn vertiport_updates() {
    let empty = VertiportPatch { name: None, description: None, latitude: None, longitude: None, schedule: None };
    let d = apply_vertiport_patch(empty, stored_vertiport());
    assert_eq!(format!("{:?}", d), format!("{:?}", stored_vertiport()));
    let patch = || VertiportPatch {
        name: Some("New".to_string()),
        description: None,
        latitude: Some(11.0f64),
        longitude: None,
        schedule: Some(None),
    };
    let once = apply_vertiport_patch(patch(), stored_vertiport());
    assert_eq!(once.name, "New");
    assert_eq!(once.description, "Main");
    assert_eq!(once.latitude, 11.0);
    assert_eq!(once.longitude, 20.0);
    assert_eq!(once.schedule, None);
    let twice = apply_vertiport_patch(patch(), apply_vertiport_patch(patch(), stored_vertiport()));
    assert_eq!(format!("{:?}", once), format!("{:?}", twice));

    let payload = UpdateVertiportPayload { id: ID.to_string(), patch: patch(), mask: vec![] };
    let upd = update_vertiport(payload).on_client(true).unwrap();
    assert_eq!(upd.id(), ID);
    let e = update_vertiport(UpdateVertiportPayload { id: ID.to_string(), patch: patch(), mask: vec![] })
        .on_client(true)
        .unwrap()
        .on_current(Ok(None))
        .err()
        .unwrap();
    assert_eq!(e.message, "Vertiport not found");
    let call = upd.on_current(Ok(Some(stored_vertiport()))).unwrap();
    assert_eq!(call.resource(), Resource::Vertiport);
    assert_eq!(call.data().name, "New");
    assert_eq!(call.on_updated(Ok(())).unwrap(), ID);
}

fn stored_vertipad() -> VertipadData<f64> {
    VertipadData {
        name: "Pad".to_string(),
        vertiport_id: "port".to_string(),
        latitude: 1.0,
        longitude: 2.0,
        schedule: None,
        enabled: true,
        occupied: false,
    }
}

#[test]
fn vertipad_updates() {
    let empty = VertipadPatch {
        name: None,
        latitude: None,
        longitude: None,
        enabled: None,
        occupied: None,
        schedule: None,
        vertiport_id: None,
    };
    let d = apply_vertipad_patch(empty, stored_vertipad());
    assert_eq!(format!("{:?}", d), format!("{:?}", stored_vertipad()));
    let patch = || VertipadPatch {
        name: None,
        latitude: None,
        longitude: Some(5.0f64),
        enabled: Some(false),
        occupied: None,
        schedule: Some(Some("busy".to_string())),
        vertiport_id: Some("port-2".to_string()),
    };
    let once = apply_vertipad_patch(patch(), stored_vertipad());
    assert_eq!(once.name, "Pad");
    assert_eq!(once.longitude, 5.0);
    assert!(!once.enabled);
    assert!(!once.occupied);
    assert_eq!(once.schedule.as_deref(), Some("busy"));
    assert_eq!(once.vertiport_id, "port-2");
    let twice = apply_vertipad_patch(patch(), apply_vertipad_patch(patch(), stored_vertipad()));
    assert_eq!(format!("{:?}", once), format!("{:?}", twice));

    let e = update_vertipad(UpdateVertipadPayload { id: ID.to_string(), patch: patch(), mask: vec![] })
        .on_client(true)
        .unwrap()
        .on_current(Ok(None))
        .err()
        .unwrap();
    assert_eq!(e.status, StatusCode::NotFound);
    assert_eq!(e.message, "Vertipad not found");
    let call = update_vertipad(UpdateVertipadPayload { id: ID.to_string(), patch: patch(), mask: vec!["enabled".to_string()] })
        .on_client(true)
        .unwrap()
        .on_current(Ok(Some(stored_vertipad())))
        .unwrap();
    assert_eq!(call.mask().len(), 1);
    assert!(!call.data().enabled);
}

#[test]
fn read_then_convert_keeps_the_id() {
    let fetch = get_aircraft_by_id(ID.to_string()).unwrap().on_client(true).unwrap();
    assert_eq!(fetch.resource(), Resource::Aircraft);
    assert_eq!(fetch.id(), ID);
}
