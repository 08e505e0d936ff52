use svc_assets::error::{StatusCode, StorageError, StorageErrorKind};
use svc_assets::flows::{collect_converted, FieldCondition, Resource};
use svc_assets::handlers::{
    get_aircraft_by_id, get_all_aircraft, get_all_vertipads, get_all_vertiports,
    get_vertipad_by_id, get_vertiport_by_id, remove_aircraft, remove_vertipad, remove_vertiport,
};

const GOOD: &str = "936da01f-9abd-4d9d-80c7-02af85c822a8";

#[test]
fn missing_client_is_answered_503() {
    let e = get_all_aircraft().on_client(false).unwrap_err();
    assert_eq!(e.status, StatusCode::ServiceUnavailable);
    assert_eq!(e.message, "svc-storage unavailable.");
    let e = get_aircraft_by_id(GOOD.to_string()).unwrap().on_client(false).unwrap_err();
    assert_eq!(e.status.as_u16(), 503);
    let e = remove_vertipad(GOOD.to_string()).on_client(false).unwrap_err();
    assert_eq!(e.message, "svc-storage unavailable.");
}

#[test]
fn listing_searches_for_records_not_deleted() {
    let w = get_all_vertiports();
    assert_eq!(w.resource(), Resource::Vertiport);
    let search = w.on_client(true).unwrap();
    assert_eq!(search.resource(), Resource::Vertiport);
    let filter = search.filter();
    assert_eq!(filter.field, "deleted_at");
    assert_eq!(filter.condition, FieldCondition::IsNull);
}

fn other_failure(text: &str) -> StorageError {
    StorageError { kind: StorageErrorKind::Other, message: text.to_string() }
}

fn not_found() -> StorageError {
    StorageError { kind: StorageErrorKind::NotFound, message: "status: NotFound".to_string() }
}

#[test]
fn read_of_a_missing_record_is_answered_404() {
    let cases = [
        (get_aircraft_by_id(GOOD.to_string()), "Aircraft not found in database"),
        (get_vertipad_by_id(GOOD.to_string()), "Vertipad not found in database"),
        (get_vertiport_by_id(GOOD.to_string()), "Vertiport not found in database"),
    ];
    for (w, text) in cases {
        let fetch = w.unwrap().on_client(true).unwrap();
        let e = fetch.on_record::<i32>(Err(not_found())).unwrap_err();
        assert_eq!(e.status, StatusCode::NotFound);
        assert_eq!(e.status.as_u16(), 404);
        assert_eq!(e.message, text);
    }
}

#[test]
fn listing_returns_all_converted_records_in_order() {
    let search = get_all_aircraft().on_client(true).unwrap();
    let r = search.on_results(Some(vec![Some(1u32), Some(2), Some(3)]));
    assert_eq!(r.unwrap(), vec![1, 2, 3]);
    let search = get_all_vertipads().on_client(true).unwrap();
    let r: Vec<u8> = search.on_results(Some(vec![])).unwrap();
    assert!(r.is_empty());
}

#[test]
fn one_failed_conversion_fails_the_listing() {
    let cases = [
        (get_all_aircraft(), "could not convert vehicle to aircraft."),
        (get_all_vertiports(), "could not convert vertiport to vertiport struct."),
        (get_all_vertipads(), "could not convert vertipad to vertipad struct."),
    ];
    for (w, text) in cases {
        let e = w.on_client(true).unwrap().on_results(Some(vec![Some(1u8), None, Some(3)])).unwrap_err();
        assert_eq!(e.status, StatusCode::InternalServerError);
        assert_eq!(e.message, text);
    }
}

#[test]
fn failed_search_is_answered_503() {
    let e = get_all_aircraft().on_client(true).unwrap().on_results::<u8>(None).unwrap_err();
    assert_eq!(e.status, StatusCode::ServiceUnavailable);
    assert_eq!(e.message, "svc-storage unavailable.");
}

#[test]
fn collect_converted_is_all_or_nothing() {
    assert_eq!(collect_converted(vec![Some('a'), Some('b')]), Some(vec!['a', 'b']));
    assert_eq!(collect_converted(vec![None, Some('b')]), None);
    assert_eq!(collect_converted(vec![Some('a'), None]), None);
    assert_eq!(collect_converted::<char>(vec![]), Some(vec![]));
}

#[test]
fn read_by_id_refuses_bad_ids_before_storage() {
    let e = get_aircraft_by_id("1234".to_string()).err().unwrap();
    assert_eq!(e.status, StatusCode::BadRequest);
    assert_eq!(e.message, "Invalid aircraft id");
    let e = get_vertipad_by_id("1234".to_string()).err().unwrap();
    assert_eq!(e.message, "Invalid vertipad id");
    let e = get_vertiport_by_id("".to_string()).err().unwrap();
    assert_eq!(e.message, "Invalid vertiport id");
}

#[test]
fn read_by_id_passes_the_record_through() {
    let fetch = get_vertiport_by_id(GOOD.to_string()).unwrap().on_client(true).unwrap();
    assert_eq!(fetch.id(), GOOD);
    assert_eq!(fetch.resource(), Resource::Vertiport);
    assert_eq!(fetch.on_record::<i32>(Ok(Ok(7))).unwrap(), 7);
}

#[test]
fn read_by_id_failures_are_answered_500_with_detail() {
    let fetch = get_aircraft_by_id(GOOD.to_string()).unwrap().on_client(true).unwrap();
    let e = fetch.on_record::<i32>(Err(other_failure("status: Unavailable"))).unwrap_err();
    assert_eq!(e.status, StatusCode::InternalServerError);
    assert_eq!(e.message, "Error getting aircraft from storage: status: Unavailable");

    let fetch = get_aircraft_by_id(GOOD.to_string()).unwrap().on_client(true).unwrap();
    let e = fetch.on_record::<i32>(Ok(Err("bad data".to_string()))).unwrap_err();
    assert_eq!(e.message, "Error converting vehicle to aircraft: bad data");

    let fetch = get_vertipad_by_id(GOOD.to_string()).unwrap().on_client(true).unwrap();
    let e = fetch.on_record::<i32>(Ok(Err("x".to_string()))).unwrap_err();
    assert_eq!(e.message, "Error converting vertipad to vertipad: x");

    let fetch = get_vertiport_by_id(GOOD.to_string()).unwrap().on_client(true).unwrap();
    let e = fetch.on_record::<i32>(Err(other_failure("y"))).unwrap_err();
    assert_eq!(e.message, "Error getting vertiport from storage: y");
}

#[test]
fn removal_echoes_the_id() {
    let del = remove_aircraft("any-id".to_string()).on_client(true).unwrap();
    assert_eq!(del.id(), "any-id");
    assert_eq!(del.on_deleted(Ok(())).unwrap(), "any-id");
    let del = remove_vertiport("v".to_string()).on_client(true).unwrap();
    assert_eq!(del.resource(), Resource::Vertiport);
    let e = del.on_deleted(Err("gone".to_string())).unwrap_err();
    assert_eq!(e.status, StatusCode::InternalServerError);
    assert_eq!(e.message, "gone");
}
