use svc_assets::error::{StatusCode, StorageError, StorageErrorKind};
use svc_assets::flows::{AssetSelection, Resource};
use svc_assets::handlers::{
    get_all_assets_by_operator, get_all_grouped_assets, get_all_grouped_assets_delegated_from,
    get_all_grouped_assets_delegated_to, get_asset_group_by_id, get_operator, health_check,
    register_asset_group, remove_asset_group, update_asset_group,
};
use svc_assets::ids::{check_id, IdKind};
use svc_assets::records::{AssetGroup, RegisterAssetGroupPayload};
use svc_assets::timestamp::Timestamp as Ts;

const GOOD: &str = "550e8400-e29b-41d4-a716-446655440000";

#[test]
fn hyphenated_uuid_is_accepted() {
    assert!(get_operator(GOOD.to_string()).is_ok());
    assert!(get_operator("550E8400-E29B-41D4-A716-446655440000".to_string()).is_ok());
}

#[test]
fn simple_braced_and_urn_uuids_are_accepted() {
    assert!(get_operator("550e8400e29b41d4a716446655440000".to_string()).is_ok());
    assert!(get_operator("{550e8400-e29b-41d4-a716-446655440000}".to_string()).is_ok());
    assert!(get_operator("urn:uuid:550e8400-e29b-41d4-a716-446655440000".to_string()).is_ok());
    assert!(get_operator("URN:UUID:550e8400-e29b-41d4-a716-446655440000".to_string()).is_ok());
}

#[test]
fn malformed_ids_are_refused_with_400() {
    for bad in [
        "",
        "not-a-uuid",
        "550e8400-e29b-41d4-a716-44665544000g",
        "550e8400-e29b41d4-a716-4466554400000",
        "550e8400e29b41d4a71644665544000",
        "(550e8400-e29b-41d4-a716-446655440000)",
        "urn:uid::550e8400-e29b-41d4-a716-446655440000",
        "550e8400-e29b-41d4-a716-44665544000é",
    ] {
        let e = get_operator(bad.to_string()).unwrap_err();
        assert_eq!(e.status, StatusCode::BadRequest);
        assert_eq!(e.message, "Invalid operator id");
    }
}

#[test]
fn refusal_text_names_the_kind_of_id() {
    let cases = [
        (IdKind::Operator, "Invalid operator id"),
        (IdKind::Aircraft, "Invalid aircraft id"),
        (IdKind::Vertipad, "Invalid vertipad id"),
        (IdKind::Vertiport, "Invalid vertiport id"),
        (IdKind::AssetGroup, "Invalid asset group id"),
    ];
    for (kind, text) in cases {
        let e = check_id("x", kind).unwrap_err();
        assert_eq!(e.status, StatusCode::BadRequest);
        assert_eq!(e.message, text);
        assert!(check_id(GOOD, kind).is_ok());
    }
}

fn not_found() -> StorageError {
    StorageError { kind: StorageErrorKind::NotFound, message: "status: NotFound".to_string() }
}

#[test]
fn operator_read_waits_on_storage() {
    let w = get_operator(GOOD.to_string()).unwrap();
    assert_eq!(w.resource(), Resource::Operator);
    let e = get_operator(GOOD.to_string()).unwrap().on_client(false).unwrap_err();
    assert_eq!(e.status, StatusCode::ServiceUnavailable);
    let fetch = w.on_client(true).unwrap();
    assert_eq!(fetch.id(), GOOD);
    let e = fetch.on_record::<u8>(Err(not_found())).unwrap_err();
    assert_eq!(e.status, StatusCode::NotFound);
    assert_eq!(e.message, "Operator not found in database");
    let fetch = get_operator(GOOD.to_string()).unwrap().on_client(true).unwrap();
    assert_eq!(fetch.on_record::<u8>(Ok(Ok(5))).unwrap(), 5);
}

#[test]
fn operator_asset_lists_return_what_storage_lists() {
    let cases = [
        (get_all_assets_by_operator(GOOD.to_string()), AssetSelection::All),
        (get_all_grouped_assets(GOOD.to_string()), AssetSelection::Grouped),
        (get_all_grouped_assets_delegated_to(GOOD.to_string()), AssetSelection::DelegatedTo),
        (get_all_grouped_assets_delegated_from(GOOD.to_string()), AssetSelection::DelegatedFrom),
    ];
    for (w, selection) in cases {
        let call = w.unwrap().on_client(true).unwrap();
        assert_eq!(call.selection(), selection);
        assert_eq!(call.operator_id(), GOOD);
        let ids = vec![uuid::Uuid::nil()];
        assert_eq!(call.on_assets(Ok(ids.clone())).unwrap(), ids);
    }
}

#[test]
fn operator_asset_lists_answer_404_and_500() {
    let call = get_all_grouped_assets(GOOD.to_string()).unwrap().on_client(true).unwrap();
    let e = call.on_assets::<u8>(Err(not_found())).unwrap_err();
    assert_eq!(e.status.as_u16(), 404);
    assert_eq!(e.message, "Operator not found in database");
    let call = get_all_assets_by_operator(GOOD.to_string()).unwrap().on_client(true).unwrap();
    let other = StorageError { kind: StorageErrorKind::Other, message: "down".to_string() };
    let e = call.on_assets::<u8>(Err(other)).unwrap_err();
    assert_eq!(e.status.as_u16(), 500);
    assert_eq!(e.message, "Error getting operator from storage: down");
}

#[test]
fn operator_asset_lists_refuse_bad_ids() {
    for r in [
        get_all_assets_by_operator("abc".to_string()),
        get_all_grouped_assets("abc".to_string()),
        get_all_grouped_assets_delegated_to("abc".to_string()),
        get_all_grouped_assets_delegated_from("abc".to_string()),
    ] {
        let e = r.unwrap_err();
        assert_eq!(e.status.as_u16(), 400);
        assert_eq!(e.message, "Invalid operator id");
    }
}

#[test]
fn asset_group_id_check() {
    let fetch = get_asset_group_by_id(GOOD.to_string()).unwrap().on_client(true).unwrap();
    assert_eq!(fetch.resource(), Resource::AssetGroup);
    let e = fetch.on_record::<u8>(Err(not_found())).unwrap_err();
    assert_eq!(e.status, StatusCode::NotFound);
    assert_eq!(e.message, "Asset group not found in database");
    let e = get_asset_group_by_id("12".to_string()).unwrap_err();
    assert_eq!(e.status, StatusCode::BadRequest);
    assert_eq!(e.message, "Invalid asset group id");
}

#[test]
fn health_needs_all_three_clients() {
    assert!(health_check(true, true, true).is_ok());
    assert_eq!(health_check(false, true, true), Err(StatusCode::ServiceUnavailable));
    assert_eq!(health_check(true, false, true), Err(StatusCode::ServiceUnavailable));
    assert_eq!(health_check(true, true, false), Err(StatusCode::ServiceUnavailable));
    assert_eq!(health_check(false, false, false), Err(StatusCode::ServiceUnavailable));
}

#[test]
fn status_numbers() {
    assert_eq!(StatusCode::BadRequest.as_u16(), 400);
    assert_eq!(StatusCode::NotFound.as_u16(), 404);
    assert_eq!(StatusCode::InternalServerError.as_u16(), 500);
    assert_eq!(StatusCode::ServiceUnavailable.as_u16(), 503);
}

fn group_payload() -> RegisterAssetGroupPayload {
    RegisterAssetGroupPayload { name: "fleet".to_string(), owner: GOOD.to_string(), assets: vec!["a1".to_string()] }
}

#[test]
fn registered_asset_group_id_is_a_fresh_v4_uuid() {
    let w = register_asset_group(group_payload());
    assert_eq!(w.resource(), Resource::AssetGroup);
    let insert = w.on_client(true).unwrap();
    let g = insert.group();
    assert_eq!(g.name, "fleet");
    assert_eq!(g.owner, GOOD);
    assert_eq!(g.assets, vec!["a1".to_string()]);
    assert!(g.updated_at.is_none() && g.delegatee.is_none());
    assert!(g.created_at.seconds > 1_600_000_000);
    let id = g.id.clone();
    assert_eq!(id.len(), 36);
    assert_eq!(id.as_bytes()[14], b'4');
    assert!(matches!(id.as_bytes()[19], b'8' | b'9' | b'a' | b'b'));
    assert!(id.chars().all(|c| c == '-' || c.is_ascii_digit() || ('a'..='f').contains(&c)));
    assert_eq!(insert.on_inserted(Ok(())).unwrap(), id);
    // the new id passes the service's own id check
    assert!(get_asset_group_by_id(id.clone()).is_ok());
    let other = register_asset_group(group_payload()).on_client(true).unwrap();
    assert_ne!(id, other.group().id);
}

#[test]
fn asset_group_registration_failures() {
    let e = register_asset_group(group_payload()).on_client(false).unwrap_err();
    assert_eq!(e.status, StatusCode::ServiceUnavailable);
    let insert = register_asset_group(group_payload()).on_client(true).unwrap();
    let e = insert.on_inserted(Err(StorageError { kind: StorageErrorKind::Other, message: "no".to_string() })).unwrap_err();
    assert_eq!(e.status, StatusCode::InternalServerError);
    assert_eq!(e.message, "no");
}

#[test]
fn asset_group_update_and_removal() {
    let group = AssetGroup {
        id: GOOD.to_string(),
        name: "fleet".to_string(),
        owner: "owner".to_string(),
        created_at: Ts { seconds: 0, nanos: 0 },
        updated_at: None,
        delegatee: None,
        assets: vec![],
    };
    let call = update_asset_group(group, "other".to_string()).on_client(true).unwrap();
    assert_eq!(call.id(), GOOD);
    assert_eq!(call.data().name, "fleet");
    assert!(call.mask().is_empty());
    assert_eq!(call.on_updated(Ok(())).unwrap(), GOOD);
    let del = remove_asset_group("abc".to_string()).on_client(true).unwrap();
    assert_eq!(del.resource(), Resource::AssetGroup);
    assert_eq!(del.on_deleted(Ok(())).unwrap(), "abc");
}
