//! The entry of each REST handler of the asset service.
//!
//! A handler that needs the storage service starts here and goes on through
//! the steps of `flows`; the others reply at once.
use crate::error::{ApiError, StatusCode};
use crate::flows::{
    AircraftRegistration, AircraftUpdate, AssetGroupInsert, AssetSelection, AwaitClient, DeleteCall,
    FetchCall, InsertCall, OperatorAssetsCall, Resource, SearchCall, UpdateCall, VertipadUpdate,
    VertiportUpdate,
};
use crate::ids::{check_id, invalid_id_text, is_uuid_text, is_v4_uuid_text, new_v4_text, IdKind};
use crate::records::{
    new_asset_group, registered_vertipad, registered_vertiport, vertipad_for_registration,
    vertiport_for_registration, AssetGroup, RegisterAircraftPayload, RegisterAssetGroupPayload,
    RegisterVertipadPayload, RegisterVertiportPayload, UpdateAircraftPayload,
    UpdateVertipadPayload, UpdateVertiportPayload, VertipadData, VertiportData,
};
use crate::timestamp::utc_now;
use vstd::prelude::*;

verus! {

/// The UUID type of the `uuid` crate, carried as an opaque value.
#[verifier::external_type_specification]
#[verifier::external_body]
pub struct ExUuid(uuid::Uuid);

// ------------------------------------------------------------------- health

/// The service is healthy when the storage clients for vertiports, vertipads
/// and vehicles are all available; else it answers 503.
pub fn health_check(vertiport_ready: bool, vertipad_ready: bool, vehicle_ready: bool) -> (r: Result<
    (),
    StatusCode,
>)
    ensures
        r is Ok <==> (vertiport_ready && vertipad_ready && vehicle_ready),
        r matches Err(s) ==> s == StatusCode::ServiceUnavailable,
{
    let mut ok = true;
    if !vertiport_ready {
        ok = false;
    }
    if !vertipad_ready {
        ok = false;
    }
    if !vehicle_ready {
        ok = false;
    }
    if ok {
        Ok(())
    } else {
        Err(StatusCode::ServiceUnavailable)
    }
}

// ---------------------------------------------------------------- operators

/// Reads an operator: an id that is not a UUID is refused with 400 before any
/// call to storage; else the operator storage client, then the read, where an
/// operator not in storage is answered 404.
pub fn get_operator(operator_id: String) -> (r: Result<AwaitClient<FetchCall>, ApiError>)
    ensures
        r is Ok <==> is_uuid_text(operator_id@),
        r matches Err(e) ==> e.is(StatusCode::BadRequest, invalid_id_text(IdKind::Operator)),
        r matches Ok(w) ==> {
            &&& w.target() == Resource::Operator
            &&& w.continuation().target() == Resource::Operator
            &&& w.continuation().id_text() == operator_id@
        },
{
    check_id(operator_id.as_str(), IdKind::Operator)?;
    Ok(AwaitClient::new(Resource::Operator, FetchCall::new(Resource::Operator, operator_id)))
}

/// The first step of a request for assets of an operator.
fn operator_assets(operator_id: String, selection: AssetSelection) -> (r: Result<
    AwaitClient<OperatorAssetsCall>,
    ApiError,
>)
    ensures
        r is Ok <==> is_uuid_text(operator_id@),
        r matches Err(e) ==> e.is(StatusCode::BadRequest, invalid_id_text(IdKind::Operator)),
        r matches Ok(w) ==> {
            &&& w.target() == Resource::Operator
            &&& w.continuation().id_text() == operator_id@
            &&& w.continuation().chosen() == selection
        },
{
    check_id(operator_id.as_str(), IdKind::Operator)?;
    Ok(AwaitClient::new(Resource::Operator, OperatorAssetsCall::new(operator_id, selection)))
}

/// Lists the assets of an operator: an id that is not a UUID is refused with
/// 400; else the operator storage client, then the listing, where an
/// operator not in storage is answered 404.
pub fn get_all_assets_by_operator(operator_id: String) -> (r: Result<
    AwaitClient<OperatorAssetsCall>,
    ApiError,
>)
    ensures
        r is Ok <==> is_uuid_text(operator_id@),
        r matches Err(e) ==> e.is(StatusCode::BadRequest, invalid_id_text(IdKind::Operator)),
        r matches Ok(w) ==> {
            &&& w.target() == Resource::Operator
            &&& w.continuation().id_text() == operator_id@
            &&& w.continuation().chosen() == AssetSelection::All
        },
{
    operator_assets(operator_id, AssetSelection::All)
}

/// Lists the grouped assets of an operator that are delegated neither to nor
/// from it; refusals as for `get_all_assets_by_operator`.
pub fn get_all_grouped_assets(operator_id: String) -> (r: Result<AwaitClient<OperatorAssetsCall>, ApiError>)
    ensures
        r is Ok <==> is_uuid_text(operator_id@),
        r matches Err(e) ==> e.is(StatusCode::BadRequest, invalid_id_text(IdKind::Operator)),
        r matches Ok(w) ==> {
            &&& w.target() == Resource::Operator
            &&& w.continuation().id_text() == operator_id@
            &&& w.continuation().chosen() == AssetSelection::Grouped
        },
{
    operator_assets(operator_id, AssetSelection::Grouped)
}

/// Lists the grouped assets delegated to an operator; refusals as for
/// `get_all_assets_by_operator`.
pub fn get_all_grouped_assets_delegated_to(operator_id: String) -> (r: Result<
    AwaitClient<OperatorAssetsCall>,
    ApiError,
>)
    ensures
        r is Ok <==> is_uuid_text(operator_id@),
        r matches Err(e) ==> e.is(StatusCode::BadRequest, invalid_id_text(IdKind::Operator)),
        r matches Ok(w) ==> {
            &&& w.target() == Resource::Operator
            &&& w.continuation().id_text() == operator_id@
            &&& w.continuation().chosen() == AssetSelection::DelegatedTo
        },
{
    operator_assets(operator_id, AssetSelection::DelegatedTo)
}

/// Lists the grouped assets delegated from an operator; refusals as for
/// `get_all_assets_by_operator`.
pub fn get_all_grouped_assets_delegated_from(operator_id: String) -> (r: Result<
    AwaitClient<OperatorAssetsCall>,
    ApiError,
>)
    ensures
        r is Ok <==> is_uuid_text(operator_id@),
        r matches Err(e) ==> e.is(StatusCode::BadRequest, invalid_id_text(IdKind::Operator)),
        r matches Ok(w) ==> {
            &&& w.target() == Resource::Operator
            &&& w.continuation().id_text() == operator_id@
            &&& w.continuation().chosen() == AssetSelection::DelegatedFrom
        },
{
    operator_assets(operator_id, AssetSelection::DelegatedFrom)
}

// ------------------------------------------------------------------ listing

/// Lists all aircraft: first the vehicle client, then the search.
pub fn get_all_aircraft() -> (w: AwaitClient<SearchCall>)
    ensures
        w.target() == Resource::Aircraft,
        w.continuation().target() == Resource::Aircraft,
{
    AwaitClient::new(Resource::Aircraft, SearchCall::new(Resource::Aircraft))
}

/// Lists all vertiports: first the vertiport client, then the search.
pub fn get_all_vertiports() -> (w: AwaitClient<SearchCall>)
    ensures
        w.target() == Resource::Vertiport,
        w.continuation().target() == Resource::Vertiport,
{
    AwaitClient::new(Resource::Vertiport, SearchCall::new(Resource::Vertiport))
}

/// Lists all vertipads: first the vertipad client, then the search.
pub fn get_all_vertipads() -> (w: AwaitClient<SearchCall>)
    ensures
        w.target() == Resource::Vertipad,
        w.continuation().target() == Resource::Vertipad,
{
    AwaitClient::new(Resource::Vertipad, SearchCall::new(Resource::Vertipad))
}

// ------------------------------------------------------------- read by id

/// Reads one aircraft: an id that is not a UUID is refused with 400 before
/// any call to storage; else the vehicle client, then the read, where a
/// record not in storage is answered 404.
pub fn get_aircraft_by_id(aircraft_id: String) -> (r: Result<AwaitClient<FetchCall>, ApiError>)
    ensures
        r is Ok <==> is_uuid_text(aircraft_id@),
        r matches Err(e) ==> e.is(StatusCode::BadRequest, invalid_id_text(IdKind::Aircraft)),
        r matches Ok(w) ==> {
            &&& w.target() == Resource::Aircraft
            &&& w.continuation().target() == Resource::Aircraft
            &&& w.continuation().id_text() == aircraft_id@
        },
{
    check_id(aircraft_id.as_str(), IdKind::Aircraft)?;
    Ok(AwaitClient::new(Resource::Aircraft, FetchCall::new(Resource::Aircraft, aircraft_id)))
}

/// Reads one vertipad: an id that is not a UUID is refused with 400 before
/// any call to storage; else the vertipad client, then the read, where a
/// record not in storage is answered 404.
pub fn get_vertipad_by_id(vertipad_id: String) -> (r: Result<AwaitClient<FetchCall>, ApiError>)
    ensures
        r is Ok <==> is_uuid_text(vertipad_id@),
        r matches Err(e) ==> e.is(StatusCode::BadRequest, invalid_id_text(IdKind::Vertipad)),
        r matches Ok(w) ==> {
            &&& w.target() == Resource::Vertipad
            &&& w.continuation().target() == Resource::Vertipad
            &&& w.continuation().id_text() == vertipad_id@
        },
{
    check_id(vertipad_id.as_str(), IdKind::Vertipad)?;
    Ok(AwaitClient::new(Resource::Vertipad, FetchCall::new(Resource::Vertipad, vertipad_id)))
}

/// Reads one vertiport: an id that is not a UUID is refused with 400 before
/// any call to storage; else the vertiport client, then the read, where a
/// record not in storage is answered 404.
pub fn get_vertiport_by_id(vertiport_id: String) -> (r: Result<AwaitClient<FetchCall>, ApiError>)
    ensures
        r is Ok <==> is_uuid_text(vertiport_id@),
        r matches Err(e) ==> e.is(StatusCode::BadRequest, invalid_id_text(IdKind::Vertiport)),
        r matches Ok(w) ==> {
            &&& w.target() == Resource::Vertiport
            &&& w.continuation().target() == Resource::Vertiport
            &&& w.continuation().id_text() == vertiport_id@
        },
{
    check_id(vertiport_id.as_str(), IdKind::Vertiport)?;
    Ok(AwaitClient::new(Resource::Vertiport, FetchCall::new(Resource::Vertiport, vertiport_id)))
}

/// Reads an asset group: an id that is not a UUID is refused with 400 before
/// any call to storage; else the asset group storage client, then the read,
/// where a group not in storage is answered 404.
pub fn get_asset_group_by_id(asset_group_id: String) -> (r: Result<AwaitClient<FetchCall>, ApiError>)
    ensures
        r is Ok <==> is_uuid_text(asset_group_id@),
        r matches Err(e) ==> e.is(StatusCode::BadRequest, invalid_id_text(IdKind::AssetGroup)),
        r matches Ok(w) ==> {
            &&& w.target() == Resource::AssetGroup
            &&& w.continuation().target() == Resource::AssetGroup
            &&& w.continuation().id_text() == asset_group_id@
        },
{
    check_id(asset_group_id.as_str(), IdKind::AssetGroup)?;
    Ok(AwaitClient::new(Resource::AssetGroup, FetchCall::new(Resource::AssetGroup, asset_group_id)))
}

// ------------------------------------------------------------- registration

/// Registers an aircraft: first the vehicle client, then the record is built
/// and inserted.
pub fn register_aircraft(payload: RegisterAircraftPayload) -> (w: AwaitClient<AircraftRegistration>)
    ensures
        w.target() == Resource::Aircraft,
        w.continuation().body() == payload,
{
    AwaitClient::new(Resource::Aircraft, AircraftRegistration::new(payload))
}

/// Registers a vertiport: first the vertiport client, then the insert of a
/// record with a default name and description where the payload has none.
pub fn register_vertiport<C>(payload: RegisterVertiportPayload<C>) -> (w: AwaitClient<
    InsertCall<VertiportData<C>>,
>)
    ensures
        w.target() == Resource::Vertiport,
        w.continuation().target() == Resource::Vertiport,
        w.continuation().record()@ == registered_vertiport(payload),
{
    AwaitClient::new(
        Resource::Vertiport,
        InsertCall::new(Resource::Vertiport, vertiport_for_registration(payload)),
    )
}

/// Registers a vertipad: first the vertipad client, then the insert of a
/// record with a default name where the payload has none.
pub fn register_vertipad<C>(payload: RegisterVertipadPayload<C>) -> (w: AwaitClient<
    InsertCall<VertipadData<C>>,
>)
    ensures
        w.target() == Resource::Vertipad,
        w.continuation().target() == Resource::Vertipad,
        w.continuation().record()@ == registered_vertipad(payload),
{
    AwaitClient::new(
        Resource::Vertipad,
        InsertCall::new(Resource::Vertipad, vertipad_for_registration(payload)),
    )
}

/// Registers an asset group: it gets a new random id and the current time as
/// its time of creation; then the asset group storage client, then the
/// insert. The reply is the new group's id.
pub fn register_asset_group(payload: RegisterAssetGroupPayload) -> (w: AwaitClient<AssetGroupInsert>)
    ensures
        w.target() == Resource::AssetGroup,
        is_v4_uuid_text(w.continuation().record().id@),
        w.continuation().record().name@ == payload.name@,
        w.continuation().record().owner@ == payload.owner@,
        w.continuation().record().assets.deep_view() == payload.assets.deep_view(),
        w.continuation().record().updated_at is None,
        w.continuation().record().delegatee is None,
{
    let group = new_asset_group(payload, new_v4_text(), utc_now());
    AwaitClient::new(Resource::AssetGroup, AssetGroupInsert::new(group))
}

// ------------------------------------------------------------------ updates

/// Updates an aircraft: first the vehicle client, then the read of the
/// stored record, then the store of the merged record.
pub fn update_aircraft(payload: UpdateAircraftPayload) -> (w: AwaitClient<AircraftUpdate>)
    ensures
        w.target() == Resource::Aircraft,
        w.continuation().body() == payload,
{
    AwaitClient::new(Resource::Aircraft, AircraftUpdate::new(payload))
}

/// Updates a vertiport: first the vertiport client, then the read of the
/// stored record, then the store of the merged record.
///
/// A vertiport's record holds no list of vertipads: a vertipad belongs to the
/// vertiport that its `vertiport_id` names, so a vertipad is moved to or from
/// a vertiport by `update_vertipad`, and this update changes only the
/// vertiport's own fields.
pub fn update_vertiport<C>(payload: UpdateVertiportPayload<C>) -> (w: AwaitClient<VertiportUpdate<C>>)
    ensures
        w.target() == Resource::Vertiport,
        w.continuation().body() == payload,
{
    AwaitClient::new(Resource::Vertiport, VertiportUpdate::new(payload))
}

/// Updates a vertipad: first the vertipad client, then the read of the
/// stored record, then the store of the merged record.
pub fn update_vertipad<C>(payload: UpdateVertipadPayload<C>) -> (w: AwaitClient<VertipadUpdate<C>>)
    ensures
        w.target() == Resource::Vertipad,
        w.continuation().body() == payload,
{
    AwaitClient::new(Resource::Vertipad, VertipadUpdate::new(payload))
}

/// Updates an asset group: the asset group storage client, then the store
/// of the body as the whole group with the body's id. The reply is that id.
/// The path's id is not used.
pub fn update_asset_group(payload: AssetGroup, id: String) -> (w: AwaitClient<UpdateCall<AssetGroup>>)
    ensures
        w.target() == Resource::AssetGroup,
        w.continuation().target() == Resource::AssetGroup,
        w.continuation().id_text() == payload.id@,
        w.continuation().record() == payload,
        w.continuation().mask_paths() == Seq::<Seq<char>>::empty(),
{
    let key = payload.id.clone();
    let mask: Vec<String> = Vec::new();
    AwaitClient::new(Resource::AssetGroup, UpdateCall::new(Resource::AssetGroup, key, payload, mask))
}

// ----------------------------------------------------------------- removals

/// Removes an aircraft: first the vehicle client, then the delete.
pub fn remove_aircraft(id: String) -> (w: AwaitClient<DeleteCall>)
    ensures
        w.target() == Resource::Aircraft,
        w.continuation().target() == Resource::Aircraft,
        w.continuation().id_text() == id@,
{
    AwaitClient::new(Resource::Aircraft, DeleteCall::new(Resource::Aircraft, id))
}

/// Removes a vertipad: first the vertipad client, then the delete.
pub fn remove_vertipad(id: String) -> (w: AwaitClient<DeleteCall>)
    ensures
        w.target() == Resource::Vertipad,
        w.continuation().target() == Resource::Vertipad,
        w.continuation().id_text() == id@,
{
    AwaitClient::new(Resource::Vertipad, DeleteCall::new(Resource::Vertipad, id))
}

/// Removes a vertiport: first the vertiport client, then the delete.
pub fn remove_vertiport(id: String) -> (w: AwaitClient<DeleteCall>)
    ensures
        w.target() == Resource::Vertiport,
        w.continuation().target() == Resource::Vertiport,
        w.continuation().id_text() == id@,
{
    AwaitClient::new(Resource::Vertiport, DeleteCall::new(Resource::Vertiport, id))
}

/// Removes an asset group: the asset group storage client, then the delete.
pub fn remove_asset_group(id: String) -> (w: AwaitClient<DeleteCall>)
    ensures
        w.target() == Resource::AssetGroup,
        w.continuation().target() == Resource::AssetGroup,
        w.continuation().id_text() == id@,
{
    AwaitClient::new(Resource::AssetGroup, DeleteCall::new(Resource::AssetGroup, id))
}

} // verus!
