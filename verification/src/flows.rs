//! The steps of a request that needs the storage service.
//!
//! A handler's work alternates calls to the storage service with decisions.
//! Each value below is a request waiting for the outcome of one call; handing
//! it that outcome gives the next waiting request or the final reply. Their
//! fields are private, so a request reaches a call only through the steps
//! before it.
use crate::error::{
    api_error, storage_failure, storage_unavailable, storage_unavailable_text, ApiError, StatusCode,
    StorageError, StorageErrorKind,
};
use crate::ids::{is_v4_uuid_text, new_v4_text};
use crate::records::AssetGroup;
use crate::records::{
    apply_vertipad_patch, apply_vertiport_patch, aircraft_update, read_registration_time,
    registered_vehicle, registration_time, update_vehicle, updated_vertipad, updated_vertiport,
    vehicle_for_registration, RegisterAircraftPayload, UpdateAircraftPayload,
    UpdateVertipadPayload, UpdateVertiportPayload, VehicleData, VertipadData, VertiportData,
};
use vstd::prelude::*;

verus! {

/// The kinds of record that requests read or change in storage.
#[derive(Clone, Copy, Debug, PartialEq, Eq, Structural)]
pub enum Resource {
    Aircraft,
    Vertiport,
    Vertipad,
    Operator,
    AssetGroup,
}

/// The start of the text sent when reading one record from storage failed.
pub open spec fn fetch_failure_prefix(r: Resource) -> Seq<char> {
    match r {
        Resource::Aircraft => "Error getting aircraft from storage: "@,
        Resource::Vertiport => "Error getting vertiport from storage: "@,
        Resource::Vertipad => "Error getting vertipad from storage: "@,
        Resource::Operator => "Error getting operator from storage: "@,
        Resource::AssetGroup => "Error getting asset group from storage: "@,
    }
}

/// The start of the text sent when a stored record could not be converted.
pub open spec fn conversion_failure_prefix(r: Resource) -> Seq<char> {
    match r {
        Resource::Aircraft => "Error converting vehicle to aircraft: "@,
        Resource::Vertiport => "Error converting vertiport to vertiport: "@,
        Resource::Vertipad => "Error converting vertipad to vertipad: "@,
        Resource::Operator => "Error converting operator: "@,
        Resource::AssetGroup => "Error converting asset group: "@,
    }
}

/// The text sent when one record of a listing could not be converted.
pub open spec fn listing_conversion_failure_text(r: Resource) -> Seq<char> {
    match r {
        Resource::Aircraft => "could not convert vehicle to aircraft."@,
        Resource::Vertiport => "could not convert vertiport to vertiport struct."@,
        Resource::Vertipad => "could not convert vertipad to vertipad struct."@,
        Resource::Operator => "could not convert operator."@,
        Resource::AssetGroup => "could not convert asset group."@,
    }
}

/// The text sent when storage accepted an insert but returned no object.
pub open spec fn insert_failure_text(r: Resource) -> Seq<char> {
    match r {
        Resource::Aircraft => "Could not insert vehicle"@,
        Resource::Vertiport => "Could not insert vertiport"@,
        Resource::Vertipad => "Could not insert vertipad"@,
        Resource::Operator => "Could not insert operator"@,
        Resource::AssetGroup => "Could not insert asset group"@,
    }
}

/// The text sent when the record to update is not in storage.
pub open spec fn not_found_text(r: Resource) -> Seq<char> {
    match r {
        Resource::Aircraft => "Vehicle not found"@,
        Resource::Vertiport => "Vertiport not found"@,
        Resource::Vertipad => "Vertipad not found"@,
        Resource::Operator => "Operator not found"@,
        Resource::AssetGroup => "Asset group not found"@,
    }
}

/// The field by which a listing leaves out deleted records: a record is
/// listed where this field is not set.
pub open spec fn listing_filter_field() -> Seq<char> {
    "deleted_at"@
}

/// The text sent when the record read is not in storage.
pub open spec fn not_in_database_text(r: Resource) -> Seq<char> {
    match r {
        Resource::Aircraft => "Aircraft not found in database"@,
        Resource::Vertiport => "Vertiport not found in database"@,
        Resource::Vertipad => "Vertipad not found in database"@,
        Resource::Operator => "Operator not found in database"@,
        Resource::AssetGroup => "Asset group not found in database"@,
    }
}

fn not_in_database_message(r: Resource) -> (m: String)
    ensures
        m@ == not_in_database_text(r),
{
    match r {
        Resource::Aircraft => "Aircraft not found in database".to_owned(),
        Resource::Vertiport => "Vertiport not found in database".to_owned(),
        Resource::Vertipad => "Vertipad not found in database".to_owned(),
        Resource::Operator => "Operator not found in database".to_owned(),
        Resource::AssetGroup => "Asset group not found in database".to_owned(),
    }
}

/// The condition that a search puts on a field.
#[derive(Clone, Copy, Debug, PartialEq, Eq, Structural)]
pub enum FieldCondition {
    /// The field is not set.
    IsNull,
    /// The field is set.
    IsNotNull,
}

/// A storage search: the records whose `field` meets `condition`.
#[derive(Debug)]
pub struct SearchFilter {
    pub field: String,
    pub condition: FieldCondition,
}

fn fetch_failure_message(r: Resource, detail: String) -> (m: String)
    ensures
        m@ == fetch_failure_prefix(r) + detail@,
{
    let prefix = match r {
        Resource::Aircraft => "Error getting aircraft from storage: ".to_owned(),
        Resource::Vertiport => "Error getting vertiport from storage: ".to_owned(),
        Resource::Vertipad => "Error getting vertipad from storage: ".to_owned(),
        Resource::Operator => "Error getting operator from storage: ".to_owned(),
        Resource::AssetGroup => "Error getting asset group from storage: ".to_owned(),
    };
    prefix.concat(detail.as_str())
}

fn conversion_failure_message(r: Resource, detail: String) -> (m: String)
    ensures
        m@ == conversion_failure_prefix(r) + detail@,
{
    let prefix = match r {
        Resource::Aircraft => "Error converting vehicle to aircraft: ".to_owned(),
        Resource::Vertiport => "Error converting vertiport to vertiport: ".to_owned(),
        Resource::Vertipad => "Error converting vertipad to vertipad: ".to_owned(),
        Resource::Operator => "Error converting operator: ".to_owned(),
        Resource::AssetGroup => "Error converting asset group: ".to_owned(),
    };
    prefix.concat(detail.as_str())
}

fn listing_conversion_failure_message(r: Resource) -> (m: String)
    ensures
        m@ == listing_conversion_failure_text(r),
{
    match r {
        Resource::Aircraft => "could not convert vehicle to aircraft.".to_owned(),
        Resource::Vertiport => "could not convert vertiport to vertiport struct.".to_owned(),
        Resource::Vertipad => "could not convert vertipad to vertipad struct.".to_owned(),
        Resource::Operator => "could not convert operator.".to_owned(),
        Resource::AssetGroup => "could not convert asset group.".to_owned(),
    }
}

fn insert_failure_message(r: Resource) -> (m: String)
    ensures
        m@ == insert_failure_text(r),
{
    match r {
        Resource::Aircraft => "Could not insert vehicle".to_owned(),
        Resource::Vertiport => "Could not insert vertiport".to_owned(),
        Resource::Vertipad => "Could not insert vertipad".to_owned(),
        Resource::Operator => "Could not insert operator".to_owned(),
        Resource::AssetGroup => "Could not insert asset group".to_owned(),
    }
}

fn not_found_message(r: Resource) -> (m: String)
    ensures
        m@ == not_found_text(r),
{
    match r {
        Resource::Aircraft => "Vehicle not found".to_owned(),
        Resource::Vertiport => "Vertiport not found".to_owned(),
        Resource::Vertipad => "Vertipad not found".to_owned(),
        Resource::Operator => "Operator not found".to_owned(),
        Resource::AssetGroup => "Asset group not found".to_owned(),
    }
}

// ----------------------------------------------------------- storage client

/// A request waiting for the storage client of its resource; what follows,
/// once the client is there, is `continuation`.
#[derive(Debug)]
pub struct AwaitClient<S> {
    resource: Resource,
    next: S,
}

impl<S> AwaitClient<S> {
    /// The resource whose client is wanted.
    pub closed spec fn target(self) -> Resource {
        self.resource
    }

    /// The request that follows once the client is there.
    pub closed spec fn continuation(self) -> S {
        self.next
    }

    pub(crate) fn new(resource: Resource, next: S) -> (w: Self)
        ensures
            w.target() == resource,
            w.continuation() == next,
    {
        AwaitClient { resource, next }
    }

    /// The resource whose client is wanted.
    pub fn resource(&self) -> (r: Resource)
        ensures
            r == self.target(),
    {
        self.resource
    }

    /// Goes on where the storage client is available; refuses with 503 where not.
    pub fn on_client(self, available: bool) -> (r: Result<S, ApiError>)
        ensures
            r is Ok <==> available,
            r matches Ok(s) ==> s == self.continuation(),
            r matches Err(e) ==> e.is(StatusCode::ServiceUnavailable, storage_unavailable_text()),
    {
        if available {
            Ok(self.next)
        } else {
            Err(storage_unavailable())
        }
    }
}

// ------------------------------------------------------------------ listing

/// Every record of a listing was converted.
pub open spec fn all_converted<T>(items: Seq<Option<T>>) -> bool {
    forall|i: int| 0 <= i < items.len() ==> (#[trigger] items[i]) is Some
}

/// `records` are the converted records of `items`, in their order.
pub open spec fn converted_records<T>(items: Seq<Option<T>>, records: Seq<T>) -> bool {
    &&& records.len() == items.len()
    &&& forall|i: int| 0 <= i < items.len() ==> #[trigger] items[i] == Some(records[i])
}

/// A listing waiting for the storage search of all records that are not
/// deleted: those whose `listing_filter_field` is not set.
#[derive(Debug)]
pub struct SearchCall {
    resource: Resource,
}

impl SearchCall {
    /// The resource listed.
    pub closed spec fn target(self) -> Resource {
        self.resource
    }

    pub(crate) fn new(resource: Resource) -> (c: Self)
        ensures
            c.target() == resource,
    {
        SearchCall { resource }
    }

    /// The resource listed.
    pub fn resource(&self) -> (r: Resource)
        ensures
            r == self.target(),
    {
        self.resource
    }

    /// The search to make: the records not deleted, that is, those whose
    /// `listing_filter_field` is not set.
    pub fn filter(&self) -> (f: SearchFilter)
        ensures
            f.field@ == listing_filter_field(),
            f.condition == FieldCondition::IsNull,
    {
        SearchFilter { field: "deleted_at".to_owned(), condition: FieldCondition::IsNull }
    }

    /// The reply to a listing, given the records that the search returned,
    /// each converted (`None` where its conversion failed), or `None` where
    /// the search failed. One failed conversion fails the whole listing.
    pub fn on_results<T>(self, results: Option<Vec<Option<T>>>) -> (r: Result<Vec<T>, ApiError>)
        ensures
            match results {
                None => r matches Err(e) && e.is(
                    StatusCode::ServiceUnavailable,
                    storage_unavailable_text(),
                ),
                Some(items) => {
                    &&& r is Ok <==> all_converted(items@)
                    &&& r matches Ok(v) ==> converted_records(items@, v@)
                    &&& r matches Err(e) ==> e.is(
                        StatusCode::InternalServerError,
                        listing_conversion_failure_text(self.target()),
                    )
                },
            },
    {
        match results {
            None => Err(storage_unavailable()),
            Some(items) => match collect_converted(items) {
                Some(v) => Ok(v),
                None => Err(
                    api_error(
                        StatusCode::InternalServerError,
                        listing_conversion_failure_message(self.resource),
                    ),
                ),
            },
        }
    }
}

/// The converted records, where every conversion succeeded.
pub fn collect_converted<T>(items: Vec<Option<T>>) -> (r: Option<Vec<T>>)
    ensures
        r is Some <==> all_converted(items@),
        r matches Some(v) ==> converted_records(items@, v@),
        r is None <==> exists|i: int| 0 <= i < items@.len() && (#[trigger] items@[i]) is None,
        r matches Some(v) ==> v@.len() == items@.len() && forall|i: int|
            0 <= i < items@.len() ==> #[trigger] items@[i] == Some(v@[i]),
{
    let ghost all = items@;
    let mut rest = items;
    let mut out: Vec<T> = Vec::new();
    while rest.len() > 0
        invariant
            all == items@,
            all.len() == out@.len() + rest@.len(),
            forall|i: int| 0 <= i < out@.len() ==> #[trigger] all[i] == Some(out@[i]),
            forall|i: int| 0 <= i < rest@.len() ==> #[trigger] rest@[i] == all[out@.len() + i],
        decreases rest@.len(),
    {
        let ghost before = rest@;
        let item = rest.remove(0);
        assert(item == all[out@.len() as int]);
        match item {
            Some(t) => {
                out.push(t);
                assert forall|i: int| 0 <= i < rest@.len() implies #[trigger] rest@[i] == all[out@.len() + i] by {
                    assert(rest@[i] == before[i + 1]);
                }
            },
            None => {
                assert(!all_converted(all)) by {
                    assert(all[out@.len() as int] is None);
                }
                return None;
            },
        }
    }
    Some(out)
}

// ------------------------------------------------------------- read by id

/// A read waiting for the stored record with its id.
#[derive(Debug)]
pub struct FetchCall {
    resource: Resource,
    id: String,
}

impl FetchCall {
    /// The resource read.
    pub closed spec fn target(self) -> Resource {
        self.resource
    }

    /// The id of the record read.
    pub closed spec fn id_text(self) -> Seq<char> {
        self.id@
    }

    pub(crate) fn new(resource: Resource, id: String) -> (c: Self)
        ensures
            c.target() == resource,
            c.id_text() == id@,
    {
        FetchCall { resource, id }
    }

    /// The resource read.
    pub fn resource(&self) -> (r: Resource)
        ensures
            r == self.target(),
    {
        self.resource
    }

    /// The id of the record read.
    pub fn id(&self) -> (id: &String)
        ensures
            id@ == self.id_text(),
    {
        &self.id
    }

    /// The reply to a read, given the storage reply: the failure of the call,
    /// or the record converted (or the conversion's error text). A record not
    /// in storage is answered 404.
    pub fn on_record<T>(self, reply: Result<Result<T, String>, StorageError>) -> (r: Result<
        T,
        ApiError,
    >)
        ensures
            match reply {
                Err(f) => if f.kind == StorageErrorKind::NotFound {
                    r matches Err(e) && e.is(StatusCode::NotFound, not_in_database_text(self.target()))
                } else {
                    r matches Err(e) && e.is(
                        StatusCode::InternalServerError,
                        fetch_failure_prefix(self.target()) + f.message@,
                    )
                },
                Ok(Err(m)) => r matches Err(e) && e.is(
                    StatusCode::InternalServerError,
                    conversion_failure_prefix(self.target()) + m@,
                ),
                Ok(Ok(t)) => r matches Ok(v) && v == t,
            },
    {
        match reply {
            Err(f) => match f.kind {
                StorageErrorKind::NotFound => Err(
                    api_error(StatusCode::NotFound, not_in_database_message(self.resource)),
                ),
                StorageErrorKind::Other => Err(
                    storage_failure(fetch_failure_message(self.resource, f.message)),
                ),
            },
            Ok(Err(m)) => Err(storage_failure(conversion_failure_message(self.resource, m))),
            Ok(Ok(t)) => Ok(t),
        }
    }
}

// ------------------------------------------------------------------ removal

/// A removal waiting for the storage service to delete the record with its id.
#[derive(Debug)]
pub struct DeleteCall {
    resource: Resource,
    id: String,
}

impl DeleteCall {
    /// The resource removed.
    pub closed spec fn target(self) -> Resource {
        self.resource
    }

    /// The id of the record removed.
    pub closed spec fn id_text(self) -> Seq<char> {
        self.id@
    }

    pub(crate) fn new(resource: Resource, id: String) -> (c: Self)
        ensures
            c.target() == resource,
            c.id_text() == id@,
    {
        DeleteCall { resource, id }
    }

    /// The resource removed.
    pub fn resource(&self) -> (r: Resource)
        ensures
            r == self.target(),
    {
        self.resource
    }

    /// The id of the record removed.
    pub fn id(&self) -> (id: &String)
        ensures
            id@ == self.id_text(),
    {
        &self.id
    }

    /// The reply to a removal: the removed id, or the error text of the call.
    pub fn on_deleted(self, reply: Result<(), String>) -> (r: Result<String, ApiError>)
        ensures
            match reply {
                Ok(()) => r matches Ok(id) && id@ == self.id_text(),
                Err(m) => r matches Err(e) && e.is(StatusCode::InternalServerError, m@),
            },
    {
        match reply {
            Ok(()) => Ok(self.id),
            Err(m) => Err(storage_failure(m)),
        }
    }
}

// ------------------------------------------------------------------- insert

/// A registration waiting for the storage service to insert its record.
#[derive(Debug)]
pub struct InsertCall<D> {
    resource: Resource,
    data: D,
}

impl<D> InsertCall<D> {
    /// The resource registered.
    pub closed spec fn target(self) -> Resource {
        self.resource
    }

    /// The record to insert.
    pub closed spec fn record(self) -> D {
        self.data
    }

    pub(crate) fn new(resource: Resource, data: D) -> (c: Self)
        ensures
            c.target() == resource,
            c.record() == data,
    {
        InsertCall { resource, data }
    }

    /// The resource registered.
    pub fn resource(&self) -> (r: Resource)
        ensures
            r == self.target(),
    {
        self.resource
    }

    /// The record to insert.
    pub fn data(&self) -> (d: &D)
        ensures
            *d == self.record(),
    {
        &self.data
    }

    /// The reply to a registration, given the id of the object that storage
    /// returned (`None` where it returned none), or the error text of the call.
    pub fn on_inserted(self, reply: Result<Option<String>, String>) -> (r: Result<String, ApiError>)
        ensures
            match reply {
                Ok(Some(id)) => r matches Ok(v) && v@ == id@,
                Ok(None) => r matches Err(e) && e.is(
                    StatusCode::InternalServerError,
                    insert_failure_text(self.target()),
                ),
                Err(m) => r matches Err(e) && e.is(StatusCode::InternalServerError, m@),
            },
    {
        match reply {
            Ok(Some(id)) => Ok(id),
            Ok(None) => Err(storage_failure(insert_failure_message(self.resource))),
            Err(m) => Err(storage_failure(m)),
        }
    }
}

/// An aircraft registration, once the storage client is there: it still has
/// to draw a model id and read the maintenance times.
#[derive(Debug)]
pub struct AircraftRegistration {
    payload: RegisterAircraftPayload,
}

/// The start of the text sent when the last maintenance time does not parse.
pub open spec fn last_maintenance_failure_prefix() -> Seq<char> {
    "Error converting last_maintenance to Timestamp: "@
}

/// The start of the text sent when the next maintenance time does not parse.
pub open spec fn next_maintenance_failure_prefix() -> Seq<char> {
    "Error converting next_maintenance to Timestamp: "@
}

impl AircraftRegistration {
    /// The payload registered.
    pub closed spec fn body(self) -> RegisterAircraftPayload {
        self.payload
    }

    pub(crate) fn new(payload: RegisterAircraftPayload) -> (r: Self)
        ensures
            r.body() == payload,
    {
        AircraftRegistration { payload }
    }

    /// Builds the record to insert: a new random model id, the payload's
    /// fields, and its maintenance times, which must parse (the last one is
    /// read first).
    pub fn prepare(self) -> (r: Result<InsertCall<VehicleData>, ApiError>)
        ensures
            match registration_time(self.body().last_maintenance.deep_view()) {
                Err(m) => r matches Err(e) && e.is(
                    StatusCode::InternalServerError,
                    last_maintenance_failure_prefix() + m,
                ),
                Ok(last) => match registration_time(self.body().next_maintenance.deep_view()) {
                    Err(m) => r matches Err(e) && e.is(
                        StatusCode::InternalServerError,
                        next_maintenance_failure_prefix() + m,
                    ),
                    Ok(next) => r matches Ok(c) && {
                        &&& c.target() == Resource::Aircraft
                        &&& is_v4_uuid_text(c.record()@.vehicle_model_id)
                        &&& c.record()@ == registered_vehicle(
                            self.body(),
                            c.record()@.vehicle_model_id,
                            last,
                            next,
                        )
                    },
                },
            },
    {
        let p = self.payload;
        let model_id = new_v4_text();
        let last = match read_registration_time(&p.last_maintenance) {
            Ok(t) => t,
            Err(m) => {
                let text = "Error converting last_maintenance to Timestamp: ".to_owned().concat(
                    m.as_str(),
                );
                return Err(storage_failure(text));
            },
        };
        let next = match read_registration_time(&p.next_maintenance) {
            Ok(t) => t,
            Err(m) => {
                let text = "Error converting next_maintenance to Timestamp: ".to_owned().concat(
                    m.as_str(),
                );
                return Err(storage_failure(text));
            },
        };
        Ok(InsertCall::new(Resource::Aircraft, vehicle_for_registration(p, model_id, last, next)))
    }
}

// ------------------------------------------------------------------- update

/// An update waiting for the storage service to store its record.
#[derive(Debug)]
pub struct UpdateCall<D> {
    resource: Resource,
    id: String,
    data: D,
    mask: Vec<String>,
}

impl<D> UpdateCall<D> {
    /// The resource updated.
    pub closed spec fn target(self) -> Resource {
        self.resource
    }

    /// The id of the record updated.
    pub closed spec fn id_text(self) -> Seq<char> {
        self.id@
    }

    /// The record to store.
    pub closed spec fn record(self) -> D {
        self.data
    }

    /// The paths of the fields that storage is to change.
    pub closed spec fn mask_paths(self) -> Seq<Seq<char>> {
        self.mask.deep_view()
    }

    pub(crate) fn new(resource: Resource, id: String, data: D, mask: Vec<String>) -> (c: Self)
        ensures
            c.target() == resource,
            c.id_text() == id@,
            c.record() == data,
            c.mask_paths() == mask.deep_view(),
    {
        UpdateCall { resource, id, data, mask }
    }

    /// The resource updated.
    pub fn resource(&self) -> (r: Resource)
        ensures
            r == self.target(),
    {
        self.resource
    }

    /// The id of the record updated.
    pub fn id(&self) -> (id: &String)
        ensures
            id@ == self.id_text(),
    {
        &self.id
    }

    /// The record to store.
    pub fn data(&self) -> (d: &D)
        ensures
            *d == self.record(),
    {
        &self.data
    }

    /// The paths of the fields that storage is to change.
    pub fn mask(&self) -> (m: &Vec<String>)
        ensures
            m.deep_view() == self.mask_paths(),
    {
        &self.mask
    }

    /// The reply to an update: the updated id, or the error text of the call.
    pub fn on_updated(self, reply: Result<(), String>) -> (r: Result<String, ApiError>)
        ensures
            match reply {
                Ok(()) => r matches Ok(id) && id@ == self.id_text(),
                Err(m) => r matches Err(e) && e.is(StatusCode::InternalServerError, m@),
            },
    {
        match reply {
            Ok(()) => Ok(self.id),
            Err(m) => Err(storage_failure(m)),
        }
    }
}

/// An aircraft update waiting for the stored record that it changes.
#[derive(Debug)]
pub struct AircraftUpdate {
    payload: UpdateAircraftPayload,
}

impl AircraftUpdate {
    /// The payload of the update.
    pub closed spec fn body(self) -> UpdateAircraftPayload {
        self.payload
    }

    pub(crate) fn new(payload: UpdateAircraftPayload) -> (u: Self)
        ensures
            u.body() == payload,
    {
        AircraftUpdate { payload }
    }

    /// The id of the aircraft to read and update.
    pub fn id(&self) -> (id: &String)
        ensures
            id@ == self.body().id@,
    {
        &self.payload.id
    }

    /// Given the stored record (`None` where storage has none) or the error
    /// text of the read, refuses, or merges the patch into the record.
    pub fn on_current(self, reply: Result<Option<VehicleData>, String>) -> (r: Result<
        UpdateCall<VehicleData>,
        ApiError,
    >)
        ensures
            match reply {
                Err(m) => r matches Err(e) && e.is(StatusCode::InternalServerError, m@),
                Ok(None) => r matches Err(e) && e.is(
                    StatusCode::NotFound,
                    not_found_text(Resource::Aircraft),
                ),
                Ok(Some(current)) => match aircraft_update(self.body().patch, current@) {
                    Err(m) => r matches Err(e) && e.is(StatusCode::InternalServerError, m),
                    Ok(v) => r matches Ok(c) && {
                        &&& c.target() == Resource::Aircraft
                        &&& c.id_text() == self.body().id@
                        &&& c.record()@ == v
                        &&& c.mask_paths() == self.body().mask.deep_view()
                    },
                },
            },
    {
        match reply {
            Err(m) => Err(storage_failure(m)),
            Ok(None) => Err(api_error(StatusCode::NotFound, not_found_message(Resource::Aircraft))),
            Ok(Some(current)) => {
                let UpdateAircraftPayload { id, patch, mask } = self.payload;
                match update_vehicle(patch, current) {
                    Ok(d) => Ok(UpdateCall::new(Resource::Aircraft, id, d, mask)),
                    Err(m) => Err(storage_failure(m)),
                }
            },
        }
    }
}

/// A vertiport update waiting for the stored record that it changes.
#[derive(Debug)]
pub struct VertiportUpdate<C> {
    payload: UpdateVertiportPayload<C>,
}

impl<C> VertiportUpdate<C> {
    /// The payload of the update.
    pub closed spec fn body(self) -> UpdateVertiportPayload<C> {
        self.payload
    }

    pub(crate) fn new(payload: UpdateVertiportPayload<C>) -> (u: Self)
        ensures
            u.body() == payload,
    {
        VertiportUpdate { payload }
    }

    /// The id of the vertiport to read and update.
    pub fn id(&self) -> (id: &String)
        ensures
            id@ == self.body().id@,
    {
        &self.payload.id
    }

    /// Given the stored record (`None` where storage has none) or the error
    /// text of the read, refuses, or merges the patch into the record.
    pub fn on_current(self, reply: Result<Option<VertiportData<C>>, String>) -> (r: Result<
        UpdateCall<VertiportData<C>>,
        ApiError,
    >)
        ensures
            match reply {
                Err(m) => r matches Err(e) && e.is(StatusCode::InternalServerError, m@),
                Ok(None) => r matches Err(e) && e.is(
                    StatusCode::NotFound,
                    not_found_text(Resource::Vertiport),
                ),
                Ok(Some(current)) => r matches Ok(c) && {
                    &&& c.target() == Resource::Vertiport
                    &&& c.id_text() == self.body().id@
                    &&& c.record()@ == updated_vertiport(self.body().patch, current@)
                    &&& c.mask_paths() == self.body().mask.deep_view()
                },
            },
    {
        match reply {
            Err(m) => Err(storage_failure(m)),
            Ok(None) => Err(api_error(StatusCode::NotFound, not_found_message(Resource::Vertiport))),
            Ok(Some(current)) => {
                let UpdateVertiportPayload { id, patch, mask } = self.payload;
                Ok(UpdateCall::new(Resource::Vertiport, id, apply_vertiport_patch(patch, current), mask))
            },
        }
    }
}

/// A vertipad update waiting for the stored record that it changes.
#[derive(Debug)]
pub struct VertipadUpdate<C> {
    payload: UpdateVertipadPayload<C>,
}

impl<C> VertipadUpdate<C> {
    /// The payload of the update.
    pub closed spec fn body(self) -> UpdateVertipadPayload<C> {
        self.payload
    }

    pub(crate) fn new(payload: UpdateVertipadPayload<C>) -> (u: Self)
        ensures
            u.body() == payload,
    {
        VertipadUpdate { payload }
    }

    /// The id of the vertipad to read and update.
    pub fn id(&self) -> (id: &String)
        ensures
            id@ == self.body().id@,
    {
        &self.payload.id
    }

    /// Given the stored record (`None` where storage has none) or the error
    /// text of the read, refuses, or merges the patch into the record.
    pub fn on_current(self, reply: Result<Option<VertipadData<C>>, String>) -> (r: Result<
        UpdateCall<VertipadData<C>>,
        ApiError,
    >)
        ensures
            match reply {
                Err(m) => r matches Err(e) && e.is(StatusCode::InternalServerError, m@),
                Ok(None) => r matches Err(e) && e.is(
                    StatusCode::NotFound,
                    not_found_text(Resource::Vertipad),
                ),
                Ok(Some(current)) => r matches Ok(c) && {
                    &&& c.target() == Resource::Vertipad
                    &&& c.id_text() == self.body().id@
                    &&& c.record()@ == updated_vertipad(self.body().patch, current@)
                    &&& c.mask_paths() == self.body().mask.deep_view()
                },
            },
    {
        match reply {
            Err(m) => Err(storage_failure(m)),
            Ok(None) => Err(api_error(StatusCode::NotFound, not_found_message(Resource::Vertipad))),
            Ok(Some(current)) => {
                let UpdateVertipadPayload { id, patch, mask } = self.payload;
                Ok(UpdateCall::new(Resource::Vertipad, id, apply_vertipad_patch(patch, current), mask))
            },
        }
    }
}


// --------------------------------------------------------- operator assets

/// Which assets of an operator a request asks for.
#[derive(Clone, Copy, Debug, PartialEq, Eq, Structural)]
pub enum AssetSelection {
    /// Every asset of the operator.
    All,
    /// Its grouped assets, delegated neither to nor from it.
    Grouped,
    /// The grouped assets delegated to it.
    DelegatedTo,
    /// The grouped assets delegated from it.
    DelegatedFrom,
}

/// A request for assets of an operator, waiting for storage to list them.
#[derive(Debug)]
pub struct OperatorAssetsCall {
    operator_id: String,
    selection: AssetSelection,
}

impl OperatorAssetsCall {
    /// The id of the operator.
    pub closed spec fn id_text(self) -> Seq<char> {
        self.operator_id@
    }

    /// Which of its assets are asked for.
    pub closed spec fn chosen(self) -> AssetSelection {
        self.selection
    }

    pub(crate) fn new(operator_id: String, selection: AssetSelection) -> (c: Self)
        ensures
            c.id_text() == operator_id@,
            c.chosen() == selection,
    {
        OperatorAssetsCall { operator_id, selection }
    }

    /// The id of the operator.
    pub fn operator_id(&self) -> (id: &String)
        ensures
            id@ == self.id_text(),
    {
        &self.operator_id
    }

    /// Which of its assets are asked for.
    pub fn selection(&self) -> (s: AssetSelection)
        ensures
            s == self.chosen(),
    {
        self.selection
    }

    /// The reply, given the asset ids that storage listed, or the failure of
    /// the call. An operator not in storage is answered 404.
    pub fn on_assets<T>(self, reply: Result<Vec<T>, StorageError>) -> (r: Result<Vec<T>, ApiError>)
        ensures
            match reply {
                Ok(v) => r matches Ok(w) && w == v,
                Err(f) => if f.kind == StorageErrorKind::NotFound {
                    r matches Err(e) && e.is(
                        StatusCode::NotFound,
                        not_in_database_text(Resource::Operator),
                    )
                } else {
                    r matches Err(e) && e.is(
                        StatusCode::InternalServerError,
                        fetch_failure_prefix(Resource::Operator) + f.message@,
                    )
                },
            },
    {
        match reply {
            Ok(v) => Ok(v),
            Err(f) => match f.kind {
                StorageErrorKind::NotFound => Err(
                    api_error(StatusCode::NotFound, not_in_database_message(Resource::Operator)),
                ),
                StorageErrorKind::Other => Err(
                    storage_failure(fetch_failure_message(Resource::Operator, f.message)),
                ),
            },
        }
    }
}

// ------------------------------------------------------ asset group insert

/// A new asset group waiting for storage to insert it.
#[derive(Debug)]
pub struct AssetGroupInsert {
    group: AssetGroup,
}

impl AssetGroupInsert {
    /// The group to insert.
    pub closed spec fn record(self) -> AssetGroup {
        self.group
    }

    pub(crate) fn new(group: AssetGroup) -> (c: Self)
        ensures
            c.record() == group,
    {
        AssetGroupInsert { group }
    }

    /// The group to insert.
    pub fn group(&self) -> (g: &AssetGroup)
        ensures
            *g == self.record(),
    {
        &self.group
    }

    /// The reply to the registration: the new group's id, or the error text
    /// of the call.
    pub fn on_inserted(self, reply: Result<(), StorageError>) -> (r: Result<String, ApiError>)
        ensures
            match reply {
                Ok(()) => r matches Ok(id) && id@ == self.record().id@,
                Err(f) => r matches Err(e) && e.is(StatusCode::InternalServerError, f.message@),
            },
    {
        match reply {
            Ok(()) => Ok(self.group.id),
            Err(f) => Err(storage_failure(f.message)),
        }
    }
}

} // verus!
