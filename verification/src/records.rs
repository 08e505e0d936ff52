//! The records that the storage service keeps for each kind of asset, the
//! payloads of the REST requests that make and change them, and how a record
//! is built from a registration or merged with an update.
//!
//! Coordinates are a type parameter `C`: the records only carry them.
use crate::timestamp::{parsed_timestamp, read_timestamp, Timestamp};
use vstd::prelude::*;

verus! {

/// A patched field: the patch's value where it has one, else the current one.
pub open spec fn patched<T>(patch: Option<T>, current: T) -> T {
    match patch {
        Some(v) => v,
        None => current,
    }
}

/// An error's text, the success value unchanged.
pub open spec fn with_text<T>(r: Result<T, String>) -> Result<T, Seq<char>> {
    match r {
        Ok(v) => Ok(v),
        Err(m) => Err(m@),
    }
}

// ---------------------------------------------------------------- vehicles

/// The storage record of an aircraft.
#[derive(Debug)]
pub struct VehicleData {
    pub last_vertiport_id: Option<String>,
    pub vehicle_model_id: String,
    pub serial_number: String,
    pub registration_number: String,
    pub description: Option<String>,
    pub asset_group_id: Option<String>,
    pub schedule: Option<String>,
    pub last_maintenance: Option<Timestamp>,
    pub next_maintenance: Option<Timestamp>,
}

/// The content of a `VehicleData`, its texts as character sequences.
pub struct VehicleView {
    pub last_vertiport_id: Option<Seq<char>>,
    pub vehicle_model_id: Seq<char>,
    pub serial_number: Seq<char>,
    pub registration_number: Seq<char>,
    pub description: Option<Seq<char>>,
    pub asset_group_id: Option<Seq<char>>,
    pub schedule: Option<Seq<char>>,
    pub last_maintenance: Option<Timestamp>,
    pub next_maintenance: Option<Timestamp>,
}

impl View for VehicleData {
    type V = VehicleView;

    open spec fn view(&self) -> VehicleView {
        VehicleView {
            last_vertiport_id: self.last_vertiport_id.deep_view(),
            vehicle_model_id: self.vehicle_model_id@,
            serial_number: self.serial_number@,
            registration_number: self.registration_number@,
            description: self.description.deep_view(),
            asset_group_id: self.asset_group_id.deep_view(),
            schedule: self.schedule.deep_view(),
            last_maintenance: self.last_maintenance,
            next_maintenance: self.next_maintenance,
        }
    }
}

/// The body of a request that registers an aircraft.
#[derive(Debug)]
pub struct RegisterAircraftPayload {
    pub last_vertiport_id: Option<String>,
    pub serial_number: String,
    pub registration_number: String,
    pub name: Option<String>,
    pub last_maintenance: Option<String>,
    pub next_maintenance: Option<String>,
}

/// The record stored for a registered aircraft, given its model id and its
/// maintenance times as read from the payload. The aircraft's name becomes
/// the record's description.
pub open spec fn registered_vehicle(
    p: RegisterAircraftPayload,
    model_id: Seq<char>,
    last_maintenance: Option<Timestamp>,
    next_maintenance: Option<Timestamp>,
) -> VehicleView {
    VehicleView {
        last_vertiport_id: p.last_vertiport_id.deep_view(),
        vehicle_model_id: model_id,
        serial_number: p.serial_number@,
        registration_number: p.registration_number@,
        description: p.name.deep_view(),
        asset_group_id: None,
        schedule: None,
        last_maintenance,
        next_maintenance,
    }
}

/// Builds the record of a registered aircraft.
pub fn vehicle_for_registration(
    p: RegisterAircraftPayload,
    model_id: String,
    last_maintenance: Option<Timestamp>,
    next_maintenance: Option<Timestamp>,
) -> (d: VehicleData)
    ensures
        d@ == registered_vehicle(p, model_id@, last_maintenance, next_maintenance),
        d.last_vertiport_id.deep_view() == p.last_vertiport_id.deep_view(),
        d.vehicle_model_id@ == model_id@,
        d.serial_number@ == p.serial_number@,
        d.registration_number@ == p.registration_number@,
        d.description.deep_view() == p.name.deep_view(),
        d.asset_group_id is None,
        d.schedule is None,
        d.last_maintenance == last_maintenance,
        d.next_maintenance == next_maintenance,
{
    VehicleData {
        last_vertiport_id: p.last_vertiport_id,
        vehicle_model_id: model_id,
        serial_number: p.serial_number,
        registration_number: p.registration_number,
        description: p.name,
        asset_group_id: None,
        schedule: None,
        last_maintenance,
        next_maintenance,
    }
}

/// A maintenance time given at registration: none, or a text that must parse.
pub open spec fn registration_time(text: Option<Seq<char>>) -> Result<Option<Timestamp>, Seq<char>> {
    match text {
        None => Ok(None),
        Some(t) => match parsed_timestamp(t) {
            Ok(ts) => Ok(Some(ts)),
            Err(m) => Err(m),
        },
    }
}

/// Reads a maintenance time given at registration.
pub fn read_registration_time(text: &Option<String>) -> (r: Result<Option<Timestamp>, String>)
    ensures
        with_text(r) == registration_time(text.deep_view()),
{
    match text {
        None => Ok(None),
        Some(t) => match read_timestamp(t.as_str()) {
            Ok(ts) => Ok(Some(ts)),
            Err(m) => Err(m),
        },
    }
}

/// The fields of an aircraft that an update may change. An absent field keeps
/// the stored value; `Some(None)` clears an optional field. The last vertiport
/// is the exception: the update always sets it, to `None` where it names none.
#[derive(Debug)]
pub struct AircraftPatch {
    pub last_vertiport_id: Option<String>,
    pub vehicle_model_id: Option<String>,
    pub serial_number: Option<String>,
    pub registration_number: Option<String>,
    pub description: Option<Option<String>>,
    pub asset_group_id: Option<Option<String>>,
    pub schedule: Option<Option<String>>,
    pub last_maintenance: Option<Option<String>>,
    pub next_maintenance: Option<Option<String>>,
}

/// The body of a request that updates an aircraft.
#[derive(Debug)]
pub struct UpdateAircraftPayload {
    pub id: String,
    pub patch: AircraftPatch,
    pub mask: Vec<String>,
}

/// An aircraft patch that names no field.
pub open spec fn is_empty_aircraft_patch(p: AircraftPatch) -> bool {
    &&& p.last_vertiport_id is None
    &&& p.vehicle_model_id is None
    &&& p.serial_number is None
    &&& p.registration_number is None
    &&& p.description is None
    &&& p.asset_group_id is None
    &&& p.schedule is None
    &&& p.last_maintenance is None
    &&& p.next_maintenance is None
}

/// A maintenance time after an update: kept where the patch names none,
/// cleared by `Some(None)`, else read from the patch's text.
pub open spec fn updated_time(patch: Option<Option<Seq<char>>>, current: Option<Timestamp>) -> Result<
    Option<Timestamp>,
    Seq<char>,
> {
    match patch {
        None => Ok(current),
        Some(None) => Ok(None),
        Some(Some(t)) => match parsed_timestamp(t) {
            Ok(ts) => Ok(Some(ts)),
            Err(m) => Err(m),
        },
    }
}

/// Reads the maintenance time that an update leaves.
pub fn read_updated_time(patch: &Option<Option<String>>, current: Option<Timestamp>) -> (r: Result<
    Option<Timestamp>,
    String,
>)
    ensures
        with_text(r) == updated_time(patch.deep_view(), current),
{
    match patch {
        None => Ok(current),
        Some(None) => Ok(None),
        Some(Some(t)) => match read_timestamp(t.as_str()) {
            Ok(ts) => Ok(Some(ts)),
            Err(m) => Err(m),
        },
    }
}

/// The aircraft record after a patch, given the maintenance times it leaves.
pub open spec fn updated_vehicle(
    p: AircraftPatch,
    current: VehicleView,
    last_maintenance: Option<Timestamp>,
    next_maintenance: Option<Timestamp>,
) -> VehicleView {
    VehicleView {
        last_vertiport_id: p.last_vertiport_id.deep_view(),
        vehicle_model_id: patched(p.vehicle_model_id.deep_view(), current.vehicle_model_id),
        serial_number: patched(p.serial_number.deep_view(), current.serial_number),
        registration_number: patched(p.registration_number.deep_view(), current.registration_number),
        description: patched(p.description.deep_view(), current.description),
        asset_group_id: patched(p.asset_group_id.deep_view(), current.asset_group_id),
        schedule: patched(p.schedule.deep_view(), current.schedule),
        last_maintenance,
        next_maintenance,
    }
}

/// The aircraft record after a patch, or the text of the error that refuses
/// it (the last maintenance time is read first).
pub open spec fn aircraft_update(p: AircraftPatch, current: VehicleView) -> Result<VehicleView, Seq<char>> {
    match updated_time(p.last_maintenance.deep_view(), current.last_maintenance) {
        Err(m) => Err(m),
        Ok(last) => match updated_time(p.next_maintenance.deep_view(), current.next_maintenance) {
            Err(m) => Err(m),
            Ok(next) => Ok(updated_vehicle(p, current, last, next)),
        },
    }
}

/// Merges a patch into an aircraft record, given the maintenance times it leaves.
pub fn apply_aircraft_patch(
    p: AircraftPatch,
    current: VehicleData,
    last_maintenance: Option<Timestamp>,
    next_maintenance: Option<Timestamp>,
) -> (d: VehicleData)
    ensures
        d@ == updated_vehicle(p, current@, last_maintenance, next_maintenance),
        d.last_vertiport_id.deep_view() == p.last_vertiport_id.deep_view(),
        p.vehicle_model_id matches Some(x) ==> d.vehicle_model_id@ == x@,
        p.vehicle_model_id is None ==> d.vehicle_model_id@ == current.vehicle_model_id@,
        p.serial_number matches Some(x) ==> d.serial_number@ == x@,
        p.serial_number is None ==> d.serial_number@ == current.serial_number@,
        p.registration_number matches Some(x) ==> d.registration_number@ == x@,
        p.registration_number is None ==> d.registration_number@ == current.registration_number@,
        p.description matches Some(x) ==> d.description.deep_view() == x.deep_view(),
        p.description is None ==> d.description.deep_view() == current.description.deep_view(),
        p.asset_group_id matches Some(x) ==> d.asset_group_id.deep_view() == x.deep_view(),
        p.asset_group_id is None ==> d.asset_group_id.deep_view() == current.asset_group_id.deep_view(),
        p.schedule matches Some(x) ==> d.schedule.deep_view() == x.deep_view(),
        p.schedule is None ==> d.schedule.deep_view() == current.schedule.deep_view(),
        d.last_maintenance == last_maintenance,
        d.next_maintenance == next_maintenance,
{
    VehicleData {
        last_vertiport_id: p.last_vertiport_id,
        vehicle_model_id: match p.vehicle_model_id {
            Some(v) => v,
            None => current.vehicle_model_id,
        },
        serial_number: match p.serial_number {
            Some(v) => v,
            None => current.serial_number,
        },
        registration_number: match p.registration_number {
            Some(v) => v,
            None => current.registration_number,
        },
        description: match p.description {
            Some(v) => v,
            None => current.description,
        },
        asset_group_id: match p.asset_group_id {
            Some(v) => v,
            None => current.asset_group_id,
        },
        schedule: match p.schedule {
            Some(v) => v,
            None => current.schedule,
        },
        last_maintenance,
        next_maintenance,
    }
}

/// Merges a patch into an aircraft record, reading the maintenance times it gives.
pub fn update_vehicle(p: AircraftPatch, current: VehicleData) -> (r: Result<VehicleData, String>)
    ensures
        match r {
            Ok(d) => aircraft_update(p, current@) == Ok::<VehicleView, Seq<char>>(d@),
            Err(m) => aircraft_update(p, current@) == Err::<VehicleView, Seq<char>>(m@),
        },
{
    let last = match read_updated_time(&p.last_maintenance, current.last_maintenance) {
        Ok(t) => t,
        Err(m) => return Err(m),
    };
    let next = match read_updated_time(&p.next_maintenance, current.next_maintenance) {
        Ok(t) => t,
        Err(m) => return Err(m),
    };
    Ok(apply_aircraft_patch(p, current, last, next))
}

// --------------------------------------------------------------- vertiports

/// The storage record of a vertiport.
#[derive(Debug)]
pub struct VertiportData<C> {
    pub name: String,
    pub description: String,
    pub latitude: C,
    pub longitude: C,
    pub schedule: Option<String>,
}

/// The content of a `VertiportData`.
pub struct VertiportView<C> {
    pub name: Seq<char>,
    pub description: Seq<char>,
    pub latitude: C,
    pub longitude: C,
    pub schedule: Option<Seq<char>>,
}

impl<C> View for VertiportData<C> {
    type V = VertiportView<C>;

    open spec fn view(&self) -> VertiportView<C> {
        VertiportView {
            name: self.name@,
            description: self.description@,
            latitude: self.latitude,
            longitude: self.longitude,
            schedule: self.schedule.deep_view(),
        }
    }
}

/// The body of a request that registers a vertiport.
#[derive(Debug)]
pub struct RegisterVertiportPayload<C> {
    pub name: Option<String>,
    pub description: Option<String>,
    pub latitude: C,
    pub longitude: C,
}

/// The name given to an asset registered without one.
pub open spec fn unnamed_text() -> Seq<char> {
    "unnamed"@
}

/// The description given to a vertiport registered without one.
pub open spec fn no_description_text() -> Seq<char> {
    "N/A"@
}

/// The record stored for a registered vertiport: defaults for a missing name
/// or description, and an empty schedule.
pub open spec fn registered_vertiport<C>(p: RegisterVertiportPayload<C>) -> VertiportView<C> {
    VertiportView {
        name: patched(p.name.deep_view(), unnamed_text()),
        description: patched(p.description.deep_view(), no_description_text()),
        latitude: p.latitude,
        longitude: p.longitude,
        schedule: Some(Seq::empty()),
    }
}

/// Builds the record of a registered vertiport.
pub fn vertiport_for_registration<C>(p: RegisterVertiportPayload<C>) -> (d: VertiportData<C>)
    ensures
        d@ == registered_vertiport(p),
        p.name matches Some(n) ==> d.name@ == n@,
        p.name is None ==> d.name@ == "unnamed"@,
        p.description matches Some(n) ==> d.description@ == n@,
        p.description is None ==> d.description@ == "N/A"@,
        d.latitude == p.latitude,
        d.longitude == p.longitude,
        d.schedule matches Some(x) && x@ == Seq::<char>::empty(),
{
    VertiportData {
        name: match p.name {
            Some(n) => n,
            None => "unnamed".to_owned(),
        },
        description: match p.description {
            Some(n) => n,
            None => "N/A".to_owned(),
        },
        latitude: p.latitude,
        longitude: p.longitude,
        schedule: Some(String::new()),
    }
}

/// The fields of a vertiport that an update may change; an absent field keeps
/// the stored value.
#[derive(Debug)]
pub struct VertiportPatch<C> {
    pub name: Option<String>,
    pub description: Option<String>,
    pub latitude: Option<C>,
    pub longitude: Option<C>,
    pub schedule: Option<Option<String>>,
}

/// The body of a request that updates a vertiport.
#[derive(Debug)]
pub struct UpdateVertiportPayload<C> {
    pub id: String,
    pub patch: VertiportPatch<C>,
    pub mask: Vec<String>,
}

/// A vertiport patch that names no field.
pub open spec fn is_empty_vertiport_patch<C>(p: VertiportPatch<C>) -> bool {
    &&& p.name is None
    &&& p.description is None
    &&& p.latitude is None
    &&& p.longitude is None
    &&& p.schedule is None
}

/// The vertiport record after a patch.
pub open spec fn updated_vertiport<C>(p: VertiportPatch<C>, current: VertiportView<C>) -> VertiportView<C> {
    VertiportView {
        name: patched(p.name.deep_view(), current.name),
        description: patched(p.description.deep_view(), current.description),
        latitude: patched(p.latitude, current.latitude),
        longitude: patched(p.longitude, current.longitude),
        schedule: patched(p.schedule.deep_view(), current.schedule),
    }
}

/// Merges a patch into a vertiport record.
pub fn apply_vertiport_patch<C>(p: VertiportPatch<C>, current: VertiportData<C>) -> (d: VertiportData<C>)
    ensures
        d@ == updated_vertiport(p, current@),
        p.name matches Some(x) ==> d.name@ == x@,
        p.name is None ==> d.name@ == current.name@,
        p.description matches Some(x) ==> d.description@ == x@,
        p.description is None ==> d.description@ == current.description@,
        p.latitude matches Some(x) ==> d.latitude == x,
        p.latitude is None ==> d.latitude == current.latitude,
        p.longitude matches Some(x) ==> d.longitude == x,
        p.longitude is None ==> d.longitude == current.longitude,
        p.schedule matches Some(x) ==> d.schedule.deep_view() == x.deep_view(),
        p.schedule is None ==> d.schedule.deep_view() == current.schedule.deep_view(),
{
    VertiportData {
        name: match p.name {
            Some(v) => v,
            None => current.name,
        },
        description: match p.description {
            Some(v) => v,
            None => current.description,
        },
        latitude: match p.latitude {
            Some(v) => v,
            None => current.latitude,
        },
        longitude: match p.longitude {
            Some(v) => v,
            None => current.longitude,
        },
        schedule: match p.schedule {
            Some(v) => v,
            None => current.schedule,
        },
    }
}

// ---------------------------------------------------------------- vertipads

/// The storage record of a vertipad.
#[derive(Debug)]
pub struct VertipadData<C> {
    pub name: String,
    pub vertiport_id: String,
    pub latitude: C,
    pub longitude: C,
    pub schedule: Option<String>,
    pub enabled: bool,
    pub occupied: bool,
}

/// The content of a `VertipadData`.
pub struct VertipadView<C> {
    pub name: Seq<char>,
    pub vertiport_id: Seq<char>,
    pub latitude: C,
    pub longitude: C,
    pub schedule: Option<Seq<char>>,
    pub enabled: bool,
    pub occupied: bool,
}

impl<C> View for VertipadData<C> {
    type V = VertipadView<C>;

    open spec fn view(&self) -> VertipadView<C> {
        VertipadView {
            name: self.name@,
            vertiport_id: self.vertiport_id@,
            latitude: self.latitude,
            longitude: self.longitude,
            schedule: self.schedule.deep_view(),
            enabled: self.enabled,
            occupied: self.occupied,
        }
    }
}

/// The body of a request that registers a vertipad.
#[derive(Debug)]
pub struct RegisterVertipadPayload<C> {
    pub name: Option<String>,
    pub vertiport_id: String,
    pub latitude: C,
    pub longitude: C,
    pub enabled: bool,
    pub occupied: bool,
}

/// The record stored for a registered vertipad: a default for a missing name,
/// and an empty schedule.
pub open spec fn registered_vertipad<C>(p: RegisterVertipadPayload<C>) -> VertipadView<C> {
    VertipadView {
        name: patched(p.name.deep_view(), unnamed_text()),
        vertiport_id: p.vertiport_id@,
        latitude: p.latitude,
        longitude: p.longitude,
        schedule: Some(Seq::empty()),
        enabled: p.enabled,
        occupied: p.occupied,
    }
}

/// Builds the record of a registered vertipad.
pub fn vertipad_for_registration<C>(p: RegisterVertipadPayload<C>) -> (d: VertipadData<C>)
    ensures
        d@ == registered_vertipad(p),
        p.name matches Some(n) ==> d.name@ == n@,
        p.name is None ==> d.name@ == "unnamed"@,
        d.vertiport_id@ == p.vertiport_id@,
        d.latitude == p.latitude,
        d.longitude == p.longitude,
        d.schedule matches Some(x) && x@ == Seq::<char>::empty(),
        d.enabled == p.enabled,
        d.occupied == p.occupied,
{
    VertipadData {
        name: match p.name {
            Some(n) => n,
            None => "unnamed".to_owned(),
        },
        vertiport_id: p.vertiport_id,
        latitude: p.latitude,
        longitude: p.longitude,
        schedule: Some(String::new()),
        enabled: p.enabled,
        occupied: p.occupied,
    }
}

/// The fields of a vertipad that an update may change; an absent field keeps
/// the stored value.
#[derive(Debug)]
pub struct VertipadPatch<C> {
    pub name: Option<String>,
    pub latitude: Option<C>,
    pub longitude: Option<C>,
    pub enabled: Option<bool>,
    pub occupied: Option<bool>,
    pub schedule: Option<Option<String>>,
    pub vertiport_id: Option<String>,
}

/// The body of a request that updates a vertipad.
#[derive(Debug)]
pub struct UpdateVertipadPayload<C> {
    pub id: String,
    pub patch: VertipadPatch<C>,
    pub mask: Vec<String>,
}

/// A vertipad patch that names no field.
pub open spec fn is_empty_vertipad_patch<C>(p: VertipadPatch<C>) -> bool {
    &&& p.name is None
    &&& p.latitude is None
    &&& p.longitude is None
    &&& p.enabled is None
    &&& p.occupied is None
    &&& p.schedule is None
    &&& p.vertiport_id is None
}

/// The vertipad record after a patch.
pub open spec fn updated_vertipad<C>(p: VertipadPatch<C>, current: VertipadView<C>) -> VertipadView<C> {
    VertipadView {
        name: patched(p.name.deep_view(), current.name),
        vertiport_id: patched(p.vertiport_id.deep_view(), current.vertiport_id),
        latitude: patched(p.latitude, current.latitude),
        longitude: patched(p.longitude, current.longitude),
        schedule: patched(p.schedule.deep_view(), current.schedule),
        enabled: patched(p.enabled, current.enabled),
        occupied: patched(p.occupied, current.occupied),
    }
}

/// Merges a patch into a vertipad record.
pub fn apply_vertipad_patch<C>(p: VertipadPatch<C>, current: VertipadData<C>) -> (d: VertipadData<C>)
    ensures
        d@ == updated_vertipad(p, current@),
        p.name matches Some(x) ==> d.name@ == x@,
        p.name is None ==> d.name@ == current.name@,
        p.vertiport_id matches Some(x) ==> d.vertiport_id@ == x@,
        p.vertiport_id is None ==> d.vertiport_id@ == current.vertiport_id@,
        p.latitude matches Some(x) ==> d.latitude == x,
        p.latitude is None ==> d.latitude == current.latitude,
        p.longitude matches Some(x) ==> d.longitude == x,
        p.longitude is None ==> d.longitude == current.longitude,
        p.schedule matches Some(x) ==> d.schedule.deep_view() == x.deep_view(),
        p.schedule is None ==> d.schedule.deep_view() == current.schedule.deep_view(),
        p.enabled matches Some(x) ==> d.enabled == x,
        p.enabled is None ==> d.enabled == current.enabled,
        p.occupied matches Some(x) ==> d.occupied == x,
        p.occupied is None ==> d.occupied == current.occupied,
{
    VertipadData {
        name: match p.name {
            Some(v) => v,
            None => current.name,
        },
        vertiport_id: match p.vertiport_id {
            Some(v) => v,
            None => current.vertiport_id,
        },
        latitude: match p.latitude {
            Some(v) => v,
            None => current.latitude,
        },
        longitude: match p.longitude {
            Some(v) => v,
            None => current.longitude,
        },
        schedule: match p.schedule {
            Some(v) => v,
            None => current.schedule,
        },
        enabled: match p.enabled {
            Some(v) => v,
            None => current.enabled,
        },
        occupied: match p.occupied {
            Some(v) => v,
            None => current.occupied,
        },
    }
}

// ------------------------------------------------------------- asset groups

/// A group of assets owned by an operator.
#[derive(Debug)]
pub struct AssetGroup {
    pub id: String,
    pub name: String,
    pub owner: String,
    pub created_at: Timestamp,
    pub updated_at: Option<Timestamp>,
    pub delegatee: Option<String>,
    pub assets: Vec<String>,
}

/// The body of a request that registers an asset group.
#[derive(Debug)]
pub struct RegisterAssetGroupPayload {
    pub name: String,
    pub owner: String,
    pub assets: Vec<String>,
}

/// A new asset group: its id and time of creation are given, it has never
/// been updated and is delegated to no one.
pub fn new_asset_group(p: RegisterAssetGroupPayload, id: String, created_at: Timestamp) -> (g: AssetGroup)
    ensures
        g.id@ == id@,
        g.name@ == p.name@,
        g.owner@ == p.owner@,
        g.created_at == created_at,
        g.updated_at is None,
        g.delegatee is None,
        g.assets.deep_view() == p.assets.deep_view(),
{
    AssetGroup {
        id,
        name: p.name,
        owner: p.owner,
        created_at,
        updated_at: None,
        delegatee: None,
        assets: p.assets,
    }
}


// --------------------------------------------------------------------- laws

/// An aircraft update that names no field keeps every field of the record but
/// the last vertiport, which it clears.
pub proof fn lemma_empty_aircraft_patch_keeps_record(p: AircraftPatch, current: VehicleView)
    requires
        is_empty_aircraft_patch(p),
    ensures
        aircraft_update(p, current) == Ok::<VehicleView, Seq<char>>(
            VehicleView { last_vertiport_id: None, ..current },
        ),
{
}

/// Applying the same aircraft update twice leaves what applying it once left.
pub proof fn lemma_aircraft_update_idempotent(p: AircraftPatch, current: VehicleView)
    requires
        aircraft_update(p, current) is Ok,
    ensures
        aircraft_update(p, aircraft_update(p, current)->Ok_0) == aircraft_update(p, current),
{
}

/// A vertiport update that names no field leaves the record as it was.
pub proof fn lemma_empty_vertiport_patch_keeps_record<C>(p: VertiportPatch<C>, current: VertiportView<C>)
    requires
        is_empty_vertiport_patch(p),
    ensures
        updated_vertiport(p, current) == current,
{
}

/// Applying the same vertiport update twice leaves what applying it once left.
pub proof fn lemma_vertiport_update_idempotent<C>(p: VertiportPatch<C>, current: VertiportView<C>)
    ensures
        updated_vertiport(p, updated_vertiport(p, current)) == updated_vertiport(p, current),
{
}

/// A vertipad update that names no field leaves the record as it was.
pub proof fn lemma_empty_vertipad_patch_keeps_record<C>(p: VertipadPatch<C>, current: VertipadView<C>)
    requires
        is_empty_vertipad_patch(p),
    ensures
        updated_vertipad(p, current) == current,
{
}

/// Applying the same vertipad update twice leaves what applying it once left.
pub proof fn lemma_vertipad_update_idempotent<C>(p: VertipadPatch<C>, current: VertipadView<C>)
    ensures
        updated_vertipad(p, updated_vertipad(p, current)) == updated_vertipad(p, current),
{
}


/// An aircraft update gives each field the patch's value where the patch sets
/// it and keeps the stored value where it does not; the last vertiport is
/// always the patch's, and the maintenance times are the ones given.
pub proof fn lemma_aircraft_patch_sets_and_keeps(
    p: AircraftPatch,
    current: VehicleView,
    last_maintenance: Option<Timestamp>,
    next_maintenance: Option<Timestamp>,
)
    ensures
        ({
            let v = updated_vehicle(p, current, last_maintenance, next_maintenance);
            &&& v.last_vertiport_id == p.last_vertiport_id.deep_view()
            &&& (p.vehicle_model_id matches Some(x) ==> v.vehicle_model_id == x@)
            &&& (p.vehicle_model_id is None ==> v.vehicle_model_id == current.vehicle_model_id)
            &&& (p.serial_number matches Some(x) ==> v.serial_number == x@)
            &&& (p.serial_number is None ==> v.serial_number == current.serial_number)
            &&& (p.registration_number matches Some(x) ==> v.registration_number == x@)
            &&& (p.registration_number is None ==> v.registration_number == current.registration_number)
            &&& (p.description matches Some(x) ==> v.description == x.deep_view())
            &&& (p.description is None ==> v.description == current.description)
            &&& (p.asset_group_id matches Some(x) ==> v.asset_group_id == x.deep_view())
            &&& (p.asset_group_id is None ==> v.asset_group_id == current.asset_group_id)
            &&& (p.schedule matches Some(x) ==> v.schedule == x.deep_view())
            &&& (p.schedule is None ==> v.schedule == current.schedule)
            &&& v.last_maintenance == last_maintenance
            &&& v.next_maintenance == next_maintenance
        }),
{
}

/// The maintenance times after an aircraft update: a time the patch gives as
/// text is that text read, a time it clears is gone, and a time it does not
/// name is kept; the two times are read each from its own text, and a text
/// that does not read refuses the update with the reader's error.
pub proof fn lemma_aircraft_update_times(p: AircraftPatch, current: VehicleView)
    ensures
        ({
            let last = p.last_maintenance.deep_view();
            let next = p.next_maintenance.deep_view();
            &&& last matches Some(Some(t)) ==> (parsed_timestamp(t) is Err ==> aircraft_update(
                p,
                current,
            ) == Err::<VehicleView, Seq<char>>(parsed_timestamp(t)->Err_0))
            &&& aircraft_update(p, current) matches Ok(v) ==> {
                &&& (last is None ==> v.last_maintenance == current.last_maintenance)
                &&& (last == Some(None::<Seq<char>>) ==> v.last_maintenance is None)
                &&& (last matches Some(Some(t)) ==> parsed_timestamp(t) == Ok::<Timestamp, Seq<char>>(
                    v.last_maintenance->0,
                ) && v.last_maintenance is Some)
                &&& (next is None ==> v.next_maintenance == current.next_maintenance)
                &&& (next == Some(None::<Seq<char>>) ==> v.next_maintenance is None)
                &&& (next matches Some(Some(t)) ==> parsed_timestamp(t) == Ok::<Timestamp, Seq<char>>(
                    v.next_maintenance->0,
                ) && v.next_maintenance is Some)
                &&& v == updated_vehicle(p, current, v.last_maintenance, v.next_maintenance)
            }
        }),
{
}

/// An aircraft update fails only where a maintenance text it gives does not read.
pub proof fn lemma_aircraft_update_fails_only_on_bad_times(p: AircraftPatch, current: VehicleView)
    ensures
        aircraft_update(p, current) is Err ==> {
            ||| (p.last_maintenance.deep_view() matches Some(Some(t)) && parsed_timestamp(t) is Err)
            ||| (p.next_maintenance.deep_view() matches Some(Some(t)) && parsed_timestamp(t) is Err)
        },
{
}

/// A registered aircraft's record holds the payload's fields, the name as its
/// description, no group and no schedule, and the two maintenance times given,
/// each in its own field.
pub proof fn lemma_registered_vehicle_fields(
    p: RegisterAircraftPayload,
    model_id: Seq<char>,
    last_maintenance: Option<Timestamp>,
    next_maintenance: Option<Timestamp>,
)
    ensures
        ({
            let v = registered_vehicle(p, model_id, last_maintenance, next_maintenance);
            &&& v.last_vertiport_id == p.last_vertiport_id.deep_view()
            &&& v.vehicle_model_id == model_id
            &&& v.serial_number == p.serial_number@
            &&& v.registration_number == p.registration_number@
            &&& v.description == p.name.deep_view()
            &&& v.asset_group_id is None
            &&& v.schedule is None
            &&& v.last_maintenance == last_maintenance
            &&& v.next_maintenance == next_maintenance
        }),
{
}

/// A maintenance time given at registration: none where the payload gives no
/// text, else the text read, or the reader's error.
pub proof fn lemma_registration_time(text: Option<Seq<char>>)
    ensures
        text is None ==> registration_time(text) == Ok::<Option<Timestamp>, Seq<char>>(None),
        text matches Some(t) ==> match parsed_timestamp(t) {
            Ok(ts) => registration_time(text) == Ok::<Option<Timestamp>, Seq<char>>(Some(ts)),
            Err(m) => registration_time(text) == Err::<Option<Timestamp>, Seq<char>>(m),
        },
{
}

/// A registered vertiport's record holds the payload's name and description,
/// or "unnamed" and "N/A" where it gives none, its coordinates, and an empty
/// schedule.
pub proof fn lemma_registered_vertiport_fields<C>(p: RegisterVertiportPayload<C>)
    ensures
        ({
            let v = registered_vertiport(p);
            &&& (p.name matches Some(n) ==> v.name == n@)
            &&& (p.name is None ==> v.name == "unnamed"@)
            &&& (p.description matches Some(n) ==> v.description == n@)
            &&& (p.description is None ==> v.description == "N/A"@)
            &&& v.latitude == p.latitude
            &&& v.longitude == p.longitude
            &&& v.schedule == Some(Seq::<char>::empty())
        }),
{
}

/// A registered vertipad's record holds the payload's fields, "unnamed" where
/// it gives no name, and an empty schedule.
pub proof fn lemma_registered_vertipad_fields<C>(p: RegisterVertipadPayload<C>)
    ensures
        ({
            let v = registered_vertipad(p);
            &&& (p.name matches Some(n) ==> v.name == n@)
            &&& (p.name is None ==> v.name == "unnamed"@)
            &&& v.vertiport_id == p.vertiport_id@
            &&& v.latitude == p.latitude
            &&& v.longitude == p.longitude
            &&& v.schedule == Some(Seq::<char>::empty())
            &&& v.enabled == p.enabled
            &&& v.occupied == p.occupied
        }),
{
}

/// A vertiport update gives each field the patch's value where the patch sets
/// it and keeps the stored value where it does not.
pub proof fn lemma_vertiport_patch_sets_and_keeps<C>(p: VertiportPatch<C>, current: VertiportView<C>)
    ensures
        ({
            let v = updated_vertiport(p, current);
            &&& (p.name matches Some(x) ==> v.name == x@)
            &&& (p.name is None ==> v.name == current.name)
            &&& (p.description matches Some(x) ==> v.description == x@)
            &&& (p.description is None ==> v.description == current.description)
            &&& (p.latitude matches Some(x) ==> v.latitude == x)
            &&& (p.latitude is None ==> v.latitude == current.latitude)
            &&& (p.longitude matches Some(x) ==> v.longitude == x)
            &&& (p.longitude is None ==> v.longitude == current.longitude)
            &&& (p.schedule matches Some(x) ==> v.schedule == x.deep_view())
            &&& (p.schedule is None ==> v.schedule == current.schedule)
        }),
{
}

/// A vertipad update gives each field the patch's value where the patch sets
/// it and keeps the stored value where it does not.
pub proof fn lemma_vertipad_patch_sets_and_keeps<C>(p: VertipadPatch<C>, current: VertipadView<C>)
    ensures
        ({
            let v = updated_vertipad(p, current);
            &&& (p.name matches Some(x) ==> v.name == x@)
            &&& (p.name is None ==> v.name == current.name)
            &&& (p.vertiport_id matches Some(x) ==> v.vertiport_id == x@)
            &&& (p.vertiport_id is None ==> v.vertiport_id == current.vertiport_id)
            &&& (p.latitude matches Some(x) ==> v.latitude == x)
            &&& (p.latitude is None ==> v.latitude == current.latitude)
            &&& (p.longitude matches Some(x) ==> v.longitude == x)
            &&& (p.longitude is None ==> v.longitude == current.longitude)
            &&& (p.schedule matches Some(x) ==> v.schedule == x.deep_view())
            &&& (p.schedule is None ==> v.schedule == current.schedule)
            &&& (p.enabled matches Some(x) ==> v.enabled == x)
            &&& (p.enabled is None ==> v.enabled == current.enabled)
            &&& (p.occupied matches Some(x) ==> v.occupied == x)
            &&& (p.occupied is None ==> v.occupied == current.occupied)
        }),
{
}

} // verus!
