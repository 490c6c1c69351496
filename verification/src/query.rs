//! Read-side requests: vertiport occupations, parcel tracking scans,
//! parcel scan submissions, and itinerary cancellation — the checks and
//! record conversions these endpoints perform before and after their
//! remote calls.

use vstd::prelude::*;

use crate::types::CargoInfo;
use crate::types::ItineraryCancelRequest;
use crate::types::PathPoint;
use crate::types::TimeWindow;
use crate::validate::is_uuid;
use crate::validate::is_uuid_str;

verus! {

/// Don't allow overly large numbers of occupations to be returned.
pub const MAX_LANDINGS_TO_RETURN: u32 = 50;

/// Northernmost latitude a scan may carry, in microdegrees.
pub const MAX_LATITUDE_UDEG: i64 = 90_000_000;

/// Easternmost longitude a scan may carry, in microdegrees.
pub const MAX_LONGITUDE_UDEG: i64 = 180_000_000;

/// Why an occupations query was rejected.
#[derive(Debug, Clone, Copy, PartialEq, Eq, Structural)]
pub enum QueryError {
    /// The vertiport id is not a UUID
    VertiportId,
    /// No arrival window was specified
    ArrivalWindow,
    /// The limit is beyond the maximum
    Limit,
}

impl QueryError {
    /// The text of the error.
    pub open spec fn text_spec(self) -> Seq<char> {
        match self {
            QueryError::VertiportId => "Invalid vertiport ID"@,
            QueryError::ArrivalWindow => "Arrival window not specified"@,
            QueryError::Limit => "Specified limit beyond max of 50"@,
        }
    }

    /// A human-readable description of the error.
    pub fn to_text(&self) -> (r: String)
        ensures
            r@ == self.text_spec(),
    {
        match self {
            QueryError::VertiportId => "Invalid vertiport ID".to_owned(),
            QueryError::ArrivalWindow => "Arrival window not specified".to_owned(),
            QueryError::Limit => "Specified limit beyond max of 50".to_owned(),
        }
    }
}

/// Request body for the occupations of a vertiport.
#[derive(Debug, Clone)]
pub struct QueryScheduleRequest {
    /// The vertiport to list occupations for
    pub vertiport_id: String,
    /// The window to search for occupations
    pub arrival_window: Option<TimeWindow>,
    /// The maximum number of occupations to return
    pub limit: u32,
}

/// An occupations query that passed validation.
#[derive(Debug, Clone)]
pub struct OccupationsRequest {
    /// The page size handed to the storage search
    pub limit: i32,
    /// The vertiport, a validated UUID
    pub vertiport_id: String,
    /// The arrival window to search
    pub arrival_window: TimeWindow,
}

/// The verdict on an occupations query: the limit is capped, the
/// vertiport must be a canonical hyphenated UUID, and the arrival
/// window must be present.
pub open spec fn occupations_request_spec(request: QueryScheduleRequest) -> Result<
    OccupationsRequest,
    QueryError,
> {
    if request.limit > MAX_LANDINGS_TO_RETURN {
        Err(QueryError::Limit)
    } else if !is_uuid_str(request.vertiport_id@) {
        Err(QueryError::VertiportId)
    } else if request.arrival_window is None {
        Err(QueryError::ArrivalWindow)
    } else {
        Ok(
            OccupationsRequest {
                limit: request.limit as i32,
                vertiport_id: request.vertiport_id,
                arrival_window: request.arrival_window->0,
            },
        )
    }
}

/// Confirms that an occupations query has valid fields, before any
/// remote call.
pub fn occupations_request_validation(request: QueryScheduleRequest) -> (r: Result<
    OccupationsRequest,
    QueryError,
>)
    ensures
        r == occupations_request_spec(request),
{
    if request.limit > MAX_LANDINGS_TO_RETURN {
        return Err(QueryError::Limit);
    }
    if !is_uuid(request.vertiport_id.as_str()) {
        return Err(QueryError::VertiportId);
    }
    let arrival_window = match request.arrival_window {
        Some(w) => w,
        None => {
            return Err(QueryError::ArrivalWindow);
        },
    };
    Ok(
        OccupationsRequest {
            limit: request.limit as i32,
            vertiport_id: request.vertiport_id,
            arrival_window,
        },
    )
}

/// Occupations response: the occupations found for the queried window.
#[derive(Debug, Clone)]
pub struct QueryScheduleResponse {
    /// The occupations, in arrival order
    pub occupations: Vec<Occupation>,
}

/// Why a parcel scan record failed to convert.
#[derive(Debug, Clone, Copy, PartialEq, Eq, Structural)]
pub enum ScanError {
    /// The record carries no data
    Data,
    /// The record carries no location
    Location,
    /// The record carries no creation instant
    CreatedAt,
}

/// One scan of a parcel: where and when a scanner saw it.
#[derive(Debug, Clone)]
pub struct CargoScan {
    /// The scanner device
    pub scanner_id: String,
    /// The scanned parcel
    pub parcel_id: String,
    /// Latitude of the scan, microdegrees
    pub latitude_udeg: i64,
    /// Longitude of the scan, microdegrees
    pub longitude_udeg: i64,
    /// Altitude of the scan, millimetres
    pub altitude_mm: i64,
    /// When the scan happened, milliseconds since the Unix epoch
    pub timestamp_ms: i64,
}

/// What a stored parcel scan record carries.
#[derive(Debug)]
pub struct ScanData {
    /// The scanner device
    pub scanner_id: String,
    /// Where the parcel was scanned, when the record carries it
    pub geo_location: Option<PathPoint>,
    /// When the record was created, when the record carries it
    pub created_at: Option<i64>,
}

/// A stored parcel scan record: an id and an optional data payload.
#[derive(Debug)]
pub struct ScanRecord {
    /// The parcel the scan belongs to
    pub id: String,
    /// The record's data, absent when the reply was incomplete
    pub data: Option<ScanData>,
}

/// The scan a stored record describes, or the first missing field.
pub open spec fn cargo_scan_spec(record: ScanRecord) -> Result<CargoScan, ScanError> {
    if record.data is None {
        Err(ScanError::Data)
    } else if record.data->0.geo_location is None {
        Err(ScanError::Location)
    } else if record.data->0.created_at is None {
        Err(ScanError::CreatedAt)
    } else {
        Ok(
            CargoScan {
                scanner_id: record.data->0.scanner_id,
                parcel_id: record.id,
                latitude_udeg: record.data->0.geo_location->0.latitude_udeg,
                longitude_udeg: record.data->0.geo_location->0.longitude_udeg,
                altitude_mm: record.data->0.geo_location->0.altitude_mm,
                timestamp_ms: record.data->0.created_at->0,
            },
        )
    }
}

/// Converts one stored scan record for the tracking response; a record
/// missing its data, location or creation instant is dropped with the
/// corresponding error.
pub fn cargo_scan_from_record(record: ScanRecord) -> (r: Result<CargoScan, ScanError>)
    ensures
        r == cargo_scan_spec(record),
{
    let data = match record.data {
        Some(d) => d,
        None => {
            return Err(ScanError::Data);
        },
    };
    let geo_location = match data.geo_location {
        Some(g) => g,
        None => {
            return Err(ScanError::Location);
        },
    };
    let created_at = match data.created_at {
        Some(t) => t,
        None => {
            return Err(ScanError::CreatedAt);
        },
    };
    Ok(
        CargoScan {
            scanner_id: data.scanner_id,
            parcel_id: record.id,
            latitude_udeg: geo_location.latitude_udeg,
            longitude_udeg: geo_location.longitude_udeg,
            altitude_mm: geo_location.altitude_mm,
            timestamp_ms: created_at,
        },
    )
}

/// Whether a submitted scan is acceptable: both ids are canonical
/// hyphenated UUIDs (see [`is_uuid_str`]) and the coordinates are on
/// the globe.  A failing scan is rejected before any remote call.
pub fn scan_request_check(scan: &CargoScan) -> (ok: bool)
    ensures
        ok <==> ({
            &&& is_uuid_str(scan.parcel_id@)
            &&& is_uuid_str(scan.scanner_id@)
            &&& -MAX_LATITUDE_UDEG <= scan.latitude_udeg <= MAX_LATITUDE_UDEG
            &&& -MAX_LONGITUDE_UDEG <= scan.longitude_udeg <= MAX_LONGITUDE_UDEG
        }),
{
    if !is_uuid(scan.parcel_id.as_str()) {
        return false;
    }
    if !is_uuid(scan.scanner_id.as_str()) {
        return false;
    }
    if scan.latitude_udeg < -MAX_LATITUDE_UDEG || scan.latitude_udeg > MAX_LATITUDE_UDEG
        || scan.longitude_udeg < -MAX_LONGITUDE_UDEG || scan.longitude_udeg
        > MAX_LONGITUDE_UDEG {
        return false;
    }
    true
}

/// Tracking response: every scan of the queried parcel.
#[derive(Debug, Clone)]
pub struct QueryParcelResponse {
    /// The scans, oldest first
    pub scans: Vec<CargoScan>,
}

/// Why a flight plan record failed to convert into an occupation.
#[derive(Debug, Clone, Copy, PartialEq, Eq, Structural)]
pub enum OccupationError {
    /// The record carries no data
    Data,
    /// The record carries no arrival window start
    TargetTimeslotStart,
    /// The record carries no arrival window end
    TargetTimeslotEnd,
}

/// One occupation of a vertipad by an arriving flight.
#[derive(Debug, Clone)]
pub struct Occupation {
    /// The occupying flight plan
    pub flight_plan_id: String,
    /// The occupied vertipad
    pub vertipad_id: String,
    /// The vertipad's display name, when a lookup supplied one
    pub vertipad_display_name: Option<String>,
    /// The window of occupation
    pub time_window: TimeWindow,
    /// The occupying aircraft
    pub aircraft_id: String,
    /// The aircraft's nickname, when a lookup supplied one
    pub aircraft_nickname: Option<String>,
    /// Parcels picked up during this occupation
    pub cargo_acquire: Vec<CargoInfo>,
    /// Parcels delivered during this occupation
    pub cargo_deliver: Vec<CargoInfo>,
}

/// What a stored flight plan record carries about its arrival.
#[derive(Debug)]
pub struct ArrivalData {
    /// The vertipad the flight arrives at
    pub target_vertipad_id: String,
    /// The arriving aircraft
    pub vehicle_id: String,
    /// The start of the arrival window, when the record carries it
    pub target_timeslot_start: Option<i64>,
    /// The end of the arrival window, when the record carries it
    pub target_timeslot_end: Option<i64>,
}

/// A stored flight plan record, as the occupations search returns it.
#[derive(Debug)]
pub struct ArrivalRecord {
    /// The flight plan id
    pub id: String,
    /// The record's data, absent when the reply was incomplete
    pub data: Option<ArrivalData>,
}

/// The first field missing from a stored flight plan record, if any.
pub open spec fn occupation_error(record: ArrivalRecord) -> Option<OccupationError> {
    if record.data is None {
        Some(OccupationError::Data)
    } else if record.data->0.target_timeslot_start is None {
        Some(OccupationError::TargetTimeslotStart)
    } else if record.data->0.target_timeslot_end is None {
        Some(OccupationError::TargetTimeslotEnd)
    } else {
        None
    }
}

/// Converts one stored flight plan record into an occupation; a record
/// missing its data or either arrival timeslot is dropped with the
/// corresponding error.  Display names arrive later, by separate
/// lookups.
pub fn occupation_from_record(record: ArrivalRecord) -> (r: Result<Occupation, OccupationError>)
    ensures
        r is Ok <==> occupation_error(record) is None,
        match r {
            Ok(o) => {
                &&& o.flight_plan_id == record.id
                &&& o.vertipad_id == record.data->0.target_vertipad_id
                &&& o.vertipad_display_name is None
                &&& o.time_window == (TimeWindow {
                    timestamp_min: record.data->0.target_timeslot_start->0,
                    timestamp_max: record.data->0.target_timeslot_end->0,
                })
                &&& o.aircraft_id == record.data->0.vehicle_id
                &&& o.aircraft_nickname is None
                &&& o.cargo_acquire@.len() == 0
                &&& o.cargo_deliver@.len() == 0
            },
            Err(e) => occupation_error(record) == Some(e),
        },
{
    let data = match record.data {
        Some(d) => d,
        None => {
            return Err(OccupationError::Data);
        },
    };
    let timestamp_min = match data.target_timeslot_start {
        Some(t) => t,
        None => {
            return Err(OccupationError::TargetTimeslotStart);
        },
    };
    let timestamp_max = match data.target_timeslot_end {
        Some(t) => t,
        None => {
            return Err(OccupationError::TargetTimeslotEnd);
        },
    };
    Ok(
        Occupation {
            flight_plan_id: record.id,
            vertipad_id: data.target_vertipad_id,
            vertipad_display_name: None,
            time_window: TimeWindow { timestamp_min, timestamp_max },
            aircraft_id: data.vehicle_id,
            aircraft_nickname: None,
            cargo_acquire: Vec::new(),
            cargo_deliver: Vec::new(),
        },
    )
}

/// Why a vertiport record failed to convert.
#[derive(Debug, Clone, Copy, PartialEq, Eq, Structural)]
pub enum VertiportError {
    /// The record carries no data
    Data,
    /// The record carries no location
    Location,
    /// The record's location carries no exterior
    Exterior,
}

/// Whether a cancellation request is acceptable: both the itinerary id
/// and the user id are canonical hyphenated UUIDs (see
/// [`is_uuid_str`]).  A failing request is rejected before
/// any remote call; once the scheduler has cancelled the itinerary,
/// the cancellation is a success for the customer even if some parcel
/// record could not be deleted.
pub fn cancel_request_check(payload: &ItineraryCancelRequest) -> (ok: bool)
    ensures
        ok <==> (is_uuid_str(payload.id@) && is_uuid_str(payload.user_id@)),
{
    if !is_uuid(payload.id.as_str()) {
        return false;
    }
    if !is_uuid(payload.user_id.as_str()) {
        return false;
    }
    true
}

} // verus!
