//! REST-facing data model of the gateway.
//!
//! Timestamps are milliseconds since the Unix epoch, geographic
//! coordinates are integer microdegrees (millimetres for altitude), and
//! invoice costs are integer minor currency units, so that every field a
//! decision reads is a plain value.

use vstd::prelude::*;

verus! {

/// Heaviest parcel the gateway accepts, in grams.
pub const MAX_CARGO_WEIGHT_G: u32 = 1_000_000;

/// Supported currencies.
#[derive(Debug, Clone, Copy, PartialEq, Eq, Structural)]
pub enum CurrencyUnit {
    /// One U.S. Dollar
    Usd,
    /// One E.U. Euro
    Euro,
}

/// One line of a priced itinerary's invoice.
#[derive(Debug, Clone)]
pub struct InvoiceItem {
    /// The item name
    pub item: String,
    /// The item cost, in minor units of the itinerary's currency
    pub cost: u32,
}

/// Time window (min and max), milliseconds since the Unix epoch.
#[derive(Debug, Clone, Copy, PartialEq, Eq, Structural)]
pub struct TimeWindow {
    /// The start of the window
    pub timestamp_min: i64,
    /// The end of the window
    pub timestamp_max: i64,
}

/// One point of a flight path: latitude/longitude in microdegrees,
/// altitude in millimetres.
#[derive(Debug, Clone, Copy, PartialEq, Eq, Structural)]
pub struct PathPoint {
    /// Latitude, microdegrees
    pub latitude_udeg: i64,
    /// Longitude, microdegrees
    pub longitude_udeg: i64,
    /// Altitude, millimetres
    pub altitude_mm: i64,
}

/// Non-privileged flight plan information: one leg of an itinerary.
#[derive(Debug, Clone)]
pub struct FlightPlan {
    /// The ID of the vertiport to leave from
    pub origin_vertiport_id: String,
    /// The ID of the vertipad to leave from
    pub origin_vertipad_id: String,
    /// The ID of the destination vertiport
    pub target_vertiport_id: String,
    /// The ID of the destination vertipad
    pub target_vertipad_id: String,
    /// The path of the flight plan
    pub path: Vec<PathPoint>,
    /// The start of the window of departure
    pub origin_timeslot_start: i64,
    /// The end of the window of departure
    pub origin_timeslot_end: i64,
    /// The start of the window of arrival
    pub target_timeslot_start: i64,
    /// The end of the window of arrival
    pub target_timeslot_end: i64,
    /// The unique ID of the aircraft
    pub vehicle_id: String,
    /// The priority code of the flight plan
    pub flight_priority: i32,
}

/// A priced itinerary: the unit that is cached as a draft and committed.
#[derive(Debug, Clone)]
pub struct Itinerary {
    /// Each leg of the itinerary
    pub flight_plans: Vec<FlightPlan>,
    /// The currency of the invoice
    pub currency_unit: CurrencyUnit,
    /// The cost of the trip for the customer, one line per leg
    pub invoice: Vec<InvoiceItem>,
    /// Cargo weight, grams
    pub cargo_weight_g: u32,
    /// Owning customer
    pub user_id: String,
    /// Vertiport at which the parcel is picked up
    pub acquisition_vertiport_id: String,
    /// Vertiport at which the parcel is dropped off
    pub delivery_vertiport_id: String,
}

impl Default for Itinerary {
    /// An empty itinerary, priced in Euro.
    fn default() -> (r: Self)
        ensures
            r.flight_plans@.len() == 0,
            r.currency_unit == CurrencyUnit::Euro,
            r.invoice@.len() == 0,
            r.cargo_weight_g == 0,
            r.user_id@.len() == 0,
            r.acquisition_vertiport_id@.len() == 0,
            r.delivery_vertiport_id@.len() == 0,
    {
        Itinerary {
            flight_plans: Vec::new(),
            currency_unit: CurrencyUnit::Euro,
            invoice: Vec::new(),
            cargo_weight_g: 0,
            user_id: String::new(),
            acquisition_vertiport_id: String::new(),
            delivery_vertiport_id: String::new(),
        }
    }
}

/// A cached draft itinerary together with the key it is stored under.
#[derive(Debug, Clone)]
pub struct DraftItinerary {
    /// The draft ID
    pub id: String,
    /// The itinerary information
    pub itinerary: Itinerary,
}

/// Request body to search for available itineraries.
#[derive(Debug, Clone)]
pub struct QueryItineraryRequest {
    /// The ID of the vertiport to leave from
    pub origin_vertiport_id: String,
    /// The ID of the destination vertiport
    pub target_vertiport_id: String,
    /// The window of departure
    pub time_depart_window: TimeWindow,
    /// The estimated weight of cargo, grams
    pub cargo_weight_g: u32,
    /// The user ID
    pub user_id: String,
}

/// Request body to commit a cached draft itinerary.
#[derive(Debug, Clone)]
pub struct ItineraryCreateRequest {
    /// The draft itinerary ID to commit
    pub id: String,
    /// User ID
    pub user_id: String,
}

/// Request body to cancel an itinerary.
#[derive(Debug, Clone)]
pub struct ItineraryCancelRequest {
    /// Itinerary ID to cancel
    pub id: String,
    /// User ID
    pub user_id: String,
}

/// Information about a registered parcel.
#[derive(Debug, Clone)]
pub struct CargoInfo {
    /// The unique ID of the parcel
    pub parcel_id: String,
}

/// Why a flight plan failed to convert between the gateway's
/// representation and the scheduler's wire format.
#[derive(Debug, Clone, Copy, PartialEq, Eq, Structural)]
pub enum FlightPlanError {
    /// Invalid Origin Vertiport ID
    OriginVertiportId,
    /// Invalid Target Vertiport ID
    TargetVertiportId,
    /// Invalid Vehicle ID
    VehicleId,
    /// Invalid Origin Vertipad ID
    OriginVertipadId,
    /// Invalid Target Vertipad ID
    TargetVertipadId,
    /// Invalid Path
    Path,
    /// Invalid Target Timeslot Start
    TargetTimeslotStart,
    /// Invalid Target Timeslot End
    TargetTimeslotEnd,
    /// Invalid Origin Timeslot Start
    OriginTimeslotStart,
    /// Invalid Origin Timeslot End
    OriginTimeslotEnd,
    /// Invalid Flight Priority
    FlightPriority,
}

impl FlightPlanError {
    /// The text of the error.
    pub open spec fn text_spec(self) -> Seq<char> {
        match self {
            FlightPlanError::OriginVertiportId => "Invalid Origin Vertiport ID"@,
            FlightPlanError::TargetVertiportId => "Invalid Target Vertiport ID"@,
            FlightPlanError::VehicleId => "Invalid Vehicle ID"@,
            FlightPlanError::OriginVertipadId => "Invalid Origin Vertipad ID"@,
            FlightPlanError::TargetVertipadId => "Invalid Target Vertipad ID"@,
            FlightPlanError::Path => "Invalid Path"@,
            FlightPlanError::TargetTimeslotStart => "Invalid Target Timeslot Start"@,
            FlightPlanError::TargetTimeslotEnd => "Invalid Target Timeslot End"@,
            FlightPlanError::OriginTimeslotStart => "Invalid Origin Timeslot Start"@,
            FlightPlanError::OriginTimeslotEnd => "Invalid Origin Timeslot End"@,
            FlightPlanError::FlightPriority => "Invalid Flight Priority"@,
        }
    }

    /// A human-readable description of the error.
    pub fn to_text(&self) -> (r: String)
        ensures
            r@ == self.text_spec(),
    {
        match self {
            FlightPlanError::OriginVertiportId => "Invalid Origin Vertiport ID".to_owned(),
            FlightPlanError::TargetVertiportId => "Invalid Target Vertiport ID".to_owned(),
            FlightPlanError::VehicleId => "Invalid Vehicle ID".to_owned(),
            FlightPlanError::OriginVertipadId => "Invalid Origin Vertipad ID".to_owned(),
            FlightPlanError::TargetVertipadId => "Invalid Target Vertipad ID".to_owned(),
            FlightPlanError::Path => "Invalid Path".to_owned(),
            FlightPlanError::TargetTimeslotStart => "Invalid Target Timeslot Start".to_owned(),
            FlightPlanError::TargetTimeslotEnd => "Invalid Target Timeslot End".to_owned(),
            FlightPlanError::OriginTimeslotStart => "Invalid Origin Timeslot Start".to_owned(),
            FlightPlanError::OriginTimeslotEnd => "Invalid Origin Timeslot End".to_owned(),
            FlightPlanError::FlightPriority => "Invalid Flight Priority".to_owned(),
        }
    }
}

/// Errors of OpenAPI specification export.
#[derive(Debug, Clone, Copy, PartialEq, Eq, Structural)]
pub enum OpenApiError {
    /// Failed to export as JSON string
    Json,
    /// Failed to write to file
    FileWrite,
}

impl OpenApiError {
    /// The text of the error.
    pub open spec fn text_spec(self) -> Seq<char> {
        match self {
            OpenApiError::Json => "Failed to export as JSON string"@,
            OpenApiError::FileWrite => "Failed to write to file"@,
        }
    }

    /// A human-readable description of the error.
    pub fn to_text(&self) -> (r: String)
        ensures
            r@ == self.text_spec(),
    {
        match self {
            OpenApiError::Json => "Failed to export as JSON string".to_owned(),
            OpenApiError::FileWrite => "Failed to write to file".to_owned(),
        }
    }
}

} // verus!
