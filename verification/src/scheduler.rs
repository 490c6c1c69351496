//! SchedulerGateway: translation of flight legs into the scheduler's
//! wire shape, and the polling state machine that follows an
//! asynchronous scheduling task to a terminal state or a deadline.
//!
//! The network driver performs one remote status query per tick and
//! hands the observation back; every decision — when to keep polling,
//! which outcome each terminal status maps to, and when to fire the
//! best-effort cancel — is made here.

use vstd::prelude::*;

use crate::types::CurrencyUnit;
use crate::types::FlightPlan;
use crate::types::Itinerary;
use crate::types::PathPoint;
use crate::types::FlightPlanError;
use crate::types::QueryItineraryRequest;
use crate::validate::is_uuid;
use crate::validate::is_uuid_str;
use crate::validate::validate_payload;
use crate::validate::validate_payload_spec;
use crate::validate::ValidationError;

verus! {

/// Scheduler priority code for ordinary cargo flights.
pub const FLIGHT_PRIORITY_LOW: i32 = 0;

/// Scheduler priority code for cancellations and other raised work.
pub const FLIGHT_PRIORITY_MEDIUM: i32 = 1;

/// Scheduler priority code for urgent flights.
pub const FLIGHT_PRIORITY_HIGH: i32 = 2;

/// Scheduler priority code for emergency flights.
pub const FLIGHT_PRIORITY_EMERGENCY: i32 = 3;

/// Max window to search for arrivals within, in milliseconds (8 h).
pub const MAX_TIME_WINDOW_MS: i64 = 28_800_000;

/// Whether a priority code is one the scheduler understands.
pub open spec fn priority_code_ok(code: int) -> bool {
    FLIGHT_PRIORITY_LOW <= code <= FLIGHT_PRIORITY_EMERGENCY
}

/// A flight plan in the scheduler's wire shape, where endpoints and
/// timeslots travel as optional fields.
#[derive(Debug)]
pub struct WireFlightPlan {
    /// The origin vertiport, when the plan carries it directly
    pub origin_vertiport_id: Option<String>,
    /// The origin vertipad
    pub origin_vertipad_id: String,
    /// The target vertiport, when the plan carries it directly
    pub target_vertiport_id: Option<String>,
    /// The target vertipad
    pub target_vertipad_id: String,
    /// The path of the flight plan
    pub path: Option<Vec<PathPoint>>,
    /// The start of the window of departure
    pub origin_timeslot_start: Option<i64>,
    /// The end of the window of departure
    pub origin_timeslot_end: Option<i64>,
    /// The start of the window of arrival
    pub target_timeslot_start: Option<i64>,
    /// The end of the window of arrival
    pub target_timeslot_end: Option<i64>,
    /// The unique ID of the aircraft
    pub vehicle_id: String,
    /// The priority code of the flight plan
    pub flight_priority: i32,
}

/// One proposed itinerary as the scheduler returns it.
#[derive(Debug)]
pub struct WireItinerary {
    /// The legs of the proposal
    pub flight_plans: Vec<WireFlightPlan>,
}

/// The flight plan a wire record describes, or the first field that
/// disqualifies it: missing or malformed endpoints, a missing path or
/// timeslot.
pub open spec fn plan_from_wire_spec(w: WireFlightPlan) -> Result<FlightPlan, FlightPlanError> {
    if w.origin_vertiport_id is None {
        Err(FlightPlanError::OriginVertiportId)
    } else if w.target_vertiport_id is None {
        Err(FlightPlanError::TargetVertiportId)
    } else if !is_uuid_str(w.origin_vertiport_id->0@) {
        Err(FlightPlanError::OriginVertiportId)
    } else if !is_uuid_str(w.target_vertiport_id->0@) {
        Err(FlightPlanError::TargetVertiportId)
    } else if !is_uuid_str(w.vehicle_id@) {
        Err(FlightPlanError::VehicleId)
    } else if !is_uuid_str(w.origin_vertipad_id@) {
        Err(FlightPlanError::OriginVertipadId)
    } else if !is_uuid_str(w.target_vertipad_id@) {
        Err(FlightPlanError::TargetVertipadId)
    } else if w.path is None {
        Err(FlightPlanError::Path)
    } else if w.target_timeslot_start is None {
        Err(FlightPlanError::TargetTimeslotStart)
    } else if w.target_timeslot_end is None {
        Err(FlightPlanError::TargetTimeslotEnd)
    } else if w.origin_timeslot_start is None {
        Err(FlightPlanError::OriginTimeslotStart)
    } else if w.origin_timeslot_end is None {
        Err(FlightPlanError::OriginTimeslotEnd)
    } else {
        Ok(FlightPlan {
            origin_vertiport_id: w.origin_vertiport_id->0,
            origin_vertipad_id: w.origin_vertipad_id,
            target_vertiport_id: w.target_vertiport_id->0,
            target_vertipad_id: w.target_vertipad_id,
            path: w.path->0,
            origin_timeslot_start: w.origin_timeslot_start->0,
            origin_timeslot_end: w.origin_timeslot_end->0,
            target_timeslot_start: w.target_timeslot_start->0,
            target_timeslot_end: w.target_timeslot_end->0,
            vehicle_id: w.vehicle_id,
            flight_priority: w.flight_priority,
        })
    }
}

/// Converts one wire flight plan into the gateway's representation,
/// validating endpoint identifiers and requiring every timeslot.
pub fn flight_plan_from_wire(w: WireFlightPlan) -> (r: Result<FlightPlan, FlightPlanError>)
    ensures
        r == plan_from_wire_spec(w),
{
    let origin_vertiport_id = match w.origin_vertiport_id {
        Some(s) => s,
        None => {
            return Err(FlightPlanError::OriginVertiportId);
        },
    };
    let target_vertiport_id = match w.target_vertiport_id {
        Some(s) => s,
        None => {
            return Err(FlightPlanError::TargetVertiportId);
        },
    };
    if !is_uuid(origin_vertiport_id.as_str()) {
        return Err(FlightPlanError::OriginVertiportId);
    }
    if !is_uuid(target_vertiport_id.as_str()) {
        return Err(FlightPlanError::TargetVertiportId);
    }
    if !is_uuid(w.vehicle_id.as_str()) {
        return Err(FlightPlanError::VehicleId);
    }
    if !is_uuid(w.origin_vertipad_id.as_str()) {
        return Err(FlightPlanError::OriginVertipadId);
    }
    if !is_uuid(w.target_vertipad_id.as_str()) {
        return Err(FlightPlanError::TargetVertipadId);
    }
    let path = match w.path {
        Some(p) => p,
        None => {
            return Err(FlightPlanError::Path);
        },
    };
    let target_timeslot_start = match w.target_timeslot_start {
        Some(t) => t,
        None => {
            return Err(FlightPlanError::TargetTimeslotStart);
        },
    };
    let target_timeslot_end = match w.target_timeslot_end {
        Some(t) => t,
        None => {
            return Err(FlightPlanError::TargetTimeslotEnd);
        },
    };
    let origin_timeslot_start = match w.origin_timeslot_start {
        Some(t) => t,
        None => {
            return Err(FlightPlanError::OriginTimeslotStart);
        },
    };
    let origin_timeslot_end = match w.origin_timeslot_end {
        Some(t) => t,
        None => {
            return Err(FlightPlanError::OriginTimeslotEnd);
        },
    };
    Ok(FlightPlan {
        origin_vertiport_id,
        origin_vertipad_id: w.origin_vertipad_id,
        target_vertiport_id,
        target_vertipad_id: w.target_vertipad_id,
        path,
        origin_timeslot_start,
        origin_timeslot_end,
        target_timeslot_start,
        target_timeslot_end,
        vehicle_id: w.vehicle_id,
        flight_priority: w.flight_priority,
    })
}

/// The wire record a flight plan translates to, or `FlightPriority`
/// when its priority code is not one the scheduler understands.
pub open spec fn plan_to_wire_spec(p: FlightPlan) -> Result<WireFlightPlan, FlightPlanError> {
    if !priority_code_ok(p.flight_priority as int) {
        Err(FlightPlanError::FlightPriority)
    } else {
        Ok(WireFlightPlan {
            origin_vertiport_id: Some(p.origin_vertiport_id),
            origin_vertipad_id: p.origin_vertipad_id,
            target_vertiport_id: Some(p.target_vertiport_id),
            target_vertipad_id: p.target_vertipad_id,
            path: Some(p.path),
            origin_timeslot_start: Some(p.origin_timeslot_start),
            origin_timeslot_end: Some(p.origin_timeslot_end),
            target_timeslot_start: Some(p.target_timeslot_start),
            target_timeslot_end: Some(p.target_timeslot_end),
            vehicle_id: p.vehicle_id,
            flight_priority: p.flight_priority,
        })
    }
}

/// Translates one flight plan into the scheduler's wire shape.
pub fn flight_plan_to_wire(p: FlightPlan) -> (r: Result<WireFlightPlan, FlightPlanError>)
    ensures
        r == plan_to_wire_spec(p),
{
    if p.flight_priority < FLIGHT_PRIORITY_LOW || p.flight_priority > FLIGHT_PRIORITY_EMERGENCY {
        return Err(FlightPlanError::FlightPriority);
    }
    Ok(WireFlightPlan {
        origin_vertiport_id: Some(p.origin_vertiport_id),
        origin_vertipad_id: p.origin_vertipad_id,
        target_vertiport_id: Some(p.target_vertiport_id),
        target_vertipad_id: p.target_vertipad_id,
        path: Some(p.path),
        origin_timeslot_start: Some(p.origin_timeslot_start),
        origin_timeslot_end: Some(p.origin_timeslot_end),
        target_timeslot_start: Some(p.target_timeslot_start),
        target_timeslot_end: Some(p.target_timeslot_end),
        vehicle_id: p.vehicle_id,
        flight_priority: p.flight_priority,
    })
}

/// The wire records of a sequence of legs, or the error of the first
/// leg that fails to translate.
pub open spec fn translate_plans_spec(plans: Seq<FlightPlan>) -> Result<
    Seq<WireFlightPlan>,
    FlightPlanError,
>
    decreases plans.len(),
{
    if plans.len() == 0 {
        Ok(Seq::<WireFlightPlan>::empty())
    } else {
        match plan_to_wire_spec(plans[0]) {
            Err(e) => Err(e),
            Ok(w) => match translate_plans_spec(plans.skip(1)) {
                Err(e) => Err(e),
                Ok(rest) => Ok(seq![w] + rest),
            },
        }
    }
}

/// Translates every leg into the scheduler's wire shape; a translation
/// failure for any leg fails the whole batch with that leg's error — no
/// partial submission.
pub fn translate_flight_plans(plans: Vec<FlightPlan>) -> (r: Result<
    Vec<WireFlightPlan>,
    FlightPlanError,
>)
    ensures
        match r {
            Ok(ws) => translate_plans_spec(plans@) == Ok::<Seq<WireFlightPlan>, FlightPlanError>(
                ws@,
            ),
            Err(e) => translate_plans_spec(plans@) == Err::<Seq<WireFlightPlan>, FlightPlanError>(
                e,
            ),
        },
{
    let ghost all = plans@;
    let mut remaining = plans;
    let mut out: Vec<WireFlightPlan> = Vec::new();
    while remaining.len() > 0
        invariant
            all == plans@,
            translate_plans_spec(all) == (match translate_plans_spec(remaining@) {
                Ok(rest) => Ok::<Seq<WireFlightPlan>, FlightPlanError>(out@ + rest),
                Err(e) => Err::<Seq<WireFlightPlan>, FlightPlanError>(e),
            }),
        decreases remaining.len(),
    {
        let ghost pre = remaining@;
        let ghost out_pre = out@;
        let p = remaining.remove(0);
        proof {
            assert(remaining@ =~= pre.skip(1));
        }
        match flight_plan_to_wire(p) {
            Err(e) => {
                proof {
                    assert(translate_plans_spec(pre) == Err::<Seq<WireFlightPlan>, FlightPlanError>(
                        e,
                    ));
                }
                return Err(e);
            },
            Ok(w) => {
                out.push(w);
                proof {
                    if translate_plans_spec(pre.skip(1)) is Ok {
                        let rest = translate_plans_spec(pre.skip(1))->Ok_0;
                        assert(translate_plans_spec(pre) == Ok::<
                            Seq<WireFlightPlan>,
                            FlightPlanError,
                        >(seq![w] + rest));
                        assert(out_pre + (seq![w] + rest) =~= out@ + rest);
                    } else {
                        let e2 = translate_plans_spec(pre.skip(1))->Err_0;
                        assert(translate_plans_spec(pre) == Err::<
                            Seq<WireFlightPlan>,
                            FlightPlanError,
                        >(e2));
                    }
                }
            },
        }
    }
    proof {
        assert(translate_plans_spec(remaining@) == Ok::<Seq<WireFlightPlan>, FlightPlanError>(
            Seq::<WireFlightPlan>::empty(),
        ));
        assert(out@ + Seq::<WireFlightPlan>::empty() =~= out@);
    }
    Ok(out)
}

/// The gateway's flight plans for a sequence of wire records, or the
/// error of the first record that fails to convert.
pub open spec fn convert_plans_spec(plans: Seq<WireFlightPlan>) -> Result<
    Seq<FlightPlan>,
    FlightPlanError,
>
    decreases plans.len(),
{
    if plans.len() == 0 {
        Ok(Seq::<FlightPlan>::empty())
    } else {
        match plan_from_wire_spec(plans[0]) {
            Err(e) => Err(e),
            Ok(p) => match convert_plans_spec(plans.skip(1)) {
                Err(e) => Err(e),
                Ok(rest) => Ok(seq![p] + rest),
            },
        }
    }
}

/// Converts every wire record of one proposal; the first invalid record
/// fails the whole proposal with its error.
pub fn convert_flight_plans(plans: Vec<WireFlightPlan>) -> (r: Result<
    Vec<FlightPlan>,
    FlightPlanError,
>)
    ensures
        match r {
            Ok(ps) => convert_plans_spec(plans@) == Ok::<Seq<FlightPlan>, FlightPlanError>(ps@),
            Err(e) => convert_plans_spec(plans@) == Err::<Seq<FlightPlan>, FlightPlanError>(e),
        },
{
    let ghost all = plans@;
    let mut remaining = plans;
    let mut out: Vec<FlightPlan> = Vec::new();
    while remaining.len() > 0
        invariant
            all == plans@,
            convert_plans_spec(all) == (match convert_plans_spec(remaining@) {
                Ok(rest) => Ok::<Seq<FlightPlan>, FlightPlanError>(out@ + rest),
                Err(e) => Err::<Seq<FlightPlan>, FlightPlanError>(e),
            }),
        decreases remaining.len(),
    {
        let ghost pre = remaining@;
        let ghost out_pre = out@;
        let w = remaining.remove(0);
        proof {
            assert(remaining@ =~= pre.skip(1));
        }
        match flight_plan_from_wire(w) {
            Err(e) => {
                proof {
                    assert(convert_plans_spec(pre) == Err::<Seq<FlightPlan>, FlightPlanError>(e));
                }
                return Err(e);
            },
            Ok(p) => {
                out.push(p);
                proof {
                    if convert_plans_spec(pre.skip(1)) is Ok {
                        let rest = convert_plans_spec(pre.skip(1))->Ok_0;
                        assert(convert_plans_spec(pre) == Ok::<Seq<FlightPlan>, FlightPlanError>(
                            seq![p] + rest,
                        ));
                        assert(out_pre + (seq![p] + rest) =~= out@ + rest);
                    } else {
                        let e2 = convert_plans_spec(pre.skip(1))->Err_0;
                        assert(convert_plans_spec(pre) == Err::<Seq<FlightPlan>, FlightPlanError>(
                            e2,
                        ));
                    }
                }
            },
        }
    }
    proof {
        assert(convert_plans_spec(remaining@) == Ok::<Seq<FlightPlan>, FlightPlanError>(
            Seq::<FlightPlan>::empty(),
        ));
        assert(out@ + Seq::<FlightPlan>::empty() =~= out@);
    }
    Ok(out)
}

/// How the scheduler's proposals relate to the itineraries handed back
/// to the customer: each proposal whose legs all convert becomes one
/// itinerary, unpriced and unowned until the pricing step fills it in;
/// a proposal with any invalid leg is skipped.
pub open spec fn unpacked_matches(its: Seq<WireItinerary>, out: Seq<Itinerary>) -> bool
    decreases its.len(),
{
    if its.len() == 0 {
        out.len() == 0
    } else {
        match convert_plans_spec(its[0].flight_plans@) {
            Ok(fps) => out.len() > 0 && ({
                &&& out[0].flight_plans@ == fps
                &&& out[0].currency_unit == CurrencyUnit::Euro
                &&& out[0].invoice@.len() == 0
                &&& out[0].cargo_weight_g == 0
                &&& out[0].user_id@.len() == 0
                &&& out[0].acquisition_vertiport_id@.len() == 0
                &&& out[0].delivery_vertiport_id@.len() == 0
                &&& unpacked_matches(its.skip(1), out.skip(1))
            }),
            Err(_) => unpacked_matches(its.skip(1), out),
        }
    }
}

/// Unpacks the scheduler's proposals into customer-facing itineraries,
/// in order, skipping any proposal with an invalid flight plan.
pub fn unpack_itineraries(itineraries: Vec<WireItinerary>) -> (r: Vec<Itinerary>)
    ensures
        unpacked_matches(itineraries@, r@),
    decreases itineraries@.len(),
{
    let ghost all = itineraries@;
    let mut its = itineraries;
    if its.len() == 0 {
        let empty: Vec<Itinerary> = Vec::new();
        return empty;
    }
    let first = its.remove(0);
    proof {
        assert(its@ =~= all.skip(1));
    }
    let converted = convert_flight_plans(first.flight_plans);
    let mut rest = unpack_itineraries(its);
    match converted {
        Ok(fps) => {
            let itinerary = Itinerary {
                flight_plans: fps,
                currency_unit: CurrencyUnit::Euro,
                invoice: Vec::new(),
                cargo_weight_g: 0,
                user_id: String::new(),
                acquisition_vertiport_id: String::new(),
                delivery_vertiport_id: String::new(),
            };
            let ghost tail = rest@;
            rest.insert(0, itinerary);
            proof {
                assert(rest@[0] == itinerary);
                assert(rest@.skip(1) =~= tail);
            }
            rest
        },
        Err(_) => rest,
    }
}

/// A create-itinerary request in the scheduler's wire shape.
#[derive(Debug)]
pub struct SchedulerRequest {
    /// The translated legs
    pub flight_plans: Vec<WireFlightPlan>,
    /// The priority code of the request
    pub priority: i32,
    /// The absolute deadline handed to the scheduler
    pub expiry_ms: i64,
    /// The owning customer
    pub user_id: String,
}

/// Builds the scheduler's create-itinerary request at low priority: all
/// legs translated, or the first failing leg's error and no request.
pub fn build_scheduler_request(
    flight_plans: Vec<FlightPlan>,
    user_id: String,
    expiry_ms: i64,
) -> (r: Result<SchedulerRequest, FlightPlanError>)
    ensures
        match r {
            Ok(req) => {
                &&& translate_plans_spec(flight_plans@) == Ok::<
                    Seq<WireFlightPlan>,
                    FlightPlanError,
                >(req.flight_plans@)
                &&& req.priority == FLIGHT_PRIORITY_LOW
                &&& req.expiry_ms == expiry_ms
                &&& req.user_id == user_id
            },
            Err(e) => translate_plans_spec(flight_plans@) == Err::<
                Seq<WireFlightPlan>,
                FlightPlanError,
            >(e),
        },
{
    let wire_plans = match translate_flight_plans(flight_plans) {
        Ok(ws) => ws,
        Err(e) => {
            return Err(e);
        },
    };
    Ok(SchedulerRequest {
        flight_plans: wire_plans,
        priority: FLIGHT_PRIORITY_LOW,
        expiry_ms,
        user_id,
    })
}

/// A query-flight request in the scheduler's wire shape.
#[derive(Debug)]
pub struct FlightQueryRequest {
    /// This is a cargo request
    pub is_cargo: bool,
    /// Number of persons (unused for cargo)
    pub persons: Option<u32>,
    /// The weight of the cargo, grams
    pub weight_grams: Option<u32>,
    /// The vertiport to leave from
    pub origin_vertiport_id: String,
    /// The destination vertiport
    pub target_vertiport_id: String,
    /// The earliest departure instant
    pub earliest_departure_time: Option<i64>,
    /// The latest arrival instant
    pub latest_arrival_time: Option<i64>,
    /// The priority code of the request
    pub priority: i32,
}

/// Builds the scheduler's flight query from a validated customer
/// payload: earliest departure is the window's start, latest arrival is
/// the search horizon from the current instant.  An invalid payload is
/// rejected with its first failing check, before any remote call.
pub fn build_flight_query(payload: &QueryItineraryRequest, now_ms: i64) -> (r: Result<
    FlightQueryRequest,
    ValidationError,
>)
    requires
        now_ms <= i64::MAX - MAX_TIME_WINDOW_MS,
    ensures
        r is Ok <==> validate_payload_spec(*payload, now_ms as int) is Ok,
        match r {
            Ok(q) => {
                &&& q.is_cargo
                &&& q.persons is None
                &&& q.weight_grams == Some(payload.cargo_weight_g)
                &&& q.origin_vertiport_id@ == payload.origin_vertiport_id@
                &&& q.target_vertiport_id@ == payload.target_vertiport_id@
                &&& q.earliest_departure_time == Some(payload.time_depart_window.timestamp_min)
                &&& q.latest_arrival_time == Some((now_ms + MAX_TIME_WINDOW_MS) as i64)
                &&& q.priority == FLIGHT_PRIORITY_LOW
            },
            Err(e) => validate_payload_spec(*payload, now_ms as int) == Err::<(), ValidationError>(
                e,
            ),
        },
{
    match validate_payload(payload, now_ms) {
        Ok(()) => (),
        Err(e) => {
            return Err(e);
        },
    };
    let latest: i64 = now_ms + MAX_TIME_WINDOW_MS;
    Ok(FlightQueryRequest {
        is_cargo: true,
        persons: None,
        weight_grams: Some(payload.cargo_weight_g),
        origin_vertiport_id: payload.origin_vertiport_id.clone(),
        target_vertiport_id: payload.target_vertiport_id.clone(),
        earliest_departure_time: Some(payload.time_depart_window.timestamp_min),
        latest_arrival_time: Some(latest),
        priority: FLIGHT_PRIORITY_LOW,
    })
}

/// A scheduling task's status as the scheduler reports it.
#[derive(Debug, Clone, Copy, PartialEq, Eq, Structural)]
pub enum TaskStatus {
    /// Task is waiting to be processed
    Queued,
    /// Task completed: the itinerary is confirmed
    Complete,
    /// The scheduler lost track of the task
    NotFound,
    /// The scheduler declined the itinerary
    Rejected,
}

/// What one status query observed, as the driver hands it back.
#[derive(Debug)]
pub enum PollResponse {
    /// The status query itself failed
    QueryFailed,
    /// The reply carried no task metadata
    NoMetadata,
    /// The reply's status code was not a known status
    UnknownStatus,
    /// A well-formed status report
    Report {
        /// The reported status
        status: TaskStatus,
        /// The confirmed itinerary id, populated only when complete
        result: Option<String>,
        /// The rejection rationale code, populated only when rejected
        rationale: Option<i32>,
    },
}

/// The customer-visible outcome of following one scheduling task.
#[derive(Debug)]
pub enum PollOutcome {
    /// The scheduler confirmed the itinerary
    Complete {
        /// The confirmed itinerary id the scheduler returned
        confirmed_itinerary_id: String,
    },
    /// The scheduler declined the itinerary; not retryable as-is
    Rejected,
    /// The scheduler failed, lost the task, or replied unreadably
    Internal,
    /// No terminal status arrived before the deadline
    TimedOut,
}

/// What one poll iteration decides.
#[derive(Debug)]
pub enum PollStep {
    /// No state change; keep polling
    Continue,
    /// A terminal outcome; polling stops
    Terminal(PollOutcome),
}

/// A poll outcome reduced to its view, for contracts.
pub enum PollVerdict {
    /// Confirmed, with the id's characters
    Complete(Seq<char>),
    /// Declined
    Rejected,
    /// Internal failure
    Internal,
    /// Deadline passed
    TimedOut,
}

/// The view of an outcome.
pub open spec fn outcome_view(o: PollOutcome) -> PollVerdict {
    match o {
        PollOutcome::Complete { confirmed_itinerary_id } => PollVerdict::Complete(
            confirmed_itinerary_id@,
        ),
        PollOutcome::Rejected => PollVerdict::Rejected,
        PollOutcome::Internal => PollVerdict::Internal,
        PollOutcome::TimedOut => PollVerdict::TimedOut,
    }
}

/// What one observation decides: `None` keeps polling, `Some` stops
/// with that verdict.  A completed task yields its result string, or
/// the empty string when the scheduler omitted it; a lost task and
/// every unreadable reply are internal errors; a rejection is terminal
/// and not retryable.
pub open spec fn step_verdict(response: PollResponse) -> Option<PollVerdict> {
    match response {
        PollResponse::QueryFailed => Some(PollVerdict::Internal),
        PollResponse::NoMetadata => Some(PollVerdict::Internal),
        PollResponse::UnknownStatus => Some(PollVerdict::Internal),
        PollResponse::Report { status, result, rationale } => match status {
            TaskStatus::Queued => None,
            TaskStatus::Complete => Some(
                PollVerdict::Complete(
                    match result {
                        Some(s) => s@,
                        None => Seq::<char>::empty(),
                    },
                ),
            ),
            TaskStatus::NotFound => Some(PollVerdict::Internal),
            TaskStatus::Rejected => Some(PollVerdict::Rejected),
        },
    }
}

/// Decides one poll iteration from what the status query observed.
pub fn poll_step(response: PollResponse) -> (s: PollStep)
    ensures
        match s {
            PollStep::Continue => step_verdict(response) is None,
            PollStep::Terminal(o) => step_verdict(response) == Some(outcome_view(o)),
        },
{
    match response {
        PollResponse::QueryFailed => PollStep::Terminal(PollOutcome::Internal),
        PollResponse::NoMetadata => PollStep::Terminal(PollOutcome::Internal),
        PollResponse::UnknownStatus => PollStep::Terminal(PollOutcome::Internal),
        PollResponse::Report { status, result, rationale: _ } => match status {
            TaskStatus::Queued => PollStep::Continue,
            TaskStatus::Complete => {
                let id = match result {
                    Some(s) => s,
                    None => String::new(),
                };
                PollStep::Terminal(PollOutcome::Complete { confirmed_itinerary_id: id })
            },
            TaskStatus::NotFound => PollStep::Terminal(PollOutcome::Internal),
            TaskStatus::Rejected => PollStep::Terminal(PollOutcome::Rejected),
        },
    }
}

/// One tick of the polling loop: the clock reading taken before the
/// status query, and what the query observed.
#[derive(Debug)]
pub struct PollTick {
    /// The clock reading at the top of the iteration
    pub now_ms: i64,
    /// The observation of this iteration's status query
    pub response: PollResponse,
}

/// The verdict of running the polling loop over a transcript of ticks:
/// the deadline is checked first in each iteration, so a tick at or
/// past `expiry_ms` times the task out regardless of its observation;
/// otherwise the tick's observation decides.  `None` when the
/// transcript ends with the task still queued.
pub open spec fn poll_verdict(expiry_ms: int, ticks: Seq<PollTick>) -> Option<PollVerdict>
    decreases ticks.len(),
{
    if ticks.len() == 0 {
        None
    } else if ticks[0].now_ms >= expiry_ms {
        Some(PollVerdict::TimedOut)
    } else {
        match step_verdict(ticks[0].response) {
            Some(v) => Some(v),
            None => poll_verdict(expiry_ms, ticks.skip(1)),
        }
    }
}

/// The result of running the polling loop to a terminal state.
#[derive(Debug)]
pub struct PollRun {
    /// The terminal outcome
    pub outcome: PollOutcome,
    /// The task ids for which a best-effort cancel was fired
    pub cancel_requests: Vec<i64>,
}

/// Runs the polling state machine over a transcript of observations.
///
/// Exactly one cancel request is issued, carrying the polled task's
/// handle, if and only if the run times out; every terminal scheduler
/// status maps to its
/// own distinct outcome.  Returns `None` when the transcript ends with
/// the task still queued (a live driver keeps polling until the clock
/// itself forces a tick past the deadline).
pub fn poll_run(task_id: i64, expiry_ms: i64, ticks: Vec<PollTick>) -> (r: Option<PollRun>)
    ensures
        match r {
            Some(run) => {
                &&& poll_verdict(expiry_ms as int, ticks@) == Some(outcome_view(run.outcome))
                &&& run.cancel_requests@.len() == (if run.outcome is TimedOut {
                    1int
                } else {
                    0int
                })
                &&& (forall|i: int|
                    0 <= i < run.cancel_requests@.len() ==> run.cancel_requests@[i] == task_id)
            },
            None => poll_verdict(expiry_ms as int, ticks@) is None,
        },
{
    let ghost all = ticks@;
    let mut remaining = ticks;
    while remaining.len() > 0
        invariant
            all == ticks@,
            poll_verdict(expiry_ms as int, all) == poll_verdict(expiry_ms as int, remaining@),
        decreases remaining.len(),
    {
        let ghost pre = remaining@;
        let tick = remaining.remove(0);
        proof {
            assert(pre[0] == tick);
            assert(remaining@ =~= pre.skip(1));
        }
        if tick.now_ms >= expiry_ms {
            proof {
                assert(poll_verdict(expiry_ms as int, pre) == Some(PollVerdict::TimedOut));
            }
            let mut cancels: Vec<i64> = Vec::new();
            cancels.push(task_id);
            return Some(PollRun { outcome: PollOutcome::TimedOut, cancel_requests: cancels });
        }
        let ghost tick_ghost = tick;
        match poll_step(tick.response) {
            PollStep::Continue => {
                proof {
                    assert(poll_verdict(expiry_ms as int, pre) == poll_verdict(
                        expiry_ms as int,
                        pre.skip(1),
                    ));
                }
            },
            PollStep::Terminal(o) => {
                proof {
                    assert(poll_verdict(expiry_ms as int, pre) == Some(outcome_view(o)));
                    assert(!(o is TimedOut)) by {
                        assert(step_verdict(tick_ghost.response) == Some(outcome_view(o)));
                    }
                }
                return Some(PollRun { outcome: o, cancel_requests: Vec::new() });
            },
        }
    }
    None
}

/// Poll terminal coverage, tick by tick: a tick at or past the deadline
/// times the task out whatever it observed; before the deadline, a
/// completed task ends the run with its confirmed id, a rejection ends
/// it as `Rejected`, a lost task ends it as `Internal`, and a queued
/// status leaves the verdict to the rest of the transcript.  The four
/// terminal verdicts are pairwise distinct.
pub proof fn lemma_poll_terminal_coverage(expiry_ms: int, tick: PollTick, rest: Seq<PollTick>)
    ensures
        tick.now_ms >= expiry_ms ==> poll_verdict(expiry_ms, seq![tick] + rest) == Some(
            PollVerdict::TimedOut,
        ),
        tick.now_ms < expiry_ms ==> poll_verdict(expiry_ms, seq![tick] + rest) == (match
            step_verdict(tick.response) {
            Some(v) => Some(v),
            None => poll_verdict(expiry_ms, rest),
        }),
        tick.now_ms < expiry_ms ==> (match tick.response {
            PollResponse::Report { status: TaskStatus::Queued, .. } => poll_verdict(
                expiry_ms,
                seq![tick] + rest,
            ) == poll_verdict(expiry_ms, rest),
            PollResponse::Report { status: TaskStatus::Rejected, .. } => poll_verdict(
                expiry_ms,
                seq![tick] + rest,
            ) == Some(PollVerdict::Rejected),
            PollResponse::Report { status: TaskStatus::NotFound, .. } => poll_verdict(
                expiry_ms,
                seq![tick] + rest,
            ) == Some(PollVerdict::Internal),
            _ => true,
        }),
{
    let ticks = seq![tick] + rest;
    assert(ticks[0] == tick);
    assert(ticks.skip(1) =~= rest);
}


} // verus!
