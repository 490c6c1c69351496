use svc_cargo::types::{
    FlightPlanError, ItineraryCancelRequest, OpenApiError, QueryItineraryRequest, TimeWindow,
    MAX_CARGO_WEIGHT_G,
};
use svc_cargo::validate::{validate_payload, ValidationError, ADVANCE_NOTICE_MS};

const MINUTE_MS: i64 = 60_000;

fn valid_payload(now: i64) -> QueryItineraryRequest {
    QueryItineraryRequest {
        cargo_weight_g: MAX_CARGO_WEIGHT_G,
        time_depart_window: TimeWindow {
            timestamp_min: now + ADVANCE_NOTICE_MS + MINUTE_MS,
            timestamp_max: now + ADVANCE_NOTICE_MS + 11 * MINUTE_MS,
        },
        target_vertiport_id: uuid::Uuid::new_v4().to_string(),
        user_id: uuid::Uuid::new_v4().to_string(),
        origin_vertiport_id: uuid::Uuid::new_v4().to_string(),
    }
}

#[test]
fn test_validate_payload() {
    let now: i64 = 1_700_000_000_000;
    let mut payload = valid_payload(now);

    validate_payload(&payload, now).unwrap();

    // bad weight
    payload.cargo_weight_g = MAX_CARGO_WEIGHT_G + 1;
    assert_eq!(validate_payload(&payload, now), Err(ValidationError::Weight));
    payload.cargo_weight_g = MAX_CARGO_WEIGHT_G;

    // min time too soon
    payload.time_depart_window.timestamp_min = now + ADVANCE_NOTICE_MS - MINUTE_MS;
    assert_eq!(
        validate_payload(&payload, now),
        Err(ValidationError::TimeWindowMin)
    );
    payload.time_depart_window.timestamp_min = now + ADVANCE_NOTICE_MS + MINUTE_MS;

    // bad max time (<= min time)
    payload.time_depart_window.timestamp_max = payload.time_depart_window.timestamp_min;
    assert_eq!(
        validate_payload(&payload, now),
        Err(ValidationError::TimeWindowMax)
    );
    payload.time_depart_window.timestamp_max = payload.time_depart_window.timestamp_min - 1;
    assert_eq!(
        validate_payload(&payload, now),
        Err(ValidationError::TimeWindowMax)
    );

    // max time in the past
    payload.time_depart_window.timestamp_max = now - 10_000;
    payload.time_depart_window.timestamp_min = payload.time_depart_window.timestamp_max - 10_000;
    assert_eq!(
        validate_payload(&payload, now),
        Err(ValidationError::TimeWindowMax)
    );

    payload.time_depart_window.timestamp_min = now + ADVANCE_NOTICE_MS + MINUTE_MS;
    payload.time_depart_window.timestamp_max =
        payload.time_depart_window.timestamp_min + 10 * MINUTE_MS;

    // bad target vertiport id
    payload.target_vertiport_id = "not a uuid".to_string();
    assert_eq!(
        validate_payload(&payload, now),
        Err(ValidationError::TargetVertiportId)
    );
    payload.target_vertiport_id = uuid::Uuid::new_v4().to_string();

    // bad user id
    payload.user_id = "not a uuid".to_string();
    assert_eq!(validate_payload(&payload, now), Err(ValidationError::UserId));
    payload.user_id = uuid::Uuid::new_v4().to_string();

    // bad origin vertiport id
    payload.origin_vertiport_id = "not a uuid".to_string();
    assert_eq!(
        validate_payload(&payload, now),
        Err(ValidationError::OriginVertiportId)
    );
    payload.origin_vertiport_id = uuid::Uuid::new_v4().to_string();
}

#[test]
fn test_weight_boundary() {
    let now: i64 = 1_700_000_000_000;
    let mut payload = valid_payload(now);

    // exactly at the maximum: accepted
    payload.cargo_weight_g = MAX_CARGO_WEIGHT_G;
    assert!(validate_payload(&payload, now).is_ok());

    // one gram over: rejected, before any remote call
    payload.cargo_weight_g = MAX_CARGO_WEIGHT_G + 1;
    assert_eq!(validate_payload(&payload, now), Err(ValidationError::Weight));
}

#[test]
fn test_validation_error_display() {
    assert_eq!(ValidationError::Weight.to_text(), "invalid weight".to_string());
    assert_eq!(
        ValidationError::TimeWindowMin.to_text(),
        "invalid time window min".to_string()
    );
    assert_eq!(
        ValidationError::TimeWindowMax.to_text(),
        "invalid time window max".to_string()
    );
    assert_eq!(
        ValidationError::OriginVertiportId.to_text(),
        "invalid origin vertiport id".to_string()
    );
    assert_eq!(
        ValidationError::TargetVertiportId.to_text(),
        "invalid target vertiport id".to_string()
    );
    assert_eq!(ValidationError::UserId.to_text(), "invalid user id".to_string());
    assert_eq!(
        ValidationError::BadTimeDelta.to_text(),
        "could not get time delta".to_string()
    );
}

#[test]
fn test_flight_plan_error_display() {
    assert_eq!(
        FlightPlanError::OriginVertiportId.to_text(),
        "Invalid Origin Vertiport ID"
    );
    assert_eq!(
        FlightPlanError::TargetVertiportId.to_text(),
        "Invalid Target Vertiport ID"
    );
    assert_eq!(FlightPlanError::VehicleId.to_text(), "Invalid Vehicle ID");
    assert_eq!(
        FlightPlanError::OriginVertipadId.to_text(),
        "Invalid Origin Vertipad ID"
    );
    assert_eq!(
        FlightPlanError::TargetVertipadId.to_text(),
        "Invalid Target Vertipad ID"
    );
    assert_eq!(FlightPlanError::Path.to_text(), "Invalid Path");
    assert_eq!(
        FlightPlanError::TargetTimeslotStart.to_text(),
        "Invalid Target Timeslot Start"
    );
    assert_eq!(
        FlightPlanError::TargetTimeslotEnd.to_text(),
        "Invalid Target Timeslot End"
    );
    assert_eq!(
        FlightPlanError::OriginTimeslotStart.to_text(),
        "Invalid Origin Timeslot Start"
    );
    assert_eq!(
        FlightPlanError::OriginTimeslotEnd.to_text(),
        "Invalid Origin Timeslot End"
    );
    assert_eq!(
        FlightPlanError::FlightPriority.to_text(),
        "Invalid Flight Priority"
    );
}

#[test]
fn test_openapi_error_display() {
    assert_eq!(OpenApiError::Json.to_text(), "Failed to export as JSON string");
    assert_eq!(OpenApiError::FileWrite.to_text(), "Failed to write to file");
}

#[test]
fn test_uuid_canonical_form_only() {
    let canonical = uuid::Uuid::new_v4();
    let mut payload = ItineraryCancelRequest {
        id: canonical.as_hyphenated().to_string(),
        user_id: canonical.as_hyphenated().to_string(),
    };
    assert!(svc_cargo::query::cancel_request_check(&payload));

    // the other forms the parser knows are deliberately rejected
    payload.id = canonical.as_simple().to_string();
    assert!(!svc_cargo::query::cancel_request_check(&payload));
    payload.id = canonical.as_braced().to_string();
    assert!(!svc_cargo::query::cancel_request_check(&payload));
    payload.id = canonical.as_urn().to_string();
    assert!(!svc_cargo::query::cancel_request_check(&payload));
}
