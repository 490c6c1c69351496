use svc_cargo::query::{
    cancel_request_check, cargo_scan_from_record, occupation_from_record,
    occupations_request_validation, ArrivalData, ArrivalRecord, CargoScan, OccupationError,
    QueryError, QueryScheduleRequest, ScanData, ScanError, ScanRecord, MAX_LANDINGS_TO_RETURN,
};
use svc_cargo::types::{ItineraryCancelRequest, PathPoint, TimeWindow};

#[test]
fn test_query_occupations() {
    let now: i64 = 1_700_000_000_000;

    // invalid vertiport ID
    let request = QueryScheduleRequest {
        vertiport_id: "invalid".to_string(),
        arrival_window: Some(TimeWindow { timestamp_min: now, timestamp_max: now }),
        limit: MAX_LANDINGS_TO_RETURN,
    };
    let response = occupations_request_validation(request).unwrap_err();
    assert_eq!(response, QueryError::VertiportId);

    // invalid limit
    let request = QueryScheduleRequest {
        vertiport_id: "123".to_string(),
        arrival_window: Some(TimeWindow { timestamp_min: now, timestamp_max: now }),
        limit: MAX_LANDINGS_TO_RETURN + 1,
    };
    let response = occupations_request_validation(request).unwrap_err();
    assert_eq!(response, QueryError::Limit);

    // invalid arrival window
    let request = QueryScheduleRequest {
        vertiport_id: uuid::Uuid::new_v4().to_string(),
        arrival_window: None,
        limit: MAX_LANDINGS_TO_RETURN,
    };
    let response = occupations_request_validation(request).unwrap_err();
    assert_eq!(response, QueryError::ArrivalWindow);

    // valid
    let expected_time_window = TimeWindow { timestamp_min: now, timestamp_max: now + 1_000 };
    let request = QueryScheduleRequest {
        vertiport_id: uuid::Uuid::new_v4().to_string(),
        arrival_window: Some(expected_time_window),
        limit: MAX_LANDINGS_TO_RETURN,
    };
    let result = occupations_request_validation(request.clone()).unwrap();
    assert_eq!(
        result.arrival_window.timestamp_max,
        expected_time_window.timestamp_max
    );
    assert_eq!(
        result.arrival_window.timestamp_min,
        expected_time_window.timestamp_min
    );
    assert_eq!(result.vertiport_id, request.vertiport_id);
    assert_eq!(result.limit as u32, request.limit);
}

#[test]
fn test_query_error_display() {
    assert_eq!(QueryError::VertiportId.to_text(), "Invalid vertiport ID");
    assert_eq!(QueryError::ArrivalWindow.to_text(), "Arrival window not specified");
    assert_eq!(
        QueryError::Limit.to_text(),
        format!("Specified limit beyond max of {MAX_LANDINGS_TO_RETURN}")
    );
}

fn scan_record() -> ScanRecord {
    ScanRecord {
        id: uuid::Uuid::new_v4().to_string(),
        data: Some(ScanData {
            scanner_id: uuid::Uuid::new_v4().to_string(),
            geo_location: Some(PathPoint {
                latitude_udeg: 52_640_000,
                longitude_udeg: 5_167_000,
                altitude_mm: 10_000,
            }),
            created_at: Some(1_700_000_000_000),
        }),
    }
}

#[test]
fn test_try_from_parcel_scan_object() {
    // valid
    cargo_scan_from_record(scan_record()).unwrap();

    // invalid data
    let mut record = scan_record();
    record.data = None;
    assert_eq!(cargo_scan_from_record(record).unwrap_err(), ScanError::Data);

    // invalid location
    let mut record = scan_record();
    if let Some(data) = record.data.as_mut() {
        data.geo_location = None;
    }
    assert_eq!(cargo_scan_from_record(record).unwrap_err(), ScanError::Location);

    // invalid created_at
    let mut record = scan_record();
    if let Some(data) = record.data.as_mut() {
        data.created_at = None;
    }
    assert_eq!(cargo_scan_from_record(record).unwrap_err(), ScanError::CreatedAt);
}

fn arrival_record() -> ArrivalRecord {
    ArrivalRecord {
        id: uuid::Uuid::new_v4().to_string(),
        data: Some(ArrivalData {
            target_vertipad_id: uuid::Uuid::new_v4().to_string(),
            vehicle_id: uuid::Uuid::new_v4().to_string(),
            target_timeslot_start: Some(1_700_003_600_000),
            target_timeslot_end: Some(1_700_004_200_000),
        }),
    }
}

#[test]
fn test_try_from_flight_plan_object() {
    // valid
    let record = arrival_record();
    let expected_id = record.id.clone();
    let occupation = occupation_from_record(record).unwrap();
    assert_eq!(occupation.flight_plan_id, expected_id);
    assert_eq!(occupation.time_window.timestamp_min, 1_700_003_600_000);
    assert_eq!(occupation.time_window.timestamp_max, 1_700_004_200_000);
    assert!(occupation.vertipad_display_name.is_none());
    assert!(occupation.aircraft_nickname.is_none());
    assert!(occupation.cargo_acquire.is_empty());
    assert!(occupation.cargo_deliver.is_empty());

    // invalid data
    let mut record = arrival_record();
    record.data = None;
    assert_eq!(occupation_from_record(record).unwrap_err(), OccupationError::Data);

    // invalid target_timeslot_start
    let mut record = arrival_record();
    if let Some(data) = record.data.as_mut() {
        data.target_timeslot_start = None;
    }
    assert_eq!(
        occupation_from_record(record).unwrap_err(),
        OccupationError::TargetTimeslotStart
    );

    // invalid target_timeslot_end
    let mut record = arrival_record();
    if let Some(data) = record.data.as_mut() {
        data.target_timeslot_end = None;
    }
    assert_eq!(
        occupation_from_record(record).unwrap_err(),
        OccupationError::TargetTimeslotEnd
    );
}

fn valid_scan() -> CargoScan {
    CargoScan {
        scanner_id: "00000000-0000-0000-0000-000000000001".to_string(),
        parcel_id: "00000000-0000-0000-0000-000000000000".to_string(),
        latitude_udeg: 0,
        longitude_udeg: 0,
        altitude_mm: 0,
        timestamp_ms: 1_700_000_000_000,
    }
}

#[test]
fn test_scan_parcel_nominal() {
    let scan = valid_scan();
    assert!(svc_cargo::query::scan_request_check(&scan));
}

#[test]
fn test_scan_parcel_invalid_ids() {
    let parcel_id = "00000000-0000-0000-0000-000000000000";
    let scanner_id = "00000000-0000-0000-0000-000000000001";

    let mut scan_data = CargoScan {
        parcel_id: parcel_id.to_string().replace("-", ""),
        scanner_id: scanner_id.to_string(),
        latitude_udeg: 90_000_000,
        longitude_udeg: 180_000_000,
        altitude_mm: 0,
        timestamp_ms: 1_700_000_000_000,
    };

    assert!(!svc_cargo::query::scan_request_check(&scan_data));
    scan_data.parcel_id = parcel_id.to_string();

    // Bad scanner ID
    scan_data.scanner_id = scanner_id.to_string().replace("-", "");
    assert!(!svc_cargo::query::scan_request_check(&scan_data));
    scan_data.scanner_id = scanner_id.to_string();

    // reset
    assert!(svc_cargo::query::scan_request_check(&scan_data));

    // bad latitude, a hundredth of a degree beyond either pole
    for latitude_udeg in [-90_010_000i64, 90_010_000i64] {
        scan_data.latitude_udeg = latitude_udeg;
        assert!(!svc_cargo::query::scan_request_check(&scan_data));
    }
    scan_data.latitude_udeg = 0;

    // bad longitude
    for longitude_udeg in [-180_010_000i64, 180_010_000i64] {
        scan_data.longitude_udeg = longitude_udeg;
        assert!(!svc_cargo::query::scan_request_check(&scan_data));
    }
    scan_data.longitude_udeg = 0;
}

#[test]
fn test_scan_parcel_coordinate_range() {
    // the poles and the antimeridian are on the globe
    let mut scan = valid_scan();
    scan.latitude_udeg = 90_000_000;
    scan.longitude_udeg = 180_000_000;
    assert!(svc_cargo::query::scan_request_check(&scan));
    scan.latitude_udeg = -90_000_000;
    scan.longitude_udeg = -180_000_000;
    assert!(svc_cargo::query::scan_request_check(&scan));

    // a hundredth of a degree beyond either bound is rejected
    for latitude in [-90_010_000i64, 90_010_000i64] {
        let mut scan = valid_scan();
        scan.latitude_udeg = latitude;
        assert!(!svc_cargo::query::scan_request_check(&scan));
    }
    for longitude in [-180_010_000i64, 180_010_000i64] {
        let mut scan = valid_scan();
        scan.longitude_udeg = longitude;
        assert!(!svc_cargo::query::scan_request_check(&scan));
    }
}

#[test]
fn test_cancel_itinerary() {
    // invalid itinerary UUID
    let payload = ItineraryCancelRequest {
        id: "".to_string(),
        user_id: "00000000-0000-0000-0000-000000000000".to_string(),
    };
    assert!(!cancel_request_check(&payload));

    // invalid user UUID
    let payload = ItineraryCancelRequest {
        id: "00000000-0000-0000-0000-000000000000".to_string(),
        user_id: "".to_string(),
    };
    assert!(!cancel_request_check(&payload));

    let payload = ItineraryCancelRequest {
        id: "00000000-0000-0000-0000-000000000000".to_string(),
        user_id: "00000000-0000-0000-0000-000000000000".to_string(),
    };
    assert!(cancel_request_check(&payload));
}
