use svc_cargo::pricing::{any_leg_weighted, pricing_weights};
use svc_cargo::scheduler::{flight_plan_from_wire, WireFlightPlan, FLIGHT_PRIORITY_LOW};
use svc_cargo::types::{FlightPlan, QueryItineraryRequest, TimeWindow};

fn plan_between(origin: &str, target: &str) -> FlightPlan {
    flight_plan_from_wire(WireFlightPlan {
        origin_vertiport_id: Some(origin.to_string()),
        origin_vertipad_id: uuid::Uuid::new_v4().to_string(),
        target_vertiport_id: Some(target.to_string()),
        target_vertipad_id: uuid::Uuid::new_v4().to_string(),
        path: Some(Vec::new()),
        origin_timeslot_start: Some(1_700_000_000_000),
        origin_timeslot_end: Some(1_700_000_600_000),
        target_timeslot_start: Some(1_700_003_600_000),
        target_timeslot_end: Some(1_700_004_200_000),
        vehicle_id: uuid::Uuid::new_v4().to_string(),
        flight_priority: FLIGHT_PRIORITY_LOW,
    })
    .expect("well-formed wire plan")
}

#[test]
fn test_pricing_weights() {
    let depot = uuid::Uuid::new_v4().to_string();
    let origin = uuid::Uuid::new_v4().to_string();
    let target = uuid::Uuid::new_v4().to_string();
    let payload = QueryItineraryRequest {
        origin_vertiport_id: origin.clone(),
        target_vertiport_id: target.clone(),
        time_depart_window: TimeWindow {
            timestamp_min: 1_700_000_360_000,
            timestamp_max: 1_700_000_960_000,
        },
        cargo_weight_g: 4_000,
        user_id: uuid::Uuid::new_v4().to_string(),
    };

    // a deadhead leg to the pickup, the carrying leg, and a deadhead home
    let plans = vec![
        plan_between(&depot, &origin),
        plan_between(&origin, &target),
        plan_between(&target, &depot),
    ];
    let weights = pricing_weights(&plans, &payload);
    assert_eq!(weights, vec![0, 4_000, 0]);
    assert!(any_leg_weighted(&weights));

    // an itinerary that never touches the customer's endpoints prices no cargo
    let plans = vec![plan_between(&depot, &depot)];
    let weights = pricing_weights(&plans, &payload);
    assert_eq!(weights, vec![0]);
    assert!(!any_leg_weighted(&weights));
}
