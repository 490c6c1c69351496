use svc_cargo::registrar::{
    make_parcel_data, match_legs, plan_links, register_plan, resolve_endpoint, resolve_leg,
    LegData, LegRecord, ParcelStatus, RegisterError, ResolvedLeg,
};
use svc_cargo::types::{CurrencyUnit, Itinerary};

fn leg(id: &str, origin: &str, target: &str) -> ResolvedLeg {
    ResolvedLeg {
        id: id.to_string(),
        origin_vertiport_id: origin.to_string(),
        target_vertiport_id: target.to_string(),
    }
}

#[test]
fn test_make_parcel_data() {
    let user_id = uuid::Uuid::new_v4().to_string();
    let itinerary = Itinerary {
        flight_plans: Vec::new(),
        currency_unit: CurrencyUnit::Euro,
        invoice: Vec::new(),
        cargo_weight_g: 3_500,
        user_id: user_id.clone(),
        acquisition_vertiport_id: uuid::Uuid::new_v4().to_string(),
        delivery_vertiport_id: uuid::Uuid::new_v4().to_string(),
    };
    let parcel = make_parcel_data(&itinerary);
    assert_eq!(parcel.user_id, user_id);
    assert_eq!(parcel.weight_grams, 3_500);
    assert_eq!(parcel.status, ParcelStatus::NotDroppedOff);
}

#[test]
fn test_resolve_endpoint() {
    // a direct id wins over any lookup
    let direct = resolve_endpoint(Some("V1".to_string()), Some("V2".to_string()));
    assert_eq!(direct, Some("V1".to_string()));
    // without a direct id the lookup's answer decides
    let looked_up = resolve_endpoint(None, Some("V2".to_string()));
    assert_eq!(looked_up, Some("V2".to_string()));
    assert_eq!(resolve_endpoint(None, None), None);
}

#[test]
fn test_resolve_leg() {
    let record = LegRecord {
        id: "FP1".to_string(),
        data: Some(LegData {
            origin_vertiport_id: None,
            origin_vertipad_id: "PAD1".to_string(),
            target_vertiport_id: Some("V2".to_string()),
            target_vertipad_id: "PAD2".to_string(),
        }),
    };
    let resolved = resolve_leg(record, Some("V1".to_string()), None).unwrap();
    assert_eq!(resolved.id, "FP1");
    assert_eq!(resolved.origin_vertiport_id, "V1");
    assert_eq!(resolved.target_vertiport_id, "V2");

    // a record without data aborts the registration
    let record = LegRecord { id: "FP1".to_string(), data: None };
    assert_eq!(
        resolve_leg(record, None, None).unwrap_err(),
        RegisterError::PlanDataMissing
    );

    // an endpoint neither carried directly nor resolved by lookup is fatal
    let record = LegRecord {
        id: "FP1".to_string(),
        data: Some(LegData {
            origin_vertiport_id: None,
            origin_vertipad_id: "PAD1".to_string(),
            target_vertiport_id: None,
            target_vertipad_id: "PAD2".to_string(),
        }),
    };
    assert_eq!(
        resolve_leg(record, None, Some("V2".to_string())).unwrap_err(),
        RegisterError::UnresolvedOrigin
    );
}

#[test]
fn test_match_legs() {
    let legs = vec![leg("FP1", "V0", "V1"), leg("FP2", "V1", "V2"), leg("FP3", "V2", "V3")];
    let (acq, del) = match_legs(&legs, &"V1".to_string(), &"V3".to_string()).unwrap();
    assert_eq!(acq, "FP2");
    assert_eq!(del, "FP3");

    let err = match_legs(&legs, &"V9".to_string(), &"V3".to_string()).unwrap_err();
    assert_eq!(err, RegisterError::AcquisitionLegNotFound);

    let err = match_legs(&legs, &"V1".to_string(), &"V9".to_string()).unwrap_err();
    assert_eq!(err, RegisterError::DeliveryLegNotFound);
}

#[test]
fn test_plan_links_two_rows() {
    let links = plan_links("FP2".to_string(), "FP3".to_string(), "P1".to_string());
    assert_eq!(links.len(), 2);
    assert_eq!(links[0].flight_plan_id, "FP2");
    assert_eq!(links[0].parcel_id, "P1");
    assert!(links[0].acquire);
    assert!(!links[0].deliver);
    assert_eq!(links[1].flight_plan_id, "FP3");
    assert_eq!(links[1].parcel_id, "P1");
    assert!(!links[1].acquire);
    assert!(links[1].deliver);
}

#[test]
fn test_register_three_legs() {
    // three legs; leg 2's origin is the acquisition vertiport and leg 3's
    // target is the delivery vertiport: exactly legs 2 and 3 are linked
    let legs = vec![leg("FP1", "V0", "V1"), leg("FP2", "V1", "V2"), leg("FP3", "V2", "V3")];
    let links = register_plan(&legs, &"V1".to_string(), &"V3".to_string(), "P1".to_string())
        .unwrap();
    assert_eq!(links.len(), 2);
    assert_eq!(links[0].flight_plan_id, "FP2");
    assert!(links[0].acquire && !links[0].deliver);
    assert_eq!(links[1].flight_plan_id, "FP3");
    assert!(!links[1].acquire && links[1].deliver);
    assert_eq!(links[0].parcel_id, "P1");
    assert_eq!(links[1].parcel_id, "P1");
}

#[test]
fn test_register_single_leg_both_flags() {
    // one leg satisfies both matches: exactly one row, both flags set
    let legs = vec![leg("FP1", "V1", "V2")];
    let links = register_plan(&legs, &"V1".to_string(), &"V2".to_string(), "P1".to_string())
        .unwrap();
    assert_eq!(links.len(), 1);
    assert_eq!(links[0].flight_plan_id, "FP1");
    assert_eq!(links[0].parcel_id, "P1");
    assert!(links[0].acquire);
    assert!(links[0].deliver);
}

#[test]
fn test_register_no_legs() {
    let legs: Vec<ResolvedLeg> = Vec::new();
    let err = register_plan(&legs, &"V1".to_string(), &"V2".to_string(), "P1".to_string())
        .unwrap_err();
    assert_eq!(err, RegisterError::NoFlightPlans);
}

#[test]
fn test_register_first_match_wins() {
    // two legs share the acquisition origin: the first is chosen
    let legs = vec![leg("FP1", "V1", "V2"), leg("FP2", "V1", "V3")];
    let links = register_plan(&legs, &"V1".to_string(), &"V3".to_string(), "P1".to_string())
        .unwrap();
    assert_eq!(links.len(), 2);
    assert_eq!(links[0].flight_plan_id, "FP1");
    assert_eq!(links[1].flight_plan_id, "FP2");
}
