//! CargoRegistrar: registration of a parcel for a confirmed itinerary
//! and its linking to the acquisition and delivery flight legs.
//!
//! The itinerary does not tag any leg as "the pickup leg": the leg whose
//! origin vertiport equals the acquisition vertiport is the acquisition
//! leg, and the leg whose target vertiport equals the delivery vertiport
//! is the delivery leg — matching by endpoint identity is the source of
//! truth.  A leg's record may carry its vertiport ids directly or only
//! pad-level ids; in the latter case the driver looks the owning
//! vertiport up and [`resolve_leg`] folds the answer in.

use vstd::prelude::*;

use crate::types::Itinerary;

verus! {

/// Why a registration was aborted.
#[derive(Debug, Clone, Copy, PartialEq, Eq, Structural)]
pub enum RegisterError {
    /// The confirmed itinerary has no linked flight plans
    NoFlightPlans,
    /// A linked flight plan record carries no data
    PlanDataMissing,
    /// A leg's origin vertiport could not be resolved
    UnresolvedOrigin,
    /// A leg's target vertiport could not be resolved
    UnresolvedTarget,
    /// No leg's origin matches the acquisition vertiport
    AcquisitionLegNotFound,
    /// No leg's target matches the delivery vertiport
    DeliveryLegNotFound,
}

/// The lifecycle state of a parcel record at creation.
#[derive(Debug, Clone, Copy, PartialEq, Eq, Structural)]
pub enum ParcelStatus {
    /// Registered, not yet dropped off by the customer
    NotDroppedOff,
}

/// A parcel record as the storage service receives it.
#[derive(Debug)]
pub struct ParcelData {
    /// Owning customer
    pub user_id: String,
    /// Weight of the parcel, grams
    pub weight_grams: u32,
    /// Initial lifecycle state
    pub status: ParcelStatus,
}

/// One row linking a parcel to a flight leg: `acquire` marks the leg
/// where the parcel is picked up, `deliver` the leg where it is dropped
/// off; a single row carries both flags when one leg does both.
#[derive(Debug)]
pub struct FlightPlanParcelLink {
    /// The flight plan the parcel rides on
    pub flight_plan_id: String,
    /// The linked parcel
    pub parcel_id: String,
    /// This leg picks the parcel up
    pub acquire: bool,
    /// This leg drops the parcel off
    pub deliver: bool,
}

/// The parcel record for a confirmed itinerary: the draft's owner and
/// weight, in the initial lifecycle state.  This is step one of a
/// registration; no link is attempted when it fails remotely.
pub fn make_parcel_data(itinerary: &Itinerary) -> (r: ParcelData)
    ensures
        r.user_id == itinerary.user_id,
        r.weight_grams == itinerary.cargo_weight_g,
        r.status == ParcelStatus::NotDroppedOff,
{
    ParcelData {
        user_id: itinerary.user_id.clone(),
        weight_grams: itinerary.cargo_weight_g,
        status: ParcelStatus::NotDroppedOff,
    }
}

/// What one linked flight-plan record carries about its endpoints.
#[derive(Debug)]
pub struct LegData {
    /// The origin vertiport, when carried directly
    pub origin_vertiport_id: Option<String>,
    /// The origin vertipad
    pub origin_vertipad_id: String,
    /// The target vertiport, when carried directly
    pub target_vertiport_id: Option<String>,
    /// The target vertipad
    pub target_vertipad_id: String,
}

/// One flight plan linked to a confirmed itinerary, as storage returns
/// it: an id and an optional data payload.
#[derive(Debug)]
pub struct LegRecord {
    /// The flight plan id
    pub id: String,
    /// The record's data, absent when the reply was incomplete
    pub data: Option<LegData>,
}

/// A leg with both endpoints resolved to vertiport identity.
#[derive(Debug)]
pub struct ResolvedLeg {
    /// The flight plan id
    pub id: String,
    /// The origin vertiport
    pub origin_vertiport_id: String,
    /// The target vertiport
    pub target_vertiport_id: String,
}

/// An endpoint's vertiport: the id the record carries directly, or else
/// whatever the vertipad lookup answered.
pub fn resolve_endpoint(direct: Option<String>, pad_owner: Option<String>) -> (r: Option<String>)
    ensures
        r == (match direct {
            Some(id) => Some(id),
            None => pad_owner,
        }),
{
    match direct {
        Some(id) => Some(id),
        None => pad_owner,
    }
}

/// Resolves one linked record to vertiport identity, folding in the pad
/// lookups the driver performed for endpoints the record does not carry
/// directly.  A record without data, or an endpoint that neither the
/// record nor a lookup resolves, aborts the registration.
pub fn resolve_leg(
    leg: LegRecord,
    origin_lookup: Option<String>,
    target_lookup: Option<String>,
) -> (r: Result<ResolvedLeg, RegisterError>)
    ensures
        leg.data is None ==> r == Err::<ResolvedLeg, RegisterError>(RegisterError::PlanDataMissing),
        leg.data is Some ==> ({
            let data = leg.data->0;
            let origin = if data.origin_vertiport_id is Some {
                data.origin_vertiport_id
            } else {
                origin_lookup
            };
            let target = if data.target_vertiport_id is Some {
                data.target_vertiport_id
            } else {
                target_lookup
            };
            if origin is None {
                r == Err::<ResolvedLeg, RegisterError>(RegisterError::UnresolvedOrigin)
            } else if target is None {
                r == Err::<ResolvedLeg, RegisterError>(RegisterError::UnresolvedTarget)
            } else {
                r == Ok::<ResolvedLeg, RegisterError>(
                    (ResolvedLeg {
                        id: leg.id,
                        origin_vertiport_id: origin->0,
                        target_vertiport_id: target->0,
                    }),
                )
            }
        }),
{
    let data = match leg.data {
        Some(d) => d,
        None => {
            return Err(RegisterError::PlanDataMissing);
        },
    };
    let origin = match resolve_endpoint(data.origin_vertiport_id, origin_lookup) {
        Some(id) => id,
        None => {
            return Err(RegisterError::UnresolvedOrigin);
        },
    };
    let target = match resolve_endpoint(data.target_vertiport_id, target_lookup) {
        Some(id) => id,
        None => {
            return Err(RegisterError::UnresolvedTarget);
        },
    };
    Ok(ResolvedLeg { id: leg.id, origin_vertiport_id: origin, target_vertiport_id: target })
}

/// The acquisition leg: the first leg whose origin vertiport equals the
/// acquisition vertiport.
pub open spec fn acquisition_leg(legs: Seq<ResolvedLeg>, acquisition: Seq<char>) -> Option<
    ResolvedLeg,
>
    decreases legs.len(),
{
    if legs.len() == 0 {
        None
    } else if legs[0].origin_vertiport_id@ == acquisition {
        Some(legs[0])
    } else {
        acquisition_leg(legs.skip(1), acquisition)
    }
}

/// The delivery leg: the first leg whose target vertiport equals the
/// delivery vertiport.
pub open spec fn delivery_leg(legs: Seq<ResolvedLeg>, delivery: Seq<char>) -> Option<ResolvedLeg>
    decreases legs.len(),
{
    if legs.len() == 0 {
        None
    } else if legs[0].target_vertiport_id@ == delivery {
        Some(legs[0])
    } else {
        delivery_leg(legs.skip(1), delivery)
    }
}

proof fn lemma_acquisition_leg_absent(legs: Seq<ResolvedLeg>, acquisition: Seq<char>)
    ensures
        acquisition_leg(legs, acquisition) is None <==> (forall|i: int|
            0 <= i < legs.len() ==> legs[i].origin_vertiport_id@ != acquisition),
    decreases legs.len(),
{
    if legs.len() > 0 {
        lemma_acquisition_leg_absent(legs.skip(1), acquisition);
        if acquisition_leg(legs, acquisition) is None {
            assert forall|i: int|
                0 <= i < legs.len() implies legs[i].origin_vertiport_id@ != acquisition by {
                if i > 0 {
                    assert(legs.skip(1)[i - 1] == legs[i]);
                }
            }
        } else {
            if legs[0].origin_vertiport_id@ != acquisition {
                let j = choose|j: int|
                    0 <= j < legs.skip(1).len() && legs.skip(1)[j].origin_vertiport_id@
                        == acquisition;
                assert(legs.skip(1)[j] == legs[j + 1]);
            }
        }
    }
}

proof fn lemma_acquisition_leg_found(legs: Seq<ResolvedLeg>, acquisition: Seq<char>, i: int)
    requires
        0 <= i < legs.len(),
        legs[i].origin_vertiport_id@ == acquisition,
        forall|j: int| 0 <= j < i ==> legs[j].origin_vertiport_id@ != acquisition,
    ensures
        acquisition_leg(legs, acquisition) == Some(legs[i]),
    decreases legs.len(),
{
    if i > 0 {
        assert(legs.skip(1)[i - 1] == legs[i]);
        assert(forall|j: int| 0 <= j < legs.skip(1).len() ==> legs.skip(1)[j] == legs[j + 1]);
        lemma_acquisition_leg_found(legs.skip(1), acquisition, i - 1);
    }
}

proof fn lemma_delivery_leg_absent(legs: Seq<ResolvedLeg>, delivery: Seq<char>)
    ensures
        delivery_leg(legs, delivery) is None <==> (forall|i: int|
            0 <= i < legs.len() ==> legs[i].target_vertiport_id@ != delivery),
    decreases legs.len(),
{
    if legs.len() > 0 {
        lemma_delivery_leg_absent(legs.skip(1), delivery);
        if delivery_leg(legs, delivery) is None {
            assert forall|i: int|
                0 <= i < legs.len() implies legs[i].target_vertiport_id@ != delivery by {
                if i > 0 {
                    assert(legs.skip(1)[i - 1] == legs[i]);
                }
            }
        } else {
            if legs[0].target_vertiport_id@ != delivery {
                let j = choose|j: int|
                    0 <= j < legs.skip(1).len() && legs.skip(1)[j].target_vertiport_id@ == delivery;
                assert(legs.skip(1)[j] == legs[j + 1]);
            }
        }
    }
}

proof fn lemma_delivery_leg_found(legs: Seq<ResolvedLeg>, delivery: Seq<char>, i: int)
    requires
        0 <= i < legs.len(),
        legs[i].target_vertiport_id@ == delivery,
        forall|j: int| 0 <= j < i ==> legs[j].target_vertiport_id@ != delivery,
    ensures
        delivery_leg(legs, delivery) == Some(legs[i]),
    decreases legs.len(),
{
    if i > 0 {
        assert(legs.skip(1)[i - 1] == legs[i]);
        assert(forall|j: int| 0 <= j < legs.skip(1).len() ==> legs.skip(1)[j] == legs[j + 1]);
        lemma_delivery_leg_found(legs.skip(1), delivery, i - 1);
    }
}

/// The index of the acquisition leg, if any.
fn find_acquisition_index(legs: &Vec<ResolvedLeg>, acquisition_vertiport_id: &String) -> (r:
    Option<usize>)
    ensures
        match r {
            Some(i) => i < legs@.len() && acquisition_leg(legs@, acquisition_vertiport_id@) == Some(
                legs@[i as int],
            ),
            None => acquisition_leg(legs@, acquisition_vertiport_id@) is None,
        },
{
    let n: usize = legs.len();
    let mut i: usize = 0;
    while i < n
        invariant
            n == legs@.len(),
            i <= n,
            forall|j: int| 0 <= j < i ==> legs@[j].origin_vertiport_id@ != acquisition_vertiport_id@,
        decreases n - i,
    {
        if legs[i].origin_vertiport_id.eq(acquisition_vertiport_id) {
            proof {
                lemma_acquisition_leg_found(legs@, acquisition_vertiport_id@, i as int);
            }
            return Some(i);
        }
        i += 1;
    }
    proof {
        lemma_acquisition_leg_absent(legs@, acquisition_vertiport_id@);
    }
    None
}

/// The index of the delivery leg, if any.
fn find_delivery_index(legs: &Vec<ResolvedLeg>, delivery_vertiport_id: &String) -> (r: Option<
    usize,
>)
    ensures
        match r {
            Some(i) => i < legs@.len() && delivery_leg(legs@, delivery_vertiport_id@) == Some(
                legs@[i as int],
            ),
            None => delivery_leg(legs@, delivery_vertiport_id@) is None,
        },
{
    let n: usize = legs.len();
    let mut i: usize = 0;
    while i < n
        invariant
            n == legs@.len(),
            i <= n,
            forall|j: int| 0 <= j < i ==> legs@[j].target_vertiport_id@ != delivery_vertiport_id@,
        decreases n - i,
    {
        if legs[i].target_vertiport_id.eq(delivery_vertiport_id) {
            proof {
                lemma_delivery_leg_found(legs@, delivery_vertiport_id@, i as int);
            }
            return Some(i);
        }
        i += 1;
    }
    proof {
        lemma_delivery_leg_absent(legs@, delivery_vertiport_id@);
    }
    None
}

/// Finds the acquisition and delivery legs by endpoint identity and
/// returns their flight plan ids; failing to find either is fatal.
pub fn match_legs(
    legs: &Vec<ResolvedLeg>,
    acquisition_vertiport_id: &String,
    delivery_vertiport_id: &String,
) -> (r: Result<(String, String), RegisterError>)
    ensures
        r is Ok <==> (acquisition_leg(legs@, acquisition_vertiport_id@) is Some && delivery_leg(
            legs@,
            delivery_vertiport_id@,
        ) is Some),
        match r {
            Ok(pair) => pair.0 == acquisition_leg(legs@, acquisition_vertiport_id@)->0.id && pair.1
                == delivery_leg(legs@, delivery_vertiport_id@)->0.id,
            Err(e) => if acquisition_leg(legs@, acquisition_vertiport_id@) is None {
                e == RegisterError::AcquisitionLegNotFound
            } else {
                e == RegisterError::DeliveryLegNotFound
            },
        },
{
    let acquisition_id = match find_acquisition_index(legs, acquisition_vertiport_id) {
        Some(i) => legs[i].id.clone(),
        None => {
            return Err(RegisterError::AcquisitionLegNotFound);
        },
    };
    let delivery_id = match find_delivery_index(legs, delivery_vertiport_id) {
        Some(i) => legs[i].id.clone(),
        None => {
            return Err(RegisterError::DeliveryLegNotFound);
        },
    };
    Ok((acquisition_id, delivery_id))
}

/// The link rows for a matched pair of legs: one row with both flags
/// when acquisition and delivery happen on the same leg, else an
/// acquire-only row for the acquisition leg followed by a deliver-only
/// row for the delivery leg.
pub fn plan_links(acquisition_id: String, delivery_id: String, parcel_id: String) -> (links: Vec<
    FlightPlanParcelLink,
>)
    ensures
        acquisition_id@ == delivery_id@ ==> ({
            &&& links@.len() == 1
            &&& links@[0].flight_plan_id == acquisition_id
            &&& links@[0].parcel_id == parcel_id
            &&& links@[0].acquire
            &&& links@[0].deliver
        }),
        acquisition_id@ != delivery_id@ ==> ({
            &&& links@.len() == 2
            &&& links@[0].flight_plan_id == acquisition_id
            &&& links@[0].parcel_id == parcel_id
            &&& links@[0].acquire
            &&& !links@[0].deliver
            &&& links@[1].flight_plan_id == delivery_id
            &&& links@[1].parcel_id == parcel_id
            &&& !links@[1].acquire
            &&& links@[1].deliver
        }),
{
    let mut links: Vec<FlightPlanParcelLink> = Vec::new();
    if acquisition_id.eq(&delivery_id) {
        links.push(
            FlightPlanParcelLink {
                flight_plan_id: acquisition_id,
                parcel_id,
                acquire: true,
                deliver: true,
            },
        );
    } else {
        links.push(
            FlightPlanParcelLink {
                flight_plan_id: acquisition_id,
                parcel_id: parcel_id.clone(),
                acquire: true,
                deliver: false,
            },
        );
        links.push(
            FlightPlanParcelLink {
                flight_plan_id: delivery_id,
                parcel_id,
                acquire: false,
                deliver: true,
            },
        );
    }
    links
}

/// Plans the link rows for a confirmed itinerary's resolved legs: zero
/// legs is fatal, then the acquisition and delivery legs are matched by
/// endpoint identity and their rows laid out by [`plan_links`].
pub fn register_plan(
    legs: &Vec<ResolvedLeg>,
    acquisition_vertiport_id: &String,
    delivery_vertiport_id: &String,
    parcel_id: String,
) -> (r: Result<Vec<FlightPlanParcelLink>, RegisterError>)
    ensures
        ({
            let acq = acquisition_leg(legs@, acquisition_vertiport_id@);
            let del = delivery_leg(legs@, delivery_vertiport_id@);
            match r {
                Ok(links) => {
                    &&& legs@.len() > 0
                    &&& acq is Some
                    &&& del is Some
                    &&& (acq->0.id@ == del->0.id@ ==> ({
                        &&& links@.len() == 1
                        &&& links@[0].flight_plan_id@ == acq->0.id@
                        &&& links@[0].parcel_id == parcel_id
                        &&& links@[0].acquire
                        &&& links@[0].deliver
                    }))
                    &&& (acq->0.id@ != del->0.id@ ==> ({
                        &&& links@.len() == 2
                        &&& links@[0].flight_plan_id@ == acq->0.id@
                        &&& links@[0].parcel_id == parcel_id
                        &&& links@[0].acquire
                        &&& !links@[0].deliver
                        &&& links@[1].flight_plan_id@ == del->0.id@
                        &&& links@[1].parcel_id == parcel_id
                        &&& !links@[1].acquire
                        &&& links@[1].deliver
                    }))
                },
                Err(e) => {
                    ||| (legs@.len() == 0 && e == RegisterError::NoFlightPlans)
                    ||| (legs@.len() > 0 && acq is None && e == RegisterError::AcquisitionLegNotFound)
                    ||| (legs@.len() > 0 && acq is Some && del is None && e
                        == RegisterError::DeliveryLegNotFound)
                },
            }
        }),
{
    if legs.len() == 0 {
        return Err(RegisterError::NoFlightPlans);
    }
    let (acquisition_id, delivery_id) = match match_legs(
        legs,
        acquisition_vertiport_id,
        delivery_vertiport_id,
    ) {
        Ok(pair) => pair,
        Err(e) => {
            return Err(e);
        },
    };
    Ok(plan_links(acquisition_id, delivery_id, parcel_id))
}

/// Leg matching correctness: in a three-leg itinerary where the second
/// leg's origin is the acquisition vertiport (and the first leg's is
/// not), and the third leg's target is the delivery vertiport (and the
/// first two legs' are not), exactly the second and third legs are
/// chosen — not the first, nor any other combination.
pub proof fn lemma_leg_matching(legs: Seq<ResolvedLeg>, acquisition: Seq<char>, delivery: Seq<char>)
    requires
        legs.len() == 3,
        legs[0].origin_vertiport_id@ != acquisition,
        legs[1].origin_vertiport_id@ == acquisition,
        legs[0].target_vertiport_id@ != delivery,
        legs[1].target_vertiport_id@ != delivery,
        legs[2].target_vertiport_id@ == delivery,
    ensures
        acquisition_leg(legs, acquisition) == Some(legs[1]),
        delivery_leg(legs, delivery) == Some(legs[2]),
{
    lemma_acquisition_leg_found(legs, acquisition, 1);
    lemma_delivery_leg_found(legs, delivery, 2);
}

/// Single-leg acquire and deliver: when the itinerary's only leg
/// satisfies both matches, it is both the acquisition and the delivery
/// leg, so a registration produces exactly one link row with both flags
/// set, per the contract of [`register_plan`].
pub proof fn lemma_single_leg_acquire_deliver(
    legs: Seq<ResolvedLeg>,
    acquisition: Seq<char>,
    delivery: Seq<char>,
)
    requires
        legs.len() == 1,
        legs[0].origin_vertiport_id@ == acquisition,
        legs[0].target_vertiport_id@ == delivery,
    ensures
        acquisition_leg(legs, acquisition) == Some(legs[0]),
        delivery_leg(legs, delivery) == Some(legs[0]),
        acquisition_leg(legs, acquisition)->0.id == delivery_leg(legs, delivery)->0.id,
{
    lemma_acquisition_leg_found(legs, acquisition, 0);
    lemma_delivery_leg_found(legs, delivery, 0);
}

} // verus!
