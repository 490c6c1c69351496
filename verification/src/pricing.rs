//! The pure side of pricing an itinerary: which legs carry the
//! customer's parcel.  The price calculation itself belongs to the
//! remote pricing service; only the request shape matters here.

use vstd::prelude::*;

use crate::types::FlightPlan;
use crate::types::QueryItineraryRequest;

verus! {

/// The weight a leg is priced with: the parcel rides only legs that
/// touch the customer's origin or target vertiport; deadhead legs are
/// priced without cargo.
pub open spec fn leg_weight_spec(plan: FlightPlan, payload: QueryItineraryRequest) -> u32 {
    if plan.origin_vertiport_id@ == payload.origin_vertiport_id@ || plan.target_vertiport_id@
        == payload.target_vertiport_id@ {
        payload.cargo_weight_g
    } else {
        0
    }
}

/// The cargo weight of each leg of an itinerary, in order, for the
/// pricing request — one entry per leg.
pub fn pricing_weights(flight_plans: &Vec<FlightPlan>, payload: &QueryItineraryRequest) -> (w: Vec<
    u32,
>)
    ensures
        w@.len() == flight_plans@.len(),
        forall|i: int|
            0 <= i < w@.len() ==> w@[i] == leg_weight_spec(#[trigger] flight_plans@[i], *payload),
{
    let n: usize = flight_plans.len();
    let mut weights: Vec<u32> = Vec::new();
    let mut i: usize = 0;
    while i < n
        invariant
            n == flight_plans@.len(),
            i <= n,
            weights@.len() == i,
            forall|j: int|
                0 <= j < i ==> weights@[j] == leg_weight_spec(
                    #[trigger] flight_plans@[j],
                    *payload,
                ),
        decreases n - i,
    {
        let plan = &flight_plans[i];
        let touches_customer = plan.origin_vertiport_id.eq(&payload.origin_vertiport_id)
            || plan.target_vertiport_id.eq(&payload.target_vertiport_id);
        if touches_customer {
            weights.push(payload.cargo_weight_g);
        } else {
            weights.push(0);
        }
        i += 1;
    }
    weights
}

/// Whether any leg carries the parcel: a pricing request in which
/// every leg is weightless prices no cargo at all and is rejected
/// before the remote call.
pub fn any_leg_weighted(weights: &Vec<u32>) -> (r: bool)
    ensures
        r <==> (exists|i: int| 0 <= i < weights@.len() && #[trigger] weights@[i] > 0),
{
    let n: usize = weights.len();
    let mut i: usize = 0;
    while i < n
        invariant
            n == weights@.len(),
            i <= n,
            forall|j: int| 0 <= j < i ==> #[trigger] weights@[j] == 0,
        decreases n - i,
    {
        if weights[i] > 0 {
            return true;
        }
        i += 1;
    }
    false
}

} // verus!
