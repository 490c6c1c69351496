//! Cargo-delivery booking gateway core.
//!
//! Customers obtain a priced draft itinerary, which is cached under a
//! short-lived key; committing the draft submits it to an asynchronous
//! remote scheduler, polls the scheduling task to a terminal state,
//! registers the physical parcel, links it to the acquisition and delivery
//! flight legs, and gates customer payment around the scheduler's decision.
//!
//! The remote collaborators (cache backend, scheduler, storage, payment)
//! are reached over the network by an unverified driver; this crate holds
//! the data model and every decision the gateway makes, each with a
//! verified contract.

use vstd::prelude::*;

pub mod cache;
pub mod commit;
pub mod pricing;
pub mod query;
pub mod registrar;
pub mod scheduler;
pub mod types;
pub mod validate;

verus! {

} // verus!
