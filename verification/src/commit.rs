//! CommitOrchestrator: the itinerary commit pipeline as an explicit
//! state machine.
//!
//! Committing a draft runs: fetch draft → dry-run payment check →
//! submit to the scheduler → poll the scheduling task → register cargo
//! → charge payment.  Each step's failure short-circuits the remainder
//! and ends the machine in `Done` with that step's outcome; the driver
//! performs the remote call each non-`Done` state names and hands the
//! result back to the matching transition.  `Done` is absorbing: no
//! transition accepts it, so a failed step prevents every later remote
//! call.

use vstd::prelude::*;

use crate::cache::CacheError;
use crate::scheduler::build_scheduler_request;
use crate::scheduler::translate_plans_spec;
use crate::scheduler::PollOutcome;
use crate::scheduler::SchedulerRequest;
use crate::scheduler::FLIGHT_PRIORITY_LOW;
use crate::types::CargoInfo;
use crate::types::CurrencyUnit;
use crate::types::InvoiceItem;
use crate::types::Itinerary;
use crate::types::ItineraryCreateRequest;
use crate::validate::is_uuid;
use crate::validate::is_uuid_str;

verus! {

/// How long the scheduler is given to reach a terminal task status, in
/// milliseconds (60 s).
pub const SCHEDULER_TASK_TIMEOUT_MS: i64 = 60_000;

/// The customer-visible outcome of one commit attempt.
#[derive(Debug, Clone, Copy, PartialEq, Eq, Structural)]
pub enum CommitOutcome {
    /// The itinerary was committed
    Accepted,
    /// The request was malformed and consumed no draft or reservation
    BadRequest,
    /// The scheduler declined; the draft is untouched and the customer
    /// may retry with different parameters
    NotModified,
    /// The scheduler reached no terminal status before the deadline
    RequestTimeout,
    /// Some other remote failure
    InternalError,
}

/// What the later pipeline steps need of a fetched draft.
#[derive(Debug)]
pub struct CommitContext {
    /// Owning customer
    pub user_id: String,
    /// Cargo weight, grams
    pub cargo_weight_g: u32,
    /// Vertiport at which the parcel is picked up
    pub acquisition_vertiport_id: String,
    /// Vertiport at which the parcel is dropped off
    pub delivery_vertiport_id: String,
    /// The invoice total, in minor currency units
    pub invoice_total: u64,
    /// The invoice's currency
    pub currency_unit: CurrencyUnit,
}

/// Where a commit stands; each non-`Done` state names the one remote
/// call the driver must perform next.
#[derive(Debug)]
pub enum CommitState {
    /// Fetch the draft under `draft_id` from the cache
    FetchDraft {
        /// The draft to commit
        draft_id: String,
        /// The requesting customer
        user_id: String,
    },
    /// Check payment feasibility (`dry_run` = true); no state change
    DryRunPayment {
        /// What later steps need of the draft
        ctx: CommitContext,
        /// The draft's legs, still to be translated
        flight_plans: Vec<crate::types::FlightPlan>,
    },
    /// Submit the translated itinerary to the scheduler
    SubmitItinerary {
        /// What later steps need of the draft
        ctx: CommitContext,
        /// The create-itinerary request to submit
        request: SchedulerRequest,
    },
    /// Poll the scheduling task to a terminal status or the deadline
    PollTask {
        /// What later steps need of the draft
        ctx: CommitContext,
        /// The task handle the scheduler returned
        task_id: i64,
        /// The absolute deadline for polling
        expiry_ms: i64,
    },
    /// Register the parcel and link it to the confirmed legs
    RegisterCargo {
        /// What later steps need of the draft
        ctx: CommitContext,
        /// The confirmed itinerary the scheduler created
        confirmed_itinerary_id: String,
    },
    /// Charge the customer (`dry_run` = false)
    ChargePayment {
        /// What later steps need of the draft
        ctx: CommitContext,
        /// The registered parcel
        parcel_id: String,
    },
    /// The commit is over; no transition accepts this state
    Done {
        /// The customer-visible outcome
        outcome: CommitOutcome,
    },
}

/// The sum of the invoice's costs.
pub open spec fn invoice_sum(items: Seq<InvoiceItem>) -> int
    decreases items.len(),
{
    if items.len() == 0 {
        0
    } else {
        invoice_sum(items.drop_last()) + items.last().cost
    }
}

/// The invoice total as charged: the sum of the costs, clamped to what
/// the total's width can carry.
pub open spec fn clamped_invoice_sum(items: Seq<InvoiceItem>) -> int {
    if invoice_sum(items) > u64::MAX {
        u64::MAX as int
    } else {
        invoice_sum(items)
    }
}

/// Sums the invoice's line items into the total to charge, saturating
/// at the total's width.
pub fn invoice_total(items: &Vec<InvoiceItem>) -> (t: u64)
    ensures
        t as int == clamped_invoice_sum(items@),
{
    let n: usize = items.len();
    let mut total: u64 = 0;
    let mut i: usize = 0;
    while i < n
        invariant
            n == items@.len(),
            i <= n,
            total as int == clamped_invoice_sum(items@.take(i as int)),
        decreases n - i,
    {
        let ghost prefix = items@.take(i as int);
        let cost: u32 = items[i].cost;
        proof {
            assert(items@.take(i + 1).drop_last() =~= prefix);
            assert(items@.take(i + 1).last() == items@[i as int]);
            assert(invoice_sum(items@.take(i + 1)) == invoice_sum(prefix) + cost);
        }
        if total > u64::MAX - (cost as u64) {
            total = u64::MAX;
        } else {
            total = total + (cost as u64);
        }
        i += 1;
    }
    proof {
        assert(items@.take(n as int) =~= items@);
    }
    total
}

/// Charge the customer for the itinerary; with `dry_run` set, only
/// check the validity of the payment option.  The payment backend is
/// not wired up yet, so every check and charge succeeds.
pub fn payment_confirm(total: u64, currency_unit: CurrencyUnit, dry_run: bool) -> (r: Result<
    (),
    CommitOutcome,
>)
    ensures
        r is Ok,
{
    if dry_run {
        return Ok(());
    }
    Ok(())
}

impl CommitState {
    /// Starts a commit: a draft id or user id that is not a canonical
    /// hyphenated UUID (see [`is_uuid_str`]) is rejected as
    /// `BadRequest` before any remote call; otherwise the first step
    /// is to fetch the draft.
    pub fn start(payload: ItineraryCreateRequest) -> (s: Self)
        ensures
            is_uuid_str(payload.id@) && is_uuid_str(payload.user_id@) ==> s == (
            CommitState::FetchDraft { draft_id: payload.id, user_id: payload.user_id }),
            !(is_uuid_str(payload.id@) && is_uuid_str(payload.user_id@)) ==> s == (
            CommitState::Done { outcome: CommitOutcome::BadRequest }),
    {
        if !is_uuid(payload.id.as_str()) {
            return CommitState::Done { outcome: CommitOutcome::BadRequest };
        }
        if !is_uuid(payload.user_id.as_str()) {
            return CommitState::Done { outcome: CommitOutcome::BadRequest };
        }
        CommitState::FetchDraft { draft_id: payload.id, user_id: payload.user_id }
    }

    /// Consumes the cache's answer: any cache failure — absent,
    /// expired, undecodable or unreachable — ends the commit as an
    /// internal error; a fetched draft moves on to the dry-run payment
    /// check with its invoice total.
    pub fn on_draft(self, fetched: Result<Itinerary, CacheError>) -> (s: Self)
        requires
            self is FetchDraft,
        ensures
            match fetched {
                Ok(itinerary) => s matches CommitState::DryRunPayment { ctx, flight_plans } && ({
                    &&& ctx.user_id == itinerary.user_id
                    &&& ctx.cargo_weight_g == itinerary.cargo_weight_g
                    &&& ctx.acquisition_vertiport_id == itinerary.acquisition_vertiport_id
                    &&& ctx.delivery_vertiport_id == itinerary.delivery_vertiport_id
                    &&& ctx.invoice_total as int == clamped_invoice_sum(itinerary.invoice@)
                    &&& ctx.currency_unit == itinerary.currency_unit
                    &&& flight_plans == itinerary.flight_plans
                }),
                Err(_) => s == (CommitState::Done { outcome: CommitOutcome::InternalError }),
            },
    {
        let itinerary = match fetched {
            Ok(itinerary) => itinerary,
            Err(_) => {
                return CommitState::Done { outcome: CommitOutcome::InternalError };
            },
        };
        let total = invoice_total(&itinerary.invoice);
        let Itinerary {
            flight_plans,
            currency_unit,
            invoice: _,
            cargo_weight_g,
            user_id,
            acquisition_vertiport_id,
            delivery_vertiport_id,
        } = itinerary;
        CommitState::DryRunPayment {
            ctx: CommitContext {
                user_id,
                cargo_weight_g,
                acquisition_vertiport_id,
                delivery_vertiport_id,
                invoice_total: total,
                currency_unit,
            },
            flight_plans,
        }
    }

    /// Consumes the dry-run payment verdict.  A failing dry-run ends
    /// the commit at once — the machine never reaches the submission
    /// state, so the scheduler is never engaged.  On approval the legs
    /// are translated; a translation failure for any leg is
    /// `BadRequest` with no submission, else the machine holds the
    /// complete request and its polling deadline.
    pub fn on_dry_run(self, approved: bool, now_ms: i64) -> (s: Self)
        requires
            self is DryRunPayment,
            now_ms <= i64::MAX - SCHEDULER_TASK_TIMEOUT_MS,
        ensures
            !approved ==> s == (CommitState::Done { outcome: CommitOutcome::InternalError }),
            approved ==> (match self {
                CommitState::DryRunPayment { ctx, flight_plans } => match translate_plans_spec(
                    flight_plans@,
                ) {
                    Ok(ws) => s matches CommitState::SubmitItinerary { ctx: c2, request } && ({
                        &&& c2 == ctx
                        &&& request.flight_plans@ == ws
                        &&& request.priority == FLIGHT_PRIORITY_LOW
                        &&& request.expiry_ms == now_ms + SCHEDULER_TASK_TIMEOUT_MS
                        &&& request.user_id == ctx.user_id
                    }),
                    Err(_) => s == (CommitState::Done { outcome: CommitOutcome::BadRequest }),
                },
                _ => true,
            }),
    {
        match self {
            CommitState::DryRunPayment { ctx, flight_plans } => {
                if !approved {
                    return CommitState::Done { outcome: CommitOutcome::InternalError };
                }
                let expiry_ms: i64 = now_ms + SCHEDULER_TASK_TIMEOUT_MS;
                let user_id = ctx.user_id.clone();
                match build_scheduler_request(flight_plans, user_id, expiry_ms) {
                    Ok(request) => CommitState::SubmitItinerary { ctx, request },
                    Err(_) => CommitState::Done { outcome: CommitOutcome::BadRequest },
                }
            },
            _ => vstd::pervasive::unreached(),
        }
    }

    /// Consumes the submission's result: a scheduler failure is an
    /// internal error; a task handle moves the machine to polling,
    /// against the same absolute deadline the scheduler was given.
    pub fn on_submit_result(self, submitted: Result<i64, ()>) -> (s: Self)
        requires
            self is SubmitItinerary,
        ensures
            match self {
                CommitState::SubmitItinerary { ctx, request } => match submitted {
                    Ok(task_id) => s == (CommitState::PollTask {
                        ctx,
                        task_id,
                        expiry_ms: request.expiry_ms,
                    }),
                    Err(_) => s == (CommitState::Done { outcome: CommitOutcome::InternalError }),
                },
                _ => true,
            },
    {
        match self {
            CommitState::SubmitItinerary { ctx, request } => match submitted {
                Ok(task_id) => CommitState::PollTask {
                    ctx,
                    task_id,
                    expiry_ms: request.expiry_ms,
                },
                Err(_) => CommitState::Done { outcome: CommitOutcome::InternalError },
            },
            _ => vstd::pervasive::unreached(),
        }
    }

    /// Consumes the polling outcome.  Only a completed task whose
    /// confirmed itinerary id is a UUID moves on to cargo
    /// registration; a rejection surfaces as `NotModified`, a timeout
    /// as `RequestTimeout`, and everything else — including a
    /// malformed confirmed id — as an internal error.  Any outcome but
    /// completion ends the commit, so the customer is never charged.
    pub fn on_poll_outcome(self, outcome: PollOutcome) -> (s: Self)
        requires
            self is PollTask,
        ensures
            match self {
                CommitState::PollTask { ctx, task_id, expiry_ms } => match outcome {
                    PollOutcome::Complete { confirmed_itinerary_id } => if is_uuid_str(
                        confirmed_itinerary_id@,
                    ) {
                        s == (CommitState::RegisterCargo { ctx, confirmed_itinerary_id })
                    } else {
                        s == (CommitState::Done { outcome: CommitOutcome::InternalError })
                    },
                    PollOutcome::Rejected => s == (CommitState::Done {
                        outcome: CommitOutcome::NotModified,
                    }),
                    PollOutcome::Internal => s == (CommitState::Done {
                        outcome: CommitOutcome::InternalError,
                    }),
                    PollOutcome::TimedOut => s == (CommitState::Done {
                        outcome: CommitOutcome::RequestTimeout,
                    }),
                },
                _ => true,
            },
    {
        match self {
            CommitState::PollTask { ctx, task_id: _, expiry_ms: _ } => match outcome {
                PollOutcome::Complete { confirmed_itinerary_id } => {
                    if is_uuid(confirmed_itinerary_id.as_str()) {
                        CommitState::RegisterCargo { ctx, confirmed_itinerary_id }
                    } else {
                        CommitState::Done { outcome: CommitOutcome::InternalError }
                    }
                },
                PollOutcome::Rejected => CommitState::Done { outcome: CommitOutcome::NotModified },
                PollOutcome::Internal => CommitState::Done {
                    outcome: CommitOutcome::InternalError,
                },
                PollOutcome::TimedOut => CommitState::Done {
                    outcome: CommitOutcome::RequestTimeout,
                },
            },
            _ => vstd::pervasive::unreached(),
        }
    }

    /// Consumes the registration's result: a storage failure is an
    /// internal error; a registered parcel moves on to the real charge.
    pub fn on_register_result(self, registered: Result<CargoInfo, ()>) -> (s: Self)
        requires
            self is RegisterCargo,
        ensures
            match self {
                CommitState::RegisterCargo { ctx, confirmed_itinerary_id } => match registered {
                    Ok(info) => s == (CommitState::ChargePayment {
                        ctx,
                        parcel_id: info.parcel_id,
                    }),
                    Err(_) => s == (CommitState::Done { outcome: CommitOutcome::InternalError }),
                },
                _ => true,
            },
    {
        match self {
            CommitState::RegisterCargo { ctx, confirmed_itinerary_id: _ } => match registered {
                Ok(info) => CommitState::ChargePayment { ctx, parcel_id: info.parcel_id },
                Err(_) => CommitState::Done { outcome: CommitOutcome::InternalError },
            },
            _ => vstd::pervasive::unreached(),
        }
    }

    /// Consumes the charge's result: the commit is `Accepted` exactly
    /// when the charge went through.
    pub fn on_charge_result(self, charged: bool) -> (s: Self)
        requires
            self is ChargePayment,
        ensures
            charged ==> s == (CommitState::Done { outcome: CommitOutcome::Accepted }),
            !charged ==> s == (CommitState::Done { outcome: CommitOutcome::InternalError }),
    {
        if charged {
            CommitState::Done { outcome: CommitOutcome::Accepted }
        } else {
            CommitState::Done { outcome: CommitOutcome::InternalError }
        }
    }
}

/// Payment ordering, first half: whatever state the machine is in,
/// any result of consuming a failing dry-run is `Done` — never the
/// submission state — and since `Done` is absorbing (no transition
/// accepts it), a failing dry-run prevents any scheduler submission.
pub proof fn lemma_failed_dry_run_blocks_submission(
    pre: CommitState,
    now_ms: i64,
    post: CommitState,
)
    requires
        call_ensures(CommitState::on_dry_run, (pre, false, now_ms), post),
    ensures
        post is Done,
        !(post is SubmitItinerary),
{
}

/// Payment ordering, second half: any result of consuming a polling
/// outcome other than completion is `Done` — never the registration or
/// charge state — so a failing scheduler step prevents the real charge
/// (`dry_run` = false), which is only reached through registration
/// after a completed task.
pub proof fn lemma_failed_scheduler_blocks_charge(
    pre: CommitState,
    outcome: PollOutcome,
    post: CommitState,
)
    requires
        pre is PollTask,
        !(outcome is Complete),
        call_ensures(CommitState::on_poll_outcome, (pre, outcome), post),
    ensures
        post is Done,
        !(post is RegisterCargo),
        !(post is ChargePayment),
{
}

} // verus!
