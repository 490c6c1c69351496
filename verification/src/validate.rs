//! Validation of customer requests, performed before any remote call.

use vstd::prelude::*;
use vstd::string::StrSliceExecFns;

use crate::types::QueryItineraryRequest;
use crate::types::MAX_CARGO_WEIGHT_G;

verus! {

/// Advance notice required between a request and the earliest departure,
/// in milliseconds (five minutes).
pub const ADVANCE_NOTICE_MS: i64 = 300_000;

/// Whether a string parses as a UUID (hexadecimal digits with optional
/// hyphens, in any of the simple, hyphenated, braced or URN forms).
pub uninterp spec fn uuid_chars_ok(s: Seq<char>) -> bool;

/// Relies on uuid::Uuid::parse_str: whether a string parses as a UUID
/// is a function of its characters alone.
#[verifier::external_body]
fn parse_uuid_ok(s: &str) -> (r: bool)
    ensures
        r == uuid_chars_ok(s@),
{
    uuid::Uuid::parse_str(s).is_ok()
}

/// A well-formed identifier: the canonical hyphenated UUID form — 36
/// characters that parse as a UUID.  Of the forms the parser accepts,
/// only the hyphenated one is 36 characters long.
///
/// This restriction is deliberate and holds everywhere the gateway
/// validates an identifier: every id the gateway issues is canonical,
/// and a customer-supplied id in one of the other parseable forms
/// (the 32-character simple form, the braced form, the URN form) is
/// rejected as malformed rather than normalised.
pub open spec fn is_uuid_str(s: Seq<char>) -> bool {
    s.len() == 36 && uuid_chars_ok(s)
}

/// Whether a string is a canonical hyphenated UUID; see
/// [`is_uuid_str`] for the deliberate restriction to that one form.
pub fn is_uuid(s: &str) -> (r: bool)
    ensures
        r == is_uuid_str(s@),
{
    if s.unicode_len() != 36 {
        return false;
    }
    parse_uuid_ok(s)
}

/// Why a flight-query payload was rejected.
#[derive(Debug, Clone, Copy, PartialEq, Eq, Structural)]
pub enum ValidationError {
    /// The weight is too high or too low
    Weight,
    /// The minimum time is invalid
    TimeWindowMin,
    /// The maximum time is invalid
    TimeWindowMax,
    /// The origin vertiport ID is invalid
    OriginVertiportId,
    /// The target vertiport ID is invalid
    TargetVertiportId,
    /// The user ID is invalid
    UserId,
    /// Couldn't get a time delta
    BadTimeDelta,
}

impl ValidationError {
    /// The text of the error.
    pub open spec fn text_spec(self) -> Seq<char> {
        match self {
            ValidationError::Weight => "invalid weight"@,
            ValidationError::TimeWindowMin => "invalid time window min"@,
            ValidationError::TimeWindowMax => "invalid time window max"@,
            ValidationError::OriginVertiportId => "invalid origin vertiport id"@,
            ValidationError::TargetVertiportId => "invalid target vertiport id"@,
            ValidationError::UserId => "invalid user id"@,
            ValidationError::BadTimeDelta => "could not get time delta"@,
        }
    }

    /// A human-readable description of the error.
    pub fn to_text(&self) -> (r: String)
        ensures
            r@ == self.text_spec(),
    {
        match self {
            ValidationError::Weight => "invalid weight".to_owned(),
            ValidationError::TimeWindowMin => "invalid time window min".to_owned(),
            ValidationError::TimeWindowMax => "invalid time window max".to_owned(),
            ValidationError::OriginVertiportId => "invalid origin vertiport id".to_owned(),
            ValidationError::TargetVertiportId => "invalid target vertiport id".to_owned(),
            ValidationError::UserId => "invalid user id".to_owned(),
            ValidationError::BadTimeDelta => "could not get time delta".to_owned(),
        }
    }
}

/// The verdict on a flight-query payload at clock reading `now_ms`: the
/// first failing check decides the error.
pub open spec fn validate_payload_spec(
    payload: QueryItineraryRequest,
    now_ms: int,
) -> Result<(), ValidationError> {
    if payload.cargo_weight_g > MAX_CARGO_WEIGHT_G {
        Err(ValidationError::Weight)
    } else if payload.time_depart_window.timestamp_min
        >= payload.time_depart_window.timestamp_max {
        Err(ValidationError::TimeWindowMax)
    } else if payload.time_depart_window.timestamp_max <= now_ms {
        Err(ValidationError::TimeWindowMax)
    } else if now_ms + ADVANCE_NOTICE_MS > i64::MAX {
        Err(ValidationError::BadTimeDelta)
    } else if payload.time_depart_window.timestamp_min <= now_ms + ADVANCE_NOTICE_MS {
        Err(ValidationError::TimeWindowMin)
    } else if !is_uuid_str(payload.origin_vertiport_id@) {
        Err(ValidationError::OriginVertiportId)
    } else if !is_uuid_str(payload.target_vertiport_id@) {
        Err(ValidationError::TargetVertiportId)
    } else if !is_uuid_str(payload.user_id@) {
        Err(ValidationError::UserId)
    } else {
        Ok(())
    }
}

/// Confirms that a flight-query payload has valid fields.
///
/// A payload whose cargo weight is exactly [`MAX_CARGO_WEIGHT_G`] passes
/// the weight check; one gram over is rejected, before any remote call.
/// Identifiers must be canonical hyphenated UUIDs (see [`is_uuid_str`]).
pub fn validate_payload(payload: &QueryItineraryRequest, now_ms: i64) -> (r: Result<
    (),
    ValidationError,
>)
    ensures
        r == validate_payload_spec(*payload, now_ms as int),
{
    if payload.cargo_weight_g > MAX_CARGO_WEIGHT_G {
        return Err(ValidationError::Weight);
    }
    if payload.time_depart_window.timestamp_min >= payload.time_depart_window.timestamp_max {
        return Err(ValidationError::TimeWindowMax);
    }
    if payload.time_depart_window.timestamp_max <= now_ms {
        return Err(ValidationError::TimeWindowMax);
    }
    let earliest_allowed: i64 = match now_ms.checked_add(ADVANCE_NOTICE_MS) {
        Some(t) => t,
        None => {
            return Err(ValidationError::BadTimeDelta);
        },
    };
    if payload.time_depart_window.timestamp_min <= earliest_allowed {
        return Err(ValidationError::TimeWindowMin);
    }
    if !is_uuid(payload.origin_vertiport_id.as_str()) {
        return Err(ValidationError::OriginVertiportId);
    }
    if !is_uuid(payload.target_vertiport_id.as_str()) {
        return Err(ValidationError::TargetVertiportId);
    }
    if !is_uuid(payload.user_id.as_str()) {
        return Err(ValidationError::UserId);
    }
    Ok(())
}

/// Weight boundary: a payload whose cargo weight is exactly the
/// maximum is never rejected for its weight; one gram over is rejected
/// with the weight validation error — before any remote call, since
/// validation precedes every submission.
pub proof fn lemma_weight_boundary(payload: QueryItineraryRequest, now_ms: int)
    ensures
        payload.cargo_weight_g > MAX_CARGO_WEIGHT_G ==> validate_payload_spec(payload, now_ms)
            == Err::<(), ValidationError>(ValidationError::Weight),
        payload.cargo_weight_g <= MAX_CARGO_WEIGHT_G ==> validate_payload_spec(payload, now_ms)
            != Err::<(), ValidationError>(ValidationError::Weight),
{
}

} // verus!
