//! The rating model: one optional stored row per (resource, user) pair.
//! `Neutral` is never stored — it is the reading of an absent row — so
//! storing a rating and removing one are the same operation.

use vstd::prelude::*;

use crate::models::RateState;

verus! {

/// The stored row after a rating is applied: `Neutral` clears the row, any
/// other state replaces it.
pub open spec fn spec_apply_rate(current: Option<RateState>, new: RateState) -> Option<RateState> {
    if new == RateState::Neutral {
        None
    } else {
        Some(new)
    }
}

/// What a stored row reads back as: an absent row is `Neutral`.
pub open spec fn spec_read_rate(row: Option<RateState>) -> RateState {
    match row {
        None => RateState::Neutral,
        Some(s) => s,
    }
}

/// Applies one rating to the stored row of a (resource, user) pair.
pub fn apply_rate(current: Option<RateState>, new: RateState) -> (r: Option<RateState>)
    ensures
        r == spec_apply_rate(current, new),
{
    if new == RateState::Neutral {
        None
    } else {
        Some(new)
    }
}

/// Reads the stored row of a (resource, user) pair.
pub fn read_rate(row: Option<RateState>) -> (r: RateState)
    ensures
        r == spec_read_rate(row),
{
    match row {
        None => RateState::Neutral,
        Some(s) => s,
    }
}

/// Law: rating is idempotent. Applying the same rating twice leaves the
/// stored row exactly as applying it once did, whatever was stored before —
/// no duplicate row, no oscillation.
pub proof fn lemma_rate_idempotent(current: Option<RateState>, new: RateState)
    ensures
        spec_apply_rate(spec_apply_rate(current, new), new) == spec_apply_rate(current, new),
{
}

/// Law: a `Neutral` rating is removal. It clears the stored row, and what
/// the pair then reads back as is `Neutral`, whatever was stored before.
pub proof fn lemma_neutral_is_removal(current: Option<RateState>)
    ensures
        spec_apply_rate(current, RateState::Neutral) == None::<RateState>,
        spec_read_rate(spec_apply_rate(current, RateState::Neutral)) == RateState::Neutral,
{
}

} // verus!
