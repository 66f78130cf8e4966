//! Rules of the shared storage layer: schema versions, how long entries
//! live, what a missing entry reads as, and how fee totals accumulate.

use vstd::prelude::*;

use crate::interfaces::FeeTotals;

verus! {

/// Current storage schema version.
pub const CURRENT_VERSION: u32 = 1;

/// Remaining lifetime, in ledgers, under which instance storage is extended.
pub const INSTANCE_TTL_THRESHOLD: u32 = 518_400;

/// Lifetime, in ledgers, to which instance storage is extended.
pub const INSTANCE_TTL_EXTEND_TO: u32 = 518_400;

/// Remaining lifetime, in ledgers, under which a persistent entry is extended.
pub const PERSISTENT_TTL_THRESHOLD: u32 = 518_400;

/// Lifetime, in ledgers, to which a persistent entry is extended.
pub const PERSISTENT_TTL_EXTEND_TO: u32 = 518_400;

/// Returns whether a persisted storage version is supported by this build.
pub fn is_compatible(version: u32) -> (r: bool)
    ensures
        r == (version == CURRENT_VERSION),
        r == (version == 1),
{
    version == CURRENT_VERSION
}

/// The stored value where there is one, else `default`.
pub fn current_or_default<T: Clone>(value: Option<T>, default: T) -> (r: T)
    ensures
        r == match value {
            Some(v) => v,
            None => default,
        },
{
    match value {
        Some(v) => v,
        None => default,
    }
}

/// Error reported by the state layer; fee totals report overflow with it.
#[derive(Clone, Copy, Debug, PartialEq, Eq, Structural)]
pub enum StateError {
    InvalidTransition,
}

/// Fee totals before any fee of their kind was recorded.
pub open spec fn zero_fee_totals() -> FeeTotals {
    FeeTotals { operation_count: 0, collected_amount: 0, treasury_amount: 0 }
}

/// What reading the fee totals gives back: the stored totals or zero
/// totals, and whether the entry's lifetime is to be extended, which it
/// is once at least one operation has been recorded.
pub fn get_fee_totals(stored: Option<FeeTotals>) -> (r: (FeeTotals, bool))
    ensures
        r.0 == match stored {
            Some(t) => t,
            None => zero_fee_totals(),
        },
        r.1 == (r.0.operation_count > 0),
        stored matches Some(t) ==> r.0 == t,
        stored is None ==> r.0.operation_count == 0 && r.0.collected_amount == 0
            && r.0.treasury_amount == 0 && !r.1,
{
    let totals = match stored {
        Some(t) => t,
        None => FeeTotals { operation_count: 0, collected_amount: 0, treasury_amount: 0 },
    };
    let extend = totals.operation_count > 0;
    (totals, extend)
}

/// Whether recording one more operation with these amounts fits the
/// totals' integer ranges.
pub open spec fn fee_record_fits(totals: FeeTotals, collected_amount: i128, treasury_amount: i128) -> bool {
    &&& totals.operation_count + 1 <= u64::MAX
    &&& i128::MIN <= totals.collected_amount + collected_amount <= i128::MAX
    &&& i128::MIN <= totals.treasury_amount + treasury_amount <= i128::MAX
}

/// The outcome of recording one operation with these amounts.
pub open spec fn fee_record_outcome(
    totals: FeeTotals,
    collected_amount: i128,
    treasury_amount: i128,
) -> Result<FeeTotals, StateError> {
    if fee_record_fits(totals, collected_amount, treasury_amount) {
        Ok(
            FeeTotals {
                operation_count: (totals.operation_count + 1) as u64,
                collected_amount: (totals.collected_amount + collected_amount) as i128,
                treasury_amount: (totals.treasury_amount + treasury_amount) as i128,
            },
        )
    } else {
        Err(StateError::InvalidTransition)
    }
}

/// Records one operation in `totals`: one more operation, and the
/// collected and treasury amounts added. Fails with `InvalidTransition`,
/// and nothing is to be stored, where any of the three overflows.
pub fn record_fee_totals(totals: FeeTotals, collected_amount: i128, treasury_amount: i128) -> (r:
    Result<FeeTotals, StateError>)
    ensures
        r == fee_record_outcome(totals, collected_amount, treasury_amount),
        r is Err <==> (totals.operation_count == u64::MAX || totals.collected_amount + collected_amount
            > i128::MAX || totals.collected_amount + collected_amount < i128::MIN
            || totals.treasury_amount + treasury_amount > i128::MAX || totals.treasury_amount
            + treasury_amount < i128::MIN),
        r is Err ==> r == Err::<FeeTotals, StateError>(StateError::InvalidTransition),
        r matches Ok(n) ==> n.operation_count == totals.operation_count + 1
            && n.collected_amount == totals.collected_amount + collected_amount
            && n.treasury_amount == totals.treasury_amount + treasury_amount,
{
    let operation_count = match totals.operation_count.checked_add(1) {
        Some(v) => v,
        None => return Err(StateError::InvalidTransition),
    };
    let collected = match totals.collected_amount.checked_add(collected_amount) {
        Some(v) => v,
        None => return Err(StateError::InvalidTransition),
    };
    let treasury = match totals.treasury_amount.checked_add(treasury_amount) {
        Some(v) => v,
        None => return Err(StateError::InvalidTransition),
    };
    Ok(FeeTotals { operation_count, collected_amount: collected, treasury_amount: treasury })
}

/// A record adds exactly one operation and exactly the recorded amounts,
/// and is refused only on overflow.
pub proof fn lemma_fee_totals_accumulate(
    totals: FeeTotals,
    collected_amount: i128,
    treasury_amount: i128,
)
    ensures
        fee_record_outcome(totals, collected_amount, treasury_amount) matches Ok(n) ==> {
            &&& n.operation_count == totals.operation_count + 1
            &&& n.collected_amount == totals.collected_amount + collected_amount
            &&& n.treasury_amount == totals.treasury_amount + treasury_amount
        },
        fee_record_outcome(totals, collected_amount, treasury_amount) is Err <==> !fee_record_fits(
            totals,
            collected_amount,
            treasury_amount,
        ),
{
}

/// Once an operation has been recorded, reading the totals back extends
/// their lifetime; zero totals read from an empty entry do not.
pub proof fn lemma_recorded_totals_are_kept_alive(
    totals: FeeTotals,
    collected_amount: i128,
    treasury_amount: i128,
)
    ensures
        fee_record_outcome(totals, collected_amount, treasury_amount) matches Ok(n) ==> n.operation_count
            > 0,
        zero_fee_totals().operation_count == 0,
{
}

/// Recording refuses exactly on overflow: the outcome is an error when
/// the operation count is already `u64::MAX` or either amount sum leaves
/// the `i128` range, and otherwise it is the totals with one more
/// operation and both amounts added.
pub proof fn lemma_fee_record_refuses_only_overflow(
    totals: FeeTotals,
    collected_amount: i128,
    treasury_amount: i128,
)
    ensures
        fee_record_outcome(totals, collected_amount, treasury_amount) is Err <==> (totals.operation_count == u64::MAX || totals.collected_amount + collected_amount
            > i128::MAX || totals.collected_amount + collected_amount < i128::MIN
            || totals.treasury_amount + treasury_amount > i128::MAX || totals.treasury_amount
            + treasury_amount < i128::MIN),
        !(totals.operation_count == u64::MAX || totals.collected_amount + collected_amount
            > i128::MAX || totals.collected_amount + collected_amount < i128::MIN
            || totals.treasury_amount + treasury_amount > i128::MAX || totals.treasury_amount
            + treasury_amount < i128::MIN) ==> fee_record_outcome(totals, collected_amount, treasury_amount) == Ok::<
            FeeTotals,
            StateError,
        >(
            FeeTotals {
                operation_count: (totals.operation_count + 1) as u64,
                collected_amount: (totals.collected_amount + collected_amount) as i128,
                treasury_amount: (totals.treasury_amount + treasury_amount) as i128,
            },
        ),
        fee_record_outcome(totals, collected_amount, treasury_amount) is Err ==> fee_record_outcome(
            totals,
            collected_amount,
            treasury_amount,
        ) == Err::<FeeTotals, StateError>(StateError::InvalidTransition),
{
}

/// Zero totals, what an empty entry reads as, hold no operation and no
/// amounts.
pub proof fn lemma_zero_totals_are_empty()
    ensures
        zero_fee_totals().operation_count == 0,
        zero_fee_totals().collected_amount == 0,
        zero_fee_totals().treasury_amount == 0,
{
}

} // verus!
