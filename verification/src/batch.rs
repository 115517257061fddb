//! The batch scheduler: carving a purchase into a fixed number of
//! time-released batches, and folding a later purchase of the same
//! buyer into the existing schedule.

use vstd::prelude::*;

verus! {

use crate::error::ContractError;
use crate::state::{Batch, sum_amounts, lemma_sum_amounts_uniform, lemma_sum_amounts_pointwise_add};

/// Release time of the batch with index `i` on a linear schedule.
pub open spec fn release_time_at(first_release_time: u64, batch_duration: u128, i: int) -> int {
    first_release_time + i * batch_duration
}

/// Every release time of a schedule of `batch_amount` batches fits in
/// a 64-bit nanosecond timestamp.
pub open spec fn schedule_fits(
    first_release_time: u64,
    batch_duration: u128,
    batch_amount: u128,
) -> bool {
    forall|i: int|
        0 <= i < batch_amount ==> release_time_at(first_release_time, batch_duration, i)
            <= u64::MAX
}

/// Every batch of `s` can take `amount / batch_amount` more without
/// overflowing its 128-bit amount.
pub open spec fn fold_fits(s: Seq<Batch>, amount: u128, batch_amount: u128) -> bool {
    forall|i: int| 0 <= i < s.len() ==> (#[trigger] s[i]).amount + amount / batch_amount
        <= u128::MAX
}

/// Splits `amount` into `batch_amount` equal batches by floor division
/// (the remainder is deliberately lost from the schedule) on a linear
/// release schedule starting at `release_time` with step
/// `batch_duration` nanoseconds.
pub fn create_batches(
    batch_duration: u128,
    batch_amount: u128,
    amount: u128,
    release_time: u64,
) -> (r: Result<Vec<Batch>, ContractError>)
    requires
        batch_amount <= usize::MAX as u128,
    ensures
        r is Ok <==> (batch_amount != 0 && schedule_fits(release_time, batch_duration,
        batch_amount)),
        r == Err::<Vec<Batch>, ContractError>(ContractError::DivideByZero) <==> batch_amount == 0,
        r == Err::<Vec<Batch>, ContractError>(ContractError::ArithmeticOverflow) <==> (batch_amount
            != 0 && !schedule_fits(release_time, batch_duration, batch_amount)),
        r matches Ok(batches) ==> {
            &&& batches@.len() == batch_amount
            &&& forall|i: int|
                0 <= i < batches@.len() ==> (#[trigger] batches@[i]).amount == amount / batch_amount
            &&& forall|i: int|
                0 <= i < batches@.len() ==> (#[trigger] batches@[i]).release_time
                    == release_time_at(release_time, batch_duration, i)
            &&& sum_amounts(batches@) == batch_amount * (amount / batch_amount)
        },
{
    if batch_amount == 0 {
        return Err(ContractError::DivideByZero);
    }
    let amount_per_batch: u128 = amount / batch_amount;
    let mut batches: Vec<Batch> = Vec::new();
    let mut i: u128 = 0;
    while i < batch_amount
        invariant
            batch_amount != 0,
            batch_amount <= usize::MAX as u128,
            i <= batch_amount,
            amount_per_batch == amount / batch_amount,
            batches@.len() == i,
            forall|j: int| 0 <= j < i ==> (#[trigger] batches@[j]).amount == amount / batch_amount,
            forall|j: int|
                0 <= j < i ==> (#[trigger] batches@[j]).release_time == release_time_at(
                    release_time,
                    batch_duration,
                    j,
                ),
            forall|j: int|
                0 <= j < i ==> release_time_at(release_time, batch_duration, j) <= u64::MAX,
        decreases batch_amount - i,
    {
        let offset = match i.checked_mul(batch_duration) {
            Some(o) => o,
            None => {
                assert(!schedule_fits(release_time, batch_duration, batch_amount)) by {
                    assert(release_time_at(release_time, batch_duration, i as int) > u64::MAX);
                }
                return Err(ContractError::ArithmeticOverflow);
            },
        };
        if offset > (u64::MAX - release_time) as u128 {
            assert(!schedule_fits(release_time, batch_duration, batch_amount)) by {
                assert(release_time_at(release_time, batch_duration, i as int) > u64::MAX);
            }
            return Err(ContractError::ArithmeticOverflow);
        }
        let rt: u64 = release_time + (offset as u64);
        batches.push(Batch { amount: amount_per_batch, release_time: rt });
        i = i + 1;
    }
    proof {
        lemma_sum_amounts_uniform(batches@, amount_per_batch);
    }
    Ok(batches)
}

/// Folds a further purchase into an existing schedule: every batch
/// gains `amount / batch_amount` (floor division, remainder lost); no
/// batch is added and no release time moves.
pub fn update_batches(batches: Vec<Batch>, amount: u128, batch_amount: u128) -> (r: Result<
    Vec<Batch>,
    ContractError,
>)
    ensures
        r is Ok <==> (batch_amount != 0 && fold_fits(batches@, amount, batch_amount)),
        r == Err::<Vec<Batch>, ContractError>(ContractError::DivideByZero) <==> batch_amount == 0,
        r == Err::<Vec<Batch>, ContractError>(ContractError::ArithmeticOverflow) <==> (batch_amount
            != 0 && !fold_fits(batches@, amount, batch_amount)),
        r matches Ok(nb) ==> {
            &&& nb@.len() == batches@.len()
            &&& forall|i: int|
                0 <= i < nb@.len() ==> (#[trigger] nb@[i]).amount == batches@[i].amount + amount
                    / batch_amount
            &&& forall|i: int|
                0 <= i < nb@.len() ==> (#[trigger] nb@[i]).release_time
                    == batches@[i].release_time
            &&& sum_amounts(nb@) == sum_amounts(batches@) + batches@.len() * (amount
                / batch_amount)
        },
{
    if batch_amount == 0 {
        return Err(ContractError::DivideByZero);
    }
    let share: u128 = amount / batch_amount;
    let mut new_batches: Vec<Batch> = Vec::new();
    let mut idx: usize = 0;
    while idx < batches.len()
        invariant
            batch_amount != 0,
            share == amount / batch_amount,
            idx <= batches.len(),
            new_batches@.len() == idx,
            forall|j: int|
                0 <= j < idx ==> (#[trigger] new_batches@[j]).amount == batches@[j].amount + amount
                    / batch_amount,
            forall|j: int|
                0 <= j < idx ==> (#[trigger] new_batches@[j]).release_time
                    == batches@[j].release_time,
            forall|j: int|
                0 <= j < idx ==> (#[trigger] batches@[j]).amount + amount / batch_amount
                    <= u128::MAX,
        decreases batches.len() - idx,
    {
        let b = batches[idx];
        let new_amount = match b.amount.checked_add(share) {
            Some(a) => a,
            None => {
                assert(!fold_fits(batches@, amount, batch_amount)) by {
                    assert((batches@[idx as int]).amount + amount / batch_amount > u128::MAX);
                }
                return Err(ContractError::ArithmeticOverflow);
            },
        };
        new_batches.push(Batch { amount: new_amount, release_time: b.release_time });
        idx = idx + 1;
    }
    proof {
        lemma_sum_amounts_pointwise_add(batches@, new_batches@, share);
    }
    Ok(new_batches)
}

} // verus!
