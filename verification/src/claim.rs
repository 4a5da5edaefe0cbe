//! The claim processor: turns a claim request into either a no-op or a
//! transfer action for the outer layer, and commits the ledger mutation
//! only when the transfer succeeded.

use crate::errors::VestingError;
use crate::scheduler::{
    lemma_vested_bounds, lemma_vested_monotonic, spec_vested_amount, vested_amount,
};
use crate::state::{mint_decimals, UserVesting, VestingConfig};
use vstd::prelude::*;

verus! {

/// What a claim asks the outer transfer layer to do.
#[derive(Clone, Copy, Debug, PartialEq, Eq, Structural)]
pub enum ClaimAction {
    /// Nothing new has vested: succeed with zero effect.
    NoOp,
    /// Move `amount` units (of an asset with `decimals` precision) from
    /// the custodial holding area to the beneficiary.
    Transfer { amount: u64, decimals: u8 },
}

/// The newly claimable delta: vested amount minus what was already
/// released, floored at zero.
pub open spec fn spec_claimable(
    total_allocation: u64,
    start_time: i64,
    cliff_time: i64,
    end_time: i64,
    claimed_amount: u64,
    now: i64,
) -> u64 {
    let vested = spec_vested_amount(total_allocation, start_time, cliff_time, end_time, now);
    if vested > claimed_amount {
        (vested - claimed_amount) as u64
    } else {
        0u64
    }
}

/// The claimed amount after one full claim at `now`: the old amount
/// plus the claimable delta.  The sum never exceeds `u64::MAX`, since
/// it equals either the old claimed amount or the vested amount.
pub open spec fn spec_claimed_after_claim(
    total_allocation: u64,
    start_time: i64,
    cliff_time: i64,
    end_time: i64,
    claimed_amount: u64,
    now: i64,
) -> u64 {
    (claimed_amount + spec_claimable(
        total_allocation,
        start_time,
        cliff_time,
        end_time,
        claimed_amount,
        now,
    )) as u64
}

/// Computes the claimable delta for `record` under `config` at `now`.
pub fn claimable_amount(config: &VestingConfig, record: &UserVesting, now: i64) -> (claimable:
    u64)
    ensures
        claimable == spec_claimable(
            record.total_allocation,
            config.start_time,
            config.cliff_time,
            config.end_time,
            record.claimed_amount,
            now,
        ),
        record.claimed_amount + claimable <= u64::MAX,
{
    let vested = vested_amount(
        record.total_allocation,
        config.start_time,
        config.cliff_time,
        config.end_time,
        now,
    );
    vested.saturating_sub(record.claimed_amount)
}

/// Decides what a claim at `now` must do: nothing if no new amount has
/// vested (a repeated or premature claim is a harmless no-op, not an
/// error), otherwise a transfer of the claimable delta, using the
/// asset's decimal precision read from the raw descriptor `mint_data`.
pub fn prepare_claim(
    config: &VestingConfig,
    record: &UserVesting,
    mint_data: &Vec<u8>,
    now: i64,
) -> (action: Result<ClaimAction, VestingError>)
    ensures
        ({
            let claimable = spec_claimable(
                record.total_allocation,
                config.start_time,
                config.cliff_time,
                config.end_time,
                record.claimed_amount,
                now,
            );
            if claimable == 0 {
                action == Ok::<ClaimAction, VestingError>(ClaimAction::NoOp)
            } else if mint_data@.len() < 45 {
                action == Err::<ClaimAction, VestingError>(VestingError::ScheduleMalformed)
            } else {
                action == Ok::<ClaimAction, VestingError>(ClaimAction::Transfer {
                    amount: claimable,
                    decimals: mint_data@[44],
                })
            }
        }),
{
    let claimable = claimable_amount(config, record, now);
    if claimable == 0 {
        return Ok(ClaimAction::NoOp);
    }
    match mint_decimals(mint_data) {
        Ok(decimals) => Ok(ClaimAction::Transfer { amount: claimable, decimals }),
        Err(e) => Err(e),
    }
}

/// Commits or aborts a claim, given the outcome of the external
/// transfer: only a successful transfer mutates the record, and a
/// failed transfer leaves it exactly as it was.
pub fn settle_claim(record: &mut UserVesting, amount: u64, transfer_succeeded: bool) -> (result:
    Result<u64, VestingError>)
    ensures
        transfer_succeeded ==> {
            &&& result == Ok::<u64, VestingError>(amount)
            &&& final(record).claimed_amount == old(record).spec_claimed_after(amount)
            &&& final(record).total_allocation == old(record).total_allocation
            &&& final(record).bump == old(record).bump
        },
        !transfer_succeeded ==> {
            &&& result == Err::<u64, VestingError>(VestingError::TransferFailed)
            &&& *final(record) == *old(record)
        },
{
    if transfer_succeeded {
        record.record_claim(amount);
        Ok(amount)
    } else {
        Err(VestingError::TransferFailed)
    }
}

/// Claiming is idempotent in time: after a full claim at `now`, a
/// second claim at the same `now` has nothing left to release.
pub proof fn lemma_claim_idempotent(
    total_allocation: u64,
    start_time: i64,
    cliff_time: i64,
    end_time: i64,
    claimed_amount: u64,
    now: i64,
)
    ensures
        spec_claimable(
            total_allocation,
            start_time,
            cliff_time,
            end_time,
            spec_claimed_after_claim(
                total_allocation,
                start_time,
                cliff_time,
                end_time,
                claimed_amount,
                now,
            ),
            now,
        ) == 0,
{
}

/// The claimed amount never escapes `[0, total_allocation]`: every
/// claim raises it to at most the vested amount, which the allocation
/// bounds.
pub proof fn lemma_claimed_stays_within_allocation(
    total_allocation: u64,
    start_time: i64,
    cliff_time: i64,
    end_time: i64,
    claimed_amount: u64,
    now: i64,
)
    requires
        claimed_amount <= total_allocation,
    ensures
        spec_claimed_after_claim(
            total_allocation,
            start_time,
            cliff_time,
            end_time,
            claimed_amount,
            now,
        ) <= total_allocation,
{
    lemma_vested_bounds(total_allocation, start_time, cliff_time, end_time, now);
}

/// The terminal state is absorbing: once the whole allocation has been
/// claimed, every further claim is a permanent no-op.
pub proof fn lemma_terminal_state_is_absorbing(
    total_allocation: u64,
    start_time: i64,
    cliff_time: i64,
    end_time: i64,
    now: i64,
)
    ensures
        spec_claimable(
            total_allocation,
            start_time,
            cliff_time,
            end_time,
            total_allocation,
            now,
        ) == 0,
{
    lemma_vested_bounds(total_allocation, start_time, cliff_time, end_time, now);
}

/// The claimed amount after a whole sequence of claims, each at its
/// own timestamp, starting from `claimed_amount`.
pub open spec fn spec_claimed_after_sequence(
    total_allocation: u64,
    start_time: i64,
    cliff_time: i64,
    end_time: i64,
    claimed_amount: u64,
    times: Seq<i64>,
) -> u64
    decreases times.len(),
{
    if times.len() == 0 {
        claimed_amount
    } else {
        spec_claimed_after_sequence(
            total_allocation,
            start_time,
            cliff_time,
            end_time,
            spec_claimed_after_claim(
                total_allocation,
                start_time,
                cliff_time,
                end_time,
                claimed_amount,
                times[0],
            ),
            times.drop_first(),
        )
    }
}

/// The total of the claimable deltas released over a whole sequence of
/// claims, starting from `claimed_amount`.
pub open spec fn spec_released_by_sequence(
    total_allocation: u64,
    start_time: i64,
    cliff_time: i64,
    end_time: i64,
    claimed_amount: u64,
    times: Seq<i64>,
) -> int
    decreases times.len(),
{
    if times.len() == 0 {
        0
    } else {
        spec_claimable(
            total_allocation,
            start_time,
            cliff_time,
            end_time,
            claimed_amount,
            times[0],
        ) + spec_released_by_sequence(
            total_allocation,
            start_time,
            cliff_time,
            end_time,
            spec_claimed_after_claim(
                total_allocation,
                start_time,
                cliff_time,
                end_time,
                claimed_amount,
                times[0],
            ),
            times.drop_first(),
        )
    }
}

/// Every claim raises the claimed amount by exactly its claimable
/// delta, so the total released over a sequence is the total growth of
/// the claimed amount.
proof fn lemma_released_is_growth(
    total_allocation: u64,
    start_time: i64,
    cliff_time: i64,
    end_time: i64,
    claimed_amount: u64,
    times: Seq<i64>,
)
    ensures
        spec_released_by_sequence(
            total_allocation,
            start_time,
            cliff_time,
            end_time,
            claimed_amount,
            times,
        ) == spec_claimed_after_sequence(
            total_allocation,
            start_time,
            cliff_time,
            end_time,
            claimed_amount,
            times,
        ) - claimed_amount,
    decreases times.len(),
{
    if times.len() > 0 {
        let after_first = spec_claimed_after_claim(
            total_allocation,
            start_time,
            cliff_time,
            end_time,
            claimed_amount,
            times[0],
        );
        lemma_released_is_growth(
            total_allocation,
            start_time,
            cliff_time,
            end_time,
            after_first,
            times.drop_first(),
        );
    }
}

/// After a sequence of claims at non-decreasing timestamps, the claimed
/// amount has reached the vested amount at the final timestamp (or kept
/// its starting value, whichever is larger).
proof fn lemma_sequence_reaches_final_vested(
    total_allocation: u64,
    start_time: i64,
    cliff_time: i64,
    end_time: i64,
    claimed_amount: u64,
    times: Seq<i64>,
)
    requires
        times.len() > 0,
        forall|i: int, j: int| 0 <= i <= j < times.len() ==> times[i] <= times[j],
    ensures
        ({
            let vested_last = spec_vested_amount(
                total_allocation,
                start_time,
                cliff_time,
                end_time,
                times.last(),
            );
            spec_claimed_after_sequence(
                total_allocation,
                start_time,
                cliff_time,
                end_time,
                claimed_amount,
                times,
            ) == if vested_last > claimed_amount {
                vested_last
            } else {
                claimed_amount
            }
        }),
    decreases times.len(),
{
    let after_first = spec_claimed_after_claim(
        total_allocation,
        start_time,
        cliff_time,
        end_time,
        claimed_amount,
        times[0],
    );
    if times.len() == 1 {
        assert(times.last() == times[0]);
        assert(times.drop_first().len() == 0);
        assert(spec_claimed_after_sequence(
            total_allocation,
            start_time,
            cliff_time,
            end_time,
            after_first,
            times.drop_first(),
        ) == after_first);
    } else {
        let rest = times.drop_first();
        assert(spec_claimed_after_sequence(
            total_allocation,
            start_time,
            cliff_time,
            end_time,
            claimed_amount,
            times,
        ) == spec_claimed_after_sequence(
            total_allocation,
            start_time,
            cliff_time,
            end_time,
            after_first,
            rest,
        ));
        assert(forall|i: int, j: int|
            0 <= i <= j < rest.len() ==> rest[i] <= rest[j]) by {
            assert(forall|i: int| 0 <= i < rest.len() ==> rest[i] == times[i + 1]);
        }
        lemma_sequence_reaches_final_vested(
            total_allocation,
            start_time,
            cliff_time,
            end_time,
            after_first,
            rest,
        );
        assert(rest.last() == times.last());
        lemma_vested_monotonic(
            total_allocation,
            start_time,
            cliff_time,
            end_time,
            times[0],
            times.last(),
        );
    }
}

/// Repeated claiming never releases more than a single claim at the
/// final timestamp would: over any sequence of claims at non-decreasing
/// timestamps that starts from a fresh record, the total of the
/// claimable deltas is exactly the vested amount at the final time.
pub proof fn lemma_sequential_claims_release_final_vested(
    total_allocation: u64,
    start_time: i64,
    cliff_time: i64,
    end_time: i64,
    times: Seq<i64>,
)
    requires
        times.len() > 0,
        forall|i: int, j: int| 0 <= i <= j < times.len() ==> times[i] <= times[j],
    ensures
        spec_released_by_sequence(total_allocation, start_time, cliff_time, end_time, 0, times)
            == spec_vested_amount(
            total_allocation,
            start_time,
            cliff_time,
            end_time,
            times.last(),
        ),
{
    lemma_released_is_growth(total_allocation, start_time, cliff_time, end_time, 0, times);
    lemma_sequence_reaches_final_vested(
        total_allocation,
        start_time,
        cliff_time,
        end_time,
        0,
        times,
    );
}

} // verus!
