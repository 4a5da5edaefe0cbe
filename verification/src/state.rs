//! The two persisted entities: the per-asset schedule configuration and
//! the per-beneficiary allocation record.

use crate::errors::VestingError;
use vstd::prelude::*;

verus! {

/// The global vesting schedule for one asset class.  Created exactly
/// once per asset by a funding transaction and immutable thereafter.
pub struct VestingConfig {
    /// Identifier (32 raw bytes) of the fungible-asset class under vesting.
    pub mint: Vec<u8>,
    /// Identifier (32 raw bytes) of the principal that created the
    /// schedule.  Informational; never used for claim authorization.
    pub authority: Vec<u8>,
    /// Schedule start, seconds since epoch.
    pub start_time: i64,
    /// Nothing vests before this time, even if `start_time` is earlier.
    pub cliff_time: i64,
    /// Everything is vested from this time on.
    pub end_time: i64,
    /// Total quantity locked under this schedule, in the asset's
    /// smallest indivisible unit.
    pub total_amount: u64,
    /// Bump seed of the schedule's derived custody authority.
    pub bump: u8,
}

impl VestingConfig {
    /// Identifiers are 32-byte values.
    pub open spec fn wf(self) -> bool {
        &&& self.mint@.len() == 32
        &&& self.authority@.len() == 32
    }

    /// A new schedule configuration with the given parameters.
    ///
    /// The time ordering `start_time <= cliff_time <= end_time` is
    /// deliberately not validated here: the scheduler's defensive
    /// floors keep even a misconfigured schedule safe at claim time.
    pub fn new(
        mint: Vec<u8>,
        authority: Vec<u8>,
        start_time: i64,
        cliff_time: i64,
        end_time: i64,
        total_amount: u64,
        bump: u8,
    ) -> (config: VestingConfig)
        ensures
            config == (VestingConfig {
                mint,
                authority,
                start_time,
                cliff_time,
                end_time,
                total_amount,
                bump,
            }),
    {
        VestingConfig { mint, authority, start_time, cliff_time, end_time, total_amount, bump }
    }
}

/// Builds the schedule configuration for a creation request, reading
/// the asset's decimal precision out of the raw descriptor first: a
/// descriptor too short to contain it rejects the whole creation.  On
/// success the caller funds the custodial holding area with
/// `total_amount` at the returned precision and persists the config.
pub fn prepare_schedule(
    mint: &Vec<u8>,
    authority: &Vec<u8>,
    start_time: i64,
    cliff_time: i64,
    end_time: i64,
    total_amount: u64,
    mint_data: &Vec<u8>,
    bump: u8,
) -> (result: Result<(VestingConfig, u8), VestingError>)
    ensures
        mint_data@.len() < 45 ==> result == Err::<(VestingConfig, u8), VestingError>(
            VestingError::ScheduleMalformed,
        ),
        mint_data@.len() >= 45 ==> {
            &&& result is Ok
            &&& ({
                let (config, decimals) = result->Ok_0;
                &&& config.mint@ == mint@
                &&& config.authority@ == authority@
                &&& config.start_time == start_time
                &&& config.cliff_time == cliff_time
                &&& config.end_time == end_time
                &&& config.total_amount == total_amount
                &&& config.bump == bump
                &&& decimals == mint_data@[44]
            })
        },
{
    let decimals = match mint_decimals(mint_data) {
        Ok(d) => d,
        Err(e) => {
            return Err(e);
        },
    };
    let config = VestingConfig::new(
        clone_bytes(mint),
        clone_bytes(authority),
        start_time,
        cliff_time,
        end_time,
        total_amount,
        bump,
    );
    Ok((config, decimals))
}

/// Copies an identifier.
pub fn clone_bytes(bytes: &Vec<u8>) -> (copy: Vec<u8>)
    ensures
        copy@ == bytes@,
{
    let mut out: Vec<u8> = Vec::new();
    let mut k: usize = 0;
    while k < bytes.len()
        invariant
            k <= bytes@.len(),
            out@ == bytes@.subrange(0, k as int),
        decreases bytes@.len() - k,
    {
        out.push(bytes[k]);
        k += 1;
    }
    proof {
        assert(out@ =~= bytes@);
    }
    out
}

/// One beneficiary's allocation under a schedule: their share and the
/// cumulative amount already released to them.
pub struct UserVesting {
    /// The beneficiary's share of the schedule's `total_amount`.
    /// Set once at enrollment.
    pub total_allocation: u64,
    /// Cumulative amount already released.  Starts at zero and only
    /// ever grows, by successful claims.
    pub claimed_amount: u64,
    /// Bump seed of the record's derived storage address.
    pub bump: u8,
}

impl UserVesting {
    /// A freshly enrolled record: the full allocation still locked,
    /// nothing claimed yet.
    pub fn new(total_allocation: u64, bump: u8) -> (record: UserVesting)
        ensures
            record.total_allocation == total_allocation,
            record.claimed_amount == 0,
            record.bump == bump,
    {
        UserVesting { total_allocation, claimed_amount: 0, bump }
    }

    /// The claimed amount after releasing `delta` more units: a
    /// saturating addition, as the executable mutation performs it.
    pub open spec fn spec_claimed_after(self, delta: u64) -> u64 {
        if self.claimed_amount + delta > u64::MAX {
            u64::MAX
        } else {
            (self.claimed_amount + delta) as u64
        }
    }

    /// Records that `delta` more units were released to the beneficiary.
    ///
    /// This is the only mutator of `claimed_amount`; the claim processor
    /// invokes it only after the external transfer has succeeded.
    pub fn record_claim(&mut self, delta: u64)
        ensures
            final(self).claimed_amount == old(self).spec_claimed_after(delta),
            final(self).total_allocation == old(self).total_allocation,
            final(self).bump == old(self).bump,
            final(self).claimed_amount >= old(self).claimed_amount,
    {
        self.claimed_amount = self.claimed_amount.saturating_add(delta);
    }
}

/// Reads the asset's decimal precision out of the raw asset descriptor:
/// the byte at offset 44 is the decimals field.  A descriptor too short
/// to contain it is rejected as malformed.
pub fn mint_decimals(mint_data: &Vec<u8>) -> (result: Result<u8, VestingError>)
    ensures
        mint_data@.len() >= 45 ==> result == Ok::<u8, VestingError>(mint_data@[44]),
        mint_data@.len() < 45 ==> result == Err::<u8, VestingError>(VestingError::ScheduleMalformed),
{
    if mint_data.len() < 45 {
        Err(VestingError::ScheduleMalformed)
    } else {
        Ok(mint_data[44])
    }
}

} // verus!
