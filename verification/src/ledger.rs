//! The allocation ledger: an arena of schedule configurations keyed by
//! asset identifier, and of per-beneficiary allocation records keyed by
//! (asset, beneficiary).  Creation is insert-if-absent: a second
//! creation for the same key collides and is rejected, which is how the
//! deterministic storage-address scheme behaves.

use crate::errors::VestingError;
use crate::state::{clone_bytes, UserVesting, VestingConfig};
use vstd::prelude::*;

verus! {

/// One beneficiary's allocation record together with the keys that
/// locate it: the schedule's asset and the beneficiary.
pub struct AllocationEntry {
    /// Asset identifier of the parent schedule (32 raw bytes).
    pub mint: Vec<u8>,
    /// Identifier of the beneficiary (32 raw bytes).
    pub beneficiary: Vec<u8>,
    /// The allocation record itself.
    pub vesting: UserVesting,
}

/// The ledger owning both persisted entities.
pub struct AllocationLedger {
    /// At most one schedule per asset.
    pub schedules: Vec<VestingConfig>,
    /// At most one record per (asset, beneficiary) pair.
    pub entries: Vec<AllocationEntry>,
}

/// Compares two identifiers byte for byte.
fn bytes_eq(a: &Vec<u8>, b: &Vec<u8>) -> (r: bool)
    ensures
        r == (a@ == b@),
{
    if a.len() != b.len() {
        return false;
    }
    let mut k: usize = 0;
    while k < a.len()
        invariant
            k <= a@.len(),
            a@.len() == b@.len(),
            forall|i: int| 0 <= i < k ==> a@[i] == b@[i],
        decreases a@.len() - k,
    {
        if a[k] != b[k] {
            return false;
        }
        k += 1;
    }
    proof {
        assert(a@ =~= b@);
    }
    true
}

impl AllocationLedger {
    /// There is a schedule for the asset `mint`.
    pub open spec fn has_schedule(self, mint: Seq<u8>) -> bool {
        exists|i: int| 0 <= i < self.schedules@.len() && self.schedules@[i].mint@ == mint
    }

    /// The schedule for the asset `mint`.
    pub open spec fn spec_schedule(self, mint: Seq<u8>) -> VestingConfig
        recommends
            self.has_schedule(mint),
    {
        self.schedules@[choose|i: int|
            0 <= i < self.schedules@.len() && self.schedules@[i].mint@ == mint]
    }

    /// There is an allocation record for `beneficiary` under the asset
    /// `mint`'s schedule.
    pub open spec fn has_record(self, mint: Seq<u8>, beneficiary: Seq<u8>) -> bool {
        exists|i: int|
            0 <= i < self.entries@.len() && self.entries@[i].mint@ == mint
                && self.entries@[i].beneficiary@ == beneficiary
    }

    /// The position of the allocation record for (`mint`, `beneficiary`).
    pub open spec fn spec_record_index(self, mint: Seq<u8>, beneficiary: Seq<u8>) -> int
        recommends
            self.has_record(mint, beneficiary),
    {
        choose|i: int|
            0 <= i < self.entries@.len() && self.entries@[i].mint@ == mint
                && self.entries@[i].beneficiary@ == beneficiary
    }

    /// The allocation record for (`mint`, `beneficiary`).
    pub open spec fn spec_record(self, mint: Seq<u8>, beneficiary: Seq<u8>) -> UserVesting
        recommends
            self.has_record(mint, beneficiary),
    {
        self.entries@[self.spec_record_index(mint, beneficiary)].vesting
    }

    /// Well-formedness: schedule keys are unique, and so are record keys.
    pub open spec fn wf(self) -> bool {
        &&& forall|i: int, j: int|
            0 <= i < j < self.schedules@.len() ==> self.schedules@[i].mint@
                != self.schedules@[j].mint@
        &&& forall|i: int, j: int|
            0 <= i < j < self.entries@.len() ==> !(self.entries@[i].mint@
                == self.entries@[j].mint@ && self.entries@[i].beneficiary@
                == self.entries@[j].beneficiary@)
    }

    /// An empty ledger.
    pub fn new() -> (ledger: AllocationLedger)
        ensures
            ledger.wf(),
            ledger.schedules@.len() == 0,
            ledger.entries@.len() == 0,
    {
        AllocationLedger { schedules: Vec::new(), entries: Vec::new() }
    }

    /// Finds the position of the schedule for `mint`, if there is one.
    fn find_schedule(&self, mint: &Vec<u8>) -> (position: Option<usize>)
        ensures
            match position {
                Some(i) => 0 <= i < self.schedules@.len() && self.schedules@[i as int].mint@
                    == mint@,
                None => !self.has_schedule(mint@),
            },
    {
        let mut k: usize = 0;
        while k < self.schedules.len()
            invariant
                k <= self.schedules@.len(),
                forall|i: int| 0 <= i < k ==> self.schedules@[i].mint@ != mint@,
            decreases self.schedules@.len() - k,
        {
            if bytes_eq(&self.schedules[k].mint, mint) {
                return Some(k);
            }
            k += 1;
        }
        None
    }

    /// Finds the position of the record for (`mint`, `beneficiary`), if
    /// there is one.
    fn find_record(&self, mint: &Vec<u8>, beneficiary: &Vec<u8>) -> (position: Option<usize>)
        ensures
            match position {
                Some(i) => 0 <= i < self.entries@.len() && self.entries@[i as int].mint@ == mint@
                    && self.entries@[i as int].beneficiary@ == beneficiary@,
                None => !self.has_record(mint@, beneficiary@),
            },
    {
        let mut k: usize = 0;
        while k < self.entries.len()
            invariant
                k <= self.entries@.len(),
                forall|i: int|
                    0 <= i < k ==> !(self.entries@[i].mint@ == mint@
                        && self.entries@[i].beneficiary@ == beneficiary@),
            decreases self.entries@.len() - k,
        {
            if bytes_eq(&self.entries[k].mint, mint) && bytes_eq(
                &self.entries[k].beneficiary,
                beneficiary,
            ) {
                return Some(k);
            }
            k += 1;
        }
        None
    }

    /// Looks up the schedule for `mint`.
    pub fn get_schedule(&self, mint: &Vec<u8>) -> (schedule: Option<&VestingConfig>)
        requires
            self.wf(),
        ensures
            match schedule {
                Some(config) => self.has_schedule(mint@) && *config == self.spec_schedule(mint@)
                    && config.mint@ == mint@,
                None => !self.has_schedule(mint@),
            },
    {
        match self.find_schedule(mint) {
            Some(i) => {
                let config = &self.schedules[i];
                proof {
                    let c = choose|j: int|
                        0 <= j < self.schedules@.len() && self.schedules@[j].mint@ == mint@;
                    assert(c == i as int);
                }
                Some(config)
            },
            None => None,
        }
    }

    /// Looks up the allocation record for (`mint`, `beneficiary`).
    pub fn get_record(&self, mint: &Vec<u8>, beneficiary: &Vec<u8>) -> (record: Option<
        &UserVesting,
    >)
        requires
            self.wf(),
        ensures
            match record {
                Some(vesting) => self.has_record(mint@, beneficiary@) && *vesting
                    == self.spec_record(mint@, beneficiary@),
                None => !self.has_record(mint@, beneficiary@),
            },
    {
        match self.find_record(mint, beneficiary) {
            Some(i) => {
                let entry = &self.entries[i];
                proof {
                    let c = self.spec_record_index(mint@, beneficiary@);
                    assert(c == i as int);
                }
                Some(&entry.vesting)
            },
            None => None,
        }
    }

    /// Persists a new schedule.  Creation is rejected when a schedule
    /// already exists for the same asset, as the deterministic storage
    /// address of a schedule collides on re-creation.
    pub fn create_schedule(&mut self, config: VestingConfig) -> (result: Result<
        (),
        VestingError,
    >)
        requires
            old(self).wf(),
        ensures
            final(self).wf(),
            old(self).has_schedule(config.mint@) ==> result == Err::<(), VestingError>(
                VestingError::DuplicateSchedule,
            ) && *final(self) == *old(self),
            !old(self).has_schedule(config.mint@) ==> result == Ok::<(), VestingError>(())
                && final(self).schedules@ == old(self).schedules@.push(config)
                && final(self).entries@ == old(self).entries@,
    {
        match self.find_schedule(&config.mint) {
            Some(_) => Err(VestingError::DuplicateSchedule),
            None => {
                self.schedules.push(config);
                Ok(())
            },
        }
    }

    /// Enrolls a beneficiary under the schedule for `mint` with their
    /// share `total_allocation` and the bump seed of their record's
    /// derived address.  Enrollment is rejected when a record already
    /// exists for the same (schedule, beneficiary) pair.  Whether the
    /// shares handed out stay within the schedule's `total_amount` is
    /// deliberately not checked here.
    pub fn enroll_beneficiary(
        &mut self,
        mint: &Vec<u8>,
        beneficiary: &Vec<u8>,
        total_allocation: u64,
        bump: u8,
    ) -> (result: Result<(), VestingError>)
        requires
            old(self).wf(),
            old(self).has_schedule(mint@),
        ensures
            final(self).wf(),
            old(self).has_record(mint@, beneficiary@) ==> result == Err::<(), VestingError>(
                VestingError::DuplicateEnrollment,
            ) && *final(self) == *old(self),
            !old(self).has_record(mint@, beneficiary@) ==> {
                &&& result == Ok::<(), VestingError>(())
                &&& final(self).schedules@ == old(self).schedules@
                &&& final(self).entries@.len() == old(self).entries@.len() + 1
                &&& forall|i: int|
                    0 <= i < old(self).entries@.len() ==> final(self).entries@[i] == old(
                        self,
                    ).entries@[i]
                &&& final(self).entries@.last().mint@ == mint@
                &&& final(self).entries@.last().beneficiary@ == beneficiary@
                &&& final(self).entries@.last().vesting == UserVesting {
                    total_allocation,
                    claimed_amount: 0,
                    bump,
                }
                &&& final(self).has_record(mint@, beneficiary@)
            },
    {
        match self.find_record(mint, beneficiary) {
            Some(_) => Err(VestingError::DuplicateEnrollment),
            None => {
                let entry = AllocationEntry {
                    mint: clone_bytes(mint),
                    beneficiary: clone_bytes(beneficiary),
                    vesting: UserVesting::new(total_allocation, bump),
                };
                self.entries.push(entry);
                Ok(())
            },
        }
    }

    /// Adds `delta` to the claimed amount of the record for (`mint`,
    /// `beneficiary`), saturating.  This is the only mutator of a
    /// record, and the claim processor invokes it only after the
    /// external transfer succeeded.
    pub fn record_claim(&mut self, mint: &Vec<u8>, beneficiary: &Vec<u8>, delta: u64)
        requires
            old(self).wf(),
            old(self).has_record(mint@, beneficiary@),
        ensures
            final(self).wf(),
            final(self).schedules@ == old(self).schedules@,
            final(self).entries@.len() == old(self).entries@.len(),
            ({
                let at = old(self).spec_record_index(mint@, beneficiary@);
                &&& forall|j: int|
                    0 <= j < old(self).entries@.len() && j != at ==> final(self).entries@[j]
                        == old(self).entries@[j]
                &&& final(self).entries@[at].mint@ == old(self).entries@[at].mint@
                &&& final(self).entries@[at].beneficiary@ == old(self).entries@[at].beneficiary@
                &&& final(self).entries@[at].vesting.claimed_amount == old(
                    self,
                ).entries@[at].vesting.spec_claimed_after(delta)
                &&& final(self).entries@[at].vesting.total_allocation == old(
                    self,
                ).entries@[at].vesting.total_allocation
                &&& final(self).entries@[at].vesting.bump == old(self).entries@[at].vesting.bump
            }),
    {
        match self.find_record(mint, beneficiary) {
            Some(i) => {
                proof {
                    let c = old(self).spec_record_index(mint@, beneficiary@);
                    assert(c == i as int);
                }
                let entry = &mut self.entries[i];
                entry.vesting.record_claim(delta);
            },
            None => {
                proof {
                    assert(false);
                }
            },
        }
    }
}

} // verus!
