//! Dispatch weights: execution cost as a pair of execution time and proof
//! size, composed with saturating arithmetic from a measured base cost and
//! the host's database read and write costs.

use vstd::prelude::*;

verus! {

/// Saturating product of two costs.
pub open spec fn sat_mul(a: u64, b: u64) -> u64 {
    if a * b > u64::MAX {
        u64::MAX
    } else {
        (a * b) as u64
    }
}

/// Saturating product, computed.
fn mul_saturating(a: u64, b: u64) -> (r: u64)
    ensures
        r == sat_mul(a, b),
{
    match a.checked_mul(b) {
        Some(v) => v,
        None => u64::MAX,
    }
}

/// Computational weight of one dispatch.
#[derive(Clone, Copy, PartialEq, Eq, Structural, Debug)]
pub struct Weight {
    /// Execution time, in picoseconds.
    pub ref_time: u64,
    /// Proof size, in bytes.
    pub proof_size: u64,
}

impl Weight {
    /// A weight from its two components.
    pub fn from_parts(ref_time: u64, proof_size: u64) -> (w: Weight)
        ensures
            w.ref_time == ref_time,
            w.proof_size == proof_size,
    {
        Weight { ref_time, proof_size }
    }

    /// Componentwise saturating sum of two weights.
    pub fn saturating_add(self, rhs: Weight) -> (w: Weight)
        ensures
            w.ref_time == self.ref_time.saturating_add(rhs.ref_time),
            w.proof_size == self.proof_size.saturating_add(rhs.proof_size),
    {
        Weight {
            ref_time: self.ref_time.saturating_add(rhs.ref_time),
            proof_size: self.proof_size.saturating_add(rhs.proof_size),
        }
    }
}

/// Cost of one database read and one database write on the host.
#[derive(Clone, Copy, PartialEq, Eq, Structural, Debug)]
pub struct RuntimeDbWeight {
    pub read: u64,
    pub write: u64,
}

impl RuntimeDbWeight {
    /// Weight of `n` database reads.
    pub fn reads(self, n: u64) -> (w: Weight)
        ensures
            w.ref_time == sat_mul(self.read, n),
            w.proof_size == 0,
    {
        Weight { ref_time: mul_saturating(self.read, n), proof_size: 0 }
    }

    /// Weight of `n` database writes.
    pub fn writes(self, n: u64) -> (w: Weight)
        ensures
            w.ref_time == sat_mul(self.write, n),
            w.proof_size == 0,
    {
        Weight { ref_time: mul_saturating(self.write, n), proof_size: 0 }
    }
}

/// Weights of the space-management dispatches, measured on the reference
/// hardware and parameterized by the host's database weights.
#[derive(Clone, Copy, PartialEq, Eq, Structural, Debug)]
pub struct WeightInfo {
    pub db_weight: RuntimeDbWeight,
}

impl WeightInfo {
    /// Weight of adding a delegate.
    pub fn add_delegate(&self) -> (w: Weight)
        ensures
            w.ref_time == (40_820_000u64).saturating_add(
                sat_mul(self.db_weight.read, 5),
            ).saturating_add(sat_mul(self.db_weight.write, 4)),
            w.proof_size == 323533,
    {
        Weight::from_parts(40_820_000, 0).saturating_add(
            Weight::from_parts(0, 323533),
        ).saturating_add(self.db_weight.reads(5)).saturating_add(self.db_weight.writes(4))
    }

    /// Weight of adding an administrating delegate.
    pub fn add_admin_delegate(&self) -> (w: Weight)
        ensures
            w.ref_time == (40_380_000u64).saturating_add(
                sat_mul(self.db_weight.read, 5),
            ).saturating_add(sat_mul(self.db_weight.write, 4)),
            w.proof_size == 323533,
    {
        Weight::from_parts(40_380_000, 0).saturating_add(
            Weight::from_parts(0, 323533),
        ).saturating_add(self.db_weight.reads(5)).saturating_add(self.db_weight.writes(4))
    }

    /// Weight of adding a delegator.
    pub fn add_delegator(&self) -> (w: Weight)
        ensures
            w.ref_time == (40_180_000u64).saturating_add(
                sat_mul(self.db_weight.read, 5),
            ).saturating_add(sat_mul(self.db_weight.write, 4)),
            w.proof_size == 323533,
    {
        Weight::from_parts(40_180_000, 0).saturating_add(
            Weight::from_parts(0, 323533),
        ).saturating_add(self.db_weight.reads(5)).saturating_add(self.db_weight.writes(4))
    }

    /// Weight of removing a delegate.
    pub fn remove_delegate(&self) -> (w: Weight)
        ensures
            w.ref_time == (40_440_000u64).saturating_add(
                sat_mul(self.db_weight.read, 5),
            ).saturating_add(sat_mul(self.db_weight.write, 4)),
            w.proof_size == 323533,
    {
        Weight::from_parts(40_440_000, 0).saturating_add(
            Weight::from_parts(0, 323533),
        ).saturating_add(self.db_weight.reads(5)).saturating_add(self.db_weight.writes(4))
    }

    /// Weight of creating a space.
    pub fn create(&self) -> (w: Weight)
        ensures
            w.ref_time == (27_760_000u64).saturating_add(
                sat_mul(self.db_weight.read, 2),
            ).saturating_add(sat_mul(self.db_weight.write, 4)),
            w.proof_size == 3613,
    {
        Weight::from_parts(27_760_000, 0).saturating_add(
            Weight::from_parts(0, 3613),
        ).saturating_add(self.db_weight.reads(2)).saturating_add(self.db_weight.writes(4))
    }

    /// Weight of approving a space.
    pub fn approve(&self) -> (w: Weight)
        ensures
            w.ref_time == (21_771_000u64).saturating_add(
                sat_mul(self.db_weight.read, 2),
            ).saturating_add(sat_mul(self.db_weight.write, 2)),
            w.proof_size == 3613,
    {
        Weight::from_parts(21_771_000, 0).saturating_add(
            Weight::from_parts(0, 3613),
        ).saturating_add(self.db_weight.reads(2)).saturating_add(self.db_weight.writes(2))
    }

    /// Weight of archiving a space.
    pub fn archive(&self) -> (w: Weight)
        ensures
            w.ref_time == (30_200_000u64).saturating_add(
                sat_mul(self.db_weight.read, 3),
            ).saturating_add(sat_mul(self.db_weight.write, 2)),
            w.proof_size == 3649,
    {
        Weight::from_parts(30_200_000, 0).saturating_add(
            Weight::from_parts(0, 3649),
        ).saturating_add(self.db_weight.reads(3)).saturating_add(self.db_weight.writes(2))
    }

    /// Weight of restoring an archived space.
    pub fn restore(&self) -> (w: Weight)
        ensures
            w.ref_time == (29_360_000u64).saturating_add(
                sat_mul(self.db_weight.read, 3),
            ).saturating_add(sat_mul(self.db_weight.write, 2)),
            w.proof_size == 3649,
    {
        Weight::from_parts(29_360_000, 0).saturating_add(
            Weight::from_parts(0, 3649),
        ).saturating_add(self.db_weight.reads(3)).saturating_add(self.db_weight.writes(2))
    }

    /// Weight of updating a space's transaction capacity.
    pub fn update_transaction_capacity(&self) -> (w: Weight)
        ensures
            w.ref_time == (21_680_000u64).saturating_add(
                sat_mul(self.db_weight.read, 2),
            ).saturating_add(sat_mul(self.db_weight.write, 2)),
            w.proof_size == 3613,
    {
        Weight::from_parts(21_680_000, 0).saturating_add(
            Weight::from_parts(0, 3613),
        ).saturating_add(self.db_weight.reads(2)).saturating_add(self.db_weight.writes(2))
    }

    /// Weight of resetting a space's transaction count.
    pub fn reset_transaction_count(&self) -> (w: Weight)
        ensures
            w.ref_time == (21_630_000u64).saturating_add(
                sat_mul(self.db_weight.read, 2),
            ).saturating_add(sat_mul(self.db_weight.write, 2)),
            w.proof_size == 3613,
    {
        Weight::from_parts(21_630_000, 0).saturating_add(
            Weight::from_parts(0, 3613),
        ).saturating_add(self.db_weight.reads(2)).saturating_add(self.db_weight.writes(2))
    }

    /// Weight of revoking a space's approval.
    pub fn approval_revoke(&self) -> (w: Weight)
        ensures
            w.ref_time == (21_870_000u64).saturating_add(
                sat_mul(self.db_weight.read, 2),
            ).saturating_add(sat_mul(self.db_weight.write, 2)),
            w.proof_size == 3613,
    {
        Weight::from_parts(21_870_000, 0).saturating_add(
            Weight::from_parts(0, 3613),
        ).saturating_add(self.db_weight.reads(2)).saturating_add(self.db_weight.writes(2))
    }

    /// Weight of restoring a space's approval.
    pub fn approval_restore(&self) -> (w: Weight)
        ensures
            w.ref_time == (21_729_000u64).saturating_add(
                sat_mul(self.db_weight.read, 2),
            ).saturating_add(sat_mul(self.db_weight.write, 2)),
            w.proof_size == 3613,
    {
        Weight::from_parts(21_729_000, 0).saturating_add(
            Weight::from_parts(0, 3613),
        ).saturating_add(self.db_weight.reads(2)).saturating_add(self.db_weight.writes(2))
    }
}

} // verus!
