use vstd::prelude::*;

verus! {

/// Execution cost of a call, in picoseconds of reference hardware.
pub type Weight = u64;

/// The cost of one storage read and of one storage write.
#[derive(Clone, Copy, Debug, PartialEq, Eq, Structural)]
pub struct RuntimeDbWeight {
    pub read: Weight,
    pub write: Weight,
}

/// The costs of a RocksDB-backed node.
pub const ROCKS_DB_READ: Weight = 25_000_000;
pub const ROCKS_DB_WRITE: Weight = 100_000_000;

/// `x`, or `u64::MAX` where it does not fit.
pub open spec fn saturate(x: int) -> Weight {
    if x > u64::MAX as int {
        u64::MAX
    } else {
        x as Weight
    }
}

/// The weight of a call that costs `base`, plus `per_item` for each of `d` items, plus one
/// storage read and one storage write; saturating at `u64::MAX`.
pub open spec fn claim_weight(base: Weight, per_item: Weight, d: u32, db: RuntimeDbWeight) -> Weight {
    saturate(base + per_item * d + db.read + db.write)
}

impl RuntimeDbWeight {
    /// The RocksDB costs.
    pub fn rocks_db() -> (r: RuntimeDbWeight)
        ensures
            r.read == ROCKS_DB_READ,
            r.write == ROCKS_DB_WRITE,
    {
        RuntimeDbWeight { read: ROCKS_DB_READ, write: ROCKS_DB_WRITE }
    }

    /// The cost of `r` reads, saturating.
    pub fn reads(&self, r: Weight) -> (w: Weight)
        ensures
            w == saturate(self.read * r),
    {
        match self.read.checked_mul(r) {
            Some(v) => v,
            None => u64::MAX,
        }
    }

    /// The cost of `w` writes, saturating.
    pub fn writes(&self, w: Weight) -> (c: Weight)
        ensures
            c == saturate(self.write * w),
    {
        match self.write.checked_mul(w) {
            Some(v) => v,
            None => u64::MAX,
        }
    }
}

fn claim_cost(base: Weight, per_item: Weight, d: u32, db: RuntimeDbWeight) -> (r: Weight)
    requires
        per_item <= 1_000_000,
    ensures
        r == claim_weight(base, per_item, d, db),
{
    assert(per_item * d <= 1_000_000 * u32::MAX) by (nonlinear_arith)
        requires
            per_item <= 1_000_000,
            d <= u32::MAX,
    ;
    let items = per_item * (d as u64);
    base.saturating_add(items).saturating_add(db.reads(1)).saturating_add(db.writes(1))
}

/// The cost of `create_claim` for a claim of `d` bytes.
pub fn create_claim(d: u32, db: RuntimeDbWeight) -> (r: Weight)
    ensures
        r == claim_weight(13_317_000, 6_000, d, db),
{
    claim_cost(13_317_000, 6_000, d, db)
}

/// The cost of `revoke_claim` for a claim of `d` bytes.
pub fn revoke_claim(d: u32, db: RuntimeDbWeight) -> (r: Weight)
    ensures
        r == claim_weight(12_796_000, 8_000, d, db),
{
    claim_cost(12_796_000, 8_000, d, db)
}

/// The cost of `transfer_claim` for a claim of `d` bytes.
pub fn transfer_claim(d: u32, db: RuntimeDbWeight) -> (r: Weight)
    ensures
        r == claim_weight(7_722_000, 7_000, d, db),
{
    claim_cost(7_722_000, 7_000, d, db)
}

/// Weight functions of the proof-of-existence calls.
pub trait WeightInfo {
    /// The storage costs that the weights are priced with.
    spec fn db_weight(&self) -> RuntimeDbWeight;

    fn create_claim(&self, d: u32) -> (r: Weight)
        ensures
            r == claim_weight(13_317_000, 6_000, d, self.db_weight()),
    ;

    fn revoke_claim(&self, d: u32) -> (r: Weight)
        ensures
            r == claim_weight(12_796_000, 8_000, d, self.db_weight()),
    ;

    fn transfer_claim(&self, d: u32) -> (r: Weight)
        ensures
            r == claim_weight(7_722_000, 7_000, d, self.db_weight()),
    ;
}

/// Claim weights priced with the storage costs of a given runtime.
#[derive(Clone, Copy, Debug, PartialEq, Eq, Structural)]
pub struct SubstrateWeight {
    pub db: RuntimeDbWeight,
}

impl WeightInfo for SubstrateWeight {
    open spec fn db_weight(&self) -> RuntimeDbWeight {
        self.db
    }

    fn create_claim(&self, d: u32) -> (r: Weight) {
        create_claim(d, self.db)
    }

    fn revoke_claim(&self, d: u32) -> (r: Weight) {
        revoke_claim(d, self.db)
    }

    fn transfer_claim(&self, d: u32) -> (r: Weight) {
        transfer_claim(d, self.db)
    }
}

/// The weights with RocksDB storage costs.
impl WeightInfo for () {
    open spec fn db_weight(&self) -> RuntimeDbWeight {
        RuntimeDbWeight { read: ROCKS_DB_READ, write: ROCKS_DB_WRITE }
    }

    fn create_claim(&self, d: u32) -> (r: Weight) {
        create_claim(d, RuntimeDbWeight::rocks_db())
    }

    fn revoke_claim(&self, d: u32) -> (r: Weight) {
        revoke_claim(d, RuntimeDbWeight::rocks_db())
    }

    fn transfer_claim(&self, d: u32) -> (r: Weight) {
        transfer_claim(d, RuntimeDbWeight::rocks_db())
    }
}

} // verus!
