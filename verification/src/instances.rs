//! The instance batch: per-instance draw parameters for a fixed batch of one
//! hundred meshes, regenerated from scratch every frame by a deterministic,
//! stateless placement rule, plus the one batch-wide modifier applied on top.

use vstd::prelude::*;

use crate::geom::{white, ColorMilli, Vec3Milli};

verus! {

/// How many instances the batch draws each frame.
pub open spec fn batch_size() -> u64 {
    100
}

/// Per-instance draw parameters: a position and a colour.
#[derive(Clone, Copy, PartialEq, Eq, Structural, Debug)]
pub struct InstanceRecord {
    pub position: Vec3Milli,
    pub color: ColorMilli,
}

/// The batch-wide modifier applied uniformly on top of every per-instance
/// value at draw time: a uniform scale and a colour multiplier.
#[derive(Clone, Copy, PartialEq, Eq, Structural, Debug)]
pub struct BatchModifier {
    pub scale_milli: i64,
    pub color: ColorMilli,
}

/// The placement rule: instance `i` sits at `(2 * i, 0, 0)` world units (in
/// thousandths: `2000 * i`) with the fixed base colour, white.
pub open spec fn record_at(i: int) -> InstanceRecord {
    InstanceRecord {
        position: Vec3Milli { x: (2000 * i) as i64, y: 0, z: 0 },
        color: white(),
    }
}

/// The whole batch for one frame: `count` records placed by the rule.
pub open spec fn batch(count: int) -> Seq<InstanceRecord> {
    Seq::new(count as nat, |i: int| record_at(i))
}

/// The fixed batch-wide modifier: double scale, colour left at full white.
pub open spec fn batch_modifier_spec() -> BatchModifier {
    BatchModifier { scale_milli: 2000, color: white() }
}

/// The batch-wide draw modifier for every frame.
pub fn batch_modifier() -> (r: BatchModifier)
    ensures
        r == batch_modifier_spec(),
{
    BatchModifier { scale_milli: 2000, color: ColorMilli { r: 1000, g: 1000, b: 1000, a: 1000 } }
}

/// Regenerates the whole batch for one frame: `count` records, record `i`
/// placed at `(2 * i, 0, 0)` world units in white. Stateless — nothing from
/// the previous frame is read.
pub fn regenerate(count: u64) -> (r: Vec<InstanceRecord>)
    requires
        count <= 1_000_000,
    ensures
        r@ == batch(count as int),
{
    let mut records: Vec<InstanceRecord> = Vec::new();
    let mut i: u64 = 0;
    while i < count
        invariant
            i <= count,
            count <= 1_000_000,
            records@.len() == i as int,
            forall|k: int| 0 <= k < i as int ==> records@[k] == record_at(k),
        decreases count - i,
    {
        records.push(
            InstanceRecord {
                position: Vec3Milli { x: 2000 * (i as i64), y: 0, z: 0 },
                color: ColorMilli { r: 1000, g: 1000, b: 1000, a: 1000 },
            },
        );
        i = i + 1;
    }
    proof {
        assert(records@ =~= batch(count as int));
    }
    records
}

} // verus!
