//! Where enemies appear: radial batches on a timer, single enemies on onsets.
use crate::Position;
use vstd::prelude::*;

verus! {

/// Fewest enemies in a radial batch.
pub const MIN_ENEMIES: i64 = 5;

/// One more than the most enemies in a radial batch.
pub const MAX_ENEMIES: i64 = 15;

/// Smallest radius of a radial batch, in milli-units.
pub const MIN_RADIUS: i64 = 2_000;

/// Upper bound (exclusive) of the radius of a radial batch, in milli-units.
pub const MAX_RADIUS: i64 = 5_000;

/// Nearest spawn depth is below this bound (exclusive), in milli-units.
pub const MAX_DEPTH: i64 = -25_000;

/// Farthest spawn depth, in milli-units.
pub const MIN_DEPTH: i64 = -30_000;

/// Lower bound of both x and y for a single enemy, in milli-units.
pub const MIN_SIDE: i64 = -5_000;

/// Upper bound (exclusive) of both x and y for a single enemy, in milli-units.
pub const MAX_SIDE: i64 = 5_000;

/// One place on a circle around the z axis: `step` of `steps` equal parts of
/// a full turn, so its angle is `360 * step / steps` degrees.
#[derive(Clone, Copy, Debug, PartialEq, Eq, Structural)]
pub struct RadialSlot {
    pub radius: i64,
    pub step: u32,
    pub steps: u32,
    pub z: i64,
}

impl RadialSlot {
    /// The slot's angle in thousandths of a degree, rounded down.
    pub fn angle_millidegrees(&self) -> (r: u64)
        requires
            self.steps > 0,
        ensures
            r == 360_000 * (self.step as int) / (self.steps as int),
    {
        360_000 * (self.step as u64) / (self.steps as u64)
    }
}

/// The slot of enemy `k` in a batch of `count` spread evenly on a circle.
pub open spec fn radial_slot(k: int, count: int, radius: i64, z: i64) -> RadialSlot {
    RadialSlot { radius, step: (k + 1) as u32, steps: count as u32, z }
}

/// A batch of `count` slots on one circle, enemy `k` at `(k + 1) / count` of a turn.
pub open spec fn is_radial_batch(batch: Seq<RadialSlot>, count: int, radius: i64, z: i64) -> bool {
    &&& batch.len() == count
    &&& forall|k: int| 0 <= k < count ==> #[trigger] batch[k] == radial_slot(k, count, radius, z)
}

/// A slot's angle in degrees multiplied by its `steps`.
pub open spec fn scaled_angle(s: RadialSlot) -> int {
    360 * s.step
}

/// Radial spacing: in a radial batch of `count` slots every slot lies at the
/// batch's radius and depth, the first at `360 / count` degrees, and each
/// next one `360 / count` degrees further round (angles here multiplied by
/// `count`, which every slot carries as its `steps`).
pub proof fn lemma_radial_spacing(batch: Seq<RadialSlot>, count: u32, radius: i64, z: i64)
    requires
        is_radial_batch(batch, count as int, radius, z),
    ensures
        forall|k: int|
            0 <= k < count ==> (#[trigger] batch[k]).steps == count && batch[k].radius == radius
                && batch[k].z == z,
        count > 0 ==> scaled_angle(batch[0]) == 360,
        forall|k: int|
            0 <= k < count - 1 ==> scaled_angle(#[trigger] batch[k + 1]) - scaled_angle(batch[k])
                == 360,
{
    assert forall|k: int| 0 <= k < count - 1 implies scaled_angle(#[trigger] batch[k + 1])
        - scaled_angle(batch[k]) == 360 by {
        assert(batch[k] == radial_slot(k, count as int, radius, z));
        assert(batch[k + 1] == radial_slot(k + 1, count as int, radius, z));
    }
    if count > 0 {
        assert(batch[0] == radial_slot(0, count as int, radius, z));
    }
}

/// Inside the box where single enemies appear.
pub open spec fn in_spawn_box(p: Position) -> bool {
    &&& MIN_SIDE <= p.x < MAX_SIDE
    &&& MIN_SIDE <= p.y < MAX_SIDE
    &&& MIN_DEPTH <= p.z < MAX_DEPTH
}

/// Relies on rand's `thread_rng().gen_range(low, high)`, which for integers
/// returns a value in `[low, high)` and panics when `low >= high`.
#[verifier::external_body]
fn draw_between(low: i64, high: i64) -> (r: i64)
    requires
        low < high,
    ensures
        low <= r < high,
{
    rand::Rng::gen_range(&mut rand::thread_rng(), low, high)
}

/// `count` slots evenly spaced around a circle of the given radius at depth `z`,
/// the first one step past angle zero and the last at a full turn.
pub fn radial_batch(count: u32, radius: i64, z: i64) -> (r: Vec<RadialSlot>)
    ensures
        is_radial_batch(r@, count as int, radius, z),
{
    let mut batch: Vec<RadialSlot> = Vec::new();
    let mut k: u32 = 0;
    while k < count
        invariant
            k <= count,
            batch@.len() == k,
            forall|j: int| 0 <= j < k ==> #[trigger] batch@[j] == radial_slot(j, count as int, radius, z),
        decreases count - k,
    {
        batch.push(RadialSlot { radius, step: k + 1, steps: count, z });
        k = k + 1;
    }
    batch
}

/// A radial batch with a random enemy count, radius and depth.
pub fn schedule_callback() -> (r: Vec<RadialSlot>)
    ensures
        MIN_ENEMIES <= r@.len() < MAX_ENEMIES,
        MIN_RADIUS <= r@[0].radius < MAX_RADIUS,
        MIN_DEPTH <= r@[0].z < MAX_DEPTH,
        is_radial_batch(r@, r@.len() as int, r@[0].radius, r@[0].z),
{
    let count = draw_between(MIN_ENEMIES, MAX_ENEMIES);
    let radius = draw_between(MIN_RADIUS, MAX_RADIUS);
    let z = draw_between(MIN_DEPTH, MAX_DEPTH);
    let batch = radial_batch(count as u32, radius, z);
    assert(batch@[0] == radial_slot(0, count as int, radius, z));
    batch
}

/// A random position for one enemy inside the spawn box.
pub fn create_single() -> (p: Position)
    ensures
        in_spawn_box(p),
{
    let x = draw_between(MIN_SIDE, MAX_SIDE);
    let y = draw_between(MIN_SIDE, MAX_SIDE);
    let z = draw_between(MIN_DEPTH, MAX_DEPTH);
    Position { x, y, z }
}

/// The enemies to create in one frame.
pub struct SpawnPlan {
    /// A drained timer batch, newest slot first.
    pub radial: Vec<RadialSlot>,
    /// One enemy for a detected onset.
    pub single: Option<Position>,
}

/// The spawns of one frame: a timer batch that was drained, in reverse order,
/// and one random enemy when an onset was detected.
pub fn run(pending: Option<Vec<RadialSlot>>, peak: Option<u64>) -> (plan: SpawnPlan)
    ensures
        pending is None ==> plan.radial@.len() == 0,
        pending is Some ==> plan.radial@ == pending->0@.reverse(),
        plan.single is Some <==> peak is Some,
        plan.single is Some ==> in_spawn_box(plan.single->0),
{
    let mut radial: Vec<RadialSlot> = Vec::new();
    match pending {
        Some(batch) => {
            let n = batch.len();
            let mut i: usize = n;
            while i > 0
                invariant
                    n == batch@.len(),
                    i <= n,
                    radial@.len() == n - i,
                    forall|j: int| 0 <= j < n - i ==> #[trigger] radial@[j] == batch@[n - 1 - j],
                decreases i,
            {
                i = i - 1;
                radial.push(batch[i]);
            }
            assert(radial@ =~= batch@.reverse());
        },
        None => {},
    }
    let single = match peak {
        Some(_) => Some(create_single()),
        None => None,
    };
    SpawnPlan { radial, single }
}

/// A hand-off slot for one radial batch between the timer and the frame loop.
pub struct SpawnMailbox {
    slot: Option<Vec<RadialSlot>>,
}

impl View for SpawnMailbox {
    type V = Option<Seq<RadialSlot>>;

    closed spec fn view(&self) -> Option<Seq<RadialSlot>> {
        match self.slot {
            Some(b) => Some(b@),
            None => None,
        }
    }
}

impl SpawnMailbox {
    /// An empty mailbox.
    pub fn new() -> (m: SpawnMailbox)
        ensures
            m@ is None,
    {
        SpawnMailbox { slot: None }
    }

    /// Leaves a batch in the mailbox; a full mailbox refuses it and hands it back.
    pub fn post(&mut self, batch: Vec<RadialSlot>) -> (r: Result<(), Vec<RadialSlot>>)
        ensures
            old(self)@ is None ==> r is Ok && final(self)@ == Some(batch@),
            old(self)@ is Some ==> r == Err::<(), Vec<RadialSlot>>(batch) && final(self)@ == old(
                self,
            )@,
    {
        if self.slot.is_some() {
            Err(batch)
        } else {
            self.slot = Some(batch);
            Ok(())
        }
    }

    /// Removes the waiting batch, if any, and leaves the mailbox empty.
    pub fn take(&mut self) -> (r: Option<Vec<RadialSlot>>)
        ensures
            final(self)@ is None,
            old(self)@ is None ==> r is None,
            old(self)@ is Some ==> r is Some && r->0@ == old(self)@->0,
    {
        self.slot.take()
    }
}

} // verus!
