//! The acquisition run: one pass over the planned slots, most recent first.
//!
//! The run asks for the tile of each slot in turn. A tile that was acquired
//! goes to the buffer with its snapshot time; a tile that failed is left out
//! and the run goes on. After the last slot the buffer is marked as complete.

use crate::buffer::{CachedTile, CachedTileView, ImageBuffer};
use crate::error::{PlanningError, TileError};
use crate::key::{key_of_slot, TileKey};
use crate::raster::{Raster, RasterView};
use crate::time::{can_plan, previous_time, slot_instant, TimeSlot, SLOT_COUNT};
use vstd::prelude::*;

verus! {

/// The images in the buffer after the outcome for one slot: the acquired
/// image behind those that were there, or those alone.
pub open spec fn published(
    tiles: Seq<CachedTileView>,
    slot: int,
    outcome: Result<RasterView, TileError>,
) -> Seq<CachedTileView> {
    match outcome {
        Ok(image) => tiles.push(CachedTileView { image, timestamp: slot }),
        Err(_) => tiles,
    }
}

/// The images in the buffer after the outcomes for the slots, one after the
/// other.
pub open spec fn published_all(
    tiles: Seq<CachedTileView>,
    slots: Seq<int>,
    outcomes: Seq<Result<RasterView, TileError>>,
) -> Seq<CachedTileView>
    decreases slots.len(),
{
    if slots.len() == 0 || outcomes.len() == 0 {
        tiles
    } else {
        published_all(
            published(tiles, slots[0], outcomes[0]),
            slots.drop_first(),
            outcomes.drop_first(),
        )
    }
}

/// The number of tiles that were acquired.
pub open spec fn acquired_count(outcomes: Seq<Result<RasterView, TileError>>) -> nat
    decreases outcomes.len(),
{
    if outcomes.len() == 0 {
        0
    } else {
        (if outcomes[0] is Ok {
            1nat
        } else {
            0nat
        }) + acquired_count(outcomes.drop_first())
    }
}

/// A run over slots with one outcome each adds one image for each tile that
/// was acquired and none for a tile that failed, and leaves the images that
/// were in the buffer where they were.
pub proof fn lemma_published_all(
    tiles: Seq<CachedTileView>,
    slots: Seq<int>,
    outcomes: Seq<Result<RasterView, TileError>>,
)
    requires
        slots.len() == outcomes.len(),
    ensures
        published_all(tiles, slots, outcomes).len() == tiles.len() + acquired_count(outcomes),
        published_all(tiles, slots, outcomes).len() <= tiles.len() + slots.len(),
        published_all(tiles, slots, outcomes).subrange(0, tiles.len() as int) == tiles,
    decreases slots.len(),
{
    if slots.len() == 0 {
        assert(tiles.subrange(0, tiles.len() as int) =~= tiles);
    } else {
        let next = published(tiles, slots[0], outcomes[0]);
        lemma_published_all(next, slots.drop_first(), outcomes.drop_first());
        let all = published_all(tiles, slots, outcomes);
        assert(all.subrange(0, tiles.len() as int) =~= next.subrange(0, tiles.len() as int)) by {
            assert(all.subrange(0, next.len() as int) == next);
        }
        assert(next.subrange(0, tiles.len() as int) =~= tiles);
    }
}

/// Whether the instants run from the most recent to the oldest.
pub open spec fn descending(instants: Seq<int>) -> bool {
    forall|i: int, j: int| 0 <= i < j < instants.len() ==> instants[i] > instants[j]
}

/// Whether the images run from the most recent snapshot to the oldest.
pub open spec fn newest_first(tiles: Seq<CachedTileView>) -> bool {
    forall|i: int, j: int|
        0 <= i < j < tiles.len() ==> (#[trigger] tiles[i]).timestamp > (
        #[trigger] tiles[j]).timestamp
}

/// A run over slots that go into the past leaves the images in the buffer
/// running from the most recent snapshot to the oldest, so that the first
/// image is the most recent one that was acquired.
pub proof fn lemma_published_newest_first(
    tiles: Seq<CachedTileView>,
    slots: Seq<int>,
    outcomes: Seq<Result<RasterView, TileError>>,
)
    requires
        slots.len() == outcomes.len(),
        descending(slots),
        newest_first(tiles),
        forall|i: int, j: int|
            0 <= i < tiles.len() && 0 <= j < slots.len() ==> (#[trigger] tiles[i]).timestamp
                > #[trigger] slots[j],
    ensures
        newest_first(published_all(tiles, slots, outcomes)),
    decreases slots.len(),
{
    if slots.len() > 0 {
        let next = published(tiles, slots[0], outcomes[0]);
        let rest = slots.drop_first();
        assert(descending(rest)) by {
            assert forall|i: int, j: int| 0 <= i < j < rest.len() implies rest[i] > rest[j] by {
                assert(rest[i] == slots[i + 1] && rest[j] == slots[j + 1]);
            }
        }
        assert(newest_first(next)) by {
            assert forall|i: int, j: int| 0 <= i < j < next.len() implies (
            #[trigger] next[i]).timestamp > (#[trigger] next[j]).timestamp by {
                if j < tiles.len() {
                    assert(next[i] == tiles[i] && next[j] == tiles[j]);
                } else {
                    assert(next[i] == tiles[i]);
                    assert(next[j].timestamp == slots[0]);
                }
            }
        }
        assert forall|i: int, j: int| 0 <= i < next.len() && 0 <= j < rest.len() implies (
        #[trigger] next[i]).timestamp > #[trigger] rest[j] by {
            assert(rest[j] == slots[j + 1]);
            if i < tiles.len() {
                assert(next[i] == tiles[i]);
            } else {
                assert(next[i].timestamp == slots[0]);
            }
        }
        lemma_published_newest_first(next, rest, outcomes.drop_first());
    }
}

/// The state of the run: the planned slots and how many of them are done.
pub struct AcquisitionWorker {
    slots: Vec<TimeSlot>,
    done: usize,
}

impl AcquisitionWorker {
    /// The instants of the planned slots, in the order of the run.
    pub closed spec fn slots(&self) -> Seq<int> {
        Seq::new(self.slots@.len(), |i: int| self.slots@[i]@)
    }

    /// The number of slots that have had their outcome.
    pub closed spec fn done(&self) -> nat {
        self.done as nat
    }

    /// The slots are well formed and no more are done than there are.
    pub closed spec fn wf(&self) -> bool {
        &&& self.done <= self.slots@.len()
        &&& forall|i: int| 0 <= i < self.slots@.len() ==> (#[trigger] self.slots@[i]).wf()
    }

    /// Whether every slot has had its outcome.
    pub open spec fn is_exhausted(&self) -> bool {
        self.done() >= self.slots().len()
    }

    /// A run over the window planned at `now`, with no slot done.
    pub fn plan(now: i64) -> (planned: Result<AcquisitionWorker, PlanningError>)
        ensures
            planned is Ok <==> can_plan(now as int),
            planned is Err ==> planned->Err_0 == (if crate::time::is_valid_instant(now as int) {
                PlanningError::Underflow
            } else {
                PlanningError::InvalidInstant
            }),
            planned is Ok ==> {
                let worker = planned->Ok_0;
                &&& worker.wf()
                &&& worker.done() == 0
                &&& worker.slots().len() == SLOT_COUNT
                &&& forall|i: int| 0 <= i < SLOT_COUNT ==> #[trigger] worker.slots()[i]
                    == slot_instant(now as int, i)
            },
    {
        match previous_time(now) {
            Ok(slots) => Ok(AcquisitionWorker { slots, done: 0 }),
            Err(failure) => Err(failure),
        }
    }

    /// A run over the given slots, with no slot done.
    pub fn new(slots: Vec<TimeSlot>) -> (worker: AcquisitionWorker)
        requires
            forall|i: int| 0 <= i < slots@.len() ==> (#[trigger] slots@[i]).wf(),
        ensures
            worker.wf(),
            worker.done() == 0,
            worker.slots() == Seq::new(slots@.len(), |i: int| slots@[i]@),
    {
        AcquisitionWorker { slots, done: 0 }
    }

    /// The number of planned slots.
    pub fn slot_count(&self) -> (count: usize)
        ensures
            count == self.slots().len(),
    {
        self.slots.len()
    }

    /// The number of slots that have had their outcome.
    pub fn done_count(&self) -> (count: usize)
        ensures
            count == self.done(),
    {
        self.done
    }

    /// The key of the tile to acquire next, or none when every slot has had
    /// its outcome.
    pub fn pending(&self) -> (key: Option<TileKey>)
        requires
            self.wf(),
        ensures
            key is None <==> self.is_exhausted(),
            key is Some ==> key->0 == key_of_slot(self.slots()[self.done() as int]) && key->0.wf(),
    {
        if self.done < self.slots.len() {
            Some(TileKey::for_slot(&self.slots[self.done]))
        } else {
            None
        }
    }

    /// Takes the outcome for the pending slot: an acquired image goes to the
    /// buffer with the snapshot time of the slot, a failure leaves the buffer
    /// as it is. With the last slot the buffer is marked as complete. Returns
    /// whether the buffer has a new image to show.
    ///
    /// When every slot has had its outcome already, the outcome is dropped
    /// and the buffer is marked as complete.
    pub fn record(
        &mut self,
        outcome: Result<Raster, TileError>,
        buffer: &mut ImageBuffer,
    ) -> (redraw: bool)
        requires
            old(self).wf(),
            old(buffer).wf(),
            outcome is Ok ==> outcome->Ok_0.wf(),
        ensures
            final(self).wf(),
            final(buffer).wf(),
            final(self).slots() == old(self).slots(),
            !old(self).is_exhausted() ==> {
                &&& final(self).done() == old(self).done() + 1
                &&& final(buffer)@.tiles == published(
                    old(buffer)@.tiles,
                    old(self).slots()[old(self).done() as int],
                    match outcome {
                        Ok(image) => Ok(image@),
                        Err(failure) => Err(failure),
                    },
                )
                &&& redraw == (outcome is Ok)
            },
            old(self).is_exhausted() ==> {
                &&& final(self).done() == old(self).done()
                &&& final(buffer)@.tiles == old(buffer)@.tiles
                &&& !redraw
            },
            final(buffer)@.acquiring == (old(buffer)@.acquiring && !final(self).is_exhausted()),
    {
        if self.done >= self.slots.len() {
            buffer.finish();
            return false;
        }
        let timestamp = self.slots[self.done];
        self.done += 1;
        let redraw = match outcome {
            Ok(image) => {
                buffer.append(CachedTile { image, timestamp });
                true
            },
            Err(_) => false,
        };
        if self.done >= self.slots.len() {
            buffer.finish();
        }
        redraw
    }
}

} // verus!
