//! The buffer of acquired images that the acquisition run fills and the
//! slideshow reads.
//!
//! Images are only ever appended, in the order in which they were acquired,
//! and an image in the buffer never changes. The buffer also carries the flag
//! that tells whether the run is still going on.

use crate::raster::{Raster, RasterView};
use crate::time::TimeSlot;
use vstd::prelude::*;

verus! {

/// What an acquired image is to a contract.
pub struct CachedTileView {
    pub image: RasterView,
    pub timestamp: int,
}

/// One acquired image with the snapshot time that it shows.
#[derive(Clone, Debug, PartialEq, Eq)]
pub struct CachedTile {
    pub image: Raster,
    pub timestamp: TimeSlot,
}

impl View for CachedTile {
    type V = CachedTileView;

    open spec fn view(&self) -> CachedTileView {
        CachedTileView { image: self.image@, timestamp: self.timestamp@ }
    }
}

impl CachedTile {
    /// The image has its samples and the snapshot time is a slot.
    pub open spec fn wf(&self) -> bool {
        self.image.wf() && self.timestamp.wf()
    }
}

/// What the buffer is to a contract.
pub struct ImageBufferView {
    pub tiles: Seq<CachedTileView>,
    pub acquiring: bool,
}

/// The acquired images, oldest acquisition first, and whether more may come.
pub struct ImageBuffer {
    tiles: Vec<CachedTile>,
    acquiring: bool,
}

impl View for ImageBuffer {
    type V = ImageBufferView;

    closed spec fn view(&self) -> ImageBufferView {
        ImageBufferView {
            tiles: Seq::new(self.tiles@.len(), |i: int| self.tiles@[i]@),
            acquiring: self.acquiring,
        }
    }
}

impl ImageBuffer {
    /// Every image in the buffer has its samples.
    pub closed spec fn wf(&self) -> bool {
        forall|i: int| 0 <= i < self.tiles@.len() ==> (#[trigger] self.tiles@[i]).wf()
    }

    /// An empty buffer of a run that is going on.
    pub fn new() -> (buffer: ImageBuffer)
        ensures
            buffer@.tiles.len() == 0,
            buffer@.acquiring,
            buffer.wf(),
    {
        ImageBuffer { tiles: Vec::new(), acquiring: true }
    }

    /// Appends an image behind those that the buffer holds.
    pub fn append(&mut self, tile: CachedTile)
        requires
            old(self).wf(),
            tile.wf(),
        ensures
            final(self)@.tiles == old(self)@.tiles.push(tile@),
            final(self)@.acquiring == old(self)@.acquiring,
            final(self).wf(),
    {
        self.tiles.push(tile);
        assert(self@.tiles =~= old(self)@.tiles.push(tile@));
    }

    /// Marks the run as over. The images stay as they are.
    pub fn finish(&mut self)
        ensures
            final(self)@.tiles == old(self)@.tiles,
            !final(self)@.acquiring,
            old(self).wf() ==> final(self).wf(),
    {
        self.acquiring = false;
    }

    /// The number of images.
    pub fn len(&self) -> (count: usize)
        ensures
            count == self@.tiles.len(),
    {
        self.tiles.len()
    }

    /// Whether the buffer holds no image yet. The slideshow waits while it
    /// does.
    pub fn is_empty(&self) -> (empty: bool)
        ensures
            empty == (self@.tiles.len() == 0),
    {
        self.tiles.len() == 0
    }

    /// Whether the run is still going on.
    pub fn is_acquiring(&self) -> (acquiring: bool)
        ensures
            acquiring == self@.acquiring,
    {
        self.acquiring
    }

    /// The image at `index`, counted in the order of acquisition.
    pub fn get(&self, index: usize) -> (tile: &CachedTile)
        requires
            index < self@.tiles.len(),
        ensures
            tile@ == self@.tiles[index as int],
            self.wf() ==> tile.wf(),
    {
        &self.tiles[index]
    }
}

} // verus!
