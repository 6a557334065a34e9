//! Tile acquisition and playback core for a satellite imagery slideshow.
//!
//! The crate plans which time slots to fetch, names and normalises the tiles
//! that go to the on-disk cache, sequences the background acquisition run and
//! turns the growing buffer of images into a playback position.

pub mod buffer;
pub mod cache;
pub mod error;
pub mod key;
pub mod playback;
pub mod raster;
pub mod text;
pub mod time;
pub mod worker;
