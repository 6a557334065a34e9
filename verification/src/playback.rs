//! Playback position over the buffer of acquired images.
//!
//! Position `0` is the most recent image. During automatic playback the
//! position is a function of elapsed time alone and runs from the oldest
//! image to the most recent one, again and again; a manual step moves it by
//! one, wraps at both ends and switches automatic playback off.
//!
//! Elapsed time is counted in whole milliseconds. One image stays on screen
//! for a whole number of milliseconds, so nothing is lost against a clock
//! that counts in fractions of a second.

use vstd::arithmetic::div_mod::{
    lemma_div_multiples_vanish_quotient, lemma_fundamental_div_mod_converse, lemma_mod_bound,
    lemma_mod_breakdown, lemma_mod_multiples_vanish,
};
use vstd::prelude::*;

verus! {

/// Images shown per second during automatic playback.
pub const PLAYBACK_RATE: u64 = 5;

/// Milliseconds for which one image stays on screen during automatic playback.
pub const FRAME_MILLIS: u64 = 200;

/// Length in milliseconds of one pass over `len` images.
pub open spec fn cycle_millis(len: nat) -> nat {
    len * 1000 / (PLAYBACK_RATE as nat)
}

/// The position shown by automatic playback after `elapsed_ms` milliseconds
/// over a buffer of `len` images: the time within the current pass, scaled to
/// the number of images, counted down from the last position.
pub open spec fn auto_play_index(len: nat, elapsed_ms: nat) -> int {
    let cycle = cycle_millis(len);
    let time_in_cycle = elapsed_ms % cycle;
    len - 1 - (time_in_cycle * len) / cycle
}

/// A position brought back into a buffer of `len` images.
pub open spec fn clamp_index(index: nat, len: nat) -> nat {
    if index >= len {
        (len - 1) as nat
    } else {
        index
    }
}

/// The position one step further from the most recent image, wrapping from
/// the last position back to `0`.
pub open spec fn next_index(index: nat, len: nat) -> nat {
    if clamp_index(index, len) == len - 1 {
        0
    } else {
        clamp_index(index, len) + 1
    }
}

/// The position one step closer to the most recent image, wrapping from `0`
/// to the last position.
pub open spec fn previous_index(index: nat, len: nat) -> nat {
    if clamp_index(index, len) == 0 {
        (len - 1) as nat
    } else {
        (clamp_index(index, len) - 1) as nat
    }
}

/// What the user asked for during one frame.
#[derive(Clone, Copy, Debug, PartialEq, Eq, Structural)]
pub struct FrameInput {
    /// One step towards the most recent image.
    pub step_newer: bool,
    /// One step towards the oldest image.
    pub step_older: bool,
    /// Switch automatic playback on or off.
    pub toggle: bool,
}

/// Position and mode of the slideshow.
#[derive(Clone, Copy, Debug, PartialEq, Eq, Structural)]
pub struct PlaybackController {
    /// Position of the image on screen; `0` is the most recent one.
    pub image_index: usize,
    /// Whether the position follows the clock.
    pub auto_play: bool,
}

/// The state after one frame: automatic playback first sets the position
/// from the clock, then the steps apply, the one towards the most recent
/// image first, then the toggle.
pub open spec fn frame_outcome(
    before: PlaybackController,
    len: nat,
    elapsed_ms: nat,
    input: FrameInput,
) -> (int, bool) {
    let shown: int = if before.auto_play {
        auto_play_index(len, elapsed_ms)
    } else {
        clamp_index(before.image_index as nat, len) as int
    };
    let after_newer: int = if input.step_newer {
        previous_index(shown as nat, len) as int
    } else {
        shown
    };
    let after_older: int = if input.step_older {
        next_index(after_newer as nat, len) as int
    } else {
        after_newer
    };
    let stepped = input.step_newer || input.step_older;
    let auto_play = (before.auto_play && !stepped) != input.toggle;
    (after_older, auto_play)
}

/// Automatic playback shows frame `(elapsed / frame time) mod len` of the
/// pass, counted down from the last position.
pub proof fn lemma_auto_play_index_by_frames(len: nat, elapsed_ms: nat)
    requires
        len > 0,
    ensures
        auto_play_index(len, elapsed_ms) == len - 1 - (elapsed_ms / 200) % len,
        0 <= auto_play_index(len, elapsed_ms) < len,
{
    let cycle = cycle_millis(len);
    assert(cycle == 200 * len);
    let t = elapsed_ms % cycle;
    lemma_mod_breakdown(elapsed_ms as int, 200, len as int);
    let frame = (elapsed_ms as int / 200) % (len as int);
    lemma_mod_bound(elapsed_ms as int / 200, len as int);
    lemma_mod_bound(elapsed_ms as int, 200);
    assert(t == 200 * frame + elapsed_ms % 200);
    lemma_fundamental_div_mod_converse(t as int, 200, frame, (elapsed_ms % 200) as int);
    assert(t as int / 200 == frame);
    lemma_div_multiples_vanish_quotient(len as int, t as int, 200);
    assert((t * len) / cycle == t / 200) by {
        assert(t * len == len * t) by (nonlinear_arith);
        assert(cycle == len * 200);
    }
}

/// Automatic playback repeats after one pass over the buffer.
pub proof fn lemma_auto_play_periodic(len: nat, elapsed_ms: nat)
    requires
        len > 0,
    ensures
        auto_play_index(len, elapsed_ms + cycle_millis(len)) == auto_play_index(len, elapsed_ms),
{
    let cycle = cycle_millis(len);
    assert(cycle == 200 * len);
    lemma_mod_multiples_vanish(1, elapsed_ms as int, cycle as int);
    assert((elapsed_ms + cycle) % cycle == elapsed_ms % cycle);
}

/// Halfway through a pass over an even number of images, automatic playback
/// shows the last position of the more recent half.
pub proof fn lemma_auto_play_half_cycle(len: nat)
    requires
        len > 0,
        len % 2 == 0,
    ensures
        auto_play_index(len, cycle_millis(len) / 2) == len / 2 - 1,
{
    let half = cycle_millis(len) / 2;
    assert(half == 100 * len);
    lemma_auto_play_index_by_frames(len, half);
    assert(half / 200 == len / 2);
    vstd::arithmetic::div_mod::lemma_small_mod(len / 2, len);
}

/// A manual step wraps at both ends: one step towards the most recent image
/// from position `0` gives the last position, and one step towards the oldest
/// image from the last position gives `0`. Within the buffer the two steps
/// undo each other.
pub proof fn lemma_manual_steps_wrap(index: nat, len: nat)
    requires
        len > 0,
        index < len,
    ensures
        previous_index(0, len) == len - 1,
        next_index((len - 1) as nat, len) == 0,
        previous_index(index, len) < len,
        next_index(index, len) < len,
        next_index(previous_index(index, len), len) == index,
        previous_index(next_index(index, len), len) == index,
{
}

/// The position that automatic playback shows after `elapsed_ms`
/// milliseconds over a buffer of `nb_images` images.
pub fn auto_image_index(nb_images: usize, elapsed_ms: u64) -> (index: usize)
    requires
        nb_images > 0,
    ensures
        index == auto_play_index(nb_images as nat, elapsed_ms as nat),
        index < nb_images,
{
    proof {
        lemma_auto_play_index_by_frames(nb_images as nat, elapsed_ms as nat);
        lemma_mod_bound(elapsed_ms as int / 200, nb_images as int);
    }
    let frames: u64 = elapsed_ms / FRAME_MILLIS;
    let frame: u64 = frames % (nb_images as u64);
    nb_images - 1 - (frame as usize)
}

/// Moves `image_index` one step away from the most recent image.
pub fn increase_image_index(image_index: &mut usize, nb_images: usize)
    requires
        nb_images > 0,
    ensures
        *final(image_index) == next_index(*old(image_index) as nat, nb_images as nat),
        *final(image_index) < nb_images,
        *old(image_index) == nb_images - 1 ==> *final(image_index) == 0,
{
    if *image_index >= nb_images - 1 {
        *image_index = 0;
    } else {
        *image_index += 1;
    }
}

/// Moves `image_index` one step towards the most recent image.
pub fn decrease_image_index(image_index: &mut usize, nb_images: usize)
    requires
        nb_images > 0,
    ensures
        *final(image_index) == previous_index(*old(image_index) as nat, nb_images as nat),
        *final(image_index) < nb_images,
        *old(image_index) == 0 ==> *final(image_index) == nb_images - 1,
{
    if *image_index >= nb_images {
        *image_index = nb_images - 1;
    }
    if *image_index == 0 {
        *image_index = nb_images - 1;
    } else {
        *image_index -= 1;
    }
}

impl FrameInput {
    /// A frame in which the user asked for nothing.
    pub fn none() -> (input: FrameInput)
        ensures
            input == (FrameInput { step_newer: false, step_older: false, toggle: false }),
    {
        FrameInput { step_newer: false, step_older: false, toggle: false }
    }
}

impl PlaybackController {
    /// Automatic playback, starting at the most recent image.
    pub fn new() -> (controller: PlaybackController)
        ensures
            controller == (PlaybackController { image_index: 0, auto_play: true }),
    {
        PlaybackController { image_index: 0, auto_play: true }
    }

    /// Advances the slideshow by one frame over a buffer of `nb_images`
    /// images, `elapsed_ms` milliseconds after the start, and returns the
    /// position to show.
    pub fn update(&mut self, nb_images: usize, elapsed_ms: u64, input: FrameInput) -> (shown: usize)
        requires
            nb_images > 0,
        ensures
            (final(self).image_index as int, final(self).auto_play) == frame_outcome(
                *old(self),
                nb_images as nat,
                elapsed_ms as nat,
                input,
            ),
            shown == final(self).image_index,
            shown < nb_images,
    {
        if self.auto_play {
            self.image_index = auto_image_index(nb_images, elapsed_ms);
        } else if self.image_index >= nb_images {
            self.image_index = nb_images - 1;
        }
        if input.step_newer {
            self.auto_play = false;
            decrease_image_index(&mut self.image_index, nb_images);
        }
        if input.step_older {
            self.auto_play = false;
            increase_image_index(&mut self.image_index, nb_images);
        }
        if input.toggle {
            self.auto_play = !self.auto_play;
        }
        self.image_index
    }
}

} // verus!
