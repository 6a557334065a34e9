use nuage::playback::{
    auto_image_index, decrease_image_index, increase_image_index, FrameInput, PlaybackController,
};

#[test]
fn auto_play_at_half_the_cycle() {
    // Ten images at five a second: one pass takes two seconds.
    assert_eq!(auto_image_index(10, 1000), 4);
    assert_eq!(auto_image_index(10, 1000), 10 / 2 - 1);
}

#[test]
fn auto_play_counts_down_from_the_last_position() {
    assert_eq!(auto_image_index(10, 0), 9);
    assert_eq!(auto_image_index(10, 199), 9);
    assert_eq!(auto_image_index(10, 200), 8);
    assert_eq!(auto_image_index(10, 1799), 1);
    assert_eq!(auto_image_index(10, 1800), 0);
    assert_eq!(auto_image_index(10, 1999), 0);
}

#[test]
fn auto_play_starts_over_after_a_pass() {
    assert_eq!(auto_image_index(10, 2000), 9);
    assert_eq!(auto_image_index(10, 3000), 4);
    assert_eq!(auto_image_index(3, 600), 2);
    assert_eq!(auto_image_index(3, 601 + 400), 0);
    assert_eq!(auto_image_index(1, 123_456), 0);
    assert_eq!(auto_image_index(24, u64::MAX), 24 - 1 - ((u64::MAX / 200) % 24) as usize);
}

#[test]
fn step_towards_the_most_recent_wraps_at_zero() {
    let mut index = 0;
    decrease_image_index(&mut index, 24);
    assert_eq!(index, 23);
    decrease_image_index(&mut index, 24);
    assert_eq!(index, 22);
}

#[test]
fn step_towards_the_oldest_wraps_at_the_end() {
    let mut index = 23;
    increase_image_index(&mut index, 24);
    assert_eq!(index, 0);
    increase_image_index(&mut index, 24);
    assert_eq!(index, 1);
}

#[test]
fn steps_over_a_single_image_stay() {
    let mut index = 0;
    increase_image_index(&mut index, 1);
    assert_eq!(index, 0);
    decrease_image_index(&mut index, 1);
    assert_eq!(index, 0);
}

#[test]
fn steps_bring_a_position_beyond_the_buffer_back() {
    let mut index = 30;
    increase_image_index(&mut index, 10);
    assert_eq!(index, 0);
    let mut index = 30;
    decrease_image_index(&mut index, 10);
    assert_eq!(index, 8);
    let mut index = usize::MAX;
    increase_image_index(&mut index, 10);
    assert_eq!(index, 0);
}

#[test]
fn controller_starts_in_auto_play_at_the_most_recent() {
    let controller = PlaybackController::new();
    assert_eq!(controller, PlaybackController { image_index: 0, auto_play: true });
}

#[test]
fn controller_follows_the_clock_in_auto_play() {
    let mut controller = PlaybackController::new();
    assert_eq!(controller.update(10, 1000, FrameInput::none()), 4);
    assert!(controller.auto_play);
    assert_eq!(controller.update(10, 1200, FrameInput::none()), 3);
}

#[test]
fn controller_leaves_auto_play_on_a_step() {
    let mut controller = PlaybackController::new();
    let newer = FrameInput { step_newer: true, step_older: false, toggle: false };
    assert_eq!(controller.update(10, 1000, newer), 3);
    assert!(!controller.auto_play);
    assert_eq!(controller.update(10, 5000, FrameInput::none()), 3);
    let older = FrameInput { step_newer: false, step_older: true, toggle: false };
    assert_eq!(controller.update(10, 5000, older), 4);
    assert!(!controller.auto_play);
}

#[test]
fn controller_toggles_auto_play() {
    let mut controller = PlaybackController::new();
    let toggle = FrameInput { step_newer: false, step_older: false, toggle: true };
    assert_eq!(controller.update(10, 0, toggle), 9);
    assert!(!controller.auto_play);
    assert_eq!(controller.update(10, 1000, FrameInput::none()), 9);
    assert_eq!(controller.update(10, 1000, toggle), 9);
    assert!(controller.auto_play);
    assert_eq!(controller.update(10, 1000, FrameInput::none()), 4);
}

#[test]
fn controller_applies_both_steps_and_the_toggle_in_one_frame() {
    let mut controller = PlaybackController { image_index: 0, auto_play: false };
    let all = FrameInput { step_newer: true, step_older: true, toggle: true };
    // Towards the most recent from 0 wraps to 9, back towards the oldest wraps to 0.
    assert_eq!(controller.update(10, 0, all), 0);
    assert!(controller.auto_play);
}

#[test]
fn controller_clamps_a_position_beyond_a_shorter_buffer() {
    let mut controller = PlaybackController { image_index: 12, auto_play: false };
    assert_eq!(controller.update(5, 0, FrameInput::none()), 4);
    assert_eq!(controller.image_index, 4);
}
