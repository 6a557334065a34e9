use nuage::buffer::{CachedTile, ImageBuffer};
use nuage::cache::{Action, Event, Phase, TileCache};
use nuage::error::TileError;
use nuage::key::TileKey;
use nuage::raster::{
    accept_cached, fit_within, load_cached, normalize, prepare_for_cache, scale_for_cache,
    DecodedImage, PixelLayout, Raster, MAX_BODY_BYTES, SCREEN_HEIGHT, SCREEN_WIDTH,
};
use nuage::time::{previous_time, TimeSlot};
use nuage::worker::AcquisitionWorker;
use std::io::Cursor;

// 2015-05-15T00:00:00Z
const MIDNIGHT: i64 = 1_431_648_000;

fn plain_raster(width: u32, height: u32, sample: u8) -> Raster {
    Raster { width, height, pixels: vec![sample; (width * height * 3) as usize] }
}

fn encoded(picture: image::DynamicImage, format: image::ImageFormat) -> Vec<u8> {
    let mut bytes = Vec::new();
    picture.write_to(&mut Cursor::new(&mut bytes), format).unwrap();
    bytes
}

fn colour_picture(width: u32, height: u32) -> image::DynamicImage {
    image::DynamicImage::ImageRgb8(image::RgbImage::from_pixel(
        width,
        height,
        image::Rgb([200, 120, 40]),
    ))
}

fn grey_picture(width: u32, height: u32) -> image::DynamicImage {
    image::DynamicImage::ImageLuma8(image::GrayImage::from_pixel(width, height, image::Luma([90])))
}

#[test]
fn fit_scales_a_wide_image_to_the_width_of_the_screen() {
    let (width, height) = fit_within(4000, 2000, 1920, 1080);
    assert_eq!((width, height), (1920, 960));
    assert!(width <= 1920 && height <= 1080);
    // The proportions are those of the source, up to rounding.
    assert!((width as i64 * 2000 - height as i64 * 4000).abs() < 4000);
}

#[test]
fn fit_scales_a_tall_image_to_the_height_of_the_screen() {
    assert_eq!(fit_within(1000, 2000, 1920, 1080), (540, 1080));
    assert_eq!(fit_within(1921, 1081, 1920, 1080), (1919, 1080));
    assert_eq!(fit_within(1921, 1080, 1920, 1080), (1920, 1079));
    assert_eq!(fit_within(1920, 1081, 1920, 1080), (1918, 1080));
    assert_eq!(fit_within(1000, 3000, 1920, 1080), (360, 1080));
}

#[test]
fn fit_rounds_the_other_side_down() {
    assert_eq!(fit_within(4001, 2000, 1920, 1080), (1920, 959));
    assert_eq!(fit_within(2000, 1999, 1920, 1080), (1080, 1080));
    assert_eq!(fit_within(4000, 1, 1920, 1080), (1920, 0));
    assert_eq!(fit_within(u32::MAX, u32::MAX, 1920, 1080), (1080, 1080));
}

#[test]
fn fit_leaves_an_image_that_fits() {
    assert_eq!(fit_within(1920, 1080, 1920, 1080), (1920, 1080));
    assert_eq!(fit_within(640, 480, 1920, 1080), (640, 480));
    assert_eq!(fit_within(1, 1, 1920, 1080), (1, 1));
    assert_eq!(fit_within(0, 0, 1920, 1080), (0, 0));
}

#[test]
fn normalize_keeps_a_raster_that_fits() {
    let source = plain_raster(64, 48, 17);
    assert_eq!(normalize(&source), source);
}

#[test]
fn normalize_scales_a_raster_down_to_the_screen() {
    let source = plain_raster(3840, 20, 200);
    let scaled = normalize(&source);
    assert_eq!((scaled.width, scaled.height), (1920, 10));
    assert_eq!(scaled.pixels.len(), 1920 * 10 * 3);
    assert!(scaled.width <= SCREEN_WIDTH && scaled.height <= SCREEN_HEIGHT);
    assert!(scaled.pixels.iter().all(|sample| *sample == 200));
}

#[test]
fn normalize_scales_a_large_raster_in_proportion() {
    let source = plain_raster(4000, 2000, 9);
    let scaled = normalize(&source);
    assert_eq!((scaled.width, scaled.height), (1920, 960));
    assert_eq!(scaled.pixels.len(), 1920 * 960 * 3);
}

#[test]
fn normalize_gives_a_single_pixel_for_a_sliver() {
    let source = plain_raster(4000, 1, 9);
    let scaled = normalize(&source);
    assert_eq!((scaled.width, scaled.height), (1, 1));
    assert_eq!(scaled.pixels, vec![9, 9, 9]);
}

#[test]
fn scaling_for_the_cache_refuses_an_image_without_pixels() {
    assert_eq!(scale_for_cache(&plain_raster(0, 0, 0)), Err(TileError::Decode));
    assert_eq!(scale_for_cache(&plain_raster(0, 7, 0)), Err(TileError::Decode));
    assert_eq!(scale_for_cache(&plain_raster(7, 0, 0)), Err(TileError::Decode));
    assert_eq!(scale_for_cache(&plain_raster(7, 5, 3)), Ok(plain_raster(7, 5, 3)));
    let scaled = scale_for_cache(&plain_raster(2400, 30, 3)).unwrap();
    assert_eq!((scaled.width, scaled.height), (1920, 24));
}

#[test]
fn a_cached_file_is_accepted_by_its_layout() {
    let raster = plain_raster(3, 2, 50);
    assert_eq!(
        accept_cached(DecodedImage { raster: raster.clone(), layout: PixelLayout::Rgb8 }),
        Ok(raster.clone())
    );
    assert_eq!(
        accept_cached(DecodedImage { raster, layout: PixelLayout::Other }),
        Err(TileError::UnsupportedLayout)
    );
}

#[test]
fn prepare_encodes_a_decoded_image_as_jpeg() {
    let body = encoded(colour_picture(40, 20), image::ImageFormat::Png);
    let prepared = prepare_for_cache(&body).unwrap();
    assert_ne!(prepared, body);
    assert_eq!(prepared[..2], [0xff, 0xd8]);
    assert_eq!(image::guess_format(&prepared).unwrap(), image::ImageFormat::Jpeg);
    let raster = load_cached(&prepared).unwrap();
    assert_eq!((raster.width, raster.height), (40, 20));
    assert_eq!(raster.pixels.len(), 40 * 20 * 3);
}

#[test]
fn prepare_scales_a_large_image_down() {
    let body = encoded(colour_picture(3000, 30), image::ImageFormat::Jpeg);
    let prepared = prepare_for_cache(&body).unwrap();
    let raster = load_cached(&prepared).unwrap();
    // Asked to fit 1920 by 19, the scaled image keeps its proportions.
    assert_eq!(fit_within(3000, 30, 1920, 1080), (1920, 19));
    assert_eq!((raster.width, raster.height), (1900, 19));
}

#[test]
fn prepare_refuses_what_is_no_image() {
    assert_eq!(prepare_for_cache(b"not an image"), Err(TileError::Decode));
    assert_eq!(prepare_for_cache(&[]), Err(TileError::Decode));
}

#[test]
fn prepare_refuses_a_body_over_the_limit() {
    let body = vec![0u8; MAX_BODY_BYTES + 1];
    assert_eq!(prepare_for_cache(&body), Err(TileError::OversizedBody));
    assert_eq!(MAX_BODY_BYTES, 20 * 1024 * 1024);
}

#[test]
fn load_gives_the_samples_of_the_file() {
    let content = encoded(colour_picture(16, 16), image::ImageFormat::Jpeg);
    let raster = load_cached(&content).unwrap();
    assert_eq!((raster.width, raster.height), (16, 16));
    let expected = image::load_from_memory(&content).unwrap().into_rgb8().into_raw();
    assert_eq!(raster.pixels, expected);
}

#[test]
fn load_refuses_a_file_that_is_no_jpeg() {
    let content = encoded(colour_picture(16, 16), image::ImageFormat::Png);
    assert_eq!(load_cached(&content), Err(TileError::Decode));
    assert_eq!(load_cached(b"garbage"), Err(TileError::Decode));
}

#[test]
fn load_refuses_grey_levels() {
    let content = encoded(grey_picture(16, 16), image::ImageFormat::Jpeg);
    assert_eq!(load_cached(&content), Err(TileError::UnsupportedLayout));
}

fn sample_key() -> TileKey {
    TileKey::for_slot(&TimeSlot { epoch_seconds: MIDNIGHT })
}

#[test]
fn resolution_names_file_and_address() {
    let cache = TileCache::locate(None, "ada");
    assert_eq!(cache.directory, "/home/ada/.cache/nuage/");
    let (resolution, action) = cache.resolve(sample_key());
    assert_eq!(action, Action::Probe);
    assert_eq!(resolution.phase, Phase::Probing);
    assert_eq!(resolution.key, sample_key());
    assert_eq!(resolution.path, "/home/ada/.cache/nuage//201505150000_7_41_61_50_68.jpg");
    assert_eq!(
        resolution.url,
        "https://imn-rust-lb.infoplaza.io/v4/nowcast/tiles/satellite-europe/201505150000/7/41/61/50/68?outputtype=jpeg"
    );
}

#[test]
fn resolution_of_a_cached_tile_reads_the_file() {
    let cache = TileCache::locate(Some("/tmp/cache"), "ada");
    let (mut resolution, _) = cache.resolve(sample_key());
    assert_eq!(resolution.step(Event::Found), Action::Load);
    assert_eq!(resolution.phase, Phase::Loading);
    let content = encoded(colour_picture(8, 8), image::ImageFormat::Jpeg);
    let expected = load_cached(&content).unwrap();
    assert_eq!(resolution.step(Event::Content(content)), Action::Done(Ok(expected)));
    assert_eq!(resolution.phase, Phase::Finished);
}

#[test]
fn resolution_of_a_missing_tile_fetches_stores_and_reads() {
    let cache = TileCache::locate(Some("/tmp/cache"), "ada");
    let (mut resolution, _) = cache.resolve(sample_key());
    assert_eq!(resolution.step(Event::Missing), Action::Fetch);
    assert_eq!(resolution.phase, Phase::Fetching);
    let body = encoded(colour_picture(8, 8), image::ImageFormat::Png);
    let stored = match resolution.step(Event::Body(body.clone())) {
        Action::Store(bytes) => bytes,
        other => panic!("unexpected action {:?}", other),
    };
    assert_eq!(stored, prepare_for_cache(&body).unwrap());
    assert_eq!(resolution.phase, Phase::Storing);
    assert_eq!(resolution.step(Event::Stored), Action::Load);
    let outcome = resolution.step(Event::Content(stored.clone()));
    assert_eq!(outcome, Action::Done(Ok(load_cached(&stored).unwrap())));
}

#[test]
fn resolving_twice_gives_the_same_image_and_fetches_once() {
    let cache = TileCache::locate(Some("/tmp/cache"), "ada");
    let mut file: Option<Vec<u8>> = None;
    let mut fetches = 0;
    let mut images = Vec::new();
    for _ in 0..2 {
        let (mut resolution, mut action) = cache.resolve(sample_key());
        let image = loop {
            let event = match action {
                Action::Probe => match file {
                    Some(_) => Event::Found,
                    None => Event::Missing,
                },
                Action::Fetch => {
                    fetches += 1;
                    Event::Body(encoded(colour_picture(2000, 100), image::ImageFormat::Png))
                }
                Action::Store(bytes) => {
                    file = Some(bytes);
                    Event::Stored
                }
                Action::Load => Event::Content(file.clone().unwrap()),
                Action::Done(outcome) => break outcome.unwrap(),
            };
            action = resolution.step(event);
        };
        images.push(image);
    }
    assert_eq!(fetches, 1);
    assert_eq!(images[0], images[1]);
    assert_eq!((images[0].width, images[0].height), (1920, 96));
}

#[test]
fn resolution_ends_on_a_failure() {
    let cache = TileCache::locate(Some("/tmp/cache"), "ada");
    let (mut resolution, _) = cache.resolve(sample_key());
    resolution.step(Event::Missing);
    assert_eq!(resolution.step(Event::NetworkFailed), Action::Done(Err(TileError::Network)));
    assert_eq!(resolution.phase, Phase::Finished);

    let (mut resolution, _) = cache.resolve(sample_key());
    resolution.step(Event::Missing);
    assert_eq!(resolution.step(Event::BodyTooLong), Action::Done(Err(TileError::OversizedBody)));

    let (mut resolution, _) = cache.resolve(sample_key());
    assert_eq!(resolution.step(Event::StorageFailed), Action::Done(Err(TileError::Storage)));

    let (mut resolution, _) = cache.resolve(sample_key());
    resolution.step(Event::Missing);
    assert_eq!(
        resolution.step(Event::Body(b"no image".to_vec())),
        Action::Done(Err(TileError::Decode))
    );

    let (mut resolution, _) = cache.resolve(sample_key());
    resolution.step(Event::Found);
    let grey = encoded(grey_picture(8, 8), image::ImageFormat::Jpeg);
    assert_eq!(
        resolution.step(Event::Content(grey)),
        Action::Done(Err(TileError::UnsupportedLayout))
    );
}

#[test]
fn resolution_ends_on_an_event_that_answers_nothing() {
    let cache = TileCache::locate(Some("/tmp/cache"), "ada");
    let (mut resolution, _) = cache.resolve(sample_key());
    assert_eq!(resolution.step(Event::Stored), Action::Done(Err(TileError::Storage)));
    assert_eq!(resolution.phase, Phase::Finished);
    assert_eq!(resolution.step(Event::Found), Action::Done(Err(TileError::Storage)));
}

#[test]
fn buffer_keeps_the_order_of_appending() {
    let mut buffer = ImageBuffer::new();
    assert!(buffer.is_empty());
    assert!(buffer.is_acquiring());
    for i in 0..3u8 {
        buffer.append(CachedTile {
            image: plain_raster(2, 2, i),
            timestamp: TimeSlot { epoch_seconds: MIDNIGHT - 300 * i as i64 },
        });
    }
    assert_eq!(buffer.len(), 3);
    assert!(!buffer.is_empty());
    for i in 0..3u8 {
        let tile = buffer.get(i as usize);
        assert_eq!(tile.image, plain_raster(2, 2, i));
        assert_eq!(tile.timestamp.epoch_seconds, MIDNIGHT - 300 * i as i64);
    }
    buffer.finish();
    assert!(!buffer.is_acquiring());
    assert_eq!(buffer.len(), 3);
}

#[test]
fn run_with_three_failures_leaves_twenty_one_images() {
    let now = MIDNIGHT + 42;
    let slots = previous_time(now).unwrap();
    let mut worker = AcquisitionWorker::plan(now).unwrap();
    assert_eq!(worker.slot_count(), 24);
    let mut buffer = ImageBuffer::new();
    let mut redraws = 0;
    let mut turn = 0;
    while let Some(key) = worker.pending() {
        assert_eq!(key, TileKey::for_slot(&slots[turn]));
        assert!(buffer.is_acquiring());
        let outcome = if turn == 2 || turn == 11 || turn == 23 {
            Err(TileError::Network)
        } else {
            Ok(plain_raster(2, 2, turn as u8))
        };
        if worker.record(outcome, &mut buffer) {
            redraws += 1;
        }
        turn += 1;
    }
    assert_eq!(turn, 24);
    assert_eq!(worker.done_count(), 24);
    assert_eq!(buffer.len(), 21);
    assert_eq!(redraws, 21);
    assert!(!buffer.is_acquiring());
    // The images are in the order of the slots, the failed ones left out.
    assert_eq!(buffer.get(0).timestamp, slots[0]);
    assert_eq!(buffer.get(1).timestamp, slots[1]);
    assert_eq!(buffer.get(2).timestamp, slots[3]);
    assert_eq!(buffer.get(2).image, plain_raster(2, 2, 3));
    assert_eq!(buffer.get(20).timestamp, slots[22]);
}

#[test]
fn run_whose_every_tile_fails_ends_with_an_empty_buffer() {
    let mut worker = AcquisitionWorker::new(vec![
        TimeSlot { epoch_seconds: MIDNIGHT },
        TimeSlot { epoch_seconds: MIDNIGHT - 300 },
    ]);
    let mut buffer = ImageBuffer::new();
    assert!(!worker.record(Err(TileError::Decode), &mut buffer));
    assert!(buffer.is_acquiring());
    assert!(!worker.record(Err(TileError::Storage), &mut buffer));
    assert!(!buffer.is_acquiring());
    assert!(buffer.is_empty());
    assert_eq!(worker.pending(), None);
}

#[test]
fn run_that_is_over_drops_a_further_outcome() {
    let mut worker = AcquisitionWorker::new(Vec::new());
    let mut buffer = ImageBuffer::new();
    assert_eq!(worker.pending(), None);
    assert!(!worker.record(Ok(plain_raster(1, 1, 0)), &mut buffer));
    assert!(buffer.is_empty());
    assert!(!buffer.is_acquiring());
}

#[test]
fn run_cannot_be_planned_outside_the_calendar() {
    assert_eq!(
        AcquisitionWorker::plan(i64::MAX).err(),
        Some(nuage::error::PlanningError::InvalidInstant)
    );
}
