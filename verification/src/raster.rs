//! Decoded images, and the way a fetched image is made ready for the cache.
//!
//! A raster holds rows of pixels, each pixel one red, one green and one blue
//! sample. A fetched image is decoded, scaled down to the screen where it is
//! larger, and encoded again; a cached image is decoded and must already be
//! such a raster.

use crate::error::TileError;
use vstd::prelude::*;

verus! {

/// Width of the screen that images are scaled down to.
pub const SCREEN_WIDTH: u32 = 1920;

/// Height of the screen that images are scaled down to.
pub const SCREEN_HEIGHT: u32 = 1080;

/// The longest answer of the tile service that is accepted, in bytes.
pub const MAX_BODY_BYTES: usize = 20_971_520;

/// How the samples of a decoded image were laid out before they were
/// brought into a raster.
#[derive(Clone, Copy, Debug, PartialEq, Eq, Structural)]
pub enum PixelLayout {
    /// Three samples of eight bits for each pixel: red, green, blue.
    Rgb8,
    /// Anything else: grey levels, an alpha channel, wider samples.
    Other,
}

/// What a raster is to a contract.
pub struct RasterView {
    pub width: nat,
    pub height: nat,
    pub pixels: Seq<u8>,
}

/// An image of red, green and blue samples, row by row.
#[derive(Clone, Debug, PartialEq, Eq)]
pub struct Raster {
    pub width: u32,
    pub height: u32,
    pub pixels: Vec<u8>,
}

impl View for Raster {
    type V = RasterView;

    open spec fn view(&self) -> RasterView {
        RasterView { width: self.width as nat, height: self.height as nat, pixels: self.pixels@ }
    }
}

impl RasterView {
    /// Each pixel has its three samples.
    pub open spec fn wf(self) -> bool {
        self.pixels.len() == 3 * self.width * self.height
    }

    /// The raster has no pixel.
    pub open spec fn is_empty(self) -> bool {
        self.width == 0 || self.height == 0
    }
}

impl Raster {
    /// Each pixel has its three samples.
    pub open spec fn wf(&self) -> bool {
        self@.wf()
    }
}

/// A decoded image with the layout that its samples had in the file.
#[derive(Clone, Debug, PartialEq, Eq)]
pub struct DecodedImage {
    pub raster: Raster,
    pub layout: PixelLayout,
}

/// The size to which an image of `width` by `height` is scaled so that it
/// fits into `max_width` by `max_height`: its own size where it fits, and
/// else the largest size of its proportions that fits, rounded down.
pub open spec fn fitted_size(width: nat, height: nat, max_width: nat, max_height: nat) -> (
    nat,
    nat,
) {
    if width <= max_width && height <= max_height {
        (width, height)
    } else if width * max_height < height * max_width {
        ((width * max_height) / height, max_height)
    } else {
        (max_width, (height * max_width) / width)
    }
}

/// The scaled size fits into the bounds and is no larger than the image. An
/// image that fits keeps its size; one that does not fills one of the two
/// bounds, and its proportions are kept up to the rounding of the other side.
pub proof fn lemma_fitted_size(width: nat, height: nat, max_width: nat, max_height: nat)
    requires
        max_width > 0,
        max_height > 0,
    ensures
        ({
            let (w, h) = fitted_size(width, height, max_width, max_height);
            &&& w <= max_width && h <= max_height
            &&& w <= width && h <= height
            &&& (width <= max_width && height <= max_height) ==> (w, h) == (width, height)
            &&& !(width <= max_width && height <= max_height) ==> {
                ||| h == max_height && 0 <= width * h - w * height < height
                ||| w == max_width && 0 <= height * w - h * width < width
            }
        }),
{
    if width <= max_width && height <= max_height {
    } else if width * max_height < height * max_width {
        let w = (width * max_height) / height;
        assert(height > 0) by (nonlinear_arith)
            requires
                width * max_height < height * max_width,
        ;
        vstd::arithmetic::div_mod::lemma_fundamental_div_mod(
            (width * max_height) as int,
            height as int,
        );
        vstd::arithmetic::div_mod::lemma_mod_bound((width * max_height) as int, height as int);
        assert(w * height == height * w) by (nonlinear_arith);
        assert(w <= max_width) by (nonlinear_arith)
            requires
                w * height <= width * max_height,
                width * max_height < height * max_width,
                height > 0,
        ;
        assert(max_height < height) by (nonlinear_arith)
            requires
                width * max_height < height * max_width,
                width > max_width || height > max_height,
        ;
        assert(w <= width) by (nonlinear_arith)
            requires
                w * height <= width * max_height,
                max_height < height,
        ;
    } else {
        let h = (height * max_width) / width;
        assert(width > max_width) by (nonlinear_arith)
            requires
                width * max_height >= height * max_width,
                width > max_width || height > max_height,
                max_width > 0,
        ;
        vstd::arithmetic::div_mod::lemma_fundamental_div_mod(
            (height * max_width) as int,
            width as int,
        );
        vstd::arithmetic::div_mod::lemma_mod_bound((height * max_width) as int, width as int);
        assert(h * width == width * h) by (nonlinear_arith);
        assert(h <= max_height) by (nonlinear_arith)
            requires
                h * width <= height * max_width,
                height * max_width <= width * max_height,
                width > 0,
        ;
        assert(h <= height) by (nonlinear_arith)
            requires
                h * width <= height * max_width,
                max_width < width,
        ;
    }
}

/// The size to which an image of `width` by `height` is scaled so that it
/// fits into a screen of `max_width` by `max_height`, neither of them zero.
pub fn fit_within(width: u32, height: u32, max_width: u32, max_height: u32) -> (size: (u32, u32))
    requires
        max_width > 0,
        max_height > 0,
    ensures
        (size.0 as nat, size.1 as nat) == fitted_size(
            width as nat,
            height as nat,
            max_width as nat,
            max_height as nat,
        ),
        size.0 <= max_width,
        size.1 <= max_height,
        size.0 <= width,
        size.1 <= height,
{
    proof {
        lemma_fitted_size(width as nat, height as nat, max_width as nat, max_height as nat);
    }
    if width <= max_width && height <= max_height {
        return (width, height);
    }
    let wide: u64 = width as u64;
    let high: u64 = height as u64;
    let max_wide: u64 = max_width as u64;
    let max_high: u64 = max_height as u64;
    assert(wide * max_high <= 0xffff_ffff * 0xffff_ffff) by (nonlinear_arith)
        requires
            wide <= 0xffff_ffff,
            max_high <= 0xffff_ffff,
    ;
    assert(high * max_wide <= 0xffff_ffff * 0xffff_ffff) by (nonlinear_arith)
        requires
            high <= 0xffff_ffff,
            max_wide <= 0xffff_ffff,
    ;
    if wide * max_high < high * max_wide {
        (((wide * max_high) / high) as u32, max_height)
    } else {
        (max_width, ((high * max_wide) / wide) as u32)
    }
}

/// Why the image crate could not decode or encode.
#[verifier::external_type_specification]
#[verifier::external_body]
pub struct ExImageError(image::ImageError);

/// What decoding gives for a sequence of bytes whose format is found from
/// its first bytes, if they can be decoded.
pub uninterp spec fn decoded_image(bytes: Seq<u8>) -> Option<(RasterView, PixelLayout)>;

/// What decoding gives for a sequence of bytes taken as a JPEG file, if they
/// can be decoded.
pub uninterp spec fn decoded_jpeg(bytes: Seq<u8>) -> Option<(RasterView, PixelLayout)>;

/// A raster scaled with a triangle filter to the largest size of its
/// proportions that fits into `width` by `height`.
pub uninterp spec fn resized(source: RasterView, width: nat, height: nat) -> RasterView;

/// The JPEG file of a raster, if it has one.
pub uninterp spec fn jpeg_encoding(source: RasterView) -> Option<Seq<u8>>;

/// `load_from_memory` of the image crate, with the decoded image brought to
/// red, green and blue samples by `DynamicImage::into_rgb8`. The contract
/// gives the outcome its name, tells a failure from a decoded image, and
/// claims that the raster has three samples for each pixel.
#[verifier::external_body]
fn decode_image(bytes: &[u8]) -> (decoded: Result<DecodedImage, image::ImageError>)
    ensures
        match decoded {
            Ok(picture) => decoded_image(bytes@) == Some((picture.raster@, picture.layout))
                && picture.raster.wf(),
            Err(_) => decoded_image(bytes@) is None,
        },
{
    match image::load_from_memory(bytes) {
        Ok(picture) => {
            let layout = match picture.color() {
                image::ColorType::Rgb8 => PixelLayout::Rgb8,
                _ => PixelLayout::Other,
            };
            let (width, height) = (picture.width(), picture.height());
            let pixels = picture.into_rgb8().into_raw();
            Ok(DecodedImage { raster: Raster { width, height, pixels }, layout })
        },
        Err(failure) => Err(failure),
    }
}

/// `load_from_memory_with_format` of the image crate for the JPEG format,
/// with the decoded image brought to red, green and blue samples by
/// `DynamicImage::into_rgb8`. The contract gives the outcome its name, tells
/// a failure from a decoded image, and claims that the raster has three
/// samples for each pixel.
#[verifier::external_body]
fn decode_jpeg(bytes: &[u8]) -> (decoded: Result<DecodedImage, image::ImageError>)
    ensures
        match decoded {
            Ok(picture) => decoded_jpeg(bytes@) == Some((picture.raster@, picture.layout))
                && picture.raster.wf(),
            Err(_) => decoded_jpeg(bytes@) is None,
        },
{
    match image::load_from_memory_with_format(bytes, image::ImageFormat::Jpeg) {
        Ok(picture) => {
            let layout = match picture.color() {
                image::ColorType::Rgb8 => PixelLayout::Rgb8,
                _ => PixelLayout::Other,
            };
            let (width, height) = (picture.width(), picture.height());
            let pixels = picture.into_rgb8().into_raw();
            Ok(DecodedImage { raster: Raster { width, height, pixels }, layout })
        },
        Err(failure) => Err(failure),
    }
}

/// `DynamicImage::resize` of the image crate with the triangle filter. The
/// contract gives the result its name and claims that it has three samples
/// for each pixel; that a raster asked to take the size it has comes back as
/// it is; that the result has at least one pixel and fits into the size
/// asked for; and that it is a single pixel where a side of zero is asked
/// for.
#[verifier::external_body]
fn resize_raster(source: &Raster, width: u32, height: u32) -> (scaled: Raster)
    requires
        source.wf(),
        !source@.is_empty(),
        width <= source.width,
        height <= source.height,
    ensures
        scaled@ == resized(source@, width as nat, height as nat),
        scaled.wf(),
        (width, height) == (source.width, source.height) ==> scaled@ == source@,
        width >= 1 && height >= 1 ==> 1 <= scaled.width <= width && 1 <= scaled.height <= height,
        width == 0 || height == 0 ==> scaled.width == 1 && scaled.height == 1,
{
    let samples = source.pixels.clone();
    let picture = image::DynamicImage::ImageRgb8(
        image::RgbImage::from_raw(source.width, source.height, samples).unwrap(),
    );
    let scaled = picture.resize(width, height, image::imageops::FilterType::Triangle).into_rgb8();
    Raster { width: scaled.width(), height: scaled.height(), pixels: scaled.into_raw() }
}

/// `DynamicImage::write_to` of the image crate for the JPEG format, into a
/// buffer in memory. The contract gives the outcome its name and tells a
/// failure from an encoded file.
#[verifier::external_body]
fn encode_jpeg(source: &Raster) -> (encoded: Result<Vec<u8>, image::ImageError>)
    requires
        source.wf(),
    ensures
        match encoded {
            Ok(bytes) => jpeg_encoding(source@) == Some(bytes@),
            Err(_) => jpeg_encoding(source@) is None,
        },
{
    let samples = source.pixels.clone();
    let picture = image::DynamicImage::ImageRgb8(
        image::RgbImage::from_raw(source.width, source.height, samples).unwrap(),
    );
    let mut bytes: Vec<u8> = Vec::new();
    match picture.write_to(&mut std::io::Cursor::new(&mut bytes), image::ImageFormat::Jpeg) {
        Ok(()) => Ok(bytes),
        Err(failure) => Err(failure),
    }
}

/// The decoded image scaled down to the screen.
pub open spec fn normalized(source: RasterView) -> RasterView {
    let (width, height) = fitted_size(
        source.width,
        source.height,
        SCREEN_WIDTH as nat,
        SCREEN_HEIGHT as nat,
    );
    resized(source, width, height)
}

/// What becomes of a decoded answer of the tile service: it is scaled down
/// to the screen, and refused where it has no pixels.
pub open spec fn scaled_for_cache(source: RasterView) -> Result<RasterView, TileError> {
    if source.is_empty() {
        Err(TileError::Decode)
    } else {
        Ok(normalized(source))
    }
}

/// What goes to the cache for an answer of the tile service: the JPEG file
/// of the decoded image, scaled down to the screen. An answer that is too
/// long, that cannot be decoded or that decodes to an image without pixels
/// is refused, and so is one whose scaled image has no JPEG file.
pub open spec fn prepared(body: Seq<u8>) -> Result<Seq<u8>, TileError> {
    if body.len() > MAX_BODY_BYTES {
        Err(TileError::OversizedBody)
    } else {
        match decoded_image(body) {
            None => Err(TileError::Decode),
            Some((source, _)) => match scaled_for_cache(source) {
                Err(failure) => Err(failure),
                Ok(scaled) => match jpeg_encoding(scaled) {
                    Some(encoded) => Ok(encoded),
                    None => Err(TileError::Storage),
                },
            },
        }
    }
}

/// What becomes of a decoded cached file: its raster, where the samples of
/// the file were laid out as red, green, blue; any other file is refused.
pub open spec fn accepted(raster: RasterView, layout: PixelLayout) -> Result<
    RasterView,
    TileError,
> {
    if layout == PixelLayout::Rgb8 {
        Ok(raster)
    } else {
        Err(TileError::UnsupportedLayout)
    }
}

/// What a cached file holds: the raster that it decodes to. A file that
/// cannot be decoded is refused, and so is one whose samples are laid out
/// in another way than red, green, blue.
pub open spec fn loaded(content: Seq<u8>) -> Result<RasterView, TileError> {
    match decoded_jpeg(content) {
        None => Err(TileError::Decode),
        Some((raster, layout)) => accepted(raster, layout),
    }
}

/// Scales a raster down to the screen. One that fits comes back as it is;
/// any other comes back with at least one pixel, fitting the screen and no
/// larger than it was.
pub fn normalize(source: &Raster) -> (scaled: Raster)
    requires
        source.wf(),
        !source@.is_empty(),
    ensures
        scaled@ == normalized(source@),
        scaled.wf(),
        source.width <= SCREEN_WIDTH && source.height <= SCREEN_HEIGHT ==> scaled@ == source@,
        1 <= scaled.width <= SCREEN_WIDTH,
        1 <= scaled.height <= SCREEN_HEIGHT,
        scaled.width <= source.width,
        scaled.height <= source.height,
{
    let (width, height) = fit_within(source.width, source.height, SCREEN_WIDTH, SCREEN_HEIGHT);
    resize_raster(source, width, height)
}

/// Scales a decoded answer of the tile service down to the screen, and
/// refuses one that has no pixels.
pub fn scale_for_cache(source: &Raster) -> (outcome: Result<Raster, TileError>)
    requires
        source.wf(),
    ensures
        match outcome {
            Ok(scaled) => scaled_for_cache(source@) == Ok::<RasterView, TileError>(scaled@)
                && scaled.wf(),
            Err(failure) => scaled_for_cache(source@) == Err::<RasterView, TileError>(failure),
        },
{
    if source.width == 0 || source.height == 0 {
        Err(TileError::Decode)
    } else {
        Ok(normalize(source))
    }
}

/// Makes an answer of the tile service ready for the cache.
pub fn prepare_for_cache(body: &[u8]) -> (outcome: Result<Vec<u8>, TileError>)
    ensures
        match outcome {
            Ok(encoded) => prepared(body@) == Ok::<Seq<u8>, TileError>(encoded@),
            Err(failure) => prepared(body@) == Err::<Seq<u8>, TileError>(failure),
        },
{
    if body.len() > MAX_BODY_BYTES {
        return Err(TileError::OversizedBody);
    }
    let picture = match decode_image(body) {
        Ok(picture) => picture,
        Err(_) => { return Err(TileError::Decode); },
    };
    let scaled = match scale_for_cache(&picture.raster) {
        Ok(scaled) => scaled,
        Err(failure) => { return Err(failure); },
    };
    match encode_jpeg(&scaled) {
        Ok(encoded) => Ok(encoded),
        Err(_) => Err(TileError::Storage),
    }
}

/// Takes a decoded cached file where its samples were laid out as red,
/// green, blue, and refuses any other.
pub fn accept_cached(picture: DecodedImage) -> (outcome: Result<Raster, TileError>)
    ensures
        match outcome {
            Ok(raster) => accepted(picture.raster@, picture.layout) == Ok::<
                RasterView,
                TileError,
            >(raster@) && raster == picture.raster,
            Err(failure) => accepted(picture.raster@, picture.layout) == Err::<
                RasterView,
                TileError,
            >(failure),
        },
{
    match picture.layout {
        PixelLayout::Rgb8 => Ok(picture.raster),
        PixelLayout::Other => Err(TileError::UnsupportedLayout),
    }
}

/// Decodes a cached file.
pub fn load_cached(content: &[u8]) -> (outcome: Result<Raster, TileError>)
    ensures
        match outcome {
            Ok(raster) => loaded(content@) == Ok::<RasterView, TileError>(raster@) && raster.wf(),
            Err(failure) => loaded(content@) == Err::<RasterView, TileError>(failure),
        },
{
    match decode_jpeg(content) {
        Ok(picture) => accept_cached(picture),
        Err(_) => Err(TileError::Decode),
    }
}

} // verus!
