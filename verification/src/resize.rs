//! Aspect-preserving resize of raster images.

use crate::text::join;
use vstd::prelude::*;

verus! {

/// The height that keeps the aspect ratio of a `width` x `height` image
/// when it is scaled to `target_width`, rounded down.
pub open spec fn scaled_height_spec(target_width: int, width: int, height: int) -> int {
    (target_width * height) / width
}

/// Computes [`scaled_height_spec`]. There is no answer for an image without
/// columns, nor when the height does not fit in 32 bits.
pub fn scaled_height(target_width: u32, width: u32, height: u32) -> (result: Option<u32>)
    ensures
        result is Some <==> width > 0 && scaled_height_spec(
            target_width as int,
            width as int,
            height as int,
        ) <= u32::MAX,
        result matches Some(h) ==> h == scaled_height_spec(
            target_width as int,
            width as int,
            height as int,
        ),
{
    if width == 0 {
        return None;
    }
    assert(target_width * height <= u32::MAX * u32::MAX) by (nonlinear_arith)
        requires
            target_width <= u32::MAX,
            height <= u32::MAX,
    ;
    let product: u64 = (target_width as u64) * (height as u64);
    let quotient: u64 = product / (width as u64);
    if quotient > u32::MAX as u64 {
        None
    } else {
        Some(quotient as u32)
    }
}

/// The smallest width that an image may be resized to.
pub const MIN_TARGET_WIDTH: u32 = 100;

/// The width that images are resized to where none is asked for.
pub const DEFAULT_TARGET_WIDTH: u32 = 300;

/// Why an image was not resized.
#[derive(Clone, Copy, Debug, PartialEq, Eq, Structural)]
pub enum ResizeError {
    /// The width asked for is below [`MIN_TARGET_WIDTH`].
    WidthBelowMinimum,
    /// The image has no columns, so it has no aspect ratio.
    NoColumns,
    /// The result, or what is needed on the way to it, is more than memory
    /// can hold.
    TooLarge,
}

/// The width to resize to, given the width that the user asked for, if any.
pub fn target_width(requested: Option<u32>) -> (result: Result<u32, ResizeError>)
    ensures
        result == match requested {
            None => Ok::<u32, ResizeError>(DEFAULT_TARGET_WIDTH),
            Some(width) => if width >= MIN_TARGET_WIDTH {
                Ok::<u32, ResizeError>(width)
            } else {
                Err::<u32, ResizeError>(ResizeError::WidthBelowMinimum)
            },
        },
{
    match requested {
        None => Ok(DEFAULT_TARGET_WIDTH),
        Some(width) => if width >= MIN_TARGET_WIDTH {
            Ok(width)
        } else {
            Err(ResizeError::WidthBelowMinimum)
        },
    }
}

/// The name under which the resized copy of the file `name` is stored.
pub open spec fn output_name_spec(name: Seq<char>) -> Seq<char> {
    "new_"@ + name
}

/// The name under which the resized copy of the file `name` is stored.
pub fn output_name(name: &str) -> (output: String)
    ensures
        output@ == output_name_spec(name@),
{
    join("new_", name)
}

/// The names under which the resized copies of a batch of files are stored:
/// one for each file, in the same order.
pub fn output_names(names: &Vec<String>) -> (outputs: Vec<String>)
    ensures
        outputs@.len() == names@.len(),
        forall|i: int| 0 <= i < names@.len() ==> (#[trigger] outputs@[i])@ == output_name_spec(
            names@[i]@,
        ),
{
    let mut outputs: Vec<String> = Vec::new();
    let mut i: usize = 0;
    while i < names.len()
        invariant
            0 <= i <= names@.len(),
            outputs@.len() == i,
            forall|j: int| 0 <= j < i ==> (#[trigger] outputs@[j])@ == output_name_spec(
                names@[j]@,
            ),
        decreases names@.len() - i,
    {
        outputs.push(output_name(names[i].as_str()));
        i = i + 1;
    }
    outputs
}

/// Whether an image of `width` columns can be resampled to `new_width` by
/// `new_height` pixels within the limits of memory: the resampler works on
/// four channels of four bytes for each pixel, first at the old width and the
/// new height, then at the new size.
pub open spec fn resample_fits(width: int, new_width: int, new_height: int) -> bool {
    16 * width * new_height <= isize::MAX && 16 * new_width * new_height <= isize::MAX
}

/// Builds an image buffer of the `image` crate over the pixels and calls
/// `imageops::resize` on it with the Lanczos filter of window 3. The samples
/// that come out depend on floating-point arithmetic and are not stated. The
/// contract claims that the buffer returned holds four bytes for each pixel
/// of the new size, and that an image that keeps its size is copied, which
/// `resize` does without resampling.
#[verifier::external_body]
fn resample(pixels: &Vec<u8>, width: u32, height: u32, new_width: u32, new_height: u32) -> (out:
    Vec<u8>)
    requires
        pixels@.len() == 4 * width * height,
        resample_fits(width as int, new_width as int, new_height as int),
    ensures
        out@.len() == 4 * new_width * new_height,
        new_width == width && new_height == height ==> out@ == pixels@,
{
    match image::ImageBuffer::<image::Rgba<u8>, &[u8]>::from_raw(width, height, pixels) {
        Some(source) => image::imageops::resize(
            &source,
            new_width,
            new_height,
            image::imageops::FilterType::Lanczos3,
        ).into_raw(),
        None => Vec::new(),
    }
}

/// A raster image with four channels of eight bits for each pixel (red,
/// green, blue, alpha), stored row by row.
#[derive(Debug, PartialEq, Eq)]
pub struct Raster {
    width: u32,
    height: u32,
    pixels: Vec<u8>,
}

/// The mathematical value of a [`Raster`].
pub struct RasterView {
    pub width: nat,
    pub height: nat,
    pub pixels: Seq<u8>,
}

impl RasterView {
    /// There are four bytes for each pixel.
    pub open spec fn wf(self) -> bool {
        self.pixels.len() == 4 * self.width * self.height
    }
}

impl View for Raster {
    type V = RasterView;

    closed spec fn view(&self) -> RasterView {
        RasterView { width: self.width as nat, height: self.height as nat, pixels: self.pixels@ }
    }
}

/// The size of the resized image and whether it is within reach, for an image
/// of `width` by `height` pixels and a target width.
pub open spec fn resize_plan(target_width: int, width: int, height: int) -> Result<
    (int, int),
    ResizeError,
> {
    if width <= 0 {
        Err(ResizeError::NoColumns)
    } else {
        let new_height = scaled_height_spec(target_width, width, height);
        if new_height <= u32::MAX && resample_fits(width, target_width, new_height) {
            Ok((target_width, new_height))
        } else {
            Err(ResizeError::TooLarge)
        }
    }
}

impl Raster {
    #[verifier::type_invariant]
    spec fn inv(self) -> bool {
        self.pixels@.len() == 4 * self.width * self.height
    }

    /// The image of the given size over the given samples. There is none
    /// unless there are exactly four samples for each pixel.
    pub fn new(width: u32, height: u32, pixels: Vec<u8>) -> (result: Option<Raster>)
        ensures
            result is Some <==> pixels@.len() == 4 * width * height,
            result matches Some(raster) ==> raster@ == (RasterView {
                width: width as nat,
                height: height as nat,
                pixels: pixels@,
            }),
    {
        assert(4 * width * height <= 4 * u32::MAX * u32::MAX) by (nonlinear_arith)
            requires
                width <= u32::MAX,
                height <= u32::MAX,
        ;
        let wanted: u128 = 4 * (width as u128) * (height as u128);
        if pixels.len() as u128 == wanted {
            Some(Raster { width, height, pixels })
        } else {
            None
        }
    }

    /// The number of columns.
    pub fn width(&self) -> (width: u32)
        ensures
            width == self@.width,
    {
        self.width
    }

    /// The number of rows.
    pub fn height(&self) -> (height: u32)
        ensures
            height == self@.height,
    {
        self.height
    }

    /// The samples, row by row.
    pub fn pixels(&self) -> (pixels: &Vec<u8>)
        ensures
            pixels@ == self@.pixels,
            self@.wf(),
    {
        proof {
            use_type_invariant(self);
        }
        &self.pixels
    }

    /// Resizes the image to `target_width` columns and as many rows as keep
    /// its aspect ratio, rounded down. An image that has the target width
    /// already comes back as it is.
    pub fn resize_to_width(&self, target_width: u32) -> (result: Result<Raster, ResizeError>)
        ensures
            target_width == self@.width ==> (result matches Ok(resized) ==> resized@ == self@),
            match result {
                Ok(resized) => resize_plan(
                    target_width as int,
                    self@.width as int,
                    self@.height as int,
                ) == Ok::<(int, int), ResizeError>(
                    (resized@.width as int, resized@.height as int),
                ) && resized@.wf(),
                Err(error) => resize_plan(
                    target_width as int,
                    self@.width as int,
                    self@.height as int,
                ) == Err::<(int, int), ResizeError>(error),
            },
    {
        proof {
            use_type_invariant(self);
        }
        if self.width == 0 {
            return Err(ResizeError::NoColumns);
        }
        match scaled_height(target_width, self.width, self.height) {
            None => Err(ResizeError::TooLarge),
            Some(new_height) => {
                assert(target_width == self.width ==> new_height == self.height) by (nonlinear_arith)
                    requires
                        self.width > 0,
                        new_height == (target_width * self.height) / (self.width as int),
                ;
                assert(16 * self.width * new_height <= 16 * u32::MAX * u32::MAX
                    && 16 * target_width * new_height <= 16 * u32::MAX * u32::MAX)
                    by (nonlinear_arith)
                    requires
                        self.width <= u32::MAX,
                        target_width <= u32::MAX,
                        new_height <= u32::MAX,
                ;
                let limit: u128 = isize::MAX as u128;
                let first: u128 = 16 * (self.width as u128) * (new_height as u128);
                let second: u128 = 16 * (target_width as u128) * (new_height as u128);
                if first <= limit && second <= limit {
                    let pixels = resample(
                        &self.pixels,
                        self.width,
                        self.height,
                        target_width,
                        new_height,
                    );
                    Ok(Raster { width: target_width, height: new_height, pixels })
                } else {
                    Err(ResizeError::TooLarge)
                }
            },
        }
    }
}

} // verus!
