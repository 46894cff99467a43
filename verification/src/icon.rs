//! The tray icon as pixels.

use vstd::prelude::*;

verus! {

/// Calls `image::load_from_memory` and turns the image into its RGBA8 buffer
/// with `DynamicImage::into_rgba8`, `ImageBuffer::dimensions` and
/// `ImageBuffer::into_raw`: the pixel bytes, the width and the height, or
/// nothing where the decoder gives no image.
///
/// Nothing is claimed of what comes back. Which bytes the decoder reads, and
/// as what, depends on the formats and hooks that are registered with it in
/// the running process, and the buffer it hands out is only known to be long
/// enough. Whatever comes back is checked by [`icon_from_decoded`].
#[verifier::external_body]
fn decode_rgba8(bytes: &[u8]) -> Option<(Vec<u8>, u32, u32)> {
    match image::load_from_memory(bytes) {
        Ok(image) => {
            let buffer = image.into_rgba8();
            let (width, height) = buffer.dimensions();
            Some((buffer.into_raw(), width, height))
        },
        Err(_) => None,
    }
}

/// Why bytes make no icon.
#[derive(Clone, Copy, Debug, PartialEq, Eq)]
pub enum IconError {
    /// The bytes are no image that the decoder reads.
    Undecodable,
    /// The number of pixel bytes is not four times width times height.
    SizeMismatch,
}

/// An icon: `width` times `height` pixels of four bytes each, red, green,
/// blue and alpha, row by row.
#[derive(Debug, PartialEq, Eq)]
pub struct IconImage {
    rgba: Vec<u8>,
    width: u32,
    height: u32,
}

/// Mathematical value of an [`IconImage`].
pub struct IconImageView {
    pub rgba: Seq<u8>,
    pub width: u32,
    pub height: u32,
}

/// Whether `byte_count` bytes are exactly the pixels of a `width` by `height`
/// image.
pub open spec fn fits_dimensions(byte_count: nat, width: u32, height: u32) -> bool {
    byte_count == 4 * width * height
}

/// The icon made of decoded pixels, or the reason why there is none.
pub open spec fn icon_of(decoded: Option<(Seq<u8>, u32, u32)>) -> Result<IconImageView, IconError> {
    match decoded {
        None => Err(IconError::Undecodable),
        Some((rgba, width, height)) => if fits_dimensions(rgba.len(), width, height) {
            Ok(IconImageView { rgba, width, height })
        } else {
            Err(IconError::SizeMismatch)
        },
    }
}

/// The value of what a decoder handed out.
pub open spec fn decoded_view(decoded: Option<(Vec<u8>, u32, u32)>) -> Option<(Seq<u8>, u32, u32)> {
    match decoded {
        Some((rgba, width, height)) => Some((rgba@, width, height)),
        None => None,
    }
}

/// The value of an icon or the reason why there is none.
pub open spec fn outcome_view(outcome: Result<IconImage, IconError>) -> Result<IconImageView, IconError> {
    match outcome {
        Ok(icon) => Ok(icon@),
        Err(error) => Err(error),
    }
}

impl View for IconImage {
    type V = IconImageView;

    closed spec fn view(&self) -> IconImageView {
        IconImageView { rgba: self.rgba@, width: self.width, height: self.height }
    }
}

impl IconImage {
    #[verifier::type_invariant]
    spec fn sized(&self) -> bool {
        fits_dimensions(self.rgba@.len(), self.width, self.height)
    }

    /// An icon of `width` by `height` pixels from their RGBA bytes. Fails
    /// unless there are exactly four bytes for each pixel.
    pub fn from_rgba(rgba: Vec<u8>, width: u32, height: u32) -> (made: Result<IconImage, IconError>)
        ensures
            outcome_view(made) == icon_of(Some((rgba@, width, height))),
    {
        assert((width as int) * (height as int) <= 0xFFFF_FFFF * 0xFFFF_FFFF) by (nonlinear_arith)
            requires
                width <= 0xFFFF_FFFF,
                height <= 0xFFFF_FFFF,
        ;
        let pixel_count: u64 = (width as u64) * (height as u64);
        let expected: u128 = 4 * (pixel_count as u128);
        assert(expected == 4 * width * height) by (nonlinear_arith)
            requires
                expected == 4 * ((width as int) * (height as int)),
        ;
        if rgba.len() as u128 == expected {
            Ok(IconImage { rgba, width, height })
        } else {
            Err(IconError::SizeMismatch)
        }
    }

    /// The pixel bytes.
    pub fn rgba(&self) -> (rgba: &Vec<u8>)
        ensures
            rgba@ == self@.rgba,
            fits_dimensions(rgba@.len(), self@.width, self@.height),
    {
        proof {
            use_type_invariant(self);
        }
        &self.rgba
    }

    /// Gives up the icon for its pixel bytes.
    pub fn into_rgba(self) -> (rgba: Vec<u8>)
        ensures
            rgba@ == self@.rgba,
            fits_dimensions(rgba@.len(), self@.width, self@.height),
    {
        proof {
            use_type_invariant(&self);
        }
        self.rgba
    }

    /// Width in pixels.
    pub fn width(&self) -> (width: u32)
        ensures
            width == self@.width,
    {
        self.width
    }

    /// Height in pixels.
    pub fn height(&self) -> (height: u32)
        ensures
            height == self@.height,
    {
        self.height
    }
}

/// The icon made of what a decoder handed out: the pixel bytes with the
/// width and the height, or nothing. Fails with `Undecodable` where there is
/// nothing, and with `SizeMismatch` unless there are exactly four bytes for
/// each pixel.
pub fn icon_from_decoded(decoded: Option<(Vec<u8>, u32, u32)>) -> (made: Result<IconImage, IconError>)
    ensures
        outcome_view(made) == icon_of(decoded_view(decoded)),
{
    match decoded {
        Some((rgba, width, height)) => IconImage::from_rgba(rgba, width, height),
        None => Err(IconError::Undecodable),
    }
}

/// Decodes an encoded image into an icon.
///
/// Which bytes decode is the decoder's matter. Whatever it answers, an icon
/// that comes back has exactly four bytes for each of its pixels.
pub fn load_icon(bytes: &[u8]) -> (loaded: Result<IconImage, IconError>)
    ensures
        loaded matches Ok(icon) ==> fits_dimensions(icon@.rgba.len(), icon@.width, icon@.height),
{
    icon_from_decoded(decode_rgba8(bytes))
}

} // verus!
