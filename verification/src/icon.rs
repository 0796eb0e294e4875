//! The window icon: decoding the embedded image and checking its pixels
//! against its dimensions before a window icon is made of it.
use vstd::prelude::*;

verus! {

#[verifier::external_type_specification]
#[verifier::external_body]
pub struct ExImageError(image::ImageError);

/// The pixels (8-bit RGBA, row by row), width and height of the image that
/// `image::load_from_memory` decodes from `bytes`, or `None` when it fails.
pub uninterp spec fn decoded_rgba8(bytes: Seq<u8>) -> Option<(Seq<u8>, u32, u32)>;

/// Calls `image::load_from_memory` (which guesses the format from the bytes
/// and decodes), then `dimensions()` and `to_rgba8().into_raw()` of the
/// decoded image. The outcome is named by [`decoded_rgba8`]; on failure the
/// decoder's error is handed back.
#[verifier::external_body]
fn decode_rgba8(bytes: &[u8]) -> (r: Result<(Vec<u8>, u32, u32), image::ImageError>)
    ensures
        r is Ok <==> decoded_rgba8(bytes@) is Some,
        r matches Ok((p, w, h)) ==> decoded_rgba8(bytes@) == Some((p@, w, h)),
{
    match image::load_from_memory(bytes) {
        Ok(img) => {
            let (width, height) = image::GenericImageView::dimensions(&img);
            Ok((img.to_rgba8().into_raw(), width, height))
        },
        Err(e) => Err(e),
    }
}

/// Checked 8-bit RGBA pixels of an icon, with its dimensions.
#[derive(Debug)]
pub struct IconImage {
    pub rgba: Vec<u8>,
    pub width: u32,
    pub height: u32,
}

/// Why no icon could be made of the bytes.
#[derive(Debug)]
pub enum IconError {
    /// The image could not be decoded.
    Decode(image::ImageError),
    /// The length of the pixel data is not a multiple of 4.
    ByteCountNotDivisibleBy4 { byte_count: usize },
    /// The number of pixels (length / 4) differs from width times height.
    DimensionsVsPixelCount { width: u32, height: u32, width_x_height: u64, pixel_count: usize },
}

/// An [`IconError`] without the decoder's error.
pub enum IconErrorView {
    Decode,
    ByteCountNotDivisibleBy4 { byte_count: usize },
    DimensionsVsPixelCount { width: u32, height: u32, width_x_height: u64, pixel_count: usize },
}

impl View for IconError {
    type V = IconErrorView;

    open spec fn view(&self) -> IconErrorView {
        match self {
            IconError::Decode(_) => IconErrorView::Decode,
            IconError::ByteCountNotDivisibleBy4 { byte_count } => IconErrorView::ByteCountNotDivisibleBy4 {
                byte_count: *byte_count,
            },
            IconError::DimensionsVsPixelCount { width, height, width_x_height, pixel_count } => {
                IconErrorView::DimensionsVsPixelCount {
                    width: *width,
                    height: *height,
                    width_x_height: *width_x_height,
                    pixel_count: *pixel_count,
                }
            },
        }
    }
}

/// The check that a window icon makes of its pixels: the length must be a
/// multiple of 4, and length / 4 must equal width times height.
pub open spec fn spec_icon_from_rgba(rgba: Seq<u8>, width: u32, height: u32) -> Result<
    (Seq<u8>, u32, u32),
    IconErrorView,
> {
    if rgba.len() % 4 != 0 {
        Err(IconErrorView::ByteCountNotDivisibleBy4 { byte_count: rgba.len() as usize })
    } else if rgba.len() / 4 != width * height {
        Err(
            IconErrorView::DimensionsVsPixelCount {
                width,
                height,
                width_x_height: (width * height) as u64,
                pixel_count: (rgba.len() / 4) as usize,
            },
        )
    } else {
        Ok((rgba, width, height))
    }
}

/// Decodes `bytes` and checks the pixels as a window icon does.
pub open spec fn spec_icon(bytes: Seq<u8>) -> Result<(Seq<u8>, u32, u32), IconErrorView> {
    match decoded_rgba8(bytes) {
        None => Err(IconErrorView::Decode),
        Some((rgba, width, height)) => spec_icon_from_rgba(rgba, width, height),
    }
}

/// An icon result with the icon's pixels taken by their view and the error
/// by its view.
pub open spec fn icon_result_view(r: Result<IconImage, IconError>) -> Result<
    (Seq<u8>, u32, u32),
    IconErrorView,
> {
    match r {
        Ok(i) => Ok((i.rgba@, i.width, i.height)),
        Err(e) => Err(e@),
    }
}

/// An icon is accepted exactly when it has four bytes for each of its
/// width × height pixels, and then unchanged; a length that is not a multiple
/// of 4 is reported as such, and any other mismatch (too few or too many
/// pixels) as a dimension mismatch with both counts.
pub proof fn lemma_icon_check_meaning(rgba: Seq<u8>, width: u32, height: u32)
    ensures
        spec_icon_from_rgba(rgba, width, height) is Ok <==> rgba.len() == 4 * (width * height),
        spec_icon_from_rgba(rgba, width, height) matches Ok((p, w, h)) ==> p == rgba && w == width
            && h == height,
        rgba.len() % 4 != 0 ==> spec_icon_from_rgba(rgba, width, height) == Err::<
            (Seq<u8>, u32, u32),
            IconErrorView,
        >(IconErrorView::ByteCountNotDivisibleBy4 { byte_count: rgba.len() as usize }),
        rgba.len() % 4 == 0 && rgba.len() != 4 * (width * height) ==> spec_icon_from_rgba(
            rgba,
            width,
            height,
        ) == Err::<(Seq<u8>, u32, u32), IconErrorView>(
            IconErrorView::DimensionsVsPixelCount {
                width,
                height,
                width_x_height: (width * height) as u64,
                pixel_count: (rgba.len() / 4) as usize,
            },
        ),
{
}

/// A decoded icon that is accepted has the pixels, width and height that the
/// decoder produced, four bytes per pixel.
pub proof fn lemma_icon_from_bytes_meaning(bytes: Seq<u8>)
    ensures
        spec_icon(bytes) matches Ok((p, w, h)) ==> decoded_rgba8(bytes) == Some((p, w, h))
            && p.len() == 4 * (w * h),
        decoded_rgba8(bytes) is None ==> spec_icon(bytes) == Err::<(Seq<u8>, u32, u32), IconErrorView>(
            IconErrorView::Decode,
        ),
{
    if let Some((rgba, width, height)) = decoded_rgba8(bytes) {
        lemma_icon_check_meaning(rgba, width, height);
    }
}

/// Checks RGBA pixels against the icon's dimensions (see
/// [`spec_icon_from_rgba`]).
pub fn icon_from_rgba(rgba: Vec<u8>, width: u32, height: u32) -> (r: Result<IconImage, IconError>)
    ensures
        icon_result_view(r) == spec_icon_from_rgba(rgba@, width, height),
        r is Ok <==> rgba@.len() == 4 * (width * height),
        r matches Ok(i) ==> i.rgba@ == rgba@ && i.width == width && i.height == height,
{
    proof {
        lemma_icon_check_meaning(rgba@, width, height);
    }
    let byte_count = rgba.len();
    if byte_count % 4 != 0 {
        return Err(IconError::ByteCountNotDivisibleBy4 { byte_count });
    }
    let pixel_count = byte_count / 4;
    proof {
        let (w, h) = (width as int, height as int);
        assert(0 <= w * h <= 0xffff_ffff * 0xffff_ffff) by (nonlinear_arith)
            requires
                0 <= w <= 0xffff_ffff,
                0 <= h <= 0xffff_ffff,
        ;
    }
    let width_x_height: u64 = (width as u64) * (height as u64);
    if (pixel_count as u64) != width_x_height {
        return Err(
            IconError::DimensionsVsPixelCount { width, height, width_x_height, pixel_count },
        );
    }
    Ok(IconImage { rgba, width, height })
}

/// Decodes the image in `bytes` to RGBA pixels and checks them as a window
/// icon does (see [`spec_icon`]).
pub fn icon_from_bytes(bytes: &[u8]) -> (r: Result<IconImage, IconError>)
    ensures
        icon_result_view(r) == spec_icon(bytes@),
        r matches Ok(i) ==> i.rgba@.len() == 4 * (i.width * i.height),
{
    proof {
        lemma_icon_from_bytes_meaning(bytes@);
    }
    match decode_rgba8(bytes) {
        Ok((rgba, width, height)) => icon_from_rgba(rgba, width, height),
        Err(e) => Err(IconError::Decode(e)),
    }
}

} // verus!
