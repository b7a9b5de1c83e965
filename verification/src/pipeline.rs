//! The per-file resize pipeline: decode an image held in memory with the
//! codec its extension names, compute the effective target box, resample
//! with the selected filter, and re-encode with that same codec.

use vstd::prelude::*;
use crate::errors::RunError;
use crate::filter::FilterKind;

verus! {

#[verifier::external_type_specification]
#[verifier::external_body]
pub struct ExDynamicImage(image::DynamicImage);

/// What decoding a file held in memory yields. This names the outcome of
/// image::load_from_memory_with_format under the codec that
/// image::ImageFormat::from_extension finds for the file's extension:
/// `Some` of the decoded image's width and height when the extension names
/// a codec and the bytes decode under it, `None` otherwise.
pub uninterp spec fn decoded_dims_of(bytes: Seq<u8>, ext: Seq<char>) -> Option<(u32, u32)>;

/// The dimensions of the image that image::DynamicImage::resize returns
/// for a source of `w` by `h` and bounds `tw` by `th`: the largest box
/// that fits within the bounds and preserves the source's aspect ratio,
/// each side at least one pixel.
pub uninterp spec fn fit_dims(w: u32, h: u32, tw: u32, th: u32) -> (u32, u32);

/// A decoded image together with its dimensions. Only the trusted decode
/// and resize steps build one, and both fill `width` and `height` with the
/// held image's own dimensions; their contracts lean on that.
struct LoadedImage {
    img: image::DynamicImage,
    width: u32,
    height: u32,
}

/// Relies on image::ImageFormat::from_extension and
/// image::load_from_memory_with_format: the codec is the one the file's
/// extension names — as when a file is opened by its path — and decoding
/// succeeds exactly when a codec is named and the payload decodes under
/// it. The decoder reads behind the reader's default allocation limit and
/// reports failures as errors, not panics.
#[verifier::external_body]
fn decode_image(bytes: &[u8], ext: &str) -> (r: Result<LoadedImage, RunError>)
    ensures
        r is Ok <==> decoded_dims_of(bytes@, ext@) is Some,
        r matches Ok(li) ==> Some((li.width, li.height)) == decoded_dims_of(bytes@, ext@),
        r matches Err(e) ==> e == RunError::DecodeFailed,
{
    let format = match image::ImageFormat::from_extension(ext) {
        Some(f) => f,
        None => return Err(RunError::DecodeFailed),
    };
    match image::load_from_memory_with_format(bytes, format) {
        Ok(img) => {
            let (width, height) = image::GenericImageView::dimensions(&img);
            Ok(LoadedImage { img, width, height })
        }
        Err(_) => Err(RunError::DecodeFailed),
    }
}

/// Relies on image::DynamicImage::resize: scales the image to the largest
/// size that fits within the bounds `tw` by `th`, preserving its aspect
/// ratio, resampling with the given filter. The bounds keep every pixel
/// buffer the resampler allocates — the result, and an intermediate of the
/// source's width by at most `th` rows — within `isize::MAX` bytes at 16
/// bytes per pixel, the widest sample layout, so the call returns rather
/// than panicking. The contract holds for the dimensions `src` carries,
/// which the trusted constructors fill with the held image's own.
#[verifier::external_body]
fn resize_image(src: &LoadedImage, tw: u32, th: u32, filter: FilterKind) -> (r: LoadedImage)
    requires
        16 * (if src.width == 0 { 1nat } else { src.width as nat }) * (if th == 0 { 1nat } else { th as nat })
            <= isize::MAX as nat,
        16 * (if tw == 0 { 1nat } else { tw as nat }) * (if th == 0 { 1nat } else { th as nat })
            <= isize::MAX as nat,
    ensures
        (r.width, r.height) == fit_dims(src.width, src.height, tw, th),
{
    let kernel = match filter {
        FilterKind::Nearest => image::imageops::FilterType::Nearest,
        FilterKind::Triangle => image::imageops::FilterType::Triangle,
        FilterKind::CatmullRom => image::imageops::FilterType::CatmullRom,
        FilterKind::Gaussian => image::imageops::FilterType::Gaussian,
        FilterKind::Lanczos3 => image::imageops::FilterType::Lanczos3,
    };
    let img = src.img.resize(tw, th, kernel);
    let (width, height) = image::GenericImageView::dimensions(&img);
    LoadedImage { img, width, height }
}

/// Relies on image::ImageFormat::from_extension and
/// image::DynamicImage::write_to: encodes the image into an in-memory
/// buffer with the codec the extension names — as when an image is saved
/// by its path — failing when no codec is named or that encoder rejects
/// the image.
#[verifier::external_body]
fn encode_image(src: &LoadedImage, ext: &str) -> (r: Result<Vec<u8>, RunError>)
    ensures
        r matches Err(e) ==> e == RunError::SaveFailed,
{
    let format = match image::ImageFormat::from_extension(ext) {
        Some(f) => f,
        None => return Err(RunError::SaveFailed),
    };
    let mut buffer: Vec<u8> = Vec::new();
    match src.img.write_to(&mut std::io::Cursor::new(&mut buffer), format) {
        Ok(()) => Ok(buffer),
        Err(_) => Err(RunError::SaveFailed),
    }
}

/// The effective target box for a source image of `src_w` by `src_h`
/// pixels. A zero bound means "use the source's own size": the width axis
/// falls back to the source width — and so does the height axis, which
/// deliberately keeps the tool's historical behaviour of reusing the
/// source *width* for an unset height.
pub open spec fn effective_target_spec(src_w: u32, src_h: u32, max_w: u32, max_h: u32) -> (
    u32,
    u32,
) {
    (
        if max_w == 0 {
            src_w
        } else {
            max_w
        },
        if max_h == 0 {
            src_w
        } else {
            max_h
        },
    )
}

/// Compute the effective target box from the source dimensions and the
/// configured bounds, with zero as the "use the source's own size"
/// sentinel on each axis (the height axis reusing the source width).
#[allow(unused_variables)]
pub fn effective_target(src_w: u32, src_h: u32, max_w: u32, max_h: u32) -> (r: (u32, u32))
    ensures
        r == effective_target_spec(src_w, src_h, max_w, max_h),
{
    let tw: u32 = if max_w == 0 {
        src_w
    } else {
        max_w
    };
    let th: u32 = if max_h == 0 {
        src_w
    } else {
        max_h
    };
    (tw, th)
}

/// Whether the pixel buffers for resizing a source of `w` by `h` to the
/// effective target box stay within `isize::MAX` bytes at 16 bytes per
/// pixel — the condition under which the resampler returns rather than
/// panicking.
pub open spec fn size_guard_ok(w: u32, h: u32, max_w: u32, max_h: u32) -> bool {
    let t = effective_target_spec(w, h, max_w, max_h);
    &&& 16 * (if w == 0 { 1nat } else { w as nat }) * (if t.1 == 0 { 1nat } else { t.1 as nat })
        <= isize::MAX as nat
    &&& 16 * (if t.0 == 0 { 1nat } else { t.0 as nat }) * (if t.1 == 0 { 1nat } else { t.1 as nat })
        <= isize::MAX as nat
}

/// Check the size guard for a source of `w` by `h` under the configured
/// bounds.
fn size_guard(w: u32, h: u32, max_w: u32, max_h: u32) -> (ok: bool)
    ensures
        ok == size_guard_ok(w, h, max_w, max_h),
{
    let target = effective_target(w, h, max_w, max_h);
    let sw: u128 = if w == 0 {
        1
    } else {
        w as u128
    };
    let tw: u128 = if target.0 == 0 {
        1
    } else {
        target.0 as u128
    };
    let th: u128 = if target.1 == 0 {
        1
    } else {
        target.1 as u128
    };
    let limit: u128 = isize::MAX as u128;
    proof {
        assert(16 * sw * th <= 0x100000000000000000u128) by (nonlinear_arith)
            requires
                sw <= 0x100000000u128,
                th <= 0x100000000u128,
        ;
        assert(16 * tw * th <= 0x100000000000000000u128) by (nonlinear_arith)
            requires
                tw <= 0x100000000u128,
                th <= 0x100000000u128,
        ;
    }
    16 * sw * th <= limit && 16 * tw * th <= limit
}

/// Resize one image file held in memory: decode `bytes` with the codec
/// that `ext` names — as when the file is opened by its path — scale to
/// the effective target box for the configured bounds, resample with
/// `filter`, and re-encode with that same codec. Fails with `DecodeFailed`
/// exactly when the extension names no codec or the bytes do not decode;
/// fails with `SaveFailed` when the target box is too large for its pixel
/// buffer to be addressed, or when the re-encoder rejects the resized
/// image; succeeds only on a decodable input whose target box passes that
/// size guard.
pub fn process_image(bytes: &[u8], ext: &str, max_w: u32, max_h: u32, filter: FilterKind) -> (r:
    Result<Vec<u8>, RunError>)
    ensures
        r == Err::<Vec<u8>, RunError>(RunError::DecodeFailed) <==> decoded_dims_of(
            bytes@,
            ext@,
        ) is None,
        r matches Err(e) ==> e == RunError::DecodeFailed || e == RunError::SaveFailed,
        (decoded_dims_of(bytes@, ext@) matches Some(d) && !size_guard_ok(
            d.0,
            d.1,
            max_w,
            max_h,
        )) ==> r == Err::<Vec<u8>, RunError>(RunError::SaveFailed),
        r is Ok ==> (decoded_dims_of(bytes@, ext@) matches Some(d) && size_guard_ok(
            d.0,
            d.1,
            max_w,
            max_h,
        )),
{
    let li = match decode_image(bytes, ext) {
        Ok(l) => l,
        Err(e) => {
            return Err(e);
        },
    };
    if !size_guard(li.width, li.height, max_w, max_h) {
        return Err(RunError::SaveFailed);
    }
    let target = effective_target(li.width, li.height, max_w, max_h);
    let resized = resize_image(&li, target.0, target.1, filter);
    encode_image(&resized, ext)
}

} // verus!
