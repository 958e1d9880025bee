//! Decoding of an encoded image into a plain RGBA raster.
use vstd::prelude::*;
use vstd::string::*;
use crate::format::ImageKind;

verus! {

#[verifier::external_type_specification]
#[verifier::external_body]
pub struct ExImageError(image::ImageError);

/// What a decoded image is, mathematically: its size and its samples, four
/// (red, green, blue, alpha) per pixel, row by row.
pub struct Raster {
    pub width: u32,
    pub height: u32,
    pub samples: Seq<u8>,
}

/// A raster holds exactly four samples for each of its pixels.
pub open spec fn raster_wf(r: Raster) -> bool {
    r.samples.len() == 4 * (r.width as int) * (r.height as int)
}

/// A decoded image: 8-bit RGBA samples, row by row.
pub struct Picture {
    pub width: u32,
    pub height: u32,
    pub pixels: Vec<u8>,
}

impl View for Picture {
    type V = Raster;

    open spec fn view(&self) -> Raster {
        Raster { width: self.width, height: self.height, samples: self.pixels@ }
    }
}

impl Picture {
    pub open spec fn wf(&self) -> bool {
        raster_wf(self@)
    }
}

/// The raster that the image codec decodes from bytes whose format it infers
/// from their leading signature, or `None` where it cannot.
pub uninterp spec fn guessed_decode_of(bytes: Seq<u8>) -> Option<Raster>;

/// What the image codec makes of bytes of a declared format: the raster it
/// decodes, or the description of the error it reports.
pub uninterp spec fn declared_decode_of(bytes: Seq<u8>, kind: ImageKind) -> Result<Raster, Seq<char>>;

/// What `decode` yields for bytes and an optional declared format.
pub open spec fn decode_of(bytes: Seq<u8>, hint: Option<ImageKind>) -> Option<Raster> {
    match hint {
        Some(kind) => match declared_decode_of(bytes, kind) {
            Ok(r) => Some(r),
            Err(_) => None,
        },
        None => guessed_decode_of(bytes),
    }
}

/// A decoding outcome agrees with the raster (or the failure) named for it.
pub open spec fn decoded_as(r: Result<Picture, image::ImageError>, expected: Option<Raster>) -> bool {
    match r {
        Ok(p) => expected == Some(p@) && p.wf(),
        Err(_) => expected is None,
    }
}

/// `text` is the description of the error `e`: what its `to_string` yields.
pub open spec fn error_text_is(e: image::ImageError, text: Seq<char>) -> bool {
    forall|s: String| #[trigger] to_string_from_display_ensures::<image::ImageError>(&e, s) ==> s@ == text
}

/// Relies on `image::guess_format`, which matches the leading bytes against
/// the codec's built-in signatures only, and on
/// `image::load_from_memory_with_format` for the format found: the result
/// depends on the bytes alone. `to_rgba8` and `into_raw` give four samples
/// per pixel.
#[verifier::external_body]
fn decode_guessed(bytes: &[u8]) -> (r: Result<Picture, image::ImageError>)
    ensures
        decoded_as(r, guessed_decode_of(bytes@)),
{
    let format = image::guess_format(bytes)?;
    let rgba = image::load_from_memory_with_format(bytes, format)?.to_rgba8();
    let (width, height) = rgba.dimensions();
    Ok(Picture { width, height, pixels: rgba.into_raw() })
}

/// Relies on `image::load_from_memory_with_format`: decodes with the built-in
/// decoder of the given format, without sniffing; the raster, or the error
/// and so its description, depends on the bytes and the format alone.
/// `to_rgba8` and `into_raw` give four samples per pixel.
#[verifier::external_body]
fn decode_declared(bytes: &[u8], kind: ImageKind) -> (r: Result<Picture, image::ImageError>)
    ensures
        match r {
            Ok(p) => declared_decode_of(bytes@, kind) == Ok::<Raster, Seq<char>>(p@) && p.wf(),
            Err(e) => declared_decode_of(bytes@, kind) matches Err(t) && error_text_is(e, t),
        },
{
    let format = match kind {
        ImageKind::Png => image::ImageFormat::Png,
        ImageKind::Jpeg => image::ImageFormat::Jpeg,
        ImageKind::Gif => image::ImageFormat::Gif,
        ImageKind::WebP => image::ImageFormat::WebP,
        ImageKind::Tiff => image::ImageFormat::Tiff,
        ImageKind::Bmp => image::ImageFormat::Bmp,
        ImageKind::Ico => image::ImageFormat::Ico,
        ImageKind::Avif => image::ImageFormat::Avif,
    };
    let rgba = image::load_from_memory_with_format(bytes, format)?.to_rgba8();
    let (width, height) = rgba.dimensions();
    Ok(Picture { width, height, pixels: rgba.into_raw() })
}

/// Decodes an image buffer: with the declared format's decoder where a format
/// is given, else by inferring the format from the bytes' signature.
pub fn decode(bytes: &[u8], hint: Option<ImageKind>) -> (r: Result<Picture, image::ImageError>)
    ensures
        decoded_as(r, decode_of(bytes@, hint)),
        hint matches Some(kind) ==> (r matches Err(e) ==> declared_decode_of(bytes@, kind) matches Err(t)
            && error_text_is(e, t)),
{
    match hint {
        Some(kind) => decode_declared(bytes, kind),
        None => decode_guessed(bytes),
    }
}

} // verus!
