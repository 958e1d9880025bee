//! Average colour of an image: the one pixel of its Lanczos-3 reduction to 1x1.
use vstd::prelude::*;
use crate::decode::{decode, guessed_decode_of, Picture, Raster};

verus! {

/// An average colour: red, green and blue, each 0 to 255.
#[derive(Clone, Copy, Debug, PartialEq, Eq, Structural)]
pub struct Result {
    pub red: u8,
    pub green: u8,
    pub blue: u8,
}

/// The RGBA samples of the single pixel that the image codec's Lanczos-3
/// resampling of a raster to 1x1 yields.
pub uninterp spec fn lanczos_pixel_of(r: Raster) -> Seq<u8>;

/// The colour read from the first three samples of the 1x1 reduction.
pub open spec fn average_of(r: Raster) -> Result {
    Result {
        red: lanczos_pixel_of(r)[0],
        green: lanczos_pixel_of(r)[1],
        blue: lanczos_pixel_of(r)[2],
    }
}

/// The average colour of an encoded image of inferred format, or `None`
/// where it does not decode.
pub open spec fn average_colour_outcome(bytes: Seq<u8>) -> Option<Result> {
    match guessed_decode_of(bytes) {
        Some(raster) => Some(average_of(raster)),
        None => None,
    }
}

/// Relies on `image::imageops::resize` with `FilterType::Lanczos3` to 1x1:
/// the pixel depends on the raster alone. `RgbaImage::from_raw` accepts the
/// samples because there are four per pixel.
#[verifier::external_body]
fn lanczos_single_pixel(p: Picture) -> (r: [u8; 4])
    requires
        p.wf(),
    ensures
        r@ == lanczos_pixel_of(p@),
{
    let img = image::RgbaImage::from_raw(p.width, p.height, p.pixels).unwrap();
    image::imageops::resize(&img, 1, 1, image::imageops::FilterType::Lanczos3).get_pixel(0, 0).0
}

/// The average colour of a decoded picture. The picture holds 8-bit RGBA
/// samples, whatever the sample type of the encoded image; alpha is resampled
/// as a fourth channel by the codec and not reported.
pub fn average_colour(picture: Picture) -> (r: Result)
    requires
        picture.wf(),
    ensures
        r == average_of(picture@),
{
    let px = lanczos_single_pixel(picture);
    Result { red: px[0], green: px[1], blue: px[2] }
}

/// The average colour of an encoded image whose format is inferred from its
/// leading bytes. The buffer must decode.
pub fn get_image_average_colour(buffer: &[u8]) -> (r: Result)
    requires
        guessed_decode_of(buffer@) is Some,
    ensures
        r == average_of(guessed_decode_of(buffer@)->Some_0),
{
    match decode(buffer, None) {
        Ok(picture) => average_colour(picture),
        Err(_) => {
            proof {
                assert(false);
            }
            Result { red: 0, green: 0, blue: 0 }
        },
    }
}

/// The average colour of an encoded image, or `None` where no format can be
/// inferred from its bytes or its decoder fails on them.
pub fn try_image_average_colour(buffer: &[u8]) -> (r: Option<Result>)
    ensures
        r == average_colour_outcome(buffer@),
{
    match decode(buffer, None) {
        Ok(_) => Some(get_image_average_colour(buffer)),
        Err(_) => None,
    }
}

/// Bytes from which no image can be decoded (no recognised signature, or a
/// decoder that fails on them) have no average colour: no default colour is
/// made up for them.
pub proof fn lemma_undecodable_has_no_colour(bytes: Seq<u8>)
    requires
        guessed_decode_of(bytes) is None,
    ensures
        average_colour_outcome(bytes) is None,
{
}

/// Bytes that decode always have an average colour, the one read from the
/// 1x1 reduction of what they decode to.
pub proof fn lemma_decodable_has_colour(bytes: Seq<u8>)
    requires
        guessed_decode_of(bytes) is Some,
    ensures
        average_colour_outcome(bytes) == Some(average_of(guessed_decode_of(bytes)->Some_0)),
{
}

} // verus!
