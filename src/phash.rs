//! Perceptual hash of an image of a declared format: a 64-bit block hash,
//! written as sixteen lowercase hexadecimal digits.
use vstd::prelude::*;
use vstd::string::*;
use crate::decode::{decode, declared_decode_of, error_text_is, Picture, Raster};
use crate::format::{image_format_from_mime, mime_kind, ImageKind};

verus! {

/// The 64-bit blockhash (an 8x8 grid of blocks, one bit per block set against
/// the median of its band) of a raster, most significant bit first.
pub uninterp spec fn blockhash64_of(r: Raster) -> u64;

/// The lowercase hexadecimal digits.
pub open spec fn hex_alphabet() -> Seq<char> {
    seq!['0', '1', '2', '3', '4', '5', '6', '7', '8', '9', 'a', 'b', 'c', 'd', 'e', 'f']
}

/// The `i`-th of the sixteen 4-bit digits of `v`, most significant first.
pub open spec fn nibble(v: u64, i: int) -> u64 {
    (v >> ((60 - 4 * i) as u64)) & 0xF
}

/// `v` as sixteen lowercase hexadecimal digits, zero-padded, most significant first.
pub open spec fn hex16(v: u64) -> Seq<char> {
    Seq::new(16, |i: int| hex_alphabet()[nibble(v, i) as int])
}

/// The perceptual hash of bytes decoded as the given format, or the
/// description of the decoder's error where they do not decode.
pub open spec fn perceptual_hash_of(bytes: Seq<u8>, kind: ImageKind) -> Result<Seq<char>, Seq<char>> {
    match declared_decode_of(bytes, kind) {
        Ok(r) => Ok(hex16(blockhash64_of(r))),
        Err(t) => Err(t),
    }
}

/// The text of the error for a MIME type that names no supported format.
pub open spec fn invalid_mime_text() -> Seq<char> {
    "Invalid mime type"@
}

/// Why a perceptual hash could not be computed.
#[derive(Debug)]
pub enum PhashError {
    /// The MIME type names no supported format.
    InvalidMimeType,
    /// The bytes did not decode as the declared format.
    Decode(image::ImageError),
}

impl PhashError {
    /// The error as text: a fixed message for an invalid MIME type, the
    /// decoder's own description for a decoding failure.
    pub fn message(&self) -> (r: String)
        ensures
            self is InvalidMimeType ==> r@ == invalid_mime_text(),
            self matches PhashError::Decode(e) ==> to_string_from_display_ensures::<image::ImageError>(&e, r),
    {
        match self {
            PhashError::InvalidMimeType => String::from_str("Invalid mime type"),
            PhashError::Decode(e) => e.to_string(),
        }
    }
}

/// Relies on `blockhash::blockhash64` on an `image::RgbaImage` and on
/// `u64::from(Blockhash64)`: the hash depends on the raster alone.
/// `RgbaImage::from_raw` accepts the samples because there are four per pixel.
#[verifier::external_body]
fn blockhash64(p: Picture) -> (r: u64)
    requires
        p.wf(),
    ensures
        r == blockhash64_of(p@),
{
    let img = image::RgbaImage::from_raw(p.width, p.height, p.pixels).unwrap();
    u64::from(blockhash::blockhash64(&img))
}

/// The one-character text of a hexadecimal digit.
fn hex_digit_text(d: u64) -> (r: &'static str)
    requires
        d < 16,
    ensures
        r@ == seq![hex_alphabet()[d as int]],
{
    proof {
        reveal_strlit("0");
        reveal_strlit("1");
        reveal_strlit("2");
        reveal_strlit("3");
        reveal_strlit("4");
        reveal_strlit("5");
        reveal_strlit("6");
        reveal_strlit("7");
        reveal_strlit("8");
        reveal_strlit("9");
        reveal_strlit("a");
        reveal_strlit("b");
        reveal_strlit("c");
        reveal_strlit("d");
        reveal_strlit("e");
        reveal_strlit("f");
    }
    if d == 0 {
        "0"
    } else if d == 1 {
        "1"
    } else if d == 2 {
        "2"
    } else if d == 3 {
        "3"
    } else if d == 4 {
        "4"
    } else if d == 5 {
        "5"
    } else if d == 6 {
        "6"
    } else if d == 7 {
        "7"
    } else if d == 8 {
        "8"
    } else if d == 9 {
        "9"
    } else if d == 10 {
        "a"
    } else if d == 11 {
        "b"
    } else if d == 12 {
        "c"
    } else if d == 13 {
        "d"
    } else if d == 14 {
        "e"
    } else {
        "f"
    }
}

/// Writes a 64-bit value as sixteen lowercase hexadecimal digits.
pub fn hex_string(v: u64) -> (r: String)
    ensures
        r@ == hex16(v),
{
    let mut s = String::new();
    let mut i: u64 = 0;
    while i < 16
        invariant
            i <= 16,
            s@ =~= hex16(v).subrange(0, i as int),
        decreases 16 - i,
    {
        let shift: u64 = 60 - 4 * i;
        let d: u64 = (v >> shift) & 0xF;
        assert(d < 16) by (bit_vector)
            requires
                d == (v >> shift) & 0xF,
        ;
        assert(d == nibble(v, i as int));
        s.append(hex_digit_text(d));
        i = i + 1;
    }
    s
}

/// The perceptual hash of an image buffer of a declared MIME type, with the
/// reason for a failure kept apart.
pub fn run_phash(image_buff: &[u8], mime_type: &str) -> (r: Result<String, PhashError>)
    ensures
        match mime_kind(mime_type@) {
            None => r matches Err(PhashError::InvalidMimeType),
            Some(kind) => match perceptual_hash_of(image_buff@, kind) {
                Err(t) => r matches Err(PhashError::Decode(e)) && error_text_is(e, t),
                Ok(h) => r matches Ok(s) && s@ == h,
            },
        },
{
    let kind = match image_format_from_mime(mime_type) {
        Some(kind) => kind,
        None => return Err(PhashError::InvalidMimeType),
    };
    match decode(image_buff, Some(kind)) {
        Ok(picture) => Ok(hex_string(blockhash64(picture))),
        Err(e) => Err(PhashError::Decode(e)),
    }
}

/// The perceptual hash of an image buffer of a declared MIME type, or the
/// failure as text.
pub fn phash(image_buff: &[u8], mime_type: String) -> (r: Result<String, String>)
    ensures
        match mime_kind(mime_type@) {
            None => r matches Err(e) && e@ == invalid_mime_text(),
            Some(kind) => match perceptual_hash_of(image_buff@, kind) {
                Err(t) => r matches Err(e) && e@ == t,
                Ok(h) => r matches Ok(s) && s@ == h,
            },
        },
{
    match run_phash(image_buff, mime_type.as_str()) {
        Ok(hash) => Ok(hash),
        Err(err) => {
            let text = err.message();
            Err(text)
        },
    }
}

/// Two buffers, of the same or of different formats, that decode to the same
/// raster (an image re-saved losslessly) have the same perceptual hash.
pub proof fn lemma_same_raster_same_hash(a: Seq<u8>, kind_a: ImageKind, b: Seq<u8>, kind_b: ImageKind)
    requires
        declared_decode_of(a, kind_a) is Ok,
        declared_decode_of(a, kind_a) == declared_decode_of(b, kind_b),
    ensures
        perceptual_hash_of(a, kind_a) is Ok,
        perceptual_hash_of(a, kind_a) == perceptual_hash_of(b, kind_b),
{
}

/// Every perceptual hash is sixteen lowercase hexadecimal digits.
pub proof fn lemma_hash_is_sixteen_hex_digits(bytes: Seq<u8>, kind: ImageKind)
    requires
        perceptual_hash_of(bytes, kind) is Ok,
    ensures
        perceptual_hash_of(bytes, kind)->Ok_0.len() == 16,
        forall|i: int|
            0 <= i < 16 ==> hex_alphabet().contains(#[trigger] perceptual_hash_of(bytes, kind)->Ok_0[i]),
{
    let h = perceptual_hash_of(bytes, kind)->Ok_0;
    assert forall|i: int| 0 <= i < 16 implies hex_alphabet().contains(#[trigger] h[i]) by {
        let v = blockhash64_of(declared_decode_of(bytes, kind)->Ok_0);
        let shift = (60 - 4 * i) as u64;
        let d = nibble(v, i);
        assert(d == (v >> shift) & 0xF);
        assert(d < 16) by (bit_vector)
            requires
                d == (v >> shift) & 0xF,
        ;
        assert(hex_alphabet()[d as int] == h[i]);
    }
}

} // verus!
