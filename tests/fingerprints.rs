use importer_native::avg_colour::{get_image_average_colour, try_image_average_colour, Result as Colour};
use importer_native::buffer_hash::{fold_digest, hash_buffer};
use importer_native::decode::decode;
use importer_native::format::{image_format_from_mime, ImageKind};
use importer_native::phash::{hex_string, phash, run_phash, PhashError};

fn encode(img: &image::RgbImage, format: image::ImageFormat) -> Vec<u8> {
    let mut out = Vec::new();
    img.write_to(&mut std::io::Cursor::new(&mut out), format).unwrap();
    out
}

fn solid(width: u32, height: u32, rgb: [u8; 3]) -> image::RgbImage {
    image::RgbImage::from_pixel(width, height, image::Rgb(rgb))
}

fn halves(width: u32, height: u32) -> image::RgbImage {
    image::RgbImage::from_fn(width, height, |x, _| {
        if x < width / 2 {
            image::Rgb([0, 0, 0])
        } else {
            image::Rgb([255, 255, 255])
        }
    })
}

fn noise(width: u32, height: u32, seed: u64) -> image::RgbImage {
    let mut state = seed;
    image::RgbImage::from_fn(width, height, |_, _| {
        state = state.wrapping_mul(6364136223846793005).wrapping_add(1442695040888963407);
        let v = (state >> 56) as u8;
        image::Rgb([v, v, v])
    })
}

fn hamming(a: &str, b: &str) -> u32 {
    let x = u64::from_str_radix(a, 16).unwrap();
    let y = u64::from_str_radix(b, 16).unwrap();
    (x ^ y).count_ones()
}

#[test]
fn buffer_hash_is_deterministic() {
    let bytes = b"the quick brown fox".to_vec();
    assert_eq!(hash_buffer(&bytes), hash_buffer(&bytes.clone()));
    let mut changed = bytes.clone();
    changed[4] ^= 1;
    assert_ne!(hash_buffer(&bytes), hash_buffer(&changed));
}

#[test]
fn buffer_hash_is_order_sensitive() {
    assert_ne!(hash_buffer(b"ab"), hash_buffer(b"ba"));
}

#[test]
fn buffer_hash_of_empty_buffer() {
    assert_eq!(hash_buffer(&[]), hash_buffer(&Vec::new()));
    assert_eq!(hash_buffer(&[]), 0x38D3_94C2);
}

#[test]
fn buffer_hash_is_low_half_of_xxh3() {
    let bytes = b"abc";
    let full = xxhash_rust::xxh3::xxh3_64(bytes);
    assert_ne!(full >> 32, 0);
    assert_eq!(hash_buffer(bytes), (full & 0xFFFF_FFFF) as u32);
}

#[test]
fn fold_digest_keeps_low_word() {
    assert_eq!(fold_digest(0x1234_5678_9ABC_DEF0), 0x9ABC_DEF0);
    assert_eq!(fold_digest(u64::MAX), u32::MAX);
    assert_eq!(fold_digest(0xFFFF_FFFF_0000_0000), 0);
}

#[test]
fn mime_types_resolve_exactly() {
    assert_eq!(image_format_from_mime("image/png"), Some(ImageKind::Png));
    assert_eq!(image_format_from_mime("image/jpeg"), Some(ImageKind::Jpeg));
    assert_eq!(image_format_from_mime("image/gif"), Some(ImageKind::Gif));
    assert_eq!(image_format_from_mime("image/webp"), Some(ImageKind::WebP));
    assert_eq!(image_format_from_mime("image/tiff"), Some(ImageKind::Tiff));
    assert_eq!(image_format_from_mime("image/bmp"), Some(ImageKind::Bmp));
    assert_eq!(image_format_from_mime("image/x-icon"), Some(ImageKind::Ico));
    assert_eq!(image_format_from_mime("image/avif"), Some(ImageKind::Avif));
}

#[test]
fn unknown_mime_types_are_rejected() {
    assert_eq!(image_format_from_mime("text/plain"), None);
    assert_eq!(image_format_from_mime("IMAGE/PNG"), None);
    assert_eq!(image_format_from_mime("image/png; charset=binary"), None);
    assert_eq!(image_format_from_mime("image/jpg"), None);
    assert_eq!(image_format_from_mime(""), None);
}

#[test]
fn hex_string_is_sixteen_lowercase_digits() {
    assert_eq!(hex_string(0), "0000000000000000");
    assert_eq!(hex_string(0xab), "00000000000000ab");
    assert_eq!(hex_string(0xc7c4_8f89_89c7_7e0c), "c7c48f8989c77e0c");
    assert_eq!(hex_string(u64::MAX), "ffffffffffffffff");
}

#[test]
fn decode_gives_four_samples_per_pixel() {
    let png = encode(&solid(5, 3, [10, 20, 30]), image::ImageFormat::Png);
    let pic = decode(&png, None).unwrap();
    assert_eq!((pic.width, pic.height), (5, 3));
    assert_eq!(pic.pixels.len(), 60);
    assert_eq!(&pic.pixels[0..4], &[10, 20, 30, 255]);
    let declared = decode(&png, Some(ImageKind::Png)).unwrap();
    assert_eq!(declared.pixels, pic.pixels);
}

#[test]
fn decode_with_mismatched_format_fails() {
    let png = encode(&solid(4, 4, [1, 2, 3]), image::ImageFormat::Png);
    assert!(decode(&png, Some(ImageKind::Bmp)).is_err());
}

#[test]
fn average_colour_of_solid_png() {
    let png = encode(&solid(16, 16, [200, 30, 90]), image::ImageFormat::Png);
    let c = get_image_average_colour(&png);
    assert!(c.red.abs_diff(200) <= 1);
    assert!(c.green.abs_diff(30) <= 1);
    assert!(c.blue.abs_diff(90) <= 1);
}

#[test]
fn average_colour_of_solid_bmp() {
    let bmp = encode(&solid(7, 9, [12, 240, 128]), image::ImageFormat::Bmp);
    let c = try_image_average_colour(&bmp).unwrap();
    assert!(c.red.abs_diff(12) <= 1);
    assert!(c.green.abs_diff(240) <= 1);
    assert!(c.blue.abs_diff(128) <= 1);
}

#[test]
fn average_colour_blends_black_and_white() {
    let png = encode(&halves(32, 32), image::ImageFormat::Png);
    let c: Colour = try_image_average_colour(&png).unwrap();
    assert!(c.red > 100 && c.red < 156);
    assert_eq!(c.red, c.green);
    assert_eq!(c.green, c.blue);
}

#[test]
fn average_colour_of_unrecognised_bytes_fails() {
    assert_eq!(try_image_average_colour(b"definitely not an image"), None);
    assert_eq!(try_image_average_colour(&[]), None);
}

#[test]
fn phash_rejects_unknown_mime_type() {
    let png = encode(&halves(16, 16), image::ImageFormat::Png);
    assert!(matches!(run_phash(&png, "text/plain"), Err(PhashError::InvalidMimeType)));
    assert_eq!(phash(&png, "text/plain".to_string()), Err("Invalid mime type".to_string()));
}

#[test]
fn phash_reports_decode_failure_of_truncated_png() {
    let png = encode(&halves(16, 16), image::ImageFormat::Png);
    let truncated = &png[..png.len() / 2];
    assert!(matches!(run_phash(truncated, "image/png"), Err(PhashError::Decode(_))));
    let text = phash(truncated, "image/png".to_string()).unwrap_err();
    assert_ne!(text, "Invalid mime type");
    assert!(!text.is_empty());
}

#[test]
fn phash_error_messages() {
    assert_eq!(PhashError::InvalidMimeType.message(), "Invalid mime type");
    let corrupt = b"\x89PNG\r\n\x1a\n garbage".to_vec();
    match run_phash(&corrupt, "image/png") {
        Err(e @ PhashError::Decode(_)) => assert_ne!(e.message(), "Invalid mime type"),
        _ => panic!("expected a decoding failure"),
    }
}

#[test]
fn phash_of_left_dark_right_bright() {
    let png = encode(&halves(64, 64), image::ImageFormat::Png);
    assert_eq!(phash(&png, "image/png".to_string()), Ok("0f0f0f0f0f0f0f0f".to_string()));
}

#[test]
fn phash_is_kept_across_lossless_formats() {
    let img = noise(48, 40, 7);
    let png = phash(&encode(&img, image::ImageFormat::Png), "image/png".to_string()).unwrap();
    let bmp = phash(&encode(&img, image::ImageFormat::Bmp), "image/bmp".to_string()).unwrap();
    let tiff = phash(&encode(&img, image::ImageFormat::Tiff), "image/tiff".to_string()).unwrap();
    assert_eq!(png.len(), 16);
    assert_eq!(hamming(&png, &bmp), 0);
    assert_eq!(hamming(&png, &tiff), 0);
}

#[test]
fn phash_of_unrelated_noise_differs_by_about_half() {
    let a = phash(&encode(&noise(64, 64, 1), image::ImageFormat::Png), "image/png".to_string()).unwrap();
    let b = phash(&encode(&noise(64, 64, 99), image::ImageFormat::Png), "image/png".to_string()).unwrap();
    let d = hamming(&a, &b);
    assert!(d >= 16 && d <= 48, "distance {}", d);
}

#[test]
fn phash_decode_failure_text_is_the_codec_description() {
    let png = encode(&halves(16, 16), image::ImageFormat::Png);
    let truncated = &png[..png.len() / 2];
    let expected = image::load_from_memory_with_format(truncated, image::ImageFormat::Png)
        .unwrap_err()
        .to_string();
    assert_eq!(phash(truncated, "image/png".to_string()), Err(expected));
    let as_jpeg = image::load_from_memory_with_format(&png, image::ImageFormat::Jpeg)
        .unwrap_err()
        .to_string();
    assert_eq!(phash(&png, "image/jpeg".to_string()), Err(as_jpeg));
}
