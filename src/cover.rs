//! The cover-art cache: a picture is stored once, resized and encoded as
//! JPEG, under a file name made of the SHA-256 of its original bytes.
use vstd::prelude::*;
use sha2::Digest;

verus! {

/// Largest width and height of a cached cover.
pub const COVER_BOUND: u32 = 500;

/// JPEG quality of a cached cover.
pub const COVER_QUALITY: u8 = 80;

/// The SHA-256 digest of `bytes`.
pub uninterp spec fn sha256_of(bytes: Seq<u8>) -> Seq<u8>;

/// A lower-case hexadecimal digit.
pub open spec fn hex_digit(n: int) -> char {
    if n < 10 {
        (48 + n) as char
    } else {
        (87 + n) as char
    }
}

/// Two lower-case hexadecimal digits per byte, high digit first.
pub open spec fn lower_hex(b: Seq<u8>) -> Seq<char>
    decreases b.len(),
{
    if b.len() == 0 {
        Seq::empty()
    } else {
        seq![hex_digit(b[0] as int / 16), hex_digit(b[0] as int % 16)] + lower_hex(b.subrange(1, b.len() as int))
    }
}

/// Relies on sha2's `Sha256::digest` for the 32-byte digest, and on
/// generic-array's `LowerHex`, which writes two lower-case hex digits per
/// byte of it.
#[verifier::external_body]
fn sha256_hex(bytes: &[u8]) -> (r: String)
    ensures
        r@ == lower_hex(sha256_of(bytes@)),
        r@.len() == 64,
{
    format!("{:x}", sha2::Sha256::digest(bytes))
}

/// The cache file name for a picture whose digest, in lower-case hex, is `hash`.
pub open spec fn cover_name_of_hash(hash: Seq<char>) -> Seq<char> {
    hash + ".jpg"@
}

/// The cache file name of a picture.
pub open spec fn cover_name(picture: Seq<u8>) -> Seq<char> {
    cover_name_of_hash(lower_hex(sha256_of(picture)))
}

/// The cache file name for the digest `hash`.
pub fn cover_file_name_for_hash(hash: String) -> (r: String)
    ensures
        r@ == cover_name_of_hash(hash@),
{
    hash.concat(".jpg")
}

/// The cache file name of `picture`: the hex SHA-256 of its bytes, then `.jpg`.
pub fn cover_file_name(picture: &Vec<u8>) -> (r: String)
    ensures
        r@ == cover_name(picture@),
        r@.len() == 68,
{
    let r = cover_file_name_for_hash(sha256_hex(picture.as_slice()));
    assert(".jpg"@.len() == 4) by {
        reveal_strlit(".jpg");
    }
    r
}

/// image's decoded picture, carried opaque between the calls below.
#[verifier::external_type_specification]
#[verifier::external_body]
pub struct ExDynamicImage(image::DynamicImage);

/// Whether `image::load_from_memory` decodes these bytes.
pub uninterp spec fn decodes_as_image(bytes: Seq<u8>) -> bool;

/// `DynamicImage::width`.
pub uninterp spec fn width_of(img: image::DynamicImage) -> u32;

/// `DynamicImage::height`.
pub uninterp spec fn height_of(img: image::DynamicImage) -> u32;

/// Relies on `image::load_from_memory`, which guesses the format from the
/// bytes and decodes them; whether it succeeds depends on the bytes alone.
/// Its error becomes `None`.
#[verifier::external_body]
fn decode_image(bytes: &[u8]) -> (r: Option<image::DynamicImage>)
    ensures
        r is Some <==> decodes_as_image(bytes@),
{
    image::load_from_memory(bytes).ok()
}

/// Relies on `DynamicImage::resize` with the Lanczos3 filter: the result keeps
/// the aspect ratio and is the largest that fits in `width` by `height`, each
/// side at least one pixel (an empty image included).
#[verifier::external_body]
fn resize_lanczos3(img: &image::DynamicImage, width: u32, height: u32) -> (r: image::DynamicImage)
    requires
        1 <= width,
        1 <= height,
    ensures
        1 <= width_of(r) <= width,
        1 <= height_of(r) <= height,
{
    img.resize(width, height, image::imageops::FilterType::Lanczos3)
}

/// The bytes begin with a JPEG start-of-image marker.
pub open spec fn starts_as_jpeg(b: Seq<u8>) -> bool {
    b.len() >= 2 && b[0] == 0xFF && b[1] == 0xD8
}

/// Relies on `JpegEncoder::new_with_quality` and its `encode_image`, writing
/// into memory. Its one failure short of a write error is a side of zero or
/// above 65535 pixels, and writing into a `Vec` does not fail; a success
/// begins with the start-of-image marker, the first thing written. The
/// encoder's error becomes `None`.
#[verifier::external_body]
fn encode_jpeg(img: &image::DynamicImage, quality: u8) -> (r: Option<Vec<u8>>)
    requires
        1 <= quality <= 100,
    ensures
        1 <= width_of(*img) <= 65535 && 1 <= height_of(*img) <= 65535 ==> r is Some,
        r matches Some(b) ==> starts_as_jpeg(b@),
{
    let mut out: Vec<u8> = Vec::new();
    let mut encoder = image::codecs::jpeg::JpegEncoder::new_with_quality(&mut out, quality);
    match encoder.encode_image(img) {
        Ok(()) => Some(out),
        Err(_) => None,
    }
}

/// The cover made from `picture`: decoded, fitted within 500 by 500 and
/// encoded as JPEG at quality 80. It is there exactly when the picture
/// decodes.
pub fn render_cover(picture: &Vec<u8>) -> (r: Option<Vec<u8>>)
    ensures
        r is Some <==> decodes_as_image(picture@),
        r matches Some(b) ==> starts_as_jpeg(b@),
{
    match decode_image(picture.as_slice()) {
        None => None,
        Some(img) => {
            let fitted = resize_lanczos3(&img, COVER_BOUND, COVER_BOUND);
            encode_jpeg(&fitted, COVER_QUALITY)
        },
    }
}

/// What to do for a picture, given whether the cache holds its file.
#[derive(Debug)]
pub enum CoverAction {
    /// The cached file stands: use its path as it is.
    Reuse,
    /// Write these JPEG bytes under the picture's file name.
    Write(Vec<u8>),
    /// The picture gives no cover, and nothing is written.
    Unavailable,
}

/// Whether caching `picture` writes a file: only where the cache lacks it
/// and the picture decodes.
pub open spec fn writes_cover(already_cached: bool, picture: Seq<u8>) -> bool {
    !already_cached && decodes_as_image(picture)
}

/// Decides how to cache `picture`. A cached file is reused without any
/// encoding; otherwise the picture is rendered and written where it decodes,
/// and gives no cover where it does not.
pub fn cover_action(picture: &Vec<u8>, already_cached: bool) -> (r: CoverAction)
    ensures
        r is Reuse <==> already_cached,
        r is Write <==> writes_cover(already_cached, picture@),
        r is Unavailable <==> !already_cached && !decodes_as_image(picture@),
        r matches CoverAction::Write(b) ==> starts_as_jpeg(b@),
{
    if already_cached {
        CoverAction::Reuse
    } else {
        match render_cover(picture) {
            Some(jpeg) => CoverAction::Write(jpeg),
            None => CoverAction::Unavailable,
        }
    }
}

/// The names in the cache directory after one caching of `picture`, where
/// the caller tells `cover_action` whether the directory holds its name.
pub open spec fn names_after(names: Set<Seq<char>>, picture: Seq<u8>) -> Set<Seq<char>> {
    if writes_cover(names.contains(cover_name(picture)), picture) {
        names.insert(cover_name(picture))
    } else {
        names
    }
}

/// Caching the same picture twice gives the same file name both times; once
/// the first call has given a cover (a hit, or a decodable picture that was
/// written), the second is a hit, writes nothing and leaves the directory as
/// it was.
pub proof fn lemma_cover_cache_idempotent(names: Set<Seq<char>>, first: Seq<u8>, second: Seq<u8>)
    requires
        first == second,
        names.contains(cover_name(first)) || decodes_as_image(first),
    ensures
        cover_name(first) == cover_name(second),
        names_after(names, first).contains(cover_name(second)),
        !writes_cover(names_after(names, first).contains(cover_name(second)), second),
        names_after(names_after(names, first), second) == names_after(names, first),
{
}

} // verus!
