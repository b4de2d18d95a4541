//! The calls that the reader makes into flate2, image and std, with what is
//! claimed of each.
use vstd::prelude::*;
use vstd::utf8::{decode_utf8, valid_utf8};

verus! {

#[verifier::external_type_specification]
#[verifier::external_body]
pub struct ExIoError(std::io::Error);

#[verifier::external_type_specification]
#[verifier::external_body]
pub struct ExImageError(image::ImageError);

/// What reading a zlib stream made of `data` to its end produces: `None` where
/// the decoder reports an error. A function of `data` alone.
pub uninterp spec fn zlib_inflated(data: Seq<u8>) -> Option<Seq<u8>>;

/// The PNG file that `image` writes for a `width` x `height` RGBA image whose
/// pixels are `rgba`: `None` where the encoder reports an error.
pub uninterp spec fn png_encoded(width: u32, height: u32, rgba: Seq<u8>) -> Option<Seq<u8>>;

/// Calls `flate2::read::ZlibDecoder::new(data)` and `read_to_end` on it.
/// Claimed: it succeeds exactly when `zlib_inflated(data)` is `Some`, and
/// then yields those bytes; the error is the decoder's `std::io::Error`.
#[verifier::external_body]
pub(crate) fn zlib_inflate(data: &[u8]) -> (res: Result<Vec<u8>, std::io::Error>)
    ensures
        res is Ok <==> zlib_inflated(data@) is Some,
        res matches Ok(out) ==> out@ == zlib_inflated(data@).unwrap(),
{
    let mut decoder = flate2::read::ZlibDecoder::new(data);
    let mut out = Vec::new();
    match std::io::Read::read_to_end(&mut decoder, &mut out) {
        Ok(_) => Ok(out),
        Err(e) => Err(e),
    }
}

/// Calls `image::RgbaImage::from_raw(width, height, rgba)` and writes the image
/// as PNG with `write_to`. `from_raw` accepts every buffer of exactly
/// `4 * width * height` bytes, which `requires` asks. Claimed: success exactly
/// when `png_encoded` is `Some`, with those bytes.
#[verifier::external_body]
pub(crate) fn encode_rgba_png(width: u32, height: u32, rgba: &[u8]) -> (res: Result<
    Vec<u8>,
    image::ImageError,
>)
    requires
        rgba@.len() == 4 * width * height,
    ensures
        res is Ok <==> png_encoded(width, height, rgba@) is Some,
        res matches Ok(png) ==> png@ == png_encoded(width, height, rgba@).unwrap(),
{
    let img = image::RgbaImage::from_raw(width, height, rgba.to_vec()).expect("sized buffer");
    let mut out = Vec::new();
    match img.write_to(&mut std::io::Cursor::new(&mut out), image::ImageFormat::Png) {
        Ok(()) => Ok(out),
        Err(e) => Err(e),
    }
}

/// Calls `String::from_utf8`. Claimed, as std documents it: `Some` exactly
/// when the bytes are valid UTF-8, holding the characters they encode.
#[verifier::external_body]
pub(crate) fn utf8_string(bytes: Vec<u8>) -> (res: Option<String>)
    ensures
        res is Some <==> valid_utf8(bytes@),
        res matches Some(s) ==> s@ == decode_utf8(bytes@),
{
    match String::from_utf8(bytes) {
        Ok(s) => Some(s),
        Err(_) => None,
    }
}

} // verus!
