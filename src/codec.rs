use vstd::prelude::*;
use base64::Engine;
use image::ImageEncoder;
use crate::frame::CapturedImage;

verus! {

/// What decoding `bytes` gives: width, height and RGB rows, or the decoder's message.
pub uninterp spec fn decoded_of(bytes: Seq<u8>) -> Result<(u32, u32, Seq<u8>), Seq<char>>;

/// What PNG encoding of an RGB picture gives: the file's bytes, or the encoder's message.
pub uninterp spec fn png_of(width: u32, height: u32, pixels: Seq<u8>) -> Result<Seq<u8>, Seq<char>>;

/// What baseline JPEG encoding of an RGB picture at `quality` gives.
pub uninterp spec fn jpeg_of(width: u32, height: u32, pixels: Seq<u8>, quality: u8) -> Result<
    Seq<u8>,
    Seq<char>,
>;

/// The RGB rows of a picture resampled, nearest neighbour, to `new_width` x `new_height`.
pub uninterp spec fn resized_of(
    width: u32,
    height: u32,
    pixels: Seq<u8>,
    new_width: u32,
    new_height: u32,
) -> Seq<u8>;

/// The standard, padded base64 text of `bytes`.
pub uninterp spec fn base64_of(bytes: Seq<u8>) -> Seq<char>;

/// `bytes` read as UTF-8, each invalid sequence replaced by U+FFFD.
pub uninterp spec fn lossy_text_of(bytes: Seq<u8>) -> Seq<char>;

/// Relies on `image::load_from_memory` (format guessed from the content) and
/// `DynamicImage::into_rgb8`, whose buffer holds exactly three bytes per pixel.
#[verifier::external_body]
pub(crate) fn decode_rgb(bytes: &[u8]) -> (r: Result<CapturedImage, String>)
    ensures
        match r {
            Ok(img) => img.wf() && decoded_of(bytes@) == Ok::<(u32, u32, Seq<u8>), Seq<char>>(
                (img.width, img.height, img.pixels@),
            ),
            Err(e) => decoded_of(bytes@) == Err::<(u32, u32, Seq<u8>), Seq<char>>(e@),
        },
{
    match image::load_from_memory(bytes) {
        Ok(img) => {
            let buf = img.into_rgb8();
            let (width, height) = buf.dimensions();
            Ok(CapturedImage { width, height, pixels: buf.into_raw() })
        },
        Err(e) => Err(e.to_string()),
    }
}

/// Relies on `image::codecs::png::PngEncoder::write_image` on 8-bit RGB data, which
/// panics unless the buffer holds exactly `width * height` pixels.
#[verifier::external_body]
pub(crate) fn encode_png(img: &CapturedImage) -> (r: Result<Vec<u8>, String>)
    requires
        img.wf(),
    ensures
        match r {
            Ok(b) => png_of(img.width, img.height, img.pixels@) == Ok::<Seq<u8>, Seq<char>>(b@),
            Err(e) => png_of(img.width, img.height, img.pixels@) == Err::<Seq<u8>, Seq<char>>(e@),
        },
{
    let mut buffer: Vec<u8> = Vec::new();
    let encoder = image::codecs::png::PngEncoder::new(&mut buffer);
    match encoder.write_image(&img.pixels, img.width, img.height, image::ExtendedColorType::Rgb8) {
        Ok(()) => Ok(buffer),
        Err(e) => Err(e.to_string()),
    }
}

/// Relies on `image::codecs::jpeg::JpegEncoder::encode` on 8-bit RGB data, which panics
/// unless the buffer holds exactly `width * height` pixels.
#[verifier::external_body]
pub(crate) fn encode_jpeg(img: &CapturedImage, quality: u8) -> (r: Result<Vec<u8>, String>)
    requires
        img.wf(),
    ensures
        match r {
            Ok(b) => jpeg_of(img.width, img.height, img.pixels@, quality) == Ok::<
                Seq<u8>,
                Seq<char>,
            >(b@),
            Err(e) => jpeg_of(img.width, img.height, img.pixels@, quality) == Err::<
                Seq<u8>,
                Seq<char>,
            >(e@),
        },
{
    let mut buffer: Vec<u8> = Vec::new();
    let mut encoder = image::codecs::jpeg::JpegEncoder::new_with_quality(&mut buffer, quality);
    match encoder.encode(&img.pixels, img.width, img.height, image::ExtendedColorType::Rgb8) {
        Ok(()) => Ok(buffer),
        Err(e) => Err(e.to_string()),
    }
}

/// Relies on `image::imageops::resize` with `FilterType::Nearest`: a buffer of exactly the
/// requested size. `ImageBuffer::from_raw` accepts the rows since they hold
/// `width * height` pixels.
#[verifier::external_body]
pub(crate) fn resize_nearest(img: &CapturedImage, new_width: u32, new_height: u32) -> (r:
    CapturedImage)
    requires
        img.wf(),
        new_width > 0,
        new_height > 0,
    ensures
        r.wf(),
        r.width == new_width,
        r.height == new_height,
        r.pixels@ == resized_of(img.width, img.height, img.pixels@, new_width, new_height),
{
    let src = image::ImageBuffer::<image::Rgb<u8>, &[u8]>::from_raw(
        img.width,
        img.height,
        img.pixels.as_slice(),
    ).unwrap();
    let out = image::imageops::resize(&src, new_width, new_height, image::imageops::FilterType::Nearest);
    CapturedImage { width: new_width, height: new_height, pixels: out.into_raw() }
}

/// Relies on `base64::engine::general_purpose::STANDARD.encode`.
#[verifier::external_body]
pub(crate) fn encode_base64(bytes: &Vec<u8>) -> (r: String)
    ensures
        r@ == base64_of(bytes@),
{
    base64::engine::general_purpose::STANDARD.encode(bytes)
}

/// Relies on `String::from_utf8_lossy`.
#[verifier::external_body]
pub(crate) fn lossy_text(bytes: &Vec<u8>) -> (r: String)
    ensures
        r@ == lossy_text_of(bytes@),
{
    String::from_utf8_lossy(bytes).into_owned()
}

} // verus!
