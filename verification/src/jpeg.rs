use vstd::prelude::*;

use crate::error as fail;
use crate::error::{context_outcome, ErrorView, Kind, ResultExt};
use crate::image::{lemma_rgb8_converts, outcome_view, rgb8_outcome, ImageBuffer, ImageView};

verus! {

/// The pixel layouts a decoded JPEG can have.
#[derive(Debug, Clone, Copy, PartialEq, Eq, Structural)]
pub enum JpegPixelFormat {
    /// Luminance (grayscale), 8 bits.
    L8,
    /// Luminance (grayscale), 16 bits.
    L16,
    /// RGB, 8 bits per channel.
    RGB24,
    /// CMYK, 8 bits per channel.
    CMYK32,
}

/// Dimensions and pixel layout of a decoded JPEG.
#[derive(Debug, Clone, Copy, PartialEq, Eq, Structural)]
pub struct JpegInfo {
    pub width: u16,
    pub height: u16,
    pub pixel_format: JpegPixelFormat,
}

/// The pixels that `jpeg_decoder::Decoder::decode` yields for the given
/// bytes, or `None` when it fails.
pub uninterp spec fn jpeg_decoded_pixels(data: Seq<u8>) -> Option<Seq<u8>>;

/// What `jpeg_decoder::Decoder::info` reports after decoding the given bytes.
pub uninterp spec fn jpeg_image_info(data: Seq<u8>) -> Option<JpegInfo>;

/// Runs `jpeg_decoder::Decoder::new` on the bytes, then `Decoder::decode`,
/// then, when that succeeded, `Decoder::info`, converting the reported pixel
/// format variant by variant. The claim: success and the decoded pixels are
/// what `jpeg_decoded_pixels` names for these bytes, and the info is what
/// `jpeg_image_info` names. On failure the error is handed back as its
/// `Display` text, of which nothing is claimed.
#[verifier::external_body]
fn jpeg_decode(data: &[u8]) -> (res: Result<(Vec<u8>, Option<JpegInfo>), String>)
    ensures
        res is Ok <==> jpeg_decoded_pixels(data@) is Some,
        res matches Ok((pixels, info)) ==> pixels@ == jpeg_decoded_pixels(data@)->0 && info
            == jpeg_image_info(data@),
{
    let mut decoder = jpeg_decoder::Decoder::new(data);
    let pixels = match decoder.decode() {
        Ok(p) => p,
        Err(e) => return Err(e.to_string()),
    };
    let info = match decoder.info() {
        Some(i) => Some(JpegInfo { width: i.width, height: i.height, pixel_format: match i.pixel_format {
            jpeg_decoder::PixelFormat::L8 => JpegPixelFormat::L8,
            jpeg_decoder::PixelFormat::L16 => JpegPixelFormat::L16,
            jpeg_decoder::PixelFormat::RGB24 => JpegPixelFormat::RGB24,
            jpeg_decoder::PixelFormat::CMYK32 => JpegPixelFormat::CMYK32,
        } }),
        None => None,
    };
    Ok((pixels, info))
}

/// Grayscale samples expanded to interleaved RGB with R = G = B.
pub open spec fn gray_to_rgb(gray: Seq<u8>) -> Seq<u8> {
    Seq::new(gray.len() * 3, |k: int| gray[k / 3])
}

/// The name of a pixel format, as it appears in messages.
pub open spec fn format_name(format: JpegPixelFormat) -> Seq<char> {
    match format {
        JpegPixelFormat::L8 => "L8"@,
        JpegPixelFormat::L16 => "L16"@,
        JpegPixelFormat::RGB24 => "RGB24"@,
        JpegPixelFormat::CMYK32 => "CMYK32"@,
    }
}

/// What a decoded JPEG thumbnail becomes: RGB data is converted as is,
/// grayscale data is expanded to R = G = B first, and the other layouts are
/// unsupported.
pub open spec fn jpeg_outcome(pixels: Seq<u8>, info: Option<JpegInfo>) -> Result<
    ImageView,
    ErrorView,
> {
    match info {
        None => Err(
            ErrorView::fresh(Kind::Corrupt, "JPEG thumbnail decoded but produced no image info"@),
        ),
        Some(i) => match i.pixel_format {
            JpegPixelFormat::RGB24 => context_outcome(
                rgb8_outcome(pixels, i.width as u32, i.height as u32),
                "JPEG thumbnail pixel conversion failed"@,
            ),
            JpegPixelFormat::L8 => context_outcome(
                rgb8_outcome(gray_to_rgb(pixels), i.width as u32, i.height as u32),
                "JPEG thumbnail grayscale conversion failed"@,
            ),
            other => Err(
                ErrorView::fresh(
                    Kind::Unsupported,
                    "JPEG thumbnail pixel format: "@ + format_name(other),
                ),
            ),
        },
    }
}

/// Whether `r` is what decoding the JPEG bytes `data` as a thumbnail gives:
/// the converted image when the bytes decode, otherwise a decode failure.
pub open spec fn jpeg_thumbnail_result(data: Seq<u8>, r: Result<ImageView, ErrorView>) -> bool {
    match jpeg_decoded_pixels(data) {
        Some(pixels) => r == jpeg_outcome(pixels, jpeg_image_info(data)),
        None => r matches Err(e) && is_jpeg_decode_failure(e),
    }
}

/// Whether an error reports a JPEG that could not be decoded.
pub open spec fn is_jpeg_decode_failure(e: ErrorView) -> bool {
    &&& e.kind == Kind::Corrupt
    &&& e.source is None
    &&& exists|detail: Seq<char>| e.message == "JPEG thumbnail decode failed: "@ + detail
}

fn format_name_str(format: JpegPixelFormat) -> (s: &'static str)
    ensures
        s@ == format_name(format),
{
    match format {
        JpegPixelFormat::L8 => "L8",
        JpegPixelFormat::L16 => "L16",
        JpegPixelFormat::RGB24 => "RGB24",
        JpegPixelFormat::CMYK32 => "CMYK32",
    }
}

fn expand_gray(gray: &[u8]) -> (rgb: Vec<u8>)
    ensures
        rgb@ == gray_to_rgb(gray@),
{
    let mut rgb: Vec<u8> = Vec::new();
    let mut i: usize = 0;
    while i < gray.len()
        invariant
            i <= gray.len(),
            rgb@.len() == 3 * i,
            forall|k: int| 0 <= k < 3 * i ==> #[trigger] rgb@[k] == gray@[k / 3],
        decreases gray.len() - i,
    {
        let g = gray[i];
        rgb.push(g);
        rgb.push(g);
        rgb.push(g);
        i += 1;
    }
    assert(rgb@ =~= gray_to_rgb(gray@));
    rgb
}

/// Turns the output of a JPEG decode (its pixels and the reported info) into
/// an image: RGB data directly, grayscale expanded to R = G = B; a missing
/// info is `Corrupt`, any other pixel layout `Unsupported`.
pub fn jpeg_output_to_image(pixels: &[u8], info: Option<JpegInfo>) -> (res: Result<
    ImageBuffer,
    fail::Error,
>)
    ensures
        outcome_view(res) == jpeg_outcome(pixels@, info),
{
    match info {
        None => Err(fail::Error::corrupt("JPEG thumbnail decoded but produced no image info")),
        Some(i) => match i.pixel_format {
            JpegPixelFormat::RGB24 => ImageBuffer::from_rgb8(
                pixels,
                i.width as u32,
                i.height as u32,
            ).context("JPEG thumbnail pixel conversion failed"),
            JpegPixelFormat::L8 => {
                let rgb = expand_gray(pixels);
                ImageBuffer::from_rgb8(rgb.as_slice(), i.width as u32, i.height as u32).context(
                    "JPEG thumbnail grayscale conversion failed",
                )
            },
            other => {
                let mut msg = "JPEG thumbnail pixel format: ".to_owned();
                msg.append(format_name_str(other));
                Err(fail::Error::unsupported(msg.as_str()))
            },
        },
    }
}

/// Decodes an embedded JPEG thumbnail into an image in the same pixel format
/// as full decodes. Bytes that do not decode give a `Corrupt` error whose
/// message starts with "JPEG thumbnail decode failed: ".
pub fn decode_jpeg_thumbnail(jpeg_data: &[u8]) -> (res: Result<ImageBuffer, fail::Error>)
    ensures
        jpeg_thumbnail_result(jpeg_data@, outcome_view(res)),
{
    match jpeg_decode(jpeg_data) {
        Ok((pixels, info)) => jpeg_output_to_image(pixels.as_slice(), info),
        Err(detail) => {
            let mut msg = "JPEG thumbnail decode failed: ".to_owned();
            msg.append(detail.as_str());
            let err = fail::Error::corrupt(msg.as_str());
            assert(err@.message == "JPEG thumbnail decode failed: "@ + detail@);
            Err(err)
        },
    }
}

/// A JPEG thumbnail decoded as RGB with one byte per channel for each pixel
/// becomes an image of the JPEG's own width and height whose pixel `i` packs
/// the bytes `3i`, `3i + 1`, `3i + 2`; one decoded as 8-bit grayscale becomes
/// an image of the same dimensions whose pixel `i` has sample `i` in all three
/// channels.
pub proof fn lemma_jpeg_thumbnail_converts(pixels: Seq<u8>, info: JpegInfo)
    requires
        info.width * info.height * 3 <= usize::MAX,
    ensures
        info.pixel_format is RGB24 && pixels.len() == info.width * info.height * 3 ==> {
            &&& jpeg_outcome(pixels, Some(info)) is Ok
            &&& ({
                let v = jpeg_outcome(pixels, Some(info))->Ok_0;
                &&& v.width == info.width
                &&& v.height == info.height
                &&& forall|i: int|
                    0 <= i < info.width * info.height ==> #[trigger] v.pixels[i] == pixels[3 * i]
                        * 65536 + pixels[3 * i + 1] * 256 + pixels[3 * i + 2]
            })
        },
        info.pixel_format is L8 && pixels.len() == info.width * info.height ==> {
            &&& jpeg_outcome(pixels, Some(info)) is Ok
            &&& ({
                let v = jpeg_outcome(pixels, Some(info))->Ok_0;
                &&& v.width == info.width
                &&& v.height == info.height
                &&& forall|i: int|
                    0 <= i < info.width * info.height ==> #[trigger] v.pixels[i] == pixels[i]
                        * 65793
            })
        },
{
    let w = info.width as u32;
    let h = info.height as u32;
    if info.pixel_format is RGB24 && pixels.len() == info.width * info.height * 3 {
        lemma_rgb8_converts(pixels, w, h);
    }
    if info.pixel_format is L8 && pixels.len() == info.width * info.height {
        let rgb = gray_to_rgb(pixels);
        lemma_rgb8_converts(rgb, w, h);
        let v = rgb8_outcome(rgb, w, h)->Ok_0;
        assert forall|i: int| 0 <= i < info.width * info.height implies #[trigger] v.pixels[i]
            == pixels[i] * 65793 by {
            assert(rgb[3 * i] == pixels[i]);
            assert(rgb[3 * i + 1] == pixels[i]);
            assert(rgb[3 * i + 2] == pixels[i]);
        }
    }
}

} // verus!
