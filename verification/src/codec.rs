//! Trusted boundary to the `image` crate's codecs.
//!
//! Everything here wraps one outside operation chain behind a
//! contract; the pipeline's logic is verified against these
//! contracts. Opening a header, and re-encoding — decode, resample to
//! given bounds, encode, with the given profile embedded — are
//! deterministic functions of their plain arguments, so their
//! outcomes are named by uninterpreted spec functions and every
//! caller's result is pinned to those names.

use image::codecs::jpeg::JpegDecoder;
use image::codecs::jpeg::JpegEncoder;
use image::codecs::png::PngDecoder;
use image::codecs::png::PngEncoder;
use image::codecs::webp::WebPDecoder;
use image::imageops::FilterType;
use image::DynamicImage;
use image::ImageDecoder;
use image::ImageEncoder;
use std::io::Cursor;
use vstd::prelude::*;

verus! {

/// Why a re-encode failed: the source bytes did not decode, or the
/// encoder rejected the pixel buffer.
#[derive(Debug, Clone, Copy, PartialEq, Eq, Structural)]
pub enum ReencodeFailure {
    Decode,
    Encode,
}

/// What opening PNG bytes yields: width, height and the embedded
/// color profile, or nothing when the container is malformed.
pub uninterp spec fn png_header_of(b: Seq<u8>) -> Option<(u32, u32, Option<Seq<u8>>)>;

/// What opening JPEG bytes yields, as [`png_header_of`] does for PNG.
pub uninterp spec fn jpeg_header_of(b: Seq<u8>) -> Option<(u32, u32, Option<Seq<u8>>)>;

/// What opening WebP bytes yields, as [`png_header_of`] does for PNG.
pub uninterp spec fn webp_header_of(b: Seq<u8>) -> Option<(u32, u32, Option<Seq<u8>>)>;

/// Whether the full pixel data of PNG bytes decodes.
pub uninterp spec fn png_decode_ok(b: Seq<u8>) -> bool;

/// Whether the full pixel data of JPEG bytes decodes.
pub uninterp spec fn jpeg_decode_ok(b: Seq<u8>) -> bool;

/// Whether the full pixel data of WebP bytes decodes.
pub uninterp spec fn webp_decode_ok(b: Seq<u8>) -> bool;

/// The PNG re-encode of PNG bytes: decoded, resampled to fit within
/// `(nw, nh)`, and encoded as PNG with `icc` embedded when present;
/// nothing when decoding or encoding fails.
pub uninterp spec fn png_to_png_of(b: Seq<u8>, nw: u32, nh: u32, icc: Option<Seq<u8>>) -> Option<
    Seq<u8>,
>;

/// The JPEG re-encode of PNG bytes at the given quality, as
/// [`png_to_png_of`] otherwise.
pub uninterp spec fn png_to_jpeg_of(
    b: Seq<u8>,
    nw: u32,
    nh: u32,
    quality: u8,
    icc: Option<Seq<u8>>,
) -> Option<Seq<u8>>;

/// The PNG re-encode of JPEG bytes, as [`png_to_png_of`] otherwise.
pub uninterp spec fn jpeg_to_png_of(b: Seq<u8>, nw: u32, nh: u32, icc: Option<Seq<u8>>) -> Option<
    Seq<u8>,
>;

/// The JPEG re-encode of JPEG bytes at the given quality.
pub uninterp spec fn jpeg_to_jpeg_of(
    b: Seq<u8>,
    nw: u32,
    nh: u32,
    quality: u8,
    icc: Option<Seq<u8>>,
) -> Option<Seq<u8>>;

/// The PNG re-encode of WebP bytes, as [`png_to_png_of`] otherwise.
pub uninterp spec fn webp_to_png_of(b: Seq<u8>, nw: u32, nh: u32, icc: Option<Seq<u8>>) -> Option<
    Seq<u8>,
>;

/// The JPEG re-encode of WebP bytes at the given quality.
pub uninterp spec fn webp_to_jpeg_of(
    b: Seq<u8>,
    nw: u32,
    nh: u32,
    quality: u8,
    icc: Option<Seq<u8>>,
) -> Option<Seq<u8>>;

/// Relies on `image::codecs::png::PngDecoder`: opening the container
/// reads the dimensions and the embedded ICC profile, a function of
/// the bytes alone.
#[verifier::external_body]
fn probe_png(data: &[u8]) -> (r: Result<(u32, u32, Option<Vec<u8>>), ()>)
    ensures
        r is Ok <==> png_header_of(data@) is Some,
        r matches Ok(hd) ==> png_header_of(data@) == Some((hd.0, hd.1, hd.2.deep_view())),
{
    let mut d = PngDecoder::new(Cursor::new(data)).map_err(|_| ())?;
    let icc = d.icc_profile().unwrap_or(None);
    let (w, h) = d.dimensions();
    Ok((w, h, icc))
}

/// Relies on `image::codecs::jpeg::JpegDecoder`, as the PNG probe does.
#[verifier::external_body]
fn probe_jpeg(data: &[u8]) -> (r: Result<(u32, u32, Option<Vec<u8>>), ()>)
    ensures
        r is Ok <==> jpeg_header_of(data@) is Some,
        r matches Ok(hd) ==> jpeg_header_of(data@) == Some((hd.0, hd.1, hd.2.deep_view())),
{
    let mut d = JpegDecoder::new(Cursor::new(data)).map_err(
        |_| (),
    )?;
    let icc = d.icc_profile().unwrap_or(None);
    let (w, h) = d.dimensions();
    Ok((w, h, icc))
}

/// Relies on `image::codecs::webp::WebPDecoder`, as the PNG probe does.
#[verifier::external_body]
fn probe_webp(data: &[u8]) -> (r: Result<(u32, u32, Option<Vec<u8>>), ()>)
    ensures
        r is Ok <==> webp_header_of(data@) is Some,
        r matches Ok(hd) ==> webp_header_of(data@) == Some((hd.0, hd.1, hd.2.deep_view())),
{
    let mut d = WebPDecoder::new(Cursor::new(data)).map_err(
        |_| (),
    )?;
    let icc = d.icc_profile().unwrap_or(None);
    let (w, h) = d.dimensions();
    Ok((w, h, icc))
}

/// Relies on `PngDecoder`, `DynamicImage::from_decoder`,
/// `DynamicImage::resize` and `PngEncoder` (with
/// `ImageEncoder::set_icc_profile`): decodes the PNG bytes, resamples
/// them into the given bounds, and encodes them as PNG with the
/// given profile embedded — a function of the arguments alone. A
/// non-empty embedded profile is read back verbatim when the output
/// is probed.
#[verifier::external_body]
fn png_to_png(data: &[u8], nw: u32, nh: u32, icc: &Option<Vec<u8>>) -> (r: Result<
    Vec<u8>,
    ReencodeFailure,
>)
    ensures
        r is Ok <==> png_to_png_of(data@, nw, nh, icc.deep_view()) is Some,
        r matches Ok(v) ==> Some(v@) == png_to_png_of(data@, nw, nh, icc.deep_view()),
        r matches Ok(v) ==> ((icc matches Some(p) ==> p@.len() > 0) ==> (png_header_of(v@) matches Some(
            h,
        ) && h.2 == icc.deep_view())),
        r matches Err(ReencodeFailure::Decode) <==> !png_decode_ok(data@),
{
    let d = PngDecoder::new(Cursor::new(data)).map_err(
        |_| ReencodeFailure::Decode,
    )?;
    let img = DynamicImage::from_decoder(d).map_err(|_| ReencodeFailure::Decode)?;
    let img = img.resize(nw, nh, FilterType::Triangle);
    let mut buf = Cursor::new(Vec::new());
    let mut enc = PngEncoder::new(&mut buf);
    if let Some(p) = icc {
        enc.set_icc_profile(p.clone()).map_err(|_| ReencodeFailure::Encode)?;
    }
    enc.write_image(img.as_bytes(), img.width(), img.height(), img.color().into()).map_err(
        |_| ReencodeFailure::Encode,
    )?;
    Ok(buf.into_inner())
}

/// Relies on `PngDecoder`, `DynamicImage::from_decoder`,
/// `DynamicImage::resize` and `JpegEncoder::new_with_quality` (with
/// `set_icc_profile`), as [`png_to_png`] does. A JPEG profile is
/// claimed to be read back only within the segment capacity readers
/// accept.
#[verifier::external_body]
fn png_to_jpeg(data: &[u8], nw: u32, nh: u32, quality: u8, icc: &Option<Vec<u8>>) -> (r: Result<
    Vec<u8>,
    ReencodeFailure,
>)
    ensures
        r is Ok <==> png_to_jpeg_of(data@, nw, nh, quality, icc.deep_view()) is Some,
        r matches Ok(v) ==> Some(v@) == png_to_jpeg_of(data@, nw, nh, quality, icc.deep_view()),
        // the writer splits the profile into APP2 segments of 65519
        // bytes; readers take at most 254 of them, so only profiles
        // within that capacity are claimed to round-trip
        r matches Ok(v) ==> ((icc matches Some(p) ==> (p@.len() > 0 && p@.len() <= 254 * 65519))
            ==> (jpeg_header_of(v@) matches Some(h) && h.2 == icc.deep_view())),
        r matches Err(ReencodeFailure::Decode) <==> !png_decode_ok(data@),
{
    let d = PngDecoder::new(Cursor::new(data)).map_err(
        |_| ReencodeFailure::Decode,
    )?;
    let img = DynamicImage::from_decoder(d).map_err(|_| ReencodeFailure::Decode)?;
    let img = img.resize(nw, nh, FilterType::Triangle);
    let mut buf = Cursor::new(Vec::new());
    let mut enc = JpegEncoder::new_with_quality(&mut buf, quality);
    if let Some(p) = icc {
        enc.set_icc_profile(p.clone()).map_err(|_| ReencodeFailure::Encode)?;
    }
    enc.encode(img.as_bytes(), img.width(), img.height(), img.color().into()).map_err(
        |_| ReencodeFailure::Encode,
    )?;
    Ok(buf.into_inner())
}

/// Relies on `JpegDecoder`, `DynamicImage::from_decoder`,
/// `DynamicImage::resize` and `PngEncoder`, as [`png_to_png`] does.
#[verifier::external_body]
fn jpeg_to_png(data: &[u8], nw: u32, nh: u32, icc: &Option<Vec<u8>>) -> (r: Result<
    Vec<u8>,
    ReencodeFailure,
>)
    ensures
        r is Ok <==> jpeg_to_png_of(data@, nw, nh, icc.deep_view()) is Some,
        r matches Ok(v) ==> Some(v@) == jpeg_to_png_of(data@, nw, nh, icc.deep_view()),
        r matches Ok(v) ==> ((icc matches Some(p) ==> p@.len() > 0) ==> (png_header_of(v@) matches Some(
            h,
        ) && h.2 == icc.deep_view())),
        r matches Err(ReencodeFailure::Decode) <==> !jpeg_decode_ok(data@),
{
    let d = JpegDecoder::new(Cursor::new(data)).map_err(
        |_| ReencodeFailure::Decode,
    )?;
    let img = DynamicImage::from_decoder(d).map_err(|_| ReencodeFailure::Decode)?;
    let img = img.resize(nw, nh, FilterType::Triangle);
    let mut buf = Cursor::new(Vec::new());
    let mut enc = PngEncoder::new(&mut buf);
    if let Some(p) = icc {
        enc.set_icc_profile(p.clone()).map_err(|_| ReencodeFailure::Encode)?;
    }
    enc.write_image(img.as_bytes(), img.width(), img.height(), img.color().into()).map_err(
        |_| ReencodeFailure::Encode,
    )?;
    Ok(buf.into_inner())
}

/// Relies on `JpegDecoder`, `DynamicImage::from_decoder`,
/// `DynamicImage::resize` and `JpegEncoder::new_with_quality`, as
/// [`png_to_png`] does.
#[verifier::external_body]
fn jpeg_to_jpeg(data: &[u8], nw: u32, nh: u32, quality: u8, icc: &Option<Vec<u8>>) -> (r: Result<
    Vec<u8>,
    ReencodeFailure,
>)
    ensures
        r is Ok <==> jpeg_to_jpeg_of(data@, nw, nh, quality, icc.deep_view()) is Some,
        r matches Ok(v) ==> Some(v@) == jpeg_to_jpeg_of(data@, nw, nh, quality, icc.deep_view()),
        // the writer splits the profile into APP2 segments of 65519
        // bytes; readers take at most 254 of them, so only profiles
        // within that capacity are claimed to round-trip
        r matches Ok(v) ==> ((icc matches Some(p) ==> (p@.len() > 0 && p@.len() <= 254 * 65519))
            ==> (jpeg_header_of(v@) matches Some(h) && h.2 == icc.deep_view())),
        r matches Err(ReencodeFailure::Decode) <==> !jpeg_decode_ok(data@),
{
    let d = JpegDecoder::new(Cursor::new(data)).map_err(
        |_| ReencodeFailure::Decode,
    )?;
    let img = DynamicImage::from_decoder(d).map_err(|_| ReencodeFailure::Decode)?;
    let img = img.resize(nw, nh, FilterType::Triangle);
    let mut buf = Cursor::new(Vec::new());
    let mut enc = JpegEncoder::new_with_quality(&mut buf, quality);
    if let Some(p) = icc {
        enc.set_icc_profile(p.clone()).map_err(|_| ReencodeFailure::Encode)?;
    }
    enc.encode(img.as_bytes(), img.width(), img.height(), img.color().into()).map_err(
        |_| ReencodeFailure::Encode,
    )?;
    Ok(buf.into_inner())
}

/// Relies on `WebPDecoder`, `DynamicImage::from_decoder`,
/// `DynamicImage::resize` and `PngEncoder`, as [`png_to_png`] does.
#[verifier::external_body]
fn webp_to_png(data: &[u8], nw: u32, nh: u32, icc: &Option<Vec<u8>>) -> (r: Result<
    Vec<u8>,
    ReencodeFailure,
>)
    ensures
        r is Ok <==> webp_to_png_of(data@, nw, nh, icc.deep_view()) is Some,
        r matches Ok(v) ==> Some(v@) == webp_to_png_of(data@, nw, nh, icc.deep_view()),
        r matches Ok(v) ==> ((icc matches Some(p) ==> p@.len() > 0) ==> (png_header_of(v@) matches Some(
            h,
        ) && h.2 == icc.deep_view())),
        r matches Err(ReencodeFailure::Decode) <==> !webp_decode_ok(data@),
{
    let d = WebPDecoder::new(Cursor::new(data)).map_err(
        |_| ReencodeFailure::Decode,
    )?;
    let img = DynamicImage::from_decoder(d).map_err(|_| ReencodeFailure::Decode)?;
    let img = img.resize(nw, nh, FilterType::Triangle);
    let mut buf = Cursor::new(Vec::new());
    let mut enc = PngEncoder::new(&mut buf);
    if let Some(p) = icc {
        enc.set_icc_profile(p.clone()).map_err(|_| ReencodeFailure::Encode)?;
    }
    enc.write_image(img.as_bytes(), img.width(), img.height(), img.color().into()).map_err(
        |_| ReencodeFailure::Encode,
    )?;
    Ok(buf.into_inner())
}

/// Relies on `WebPDecoder`, `DynamicImage::from_decoder`,
/// `DynamicImage::resize` and `JpegEncoder::new_with_quality`, as
/// [`png_to_png`] does.
#[verifier::external_body]
fn webp_to_jpeg(data: &[u8], nw: u32, nh: u32, quality: u8, icc: &Option<Vec<u8>>) -> (r: Result<
    Vec<u8>,
    ReencodeFailure,
>)
    ensures
        r is Ok <==> webp_to_jpeg_of(data@, nw, nh, quality, icc.deep_view()) is Some,
        r matches Ok(v) ==> Some(v@) == webp_to_jpeg_of(data@, nw, nh, quality, icc.deep_view()),
        // the writer splits the profile into APP2 segments of 65519
        // bytes; readers take at most 254 of them, so only profiles
        // within that capacity are claimed to round-trip
        r matches Ok(v) ==> ((icc matches Some(p) ==> (p@.len() > 0 && p@.len() <= 254 * 65519))
            ==> (jpeg_header_of(v@) matches Some(h) && h.2 == icc.deep_view())),
        r matches Err(ReencodeFailure::Decode) <==> !webp_decode_ok(data@),
{
    let d = WebPDecoder::new(Cursor::new(data)).map_err(
        |_| ReencodeFailure::Decode,
    )?;
    let img = DynamicImage::from_decoder(d).map_err(|_| ReencodeFailure::Decode)?;
    let img = img.resize(nw, nh, FilterType::Triangle);
    let mut buf = Cursor::new(Vec::new());
    let mut enc = JpegEncoder::new_with_quality(&mut buf, quality);
    if let Some(p) = icc {
        enc.set_icc_profile(p.clone()).map_err(|_| ReencodeFailure::Encode)?;
    }
    enc.encode(img.as_bytes(), img.width(), img.height(), img.color().into()).map_err(
        |_| ReencodeFailure::Encode,
    )?;
    Ok(buf.into_inner())
}

/// The header a raster format's probe yields on the given bytes.
pub open spec fn spec_header(fmt: crate::processor::ImageType, b: Seq<u8>) -> Option<
    (u32, u32, Option<Seq<u8>>),
> {
    match fmt {
        crate::processor::ImageType::Png => png_header_of(b),
        crate::processor::ImageType::Jpeg => jpeg_header_of(b),
        crate::processor::ImageType::WebP => webp_header_of(b),
        _ => None,
    }
}

/// Whether the full pixel data decodes for the given raster format.
pub open spec fn spec_decode_ok(fmt: crate::processor::ImageType, b: Seq<u8>) -> bool {
    match fmt {
        crate::processor::ImageType::Png => png_decode_ok(b),
        crate::processor::ImageType::Jpeg => jpeg_decode_ok(b),
        crate::processor::ImageType::WebP => webp_decode_ok(b),
        _ => false,
    }
}

/// The re-encode of `src`-format bytes into `dst`: decoded, resampled
/// into `(nw, nh)`, encoded at `quality` (lossy targets only) with
/// `icc` embedded when present; nothing when it fails or when the
/// pair is not one this boundary encodes.
pub open spec fn spec_reencode(
    src: crate::processor::ImageType,
    dst: crate::processor::ImageType,
    b: Seq<u8>,
    nw: u32,
    nh: u32,
    quality: u8,
    icc: Option<Seq<u8>>,
) -> Option<Seq<u8>> {
    match (src, dst) {
        (crate::processor::ImageType::Png, crate::processor::ImageType::Png) => png_to_png_of(
            b,
            nw,
            nh,
            icc,
        ),
        (crate::processor::ImageType::Png, crate::processor::ImageType::Jpeg) => png_to_jpeg_of(
            b,
            nw,
            nh,
            quality,
            icc,
        ),
        (crate::processor::ImageType::Jpeg, crate::processor::ImageType::Png) => jpeg_to_png_of(
            b,
            nw,
            nh,
            icc,
        ),
        (crate::processor::ImageType::Jpeg, crate::processor::ImageType::Jpeg) => jpeg_to_jpeg_of(
            b,
            nw,
            nh,
            quality,
            icc,
        ),
        (crate::processor::ImageType::WebP, crate::processor::ImageType::Png) => webp_to_png_of(
            b,
            nw,
            nh,
            icc,
        ),
        (crate::processor::ImageType::WebP, crate::processor::ImageType::Jpeg) => webp_to_jpeg_of(
            b,
            nw,
            nh,
            quality,
            icc,
        ),
        _ => None,
    }
}

/// Opens the container of the declared raster format and reads its
/// header: dimensions and the embedded color profile.
pub(crate) fn probe_image(data: &[u8], fmt: crate::processor::ImageType) -> (r: Result<
    (u32, u32, Option<Vec<u8>>),
    (),
>)
    requires
        fmt.spec_is_raster(),
    ensures
        r is Ok <==> spec_header(fmt, data@) is Some,
        r matches Ok(hd) ==> spec_header(fmt, data@) == Some((hd.0, hd.1, hd.2.deep_view())),
{
    match fmt {
        crate::processor::ImageType::Png => probe_png(data),
        crate::processor::ImageType::Jpeg => probe_jpeg(data),
        crate::processor::ImageType::WebP => probe_webp(data),
        _ => Err(()),
    }
}

/// Re-encodes `src`-format bytes into `dst`, resampled into
/// `(nw, nh)`, at `quality` for lossy targets, with `icc` embedded
/// when present.
pub(crate) fn reencode_image(
    data: &[u8],
    src: crate::processor::ImageType,
    dst: crate::processor::ImageType,
    nw: u32,
    nh: u32,
    quality: u8,
    icc: &Option<Vec<u8>>,
) -> (r: Result<Vec<u8>, ReencodeFailure>)
    requires
        src.spec_is_raster(),
        dst == crate::processor::ImageType::Png || dst == crate::processor::ImageType::Jpeg,
    ensures
        r is Ok <==> spec_reencode(src, dst, data@, nw, nh, quality, icc.deep_view()) is Some,
        r matches Ok(v) ==> Some(v@) == spec_reencode(
            src,
            dst,
            data@,
            nw,
            nh,
            quality,
            icc.deep_view(),
        ),
        r matches Err(ReencodeFailure::Decode) <==> !spec_decode_ok(src, data@),
        r matches Ok(v) ==> ((icc matches Some(p) ==> (p@.len() > 0 && (dst
            == crate::processor::ImageType::Jpeg ==> p@.len() <= 254 * 65519))) ==> (spec_header(
            dst,
            v@,
        ) matches Some(h) && h.2 == icc.deep_view())),
{
    match (src, dst) {
        (crate::processor::ImageType::Png, crate::processor::ImageType::Png) => png_to_png(
            data,
            nw,
            nh,
            icc,
        ),
        (crate::processor::ImageType::Png, crate::processor::ImageType::Jpeg) => png_to_jpeg(
            data,
            nw,
            nh,
            quality,
            icc,
        ),
        (crate::processor::ImageType::Jpeg, crate::processor::ImageType::Png) => jpeg_to_png(
            data,
            nw,
            nh,
            icc,
        ),
        (crate::processor::ImageType::Jpeg, crate::processor::ImageType::Jpeg) => jpeg_to_jpeg(
            data,
            nw,
            nh,
            quality,
            icc,
        ),
        (crate::processor::ImageType::WebP, crate::processor::ImageType::Png) => webp_to_png(
            data,
            nw,
            nh,
            icc,
        ),
        (crate::processor::ImageType::WebP, crate::processor::ImageType::Jpeg) => webp_to_jpeg(
            data,
            nw,
            nh,
            quality,
            icc,
        ),
        _ => {
            proof {
                assert(false);
            }
            Err(ReencodeFailure::Encode)
        },
    }
}

} // verus!
