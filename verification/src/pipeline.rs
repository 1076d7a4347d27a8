//! The pipeline orchestrator: detection is the caller's step; here the
//! bytes are opened, a resize is planned, the fast path is taken when
//! nothing is to be done, and otherwise the image is decoded, resized
//! and re-encoded into the negotiated target format.

use crate::codec::probe_image;
use crate::codec::reencode_image;
use crate::codec::spec_decode_ok;
use crate::codec::spec_header;
use crate::codec::spec_reencode;
use crate::codec::ReencodeFailure;
use crate::processor::ImageParams;
use crate::processor::ImageProcessResult;
use crate::processor::ImageType;
use crate::processor::PipelineError;
use crate::processor::DEFAULT_MAX_DIM;
use crate::resize::plan_resize;
use vstd::prelude::*;

verus! {

/// A pending WebP encode: everything the WebP encode-and-mux driver
/// needs — the source bytes and their format, the planned target
/// dimensions, the requested quality, and the color profile read from
/// the source's header.
pub struct WebpTask {
    pub data: Vec<u8>,
    pub src_format: ImageType,
    pub width: u32,
    pub height: u32,
    pub quality: u8,
    pub icc: Option<Vec<u8>>,
}

/// What a pipeline invocation yields on success: finished bytes, or a
/// pending WebP encode for the native driver to finish.
pub enum ProcessOutcome {
    /// Finished output bytes, tagged with their format.
    Done(ImageProcessResult),
    /// The target is WebP; the native encode remains to be driven.
    NeedsWebp(WebpTask),
}

/// The declared target format is admissible: absent, or one of the
/// three raster formats.
pub open spec fn spec_target_ok(params: ImageParams) -> bool {
    params.format matches Some(f) ==> f.spec_is_raster()
}

/// The negotiated target format: the declared one when present, else
/// the source format.
pub open spec fn spec_target(src: ImageType, params: ImageParams) -> ImageType {
    match params.format {
        Some(f) => f,
        None => src,
    }
}

/// The header the probe yields, when it is usable: both dimensions
/// must be positive.
pub open spec fn spec_usable_header(fmt: ImageType, b: Seq<u8>) -> Option<
    (u32, u32, Option<Seq<u8>>),
> {
    match spec_header(fmt, b) {
        Some(hd) => if hd.0 >= 1 && hd.1 >= 1 {
            Some(hd)
        } else {
            None
        },
        None => None,
    }
}

/// Nothing is to be done: the source fits within both bounds and the
/// target format is the source format.
pub open spec fn spec_fast_path(src: ImageType, params: ImageParams, w: u32, h: u32) -> bool {
    w <= params.spec_max_width() && h <= params.spec_max_height() && spec_target(src, params) == src
}

/// The planned target dimensions for a probed header under the
/// request's effective bounds.
pub open spec fn spec_planned(params: ImageParams, w: u32, h: u32) -> (int, int) {
    crate::resize::spec_plan(
        w as int,
        h as int,
        params.spec_max_width() as int,
        params.spec_max_height() as int,
    )
}

/// Transforms `img_data`, already detected as `src_format`, under
/// `params`.
///
/// The declared target is validated before anything else, so an
/// unsupported target is rejected without any decode being attempted.
/// When the source already fits within the bounds and the target
/// format is the source format, the input bytes come back verbatim.
/// Otherwise the result is pinned: for PNG and JPEG targets it is
/// exactly the re-encode of the input bytes at the planned dimensions
/// with the source's color profile embedded, and for WebP it is a
/// pending task carrying the input bytes, planned dimensions, quality
/// and profile through to the native driver.
pub fn process_image(img_data: Vec<u8>, src_format: ImageType, params: &ImageParams) -> (r: Result<
    ProcessOutcome,
    PipelineError,
>)
    requires
        src_format.spec_is_raster(),
        params.wf(),
    ensures
        // an inadmissible declared target is rejected, and is the only
        // source of this error
        r == Err::<ProcessOutcome, PipelineError>(PipelineError::UnsupportedTargetFormat)
            <==> !spec_target_ok(*params),
        // the bytes must open as the declared source format
        spec_target_ok(*params) && spec_usable_header(src_format, img_data@) is None ==> r
            == Err::<ProcessOutcome, PipelineError>(PipelineError::DecodeError(src_format)),
        // the fast path: the input bytes verbatim, still in the source format
        (spec_target_ok(*params) && (spec_usable_header(src_format, img_data@) matches Some(hd)
            && spec_fast_path(src_format, *params, hd.0, hd.1))) ==> (r matches Ok(
        ProcessOutcome::Done(res)) && res.data@ == img_data@ && res.format == src_format),
        // off the fast path the result is pinned: a WebP target yields
        // the pending task with every field fixed; a PNG or JPEG
        // target yields exactly the named re-encode of the input at
        // the planned dimensions with the probed profile embedded, a
        // decode error when the pixel data does not decode, and an
        // encode error when only the encoder refuses
        (spec_target_ok(*params) && (spec_usable_header(src_format, img_data@) matches Some(hd)
            && !spec_fast_path(src_format, *params, hd.0, hd.1))) ==> (({
            let hdr = spec_usable_header(src_format, img_data@).unwrap();
            let dst = spec_target(src_format, *params);
            let plan = spec_planned(*params, hdr.0, hdr.1);
            if dst is WebP {
                r matches Ok(ProcessOutcome::NeedsWebp(task)) && task.data@ == img_data@
                    && task.src_format == src_format && task.width == plan.0 && task.height
                    == plan.1 && task.quality == params.quality && task.icc.deep_view() == hdr.2
            } else {
                match spec_reencode(
                    src_format,
                    dst,
                    img_data@,
                    plan.0 as u32,
                    plan.1 as u32,
                    params.quality,
                    hdr.2,
                ) {
                    Some(out) => r matches Ok(ProcessOutcome::Done(res)) && res.data@ == out
                        && res.format == dst,
                    None => if !spec_decode_ok(src_format, img_data@) {
                        r == Err::<ProcessOutcome, PipelineError>(
                            PipelineError::DecodeError(src_format),
                        )
                    } else {
                        r == Err::<ProcessOutcome, PipelineError>(PipelineError::EncodeError(dst))
                    },
                }
            }
        })),
        // color-profile preservation: a re-encoded output's own header
        // carries exactly the (non-empty) profile read from the
        // source; for JPEG targets only up to the segment capacity
        // readers accept
        (spec_target_ok(*params) && (spec_usable_header(src_format, img_data@) matches Some(hd)
            && !spec_fast_path(src_format, *params, hd.0, hd.1))) ==> (({
            let hdr = spec_usable_header(src_format, img_data@).unwrap();
            let dst = spec_target(src_format, *params);
            r matches Ok(ProcessOutcome::Done(res)) ==> ((!(dst is WebP) && (hdr.2 matches Some(p)
                ==> (p.len() > 0 && (dst is Jpeg ==> p.len() <= 254 * 65519)))) ==> (spec_header(
                dst,
                res.data@,
            ) matches Some(h2) && h2.2 == hdr.2))
        })),
        // finished output always carries the negotiated target format
        r matches Ok(ProcessOutcome::Done(res)) ==> res.format == spec_target(src_format, *params),
        // a pending task arises only for a WebP target
        r matches Ok(ProcessOutcome::NeedsWebp(task)) ==> spec_target(src_format, *params)
            is WebP,
        // every error is one of the three this function can produce
        r matches Err(e) ==> (e == PipelineError::UnsupportedTargetFormat || e
            == PipelineError::DecodeError(src_format) || e == PipelineError::EncodeError(
            spec_target(src_format, *params),
        )),
{
    // format negotiation comes first: an unsupported target must be
    // rejected before any decode is attempted
    let dst_format = match params.format {
        Some(f) => {
            if f.is_raster() {
                f
            } else {
                return Err(PipelineError::UnsupportedTargetFormat);
            }
        },
        None => src_format,
    };
    let probed = match probe_image(img_data.as_slice(), src_format) {
        Ok(hd) => hd,
        Err(_) => {
            return Err(PipelineError::DecodeError(src_format));
        },
    };
    let (width, height, color_profile) = probed;
    if width == 0 || height == 0 {
        return Err(PipelineError::DecodeError(src_format));
    }
    let max_width = match params.max_width {
        Some(w) => w,
        None => DEFAULT_MAX_DIM,
    };
    let max_height = match params.max_height {
        Some(h) => h,
        None => DEFAULT_MAX_DIM,
    };
    let (new_width, new_height) = plan_resize(width, height, max_width, max_height);
    // the fast path: nothing to recompress, hand the bytes back
    if new_width == width && new_height == height && src_format == dst_format {
        return Ok(
            ProcessOutcome::Done(ImageProcessResult { data: img_data, format: src_format }),
        );
    }
    if matches!(dst_format, ImageType::WebP) {
        return Ok(
            ProcessOutcome::NeedsWebp(
                WebpTask {
                    data: img_data,
                    src_format,
                    width: new_width,
                    height: new_height,
                    quality: params.quality,
                    icc: color_profile,
                },
            ),
        );
    }
    match reencode_image(
        img_data.as_slice(),
        src_format,
        dst_format,
        new_width,
        new_height,
        params.quality,
        &color_profile,
    ) {
        Ok(data) => Ok(ProcessOutcome::Done(ImageProcessResult { data, format: dst_format })),
        Err(ReencodeFailure::Decode) => Err(PipelineError::DecodeError(src_format)),
        Err(ReencodeFailure::Encode) => Err(PipelineError::EncodeError(dst_format)),
    }
}

} // verus!
