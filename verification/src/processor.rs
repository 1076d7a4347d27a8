//! Image formats, format detection, and transformation parameters.

use vstd::prelude::*;
use vstd::string::StringSliceAdditionalSpecFns;

verus! {

/// The closed set of image formats the pipeline knows about.
///
/// `Png`, `Jpeg` and `WebP` are the raster formats the pipeline can
/// decode and encode; `Svg` is recognized only so a caller can serve
/// it verbatim; `Unknown` stands for anything else.
#[derive(Debug, Clone, Copy, PartialEq, Eq, Structural)]
pub enum ImageType {
    Png,
    Jpeg,
    WebP,
    Svg,
    Unknown,
}

/// Errors surfaced by the pipeline; every one is terminal for the
/// invocation that produced it.
#[derive(Debug, Clone, Copy, PartialEq, Eq, Structural)]
pub enum PipelineError {
    /// Format detection found no match.
    UnrecognizedFormat,
    /// The source bytes are malformed for the declared format.
    DecodeError(ImageType),
    /// The caller requested a target outside {Png, Jpeg, WebP}.
    UnsupportedTargetFormat,
    /// The encoder rejected the pixel buffer or parameters.
    EncodeError(ImageType),
    /// A native allocation or muxing step failed; every resource
    /// acquired before the failure has been released.
    NativeResourceError,
}

impl ImageType {
    /// The MIME string for this format, as a spec-level character sequence.
    pub open spec fn spec_mime(self) -> Seq<char> {
        match self {
            ImageType::Png => "image/png"@,
            ImageType::Jpeg => "image/jpeg"@,
            ImageType::WebP => "image/webp"@,
            ImageType::Svg => "image/svg+xml"@,
            ImageType::Unknown => "application/octet-stream"@,
        }
    }

    /// The MIME type string served alongside bytes of this format.
    pub fn to_mime(self) -> (r: &'static str)
        ensures
            r@ == self.spec_mime(),
    {
        match self {
            ImageType::Png => "image/png",
            ImageType::Jpeg => "image/jpeg",
            ImageType::WebP => "image/webp",
            ImageType::Svg => "image/svg+xml",
            ImageType::Unknown => "application/octet-stream",
        }
    }

    /// True for the three raster formats the pipeline can decode and
    /// re-encode.
    pub open spec fn spec_is_raster(self) -> bool {
        self == ImageType::Png || self == ImageType::Jpeg || self == ImageType::WebP
    }

    /// Executable twin of [`Self::spec_is_raster`].
    pub fn is_raster(self) -> (r: bool)
        ensures
            r == self.spec_is_raster(),
    {
        match self {
            ImageType::Png | ImageType::Jpeg | ImageType::WebP => true,
            _ => false,
        }
    }

    /// The format named by an ASCII byte string: `png`, `jpg`, `jpeg`,
    /// `webp` or `svg`; anything else is `Unknown`.
    pub open spec fn spec_from_name(b: Seq<u8>) -> ImageType {
        if b.len() == 3 && b[0] == 0x70 && b[1] == 0x6e && b[2] == 0x67 {
            // "png"
            ImageType::Png
        } else if b.len() == 3 && b[0] == 0x6a && b[1] == 0x70 && b[2] == 0x67 {
            // "jpg"
            ImageType::Jpeg
        } else if b.len() == 4 && b[0] == 0x6a && b[1] == 0x70 && b[2] == 0x65 && b[3] == 0x67 {
            // "jpeg"
            ImageType::Jpeg
        } else if b.len() == 4 && b[0] == 0x77 && b[1] == 0x65 && b[2] == 0x62 && b[3] == 0x70 {
            // "webp"
            ImageType::WebP
        } else if b.len() == 3 && b[0] == 0x73 && b[1] == 0x76 && b[2] == 0x67 {
            // "svg"
            ImageType::Svg
        } else {
            ImageType::Unknown
        }
    }

    /// Maps a format name, as it appears in a request's query string,
    /// to the format it denotes.
    pub fn from_name(name: &str) -> (r: ImageType)
        ensures
            r == ImageType::spec_from_name(name.spec_bytes()),
    {
        let b = name.as_bytes();
        if b.len() == 3 && b[0] == 0x70 && b[1] == 0x6e && b[2] == 0x67 {
            ImageType::Png
        } else if b.len() == 3 && b[0] == 0x6a && b[1] == 0x70 && b[2] == 0x67 {
            ImageType::Jpeg
        } else if b.len() == 4 && b[0] == 0x6a && b[1] == 0x70 && b[2] == 0x65 && b[3] == 0x67 {
            ImageType::Jpeg
        } else if b.len() == 4 && b[0] == 0x77 && b[1] == 0x65 && b[2] == 0x62 && b[3] == 0x70 {
            ImageType::WebP
        } else if b.len() == 3 && b[0] == 0x73 && b[1] == 0x76 && b[2] == 0x67 {
            ImageType::Svg
        } else {
            ImageType::Unknown
        }
    }

    /// Classifies a byte buffer by magic bytes, falling back to the SVG
    /// heuristic; `None` means the content is unsupported.
    pub fn detect_image_format(data: &[u8]) -> (r: Option<ImageType>)
        ensures
            r == spec_detect(data@),
    {
        if is_png_magic(data) {
            Some(ImageType::Png)
        } else if is_jpeg_magic(data) {
            Some(ImageType::Jpeg)
        } else if is_webp_magic(data) {
            Some(ImageType::WebP)
        } else if is_svg(data) {
            Some(ImageType::Svg)
        } else {
            None
        }
    }
}

/// The eight-byte PNG signature.
pub open spec fn spec_png_magic(b: Seq<u8>) -> bool {
    b.len() >= 8 && b[0] == 0x89 && b[1] == 0x50 && b[2] == 0x4e && b[3] == 0x47 && b[4] == 0x0d
        && b[5] == 0x0a && b[6] == 0x1a && b[7] == 0x0a
}

/// The JPEG start-of-image marker followed by a marker prefix byte.
pub open spec fn spec_jpeg_magic(b: Seq<u8>) -> bool {
    b.len() >= 3 && b[0] == 0xff && b[1] == 0xd8 && b[2] == 0xff
}

/// A RIFF container whose form type is `WEBP`.
pub open spec fn spec_webp_magic(b: Seq<u8>) -> bool {
    b.len() >= 12 && b[0] == 0x52 && b[1] == 0x49 && b[2] == 0x46 && b[3] == 0x46 && b[8] == 0x57
        && b[9] == 0x45 && b[10] == 0x42 && b[11] == 0x50
}

/// An ASCII whitespace byte: space, tab, line feed, form feed or
/// carriage return.
pub open spec fn spec_is_ws(b: u8) -> bool {
    b == 0x20 || b == 0x09 || b == 0x0a || b == 0x0c || b == 0x0d
}

/// `<?xml` starts at index `i` of `s`.
pub open spec fn spec_xml_marker_at(s: Seq<u8>, i: int) -> bool {
    i + 5 <= s.len() && s[i] == 0x3c && s[i + 1] == 0x3f && s[i + 2] == 0x78 && s[i + 3] == 0x6d
        && s[i + 4] == 0x6c
}

/// `<svg` starts at index `i` of `s`.
pub open spec fn spec_svg_marker_at(s: Seq<u8>, i: int) -> bool {
    i + 4 <= s.len() && s[i] == 0x3c && s[i + 1] == 0x73 && s[i + 2] == 0x76 && s[i + 3] == 0x67
}

/// Position `i` lies in the scan window of `b` (its first 100 bytes),
/// only ASCII whitespace precedes it, and one of the two SVG markers
/// starts there.
pub open spec fn spec_svg_candidate(b: Seq<u8>, i: int) -> bool {
    let n = if b.len() < 100 { b.len() as int } else { 100 };
    0 <= i <= n && (forall|j: int| 0 <= j < i ==> spec_is_ws(b[j])) && (spec_xml_marker_at(
        b.take(n),
        i,
    ) || spec_svg_marker_at(b.take(n), i))
}

/// The SVG heuristic: within the first 100 bytes, one run of leading
/// ASCII whitespace followed immediately by `<?xml` or `<svg`, in a
/// buffer of at least 4 bytes.
pub open spec fn spec_is_svg(b: Seq<u8>) -> bool {
    b.len() >= 4 && exists|i: int| spec_svg_candidate(b, i)
}

/// Complete classification of a byte buffer: magic bytes for the three
/// raster formats first, then the SVG heuristic, else unsupported.
pub open spec fn spec_detect(b: Seq<u8>) -> Option<ImageType> {
    if spec_png_magic(b) {
        Some(ImageType::Png)
    } else if spec_jpeg_magic(b) {
        Some(ImageType::Jpeg)
    } else if spec_webp_magic(b) {
        Some(ImageType::WebP)
    } else if spec_is_svg(b) {
        Some(ImageType::Svg)
    } else {
        None
    }
}

/// Checks for the PNG signature.
pub fn is_png_magic(data: &[u8]) -> (r: bool)
    ensures
        r == spec_png_magic(data@),
{
    data.len() >= 8 && data[0] == 0x89 && data[1] == 0x50 && data[2] == 0x4e && data[3] == 0x47
        && data[4] == 0x0d && data[5] == 0x0a && data[6] == 0x1a && data[7] == 0x0a
}

/// Checks for the JPEG start-of-image marker.
pub fn is_jpeg_magic(data: &[u8]) -> (r: bool)
    ensures
        r == spec_jpeg_magic(data@),
{
    data.len() >= 3 && data[0] == 0xff && data[1] == 0xd8 && data[2] == 0xff
}

/// Checks for the RIFF/WEBP header.
pub fn is_webp_magic(data: &[u8]) -> (r: bool)
    ensures
        r == spec_webp_magic(data@),
{
    data.len() >= 12 && data[0] == 0x52 && data[1] == 0x49 && data[2] == 0x46 && data[3] == 0x46
        && data[8] == 0x57 && data[9] == 0x45 && data[10] == 0x42 && data[11] == 0x50
}

/// The textual SVG heuristic: scan at most the first 100 bytes, skip
/// one run of leading ASCII whitespace, and test for `<?xml` or `<svg`.
pub fn is_svg(data: &[u8]) -> (r: bool)
    ensures
        r == spec_is_svg(data@),
{
    if data.len() < 4 {
        return false;
    }
    let n: usize = if data.len() < 100 {
        data.len()
    } else {
        100
    };
    let mut i: usize = 0;
    while i < n && (data[i] == 0x20 || data[i] == 0x09 || data[i] == 0x0a || data[i] == 0x0c
        || data[i] == 0x0d)
        invariant
            0 <= i <= n,
            n == if data@.len() < 100 { data@.len() as int } else { 100 },
            n <= data@.len(),
            forall|j: int| 0 <= j < i ==> spec_is_ws(data@[j]),
        decreases n - i,
    {
        i += 1;
    }
    // `i` is now the first non-whitespace index of the scan window (or
    // its end); a marker can only match there.
    let found = (i + 5 <= n && data[i] == 0x3c && data[i + 1] == 0x3f && data[i + 2] == 0x78
        && data[i + 3] == 0x6d && data[i + 4] == 0x6c) || (i + 4 <= n && data[i] == 0x3c && data[i
        + 1] == 0x73 && data[i + 2] == 0x76 && data[i + 3] == 0x67);
    proof {
        let ghost gn = n as int;
        let ghost w = data@.take(gn);
        assert(forall|k: int| 0 <= k < gn ==> w[k] == data@[k]);
        if found {
            assert(spec_svg_candidate(data@, i as int));
            assert(spec_is_svg(data@));
        } else {
            assert forall|k: int| !spec_svg_candidate(data@, k) by {
                if spec_svg_candidate(data@, k) {
                    assert(spec_xml_marker_at(w, k) || spec_svg_marker_at(w, k));
                    assert(w[k] == 0x3c);
                    assert(!spec_is_ws(data@[k]));
                    if k < i {
                        assert(spec_is_ws(data@[k]));
                    } else if k > i {
                        // the whitespace run up to `k` would cover `i`,
                        // where the loop stopped on a non-whitespace byte
                        assert(i < n);
                        assert(spec_is_ws(data@[i as int]));
                        assert(!spec_is_ws(data@[i as int]));
                    } else {
                        assert(!found);
                        assert(false);
                    }
                }
            }
            assert(!spec_is_svg(data@));
        }
    }
    found
}

/// A transformation request.
///
/// Once constructed through [`ImageParams::new`], `quality` is at most
/// 100 and both max-dimension fields, when present, lie in 1..=4096;
/// downstream code relies on this and re-validates nothing.
#[derive(Debug, Clone, Copy, PartialEq, Eq, Structural)]
pub struct ImageParams {
    pub quality: u8,
    pub max_width: Option<u32>,
    pub max_height: Option<u32>,
    pub format: Option<ImageType>,
}

/// The default and largest admissible bound on either dimension.
pub const DEFAULT_MAX_DIM: u32 = 4096;

/// A requested dimension bound, clamped to 1..=4096.
pub open spec fn spec_clamp_dim(w: u32) -> u32 {
    if w == 0 {
        1u32
    } else if w > 4096 {
        4096u32
    } else {
        w
    }
}

/// A requested quality, saturated to 100.
pub open spec fn spec_clamp_quality(q: u8) -> u8 {
    if q > 100 {
        100u8
    } else {
        q
    }
}

impl ImageParams {
    /// The bounds every constructed value keeps.
    pub open spec fn wf(self) -> bool {
        self.quality <= 100 && (self.max_width matches Some(w) ==> 1 <= w <= 4096) && (
        self.max_height matches Some(h) ==> 1 <= h <= 4096)
    }

    /// The effective bound on width: the stated one, or 4096 when absent.
    pub open spec fn spec_max_width(self) -> u32 {
        match self.max_width {
            Some(w) => w,
            None => 4096u32,
        }
    }

    /// The effective bound on height: the stated one, or 4096 when absent.
    pub open spec fn spec_max_height(self) -> u32 {
        match self.max_height {
            Some(h) => h,
            None => 4096u32,
        }
    }

    /// Builds a request, clamping every field into its stated bounds:
    /// quality saturates to 100 (85 when absent), dimension bounds are
    /// clamped into 1..=4096 when present.
    pub fn new(
        quality: Option<u8>,
        max_width: Option<u32>,
        max_height: Option<u32>,
        format: Option<ImageType>,
    ) -> (r: ImageParams)
        ensures
            r.wf(),
            r.quality == match quality {
                Some(q) => spec_clamp_quality(q),
                None => 85u8,
            },
            r.max_width == match max_width {
                Some(w) => Some(spec_clamp_dim(w)),
                None => None::<u32>,
            },
            r.max_height == match max_height {
                Some(h) => Some(spec_clamp_dim(h)),
                None => None::<u32>,
            },
            r.format == format,
    {
        let quality = match quality {
            Some(q) => if q > 100 {
                100
            } else {
                q
            },
            None => 85,
        };
        let max_width = match max_width {
            Some(w) => Some(clamp_dim(w)),
            None => None,
        };
        let max_height = match max_height {
            Some(h) => Some(clamp_dim(h)),
            None => None,
        };
        ImageParams { quality, max_width, max_height, format }
    }
}

/// Clamps a requested dimension bound into 1..=4096.
fn clamp_dim(w: u32) -> (r: u32)
    ensures
        r == spec_clamp_dim(w),
{
    if w == 0 {
        1
    } else if w > DEFAULT_MAX_DIM {
        DEFAULT_MAX_DIM
    } else {
        w
    }
}

/// The pipeline's output: either the input bytes passed through
/// verbatim, or freshly encoded bytes, tagged with their format.
pub struct ImageProcessResult {
    pub data: Vec<u8>,
    pub format: ImageType,
}

} // verus!
