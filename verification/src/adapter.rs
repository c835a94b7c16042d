use vstd::prelude::*;

use crate::error as fail;
use crate::error::{context_outcome, ErrorView, Kind, ResultExt};
use crate::image::{
    host_high_byte, lemma_outcomes_well_formed, lemma_rgb16_converts, outcome_view, rgb16_outcome,
    rgb8_outcome, ImageBuffer, ImageView,
};
use crate::jpeg::{decode_jpeg_thumbnail, jpeg_thumbnail_result};
use crate::text::{decimal, push_decimal, push_signed_decimal, signed_decimal};

verus! {

// LibRaw's return codes (`enum LibRaw_errors` in libraw_const.h).
pub const LIBRAW_SUCCESS: i32 = 0;
pub const LIBRAW_UNSPECIFIED_ERROR: i32 = -1;
pub const LIBRAW_FILE_UNSUPPORTED: i32 = -2;
pub const LIBRAW_REQUEST_FOR_NONEXISTENT_IMAGE: i32 = -3;
pub const LIBRAW_OUT_OF_ORDER_CALL: i32 = -4;
pub const LIBRAW_NO_THUMBNAIL: i32 = -5;
pub const LIBRAW_UNSUPPORTED_THUMBNAIL: i32 = -6;
pub const LIBRAW_INPUT_CLOSED: i32 = -7;
pub const LIBRAW_NOT_IMPLEMENTED: i32 = -8;
pub const LIBRAW_REQUEST_FOR_NONEXISTENT_THUMBNAIL: i32 = -9;
pub const LIBRAW_UNSUFFICIENT_MEMORY: i32 = -100007;
pub const LIBRAW_DATA_ERROR: i32 = -100008;
pub const LIBRAW_IO_ERROR: i32 = -100009;
pub const LIBRAW_CANCELLED_BY_CALLBACK: i32 = -100010;
pub const LIBRAW_BAD_CROP: i32 = -100011;
pub const LIBRAW_TOO_BIG: i32 = -100012;
pub const LIBRAW_MEMPOOL_OVERFLOW: i32 = -100013;

// LibRaw's processed-image formats (`enum LibRaw_image_formats`).
pub const LIBRAW_IMAGE_JPEG: u32 = 1;
pub const LIBRAW_IMAGE_BITMAP: u32 = 2;

/// The category of a LibRaw return code. Codes that name no I/O, memory or
/// format limitation count as corrupt data.
pub open spec fn libraw_error_kind(rc: i32) -> Kind {
    if rc == LIBRAW_IO_ERROR || rc == LIBRAW_INPUT_CLOSED {
        Kind::Io
    } else if rc == LIBRAW_UNSUFFICIENT_MEMORY || rc == LIBRAW_MEMPOOL_OVERFLOW {
        Kind::Resource
    } else if rc == LIBRAW_FILE_UNSUPPORTED || rc == LIBRAW_UNSUPPORTED_THUMBNAIL || rc
        == LIBRAW_NOT_IMPLEMENTED || rc == LIBRAW_NO_THUMBNAIL || rc
        == LIBRAW_REQUEST_FOR_NONEXISTENT_THUMBNAIL {
        Kind::Unsupported
    } else {
        Kind::Corrupt
    }
}

/// The text of an optional string.
pub open spec fn str_view(s: Option<&str>) -> Option<Seq<char>> {
    match s {
        Some(t) => Some(t@),
        None => None,
    }
}

/// "func failed: description", or "func failed: code N" when LibRaw gave
/// no description of the code.
pub open spec fn libraw_error_text(strerror: Option<Seq<char>>, rc: i32, func: Seq<char>) -> Seq<
    char,
> {
    match strerror {
        Some(text) => func + " failed: "@ + text,
        None => func + " failed: code "@ + signed_decimal(rc as int),
    }
}

/// The error for a LibRaw return code from the named function.
pub open spec fn libraw_error_view(rc: i32, func: Seq<char>, strerror: Option<Seq<char>>) -> ErrorView {
    ErrorView::fresh(libraw_error_kind(rc), libraw_error_text(strerror, rc, func))
}

/// The error for a failed `libraw_open_file`: an I/O failure on a file that
/// exists counts as corrupt data, anything else is classified by its code.
pub open spec fn open_file_error_view(
    rc: i32,
    path_exists: bool,
    strerror: Option<Seq<char>>,
) -> ErrorView {
    if rc == LIBRAW_IO_ERROR && path_exists {
        ErrorView::fresh(Kind::Corrupt, libraw_error_text(strerror, rc, "libraw_open_file"@))
    } else {
        libraw_error_view(rc, "libraw_open_file"@, strerror)
    }
}

/// Formats the message for a LibRaw failure: "func failed: description"
/// when LibRaw described the code, else "func failed: code N".
pub fn format_libraw_error(strerror: Option<&str>, rc: i32, func: &str) -> (s: String)
    ensures
        s@ == libraw_error_text(str_view(strerror), rc, func@),
{
    let mut s = func.to_owned();
    match strerror {
        Some(text) => {
            s.append(" failed: ");
            s.append(text);
        },
        None => {
            s.append(" failed: code ");
            push_signed_decimal(&mut s, rc as i64);
        },
    }
    s
}

/// Maps a LibRaw return code to an error of the matching category, with the
/// formatted message.
pub fn libraw_error(rc: i32, func: &str, strerror: Option<&str>) -> (e: fail::Error)
    ensures
        e@ == libraw_error_view(rc, func@, str_view(strerror)),
{
    let detail = format_libraw_error(strerror, rc, func);
    if rc == LIBRAW_IO_ERROR || rc == LIBRAW_INPUT_CLOSED {
        fail::Error::io(detail.as_str())
    } else if rc == LIBRAW_UNSUFFICIENT_MEMORY || rc == LIBRAW_MEMPOOL_OVERFLOW {
        fail::Error::resource(detail.as_str())
    } else if rc == LIBRAW_FILE_UNSUPPORTED || rc == LIBRAW_UNSUPPORTED_THUMBNAIL || rc
        == LIBRAW_NOT_IMPLEMENTED || rc == LIBRAW_NO_THUMBNAIL || rc
        == LIBRAW_REQUEST_FOR_NONEXISTENT_THUMBNAIL {
        fail::Error::unsupported(detail.as_str())
    } else {
        fail::Error::corrupt(detail.as_str())
    }
}

/// Classifies a failed `libraw_open_file`. When LibRaw reports an I/O error
/// but the file exists, the file is present but unreadable in a way that
/// suggests damage, so the error is `Corrupt`; otherwise the code decides.
pub fn classify_open_file_error(rc: i32, path_exists: bool, strerror: Option<&str>) -> (e:
    fail::Error)
    ensures
        e@ == open_file_error_view(rc, path_exists, str_view(strerror)),
{
    if rc == LIBRAW_IO_ERROR && path_exists {
        fail::Error::corrupt(format_libraw_error(strerror, rc, "libraw_open_file").as_str())
    } else {
        libraw_error(rc, "libraw_open_file", strerror)
    }
}

/// Whether a byte string holds a NUL byte.
pub open spec fn has_nul(bytes: Seq<u8>) -> bool {
    exists|i: int| 0 <= i < bytes.len() && bytes[i] == 0
}

/// Converts the bytes of a path into a NUL-terminated C string for LibRaw.
/// A path that holds a NUL byte cannot be passed and gives an `Io` error.
pub fn path_to_cstring(path: &[u8]) -> (res: Result<Vec<u8>, fail::Error>)
    ensures
        match res {
            Ok(c) => !has_nul(path@) && c@ == path@.push(0),
            Err(e) => has_nul(path@) && e@ == ErrorView::fresh(
                Kind::Io,
                "path contains interior null byte"@,
            ),
        },
{
    let mut out: Vec<u8> = Vec::new();
    let mut i: usize = 0;
    while i < path.len()
        invariant
            i <= path.len(),
            out@ == path@.subrange(0, i as int),
            forall|j: int| 0 <= j < i ==> path@[j] != 0,
        decreases path.len() - i,
    {
        if path[i] == 0 {
            return Err(fail::Error::io("path contains interior null byte"));
        }
        out.push(path[i]);
        i += 1;
    }
    out.push(0);
    assert(path@.subrange(0, path@.len() as int) =~= path@);
    Ok(out)
}

/// An image that LibRaw produced in memory (`libraw_processed_image_t`),
/// copied out as plain values.
#[derive(Debug)]
pub struct ProcessedImage {
    pub format: u32,
    pub width: u16,
    pub height: u16,
    pub colors: u16,
    pub bits: u16,
    pub data: Vec<u8>,
}

/// "thumbnail bitmap format: B-bit, C channels"
pub open spec fn bitmap_format_message(bits: u16, colors: u16) -> Seq<char> {
    "thumbnail bitmap format: "@ + decimal(bits as nat) + "-bit, "@ + decimal(colors as nat)
        + " channels"@
}

/// What a non-JPEG thumbnail becomes: 8- or 16-bit three-channel bitmaps are
/// converted, other bitmaps and formats are unsupported.
pub open spec fn bitmap_thumbnail_outcome(img: ProcessedImage) -> Result<ImageView, ErrorView> {
    if img.format == LIBRAW_IMAGE_BITMAP {
        if img.bits == 8 && img.colors == 3 {
            context_outcome(
                rgb8_outcome(img.data@, img.width as u32, img.height as u32),
                "thumbnail bitmap RGB8 conversion failed"@,
            )
        } else if img.bits == 16 && img.colors == 3 {
            context_outcome(
                rgb16_outcome(img.data@, img.width as u32, img.height as u32),
                "thumbnail bitmap RGB16 conversion failed"@,
            )
        } else {
            Err(ErrorView::fresh(Kind::Unsupported, bitmap_format_message(img.bits, img.colors)))
        }
    } else {
        Err(
            ErrorView::fresh(
                Kind::Unsupported,
                "thumbnail format type "@ + decimal(img.format as nat),
            ),
        )
    }
}

/// Whether `r` is what the thumbnail `img` becomes: JPEG thumbnails are
/// decoded, the others converted as bitmaps.
pub open spec fn thumbnail_result(img: ProcessedImage, r: Result<ImageView, ErrorView>) -> bool {
    if img.format == LIBRAW_IMAGE_JPEG {
        jpeg_thumbnail_result(img.data@, r)
    } else {
        r == bitmap_thumbnail_outcome(img)
    }
}

/// What a fully processed image becomes. Processing was configured for
/// 16-bit three-channel bitmaps, so anything else is unsupported.
pub open spec fn processed_image_outcome(img: ProcessedImage) -> Result<ImageView, ErrorView> {
    if img.format != LIBRAW_IMAGE_BITMAP {
        Err(ErrorView::fresh(Kind::Unsupported, "decoded image is not bitmap format"@))
    } else if img.bits != 16 {
        Err(
            ErrorView::fresh(
                Kind::Unsupported,
                "expected 16-bit output, got "@ + decimal(img.bits as nat) + "-bit"@,
            ),
        )
    } else if img.colors != 3 {
        Err(
            ErrorView::fresh(
                Kind::Unsupported,
                "expected 3-channel RGB, got "@ + decimal(img.colors as nat) + " channels"@,
            ),
        )
    } else {
        context_outcome(
            rgb16_outcome(img.data@, img.width as u32, img.height as u32),
            "LibRaw decode pixel conversion failed"@,
        )
    }
}

/// Turns a thumbnail that LibRaw extracted into an image. Most cameras store
/// JPEG thumbnails; 8- and 16-bit RGB bitmaps are converted directly.
pub fn thumbnail_to_image(img: &ProcessedImage) -> (res: Result<ImageBuffer, fail::Error>)
    ensures
        thumbnail_result(*img, outcome_view(res)),
{
    if img.format == LIBRAW_IMAGE_JPEG {
        decode_jpeg_thumbnail(img.data.as_slice())
    } else if img.format == LIBRAW_IMAGE_BITMAP {
        if img.bits == 8 && img.colors == 3 {
            ImageBuffer::from_rgb8(
                img.data.as_slice(),
                img.width as u32,
                img.height as u32,
            ).context("thumbnail bitmap RGB8 conversion failed")
        } else if img.bits == 16 && img.colors == 3 {
            ImageBuffer::from_rgb16(
                img.data.as_slice(),
                img.width as u32,
                img.height as u32,
            ).context("thumbnail bitmap RGB16 conversion failed")
        } else {
            let mut msg = "thumbnail bitmap format: ".to_owned();
            push_decimal(&mut msg, img.bits as u64);
            msg.append("-bit, ");
            push_decimal(&mut msg, img.colors as u64);
            msg.append(" channels");
            Err(fail::Error::unsupported(msg.as_str()))
        }
    } else {
        let mut msg = "thumbnail format type ".to_owned();
        push_decimal(&mut msg, img.format as u64);
        Err(fail::Error::unsupported(msg.as_str()))
    }
}

/// Turns the fully processed image into an image buffer, checking that it is
/// the configured 16-bit three-channel bitmap.
pub fn processed_image_to_buffer(img: &ProcessedImage) -> (res: Result<ImageBuffer, fail::Error>)
    ensures
        outcome_view(res) == processed_image_outcome(*img),
{
    if img.format != LIBRAW_IMAGE_BITMAP {
        return Err(fail::Error::unsupported("decoded image is not bitmap format"));
    }
    if img.bits != 16 {
        let mut msg = "expected 16-bit output, got ".to_owned();
        push_decimal(&mut msg, img.bits as u64);
        msg.append("-bit");
        return Err(fail::Error::unsupported(msg.as_str()));
    }
    if img.colors != 3 {
        let mut msg = "expected 3-channel RGB, got ".to_owned();
        push_decimal(&mut msg, img.colors as u64);
        msg.append(" channels");
        return Err(fail::Error::unsupported(msg.as_str()));
    }
    ImageBuffer::from_rgb16(img.data.as_slice(), img.width as u32, img.height as u32).context(
        "LibRaw decode pixel conversion failed",
    )
}

/// Which of the three decodes is running.
#[derive(Debug, Clone, Copy, PartialEq, Eq, Structural)]
pub enum DecodeMode {
    /// Full-resolution decode.
    Full,
    /// Extraction of the camera-generated thumbnail.
    Thumbnail,
    /// Half-resolution decode for fast previews.
    Preview,
}

/// One call into LibRaw.
#[derive(Debug, Clone, Copy, PartialEq, Eq, Structural)]
pub enum Stage {
    /// `libraw_init`: allocate the LibRaw instance.
    Init,
    /// `libraw_open_file`: open and identify the file.
    OpenFile,
    /// `libraw_unpack`: decompress the raw sensor data.
    Unpack,
    /// `libraw_unpack_thumb`: decompress only the embedded thumbnail.
    UnpackThumb,
    /// Set `half_size`: each 2x2 Bayer quad becomes one pixel.
    ConfigureHalfSize,
    /// Set camera white balance, sRGB output and 16 bits per sample.
    ConfigureOutputSrgb16,
    /// `libraw_dcraw_process`: demosaic, white balance, colour conversion.
    Process,
    /// `libraw_dcraw_make_mem_image`: retrieve the processed image.
    MakeImage,
    /// `libraw_dcraw_make_mem_thumb`: retrieve the thumbnail.
    MakeThumb,
}

/// What came of performing a stage.
#[derive(Debug)]
pub enum StageEvent {
    /// The call succeeded (configuration stages always do).
    Completed,
    /// `libraw_init` returned null.
    InitFailed,
    /// The call returned a nonzero code (or, for the make-image calls, null
    /// with this error code); `strerror` is LibRaw's description of the code.
    Failed { code: i32, strerror: Option<String> },
    /// `libraw_open_file` returned a nonzero code; `path_exists` tells whether
    /// the file is present on disk.
    OpenFailed { code: i32, strerror: Option<String>, path_exists: bool },
    /// A make-image call produced this image.
    Produced(ProcessedImage),
}

/// What to do next.
#[derive(Debug)]
pub enum Step {
    /// Perform this stage and report what came of it.
    Run(Stage),
    /// The decode is over with this outcome.
    Finish(Result<ImageBuffer, fail::Error>),
}

/// The stages of each decode, in order.
pub open spec fn pipeline(mode: DecodeMode) -> Seq<Stage> {
    match mode {
        DecodeMode::Full => seq![
            Stage::Init,
            Stage::OpenFile,
            Stage::Unpack,
            Stage::ConfigureOutputSrgb16,
            Stage::Process,
            Stage::MakeImage,
        ],
        DecodeMode::Thumbnail => seq![
            Stage::Init,
            Stage::OpenFile,
            Stage::UnpackThumb,
            Stage::MakeThumb,
        ],
        DecodeMode::Preview => seq![
            Stage::Init,
            Stage::OpenFile,
            Stage::Unpack,
            Stage::ConfigureHalfSize,
            Stage::ConfigureOutputSrgb16,
            Stage::Process,
            Stage::MakeImage,
        ],
    }
}

/// The stage that follows a successful one.
pub open spec fn next_stage(mode: DecodeMode, stage: Stage) -> Option<Stage> {
    match stage {
        Stage::Init => Some(Stage::OpenFile),
        Stage::OpenFile => match mode {
            DecodeMode::Thumbnail => Some(Stage::UnpackThumb),
            _ => Some(Stage::Unpack),
        },
        Stage::UnpackThumb => Some(Stage::MakeThumb),
        Stage::Unpack => match mode {
            DecodeMode::Preview => Some(Stage::ConfigureHalfSize),
            _ => Some(Stage::ConfigureOutputSrgb16),
        },
        Stage::ConfigureHalfSize => Some(Stage::ConfigureOutputSrgb16),
        Stage::ConfigureOutputSrgb16 => Some(Stage::Process),
        Stage::Process => Some(Stage::MakeImage),
        Stage::MakeImage => None,
        Stage::MakeThumb => None,
    }
}

/// The name of the decode method, as it appears in error contexts.
pub open spec fn method_name(mode: DecodeMode) -> Seq<char> {
    match mode {
        DecodeMode::Full => "decode"@,
        DecodeMode::Thumbnail => "decode_thumbnail"@,
        DecodeMode::Preview => "decode_preview"@,
    }
}

/// The name of a stage, as it appears in error contexts.
pub open spec fn stage_label(stage: Stage) -> Seq<char> {
    match stage {
        Stage::Init => "init"@,
        Stage::OpenFile => "open"@,
        Stage::Unpack => "unpack"@,
        Stage::UnpackThumb => "unpack_thumb"@,
        Stage::ConfigureHalfSize => "configure_half_size"@,
        Stage::ConfigureOutputSrgb16 => "configure_output_srgb16"@,
        Stage::Process => "process"@,
        Stage::MakeImage => "make_mem_image"@,
        Stage::MakeThumb => "make_mem_thumb"@,
    }
}

/// The LibRaw function a stage calls, as it appears in error messages; the
/// configuration stages only set parameters and call nothing that can fail.
pub open spec fn stage_function(stage: Stage) -> Seq<char> {
    match stage {
        Stage::Init => "libraw_init"@,
        Stage::OpenFile => "libraw_open_file"@,
        Stage::Unpack => "libraw_unpack"@,
        Stage::UnpackThumb => "libraw_unpack_thumb"@,
        Stage::ConfigureHalfSize => ""@,
        Stage::ConfigureOutputSrgb16 => ""@,
        Stage::Process => "libraw_dcraw_process"@,
        Stage::MakeImage => "libraw_dcraw_make_mem_image"@,
        Stage::MakeThumb => "libraw_dcraw_make_mem_thumb"@,
    }
}

/// "LibRawAdapter::<method> <stage> failed"
pub open spec fn stage_context(mode: DecodeMode, stage: Stage) -> Seq<char> {
    "LibRawAdapter::"@ + method_name(mode) + " "@ + stage_label(stage) + " failed"@
}

/// Whether an event can come of performing a stage of a decode.
pub open spec fn stage_accepts(mode: DecodeMode, stage: Stage, event: StageEvent) -> bool {
    &&& pipeline(mode).contains(stage)
    &&& match event {
        StageEvent::Completed => !(stage is MakeImage) && !(stage is MakeThumb),
        StageEvent::InitFailed => stage is Init,
        StageEvent::OpenFailed { .. } => stage is OpenFile,
        StageEvent::Failed { .. } => stage is Unpack || stage is UnpackThumb || stage is Process
            || stage is MakeImage || stage is MakeThumb,
        StageEvent::Produced(_) => stage is MakeImage || stage is MakeThumb,
    }
}

/// The decodes go through their stages in order: each begins with `Init`,
/// each success leads to the next stage of its pipeline, and it ends with the
/// stage that retrieves the image, after which no stage follows.
pub proof fn lemma_pipeline_order(mode: DecodeMode, i: int)
    requires
        0 <= i < pipeline(mode).len(),
    ensures
        pipeline(mode)[0] == Stage::Init,
        i + 1 < pipeline(mode).len() ==> next_stage(mode, pipeline(mode)[i]) == Some(
            pipeline(mode)[i + 1],
        ),
        i + 1 == pipeline(mode).len() ==> next_stage(mode, pipeline(mode)[i]) is None,
        i + 1 == pipeline(mode).len() ==> pipeline(mode)[i] == if mode is Thumbnail {
            Stage::MakeThumb
        } else {
            Stage::MakeImage
        },
{
}

/// The text of an optional owned string.
pub open spec fn string_view(s: Option<String>) -> Option<Seq<char>> {
    match s {
        Some(t) => Some(t@),
        None => None,
    }
}

/// The error, before its stage context, that a failure event stands for.
pub open spec fn failure_error(stage: Stage, event: StageEvent) -> ErrorView {
    match event {
        StageEvent::InitFailed => ErrorView::fresh(Kind::Resource, "libraw_init returned null"@),
        StageEvent::OpenFailed { code, strerror, path_exists } => open_file_error_view(
            code,
            path_exists,
            string_view(strerror),
        ),
        StageEvent::Failed { code, strerror } => libraw_error_view(
            code,
            stage_function(stage),
            string_view(strerror),
        ),
        _ => ErrorView::fresh(Kind::Corrupt, Seq::empty()),
    }
}

/// The view of a step.
pub open spec fn step_view(step: Step) -> Result<Stage, Result<ImageView, ErrorView>> {
    match step {
        Step::Run(stage) => Ok(stage),
        Step::Finish(r) => Err(outcome_view(r)),
    }
}

/// Whether `step` is the right response to `event` at `stage` of a decode:
/// success moves to the next stage, a failure finishes with its error under
/// the stage's context, and a produced image finishes with its conversion
/// (under the same context when it fails).
pub open spec fn transition(mode: DecodeMode, stage: Stage, event: StageEvent, step: Result<
    Stage,
    Result<ImageView, ErrorView>,
>) -> bool {
    let ctx = stage_context(mode, stage);
    match event {
        StageEvent::Completed => step == Ok::<Stage, Result<ImageView, ErrorView>>(
            next_stage(mode, stage)->0,
        ),
        StageEvent::Produced(img) => match step {
            Ok(_) => false,
            Err(r) => if stage is MakeImage {
                r == context_outcome(processed_image_outcome(img), ctx)
            } else {
                exists|r0: Result<ImageView, ErrorView>|
                    thumbnail_result(img, r0) && r == context_outcome(r0, ctx)
            },
        },
        _ => step == Err::<Stage, Result<ImageView, ErrorView>>(
            Err(failure_error(stage, event).with_context(ctx)),
        ),
    }
}

fn method_name_str(mode: DecodeMode) -> (s: &'static str)
    ensures
        s@ == method_name(mode),
{
    match mode {
        DecodeMode::Full => "decode",
        DecodeMode::Thumbnail => "decode_thumbnail",
        DecodeMode::Preview => "decode_preview",
    }
}

fn stage_label_str(stage: Stage) -> (s: &'static str)
    ensures
        s@ == stage_label(stage),
{
    match stage {
        Stage::Init => "init",
        Stage::OpenFile => "open",
        Stage::Unpack => "unpack",
        Stage::UnpackThumb => "unpack_thumb",
        Stage::ConfigureHalfSize => "configure_half_size",
        Stage::ConfigureOutputSrgb16 => "configure_output_srgb16",
        Stage::Process => "process",
        Stage::MakeImage => "make_mem_image",
        Stage::MakeThumb => "make_mem_thumb",
    }
}

fn stage_function_str(stage: Stage) -> (s: &'static str)
    ensures
        s@ == stage_function(stage),
{
    match stage {
        Stage::Init => "libraw_init",
        Stage::OpenFile => "libraw_open_file",
        Stage::Unpack => "libraw_unpack",
        Stage::UnpackThumb => "libraw_unpack_thumb",
        Stage::ConfigureHalfSize => "",
        Stage::ConfigureOutputSrgb16 => "",
        Stage::Process => "libraw_dcraw_process",
        Stage::MakeImage => "libraw_dcraw_make_mem_image",
        Stage::MakeThumb => "libraw_dcraw_make_mem_thumb",
    }
}

fn stage_context_string(mode: DecodeMode, stage: Stage) -> (s: String)
    ensures
        s@ == stage_context(mode, stage),
{
    let mut s = "LibRawAdapter::".to_owned();
    s.append(method_name_str(mode));
    s.append(" ");
    s.append(stage_label_str(stage));
    s.append(" failed");
    s
}

fn string_as_str(s: &Option<String>) -> (t: Option<&str>)
    ensures
        str_view(t) == string_view(*s),
{
    match s {
        Some(text) => Some(text.as_str()),
        None => None,
    }
}

/// The LibRaw-backed decoder. It carries no state: each decode creates and
/// destroys its own LibRaw instance, stage by stage as `advance` directs.
#[derive(Debug, Clone, Copy)]
pub struct LibRawAdapter;

impl LibRawAdapter {
    /// The stage every decode starts with.
    pub fn first_stage(&self, mode: DecodeMode) -> (stage: Stage)
        ensures
            stage == pipeline(mode)[0],
    {
        Stage::Init
    }

    /// Whether `event` can come of performing `stage` of the `mode` decode.
    pub fn accepts(&self, mode: DecodeMode, stage: Stage, event: &StageEvent) -> (b: bool)
        ensures
            b == stage_accepts(mode, stage, *event),
    {
        let in_pipeline = match stage {
            Stage::Init | Stage::OpenFile => true,
            Stage::Unpack | Stage::ConfigureOutputSrgb16 | Stage::Process | Stage::MakeImage => !(
            mode == DecodeMode::Thumbnail),
            Stage::UnpackThumb | Stage::MakeThumb => mode == DecodeMode::Thumbnail,
            Stage::ConfigureHalfSize => mode == DecodeMode::Preview,
        };
        proof {
            let p = pipeline(mode);
            if in_pipeline {
                match mode {
                    DecodeMode::Full => {
                        assert(p[0] == Stage::Init && p[1] == Stage::OpenFile && p[2] == Stage::Unpack
                            && p[3] == Stage::ConfigureOutputSrgb16 && p[4] == Stage::Process && p[5]
                            == Stage::MakeImage);
                    },
                    DecodeMode::Thumbnail => {
                        assert(p[0] == Stage::Init && p[1] == Stage::OpenFile && p[2]
                            == Stage::UnpackThumb && p[3] == Stage::MakeThumb);
                    },
                    DecodeMode::Preview => {
                        assert(p[0] == Stage::Init && p[1] == Stage::OpenFile && p[2] == Stage::Unpack
                            && p[3] == Stage::ConfigureHalfSize && p[4] == Stage::ConfigureOutputSrgb16
                            && p[5] == Stage::Process && p[6] == Stage::MakeImage);
                    },
                }
            }
            assert(in_pipeline == p.contains(stage));
        }
        let fits = match event {
            StageEvent::Completed => !(stage == Stage::MakeImage) && !(stage == Stage::MakeThumb),
            StageEvent::InitFailed => stage == Stage::Init,
            StageEvent::OpenFailed { .. } => stage == Stage::OpenFile,
            StageEvent::Failed { .. } => stage == Stage::Unpack || stage == Stage::UnpackThumb
                || stage == Stage::Process || stage == Stage::MakeImage || stage
                == Stage::MakeThumb,
            StageEvent::Produced(_) => stage == Stage::MakeImage || stage == Stage::MakeThumb,
        };
        in_pipeline && fits
    }

    /// Decides what follows `event` at `stage` of the `mode` decode: the next
    /// stage after a success, or the outcome of the decode.
    pub fn advance(&self, mode: DecodeMode, stage: Stage, event: StageEvent) -> (step: Step)
        requires
            stage_accepts(mode, stage, event),
        ensures
            transition(mode, stage, event, step_view(step)),
    {
        match event {
            StageEvent::Completed => {
                let next = match stage {
                    Stage::Init => Stage::OpenFile,
                    Stage::OpenFile => if mode == DecodeMode::Thumbnail {
                        Stage::UnpackThumb
                    } else {
                        Stage::Unpack
                    },
                    Stage::UnpackThumb => Stage::MakeThumb,
                    Stage::Unpack => if mode == DecodeMode::Preview {
                        Stage::ConfigureHalfSize
                    } else {
                        Stage::ConfigureOutputSrgb16
                    },
                    Stage::ConfigureHalfSize => Stage::ConfigureOutputSrgb16,
                    Stage::ConfigureOutputSrgb16 => Stage::Process,
                    _ => Stage::MakeImage,
                };
                Step::Run(next)
            },
            StageEvent::InitFailed => {
                let ctx = stage_context_string(mode, stage);
                Step::Finish(Err(fail::Error::resource("libraw_init returned null").context(ctx.as_str())))
            },
            StageEvent::OpenFailed { code, strerror, path_exists } => {
                let ctx = stage_context_string(mode, stage);
                let e = classify_open_file_error(code, path_exists, string_as_str(&strerror));
                Step::Finish(Err(e.context(ctx.as_str())))
            },
            StageEvent::Failed { code, strerror } => {
                let ctx = stage_context_string(mode, stage);
                let e = libraw_error(code, stage_function_str(stage), string_as_str(&strerror));
                Step::Finish(Err(e.context(ctx.as_str())))
            },
            StageEvent::Produced(img) => {
                let ctx = stage_context_string(mode, stage);
                if stage == Stage::MakeImage {
                    Step::Finish(processed_image_to_buffer(&img).context(ctx.as_str()))
                } else {
                    let r0 = thumbnail_to_image(&img);
                    let ghost v0 = outcome_view(r0);
                    let r = r0.context(ctx.as_str());
                    assert(thumbnail_result(img, v0) && outcome_view(r) == context_outcome(v0, ctx@));
                    Step::Finish(r)
                }
            },
        }
    }
}

/// A decode of a file that does not exist fails with an I/O error; a file
/// that exists but that LibRaw reports unreadable fails as corrupt data.
/// Either way the error carries the context of the open stage.
pub proof fn lemma_open_failure_kinds(mode: DecodeMode, strerror: Option<String>, step: Result<
    Stage,
    Result<ImageView, ErrorView>,
>)
    ensures
        transition(
            mode,
            Stage::OpenFile,
            StageEvent::OpenFailed { code: LIBRAW_IO_ERROR, strerror, path_exists: false },
            step,
        ) ==> (step matches Err(Err(e)) && e.kind == Kind::Io),
        transition(
            mode,
            Stage::OpenFile,
            StageEvent::OpenFailed { code: LIBRAW_IO_ERROR, strerror, path_exists: true },
            step,
        ) ==> (step matches Err(Err(e)) && e.kind == Kind::Corrupt),
{
}

/// A LibRaw call that fails ends the decode with an error of the kind its
/// return code is classified as, whatever the stage.
pub proof fn lemma_failure_kind(
    mode: DecodeMode,
    stage: Stage,
    code: i32,
    strerror: Option<String>,
    step: Result<Stage, Result<ImageView, ErrorView>>,
)
    requires
        transition(mode, stage, StageEvent::Failed { code, strerror }, step),
    ensures
        step matches Err(Err(e)) && e.kind == libraw_error_kind(code),
{
}

/// LibRaw's return codes fall into the four kinds as follows: the I/O and
/// closed-input codes are `Io`, the memory and memory-pool codes `Resource`,
/// the unsupported-file, thumbnail and not-implemented codes `Unsupported`,
/// and every other code, damaged data among them, `Corrupt`. Opening a file
/// differs only in that an I/O failure on a file that exists is `Corrupt`.
pub proof fn lemma_libraw_error_kinds(rc: i32, path_exists: bool, strerror: Option<Seq<char>>)
    ensures
        (libraw_error_kind(rc) == Kind::Io) <==> (rc == -100009 || rc == -7),
        (libraw_error_kind(rc) == Kind::Resource) <==> (rc == -100007 || rc == -100013),
        (libraw_error_kind(rc) == Kind::Unsupported) <==> (rc == -2 || rc == -5 || rc == -6 || rc
            == -8 || rc == -9),
        (libraw_error_kind(rc) == Kind::Corrupt) <==> !(rc == -100009 || rc == -7 || rc
            == -100007 || rc == -100013 || rc == -2 || rc == -5 || rc == -6 || rc == -8 || rc
            == -9),
        (open_file_error_view(rc, path_exists, strerror).kind == Kind::Io) <==> ((rc == -100009
            && !path_exists) || rc == -7),
        (open_file_error_view(rc, path_exists, strerror).kind == Kind::Corrupt) <==> ((rc
            == -100009 && path_exists) || !(rc == -100009 || rc == -7 || rc == -100007 || rc
            == -100013 || rc == -2 || rc == -5 || rc == -6 || rc == -8 || rc == -9)),
        rc != -100009 ==> open_file_error_view(rc, path_exists, strerror).kind
            == libraw_error_kind(rc),
{
}

/// A 16-bit, three-channel bitmap from LibRaw of the right length becomes an
/// image of that bitmap's own width and height whose pixel `i` packs, as red,
/// green and blue, the most significant bytes of the first, second and third
/// host-order 16-bit samples of the 6-byte group at `6i` of LibRaw's data.
pub proof fn lemma_processed_image_converts(img: ProcessedImage)
    requires
        img.format == LIBRAW_IMAGE_BITMAP,
        img.bits == 16,
        img.colors == 3,
        img.width * img.height * 6 <= usize::MAX,
        img.data@.len() == img.width * img.height * 6,
    ensures
        processed_image_outcome(img) is Ok,
        ({
            let v = processed_image_outcome(img)->Ok_0;
            &&& v.width == img.width
            &&& v.height == img.height
            &&& v.pixels.len() == img.width * img.height
            &&& forall|i: int|
                0 <= i < img.width * img.height ==> #[trigger] v.pixels[i] == host_high_byte(
                    img.data@,
                    6 * i,
                ) * 65536 + host_high_byte(img.data@, 6 * i + 2) * 256 + host_high_byte(
                    img.data@,
                    6 * i + 4,
                )
        }),
{
    lemma_rgb16_converts(img.data@, img.width as u32, img.height as u32);
}

/// Retrieving the processed image ends a decode the same way whichever decode
/// it is: full and preview decodes turn the same produced image into the same
/// image, and a well-formed 16-bit bitmap becomes an image of its own width
/// and height holding its samples as `lemma_processed_image_converts` states.
pub proof fn lemma_make_image_independent_of_mode(
    img: ProcessedImage,
    mode: DecodeMode,
    step: Result<Stage, Result<ImageView, ErrorView>>,
    full: Result<Stage, Result<ImageView, ErrorView>>,
)
    requires
        transition(mode, Stage::MakeImage, StageEvent::Produced(img), step),
        transition(DecodeMode::Full, Stage::MakeImage, StageEvent::Produced(img), full),
    ensures
        (step matches Err(Ok(v)) && v.wf()) <==> (full matches Err(Ok(w)) && w.wf()),
        step matches Err(Ok(v)) ==> full == step,
        step matches Err(Ok(v)) ==> v.width == img.width && v.height == img.height,
        img.format == LIBRAW_IMAGE_BITMAP && img.bits == 16 && img.colors == 3 && img.width
            * img.height * 6 <= usize::MAX && img.data@.len() == img.width * img.height * 6
            ==> (step matches Err(Ok(v)) && v.width == img.width && v.height == img.height
            && forall|i: int|
            0 <= i < img.width * img.height ==> #[trigger] v.pixels[i] == host_high_byte(
                img.data@,
                6 * i,
            ) * 65536 + host_high_byte(img.data@, 6 * i + 2) * 256 + host_high_byte(
                img.data@,
                6 * i + 4,
            )),
{
    if img.format == LIBRAW_IMAGE_BITMAP && img.bits == 16 && img.colors == 3 && img.width
        * img.height * 6 <= usize::MAX && img.data@.len() == img.width * img.height * 6 {
        lemma_processed_image_converts(img);
    }
    lemma_outcomes_well_formed(
        img.width as u32,
        img.height as u32,
        Seq::empty(),
        img.data@,
    );
}

} // verus!
