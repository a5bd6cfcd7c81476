//! The per-file processing pipeline and the batch driver: dispatch by
//! extension, decode, crop-to-fill resize, PNG encode.  Every outcome is
//! pinned to a spec-level function of the inputs, so processing is
//! deterministic by contract.

use vstd::prelude::*;
use crate::codec::{decode_rgba, encode_png, png_encoded, resize_rgba, std_decoded};
use crate::dispatch::{class_of_name, classify_name, FileClass};
use crate::geometry::{center_off, center_offset, fill_dims, fill_scaled};
use crate::grid::{crop, crop_bytes, PixelGrid};
use crate::THUMB_SIZE;

verus! {

/// Why one file failed.  Every error is file-scoped: it is reported for
/// that file and never aborts the batch.
#[derive(Clone, Copy, Debug, PartialEq, Eq, Structural)]
pub enum ThumbError {
    /// The HEIF container could not be opened.
    ContainerOpen,
    /// The HEIF container has no primary image.
    NoPrimaryImage,
    /// The HEIF payload could not be decoded, or decoded to a degenerate
    /// (zero-sized) image.
    HeifDecode,
    /// The HEIF decoder returned a planar layout instead of the requested
    /// interleaved RGBA plane.
    MissingInterleavedPlane,
    /// The decoded plane's length is not exactly `width * height * 4`.
    BufferSizeMismatch,
    /// A standard-format file could not be decoded, or decoded to a
    /// degenerate (zero-sized) image.
    StandardDecode,
    /// The thumbnail could not be encoded as PNG.
    Encode,
    /// The encoded thumbnail could not be written out.
    Write,
}

/// The view of a processing result: encoded PNG bytes or the error.
pub open spec fn result_view(r: Result<Vec<u8>, ThumbError>) -> Result<Seq<u8>, ThumbError> {
    match r {
        Ok(v) => Ok(v@),
        Err(e) => Err(e),
    }
}

/// The thumbnail pixel bytes of a decoded `w * h` RGBA grid: scale so the
/// shorter side is exactly `THUMB_SIZE`, then cut the centred
/// `THUMB_SIZE * THUMB_SIZE` square out of the scaled grid.
pub open spec fn thumb_bytes(w: u32, h: u32, data: Seq<u8>) -> Seq<u8> {
    let dims = fill_scaled(w as int, h as int, THUMB_SIZE as int);
    let scaled = crate::codec::resized(w, h, data, dims.0 as u32, dims.1 as u32);
    crop_bytes(
        dims.0,
        scaled,
        center_off(dims.0, THUMB_SIZE as int),
        center_off(dims.1, THUMB_SIZE as int),
        THUMB_SIZE as int,
        THUMB_SIZE as int,
    )
}

/// What finishing a well-formed decoded grid yields: its PNG-encoded
/// `THUMB_SIZE * THUMB_SIZE` thumbnail, or an encode error.
pub open spec fn grid_outcome(w: u32, h: u32, data: Seq<u8>) -> Result<Seq<u8>, ThumbError> {
    match png_encoded(THUMB_SIZE, THUMB_SIZE, thumb_bytes(w, h, data)) {
        Some(p) => Ok(p),
        None => Err(ThumbError::Encode),
    }
}

/// What the standard decode path yields for given file bytes.
pub open spec fn standard_outcome(bytes: Seq<u8>) -> Result<Seq<u8>, ThumbError> {
    match std_decoded(bytes) {
        Some((w, h, data)) => if w >= 1 && h >= 1 {
            grid_outcome(w, h, data)
        } else {
            Err(ThumbError::StandardDecode)
        },
        None => Err(ThumbError::StandardDecode),
    }
}

/// What the HEIF path yields from the container decoder's interleaved
/// plane: the buffer-size invariant is validated before anything else.
pub open spec fn heif_plane_outcome(w: u32, h: u32, plane: Seq<u8>) -> Result<Seq<u8>, ThumbError> {
    if plane.len() != w * h * 4 {
        Err(ThumbError::BufferSizeMismatch)
    } else if w == 0 || h == 0 {
        Err(ThumbError::HeifDecode)
    } else {
        grid_outcome(w, h, plane)
    }
}

/// Crop-to-fill resize and PNG encode of a well-formed grid.
pub fn make_thumbnail(g: &PixelGrid) -> (r: Result<Vec<u8>, ThumbError>)
    requires
        g.wf(),
    ensures
        result_view(r) == grid_outcome(g.width, g.height, g.data@),
{
    let dims = fill_dims(g.width, g.height, THUMB_SIZE);
    let sw = dims.0;
    let sh = dims.1;
    let cx = center_offset(sw, THUMB_SIZE);
    let cy = center_offset(sh, THUMB_SIZE);
    let scaled = resize_rgba(g, sw, sh);
    let cropped = crop(&scaled, cx, cy, THUMB_SIZE, THUMB_SIZE);
    proof {
        assert(cropped.data@ == thumb_bytes(g.width, g.height, g.data@));
    }
    match encode_png(&cropped) {
        Some(p) => Ok(p),
        None => Err(ThumbError::Encode),
    }
}

/// The standard decode path: decode the file bytes with the generic codec,
/// then finish with the shared resize and encode step.
pub fn process_standard(bytes: &Vec<u8>) -> (r: Result<Vec<u8>, ThumbError>)
    ensures
        result_view(r) == standard_outcome(bytes@),
{
    match decode_rgba(bytes) {
        Some(g) => {
            if g.width == 0 || g.height == 0 {
                Err(ThumbError::StandardDecode)
            } else {
                make_thumbnail(&g)
            }
        },
        None => Err(ThumbError::StandardDecode),
    }
}

/// The tail of the HEIF decode path, from the container decoder's
/// interleaved RGBA plane on: validate the buffer-size invariant, build the
/// pixel grid, then finish with the shared resize and encode step.
pub fn process_heif_plane(width: u32, height: u32, plane: Vec<u8>) -> (r: Result<Vec<u8>, ThumbError>)
    ensures
        result_view(r) == heif_plane_outcome(width, height, plane@),
{
    proof {
        assert((width as int) * (height as int) * 4 < 0x40000000000000000int) by (nonlinear_arith)
            requires 0 <= width < 0x100000000int, 0 <= height < 0x100000000int;
    }
    let expected: u128 = (width as u128) * (height as u128) * 4;
    if (plane.len() as u128) != expected {
        return Err(ThumbError::BufferSizeMismatch);
    }
    if width == 0 || height == 0 {
        return Err(ThumbError::HeifDecode);
    }
    let g = match PixelGrid::new(width, height, plane) {
        Some(g) => g,
        None => vstd::pervasive::unreached(),
    };
    make_thumbnail(&g)
}

/// One file handed to the batch driver: its name, its raw bytes, and, for
/// a HEIF-classified file, what the container decoder produced for it
/// (the interleaved RGBA plane with its dimensions, or the step it failed
/// at).
pub struct FileInput {
    pub name: Vec<u8>,
    pub bytes: Vec<u8>,
    pub heif: Option<Result<(u32, u32, Vec<u8>), ThumbError>>,
}

/// The mathematical view of one file input.
pub ghost struct FileInputView {
    pub name: Seq<u8>,
    pub bytes: Seq<u8>,
    pub heif: Option<Result<(u32, u32, Seq<u8>), ThumbError>>,
}

impl View for FileInput {
    type V = FileInputView;

    open spec fn view(&self) -> FileInputView {
        FileInputView {
            name: self.name@,
            bytes: self.bytes@,
            heif: match self.heif {
                Some(Ok((w, h, p))) => Some(Ok((w, h, p@))),
                Some(Err(e)) => Some(Err(e)),
                None => None,
            },
        }
    }
}

/// Terminal state of one file: its encoded thumbnail, its error, or a
/// skip for an unsupported extension (not an error).
pub enum Outcome {
    /// The PNG thumbnail to write for this file.
    Succeeded(Vec<u8>),
    /// The file was attempted and failed; the batch goes on.
    Failed(ThumbError),
    /// The extension is not a supported image format; no output is
    /// produced for this file.
    Skipped,
}

impl View for Outcome {
    /// `None` is a skip; `Some` is the processing result.
    type V = Option<Result<Seq<u8>, ThumbError>>;

    open spec fn view(&self) -> Option<Result<Seq<u8>, ThumbError>> {
        match self {
            Outcome::Succeeded(p) => Some(Ok(p@)),
            Outcome::Failed(e) => Some(Err(*e)),
            Outcome::Skipped => None,
        }
    }
}

/// A file input is consistent when the container decoder's result is
/// present exactly for HEIF-classified names.
pub open spec fn input_consistent(i: FileInputView) -> bool {
    (class_of_name(i.name) == FileClass::Heif) <==> (i.heif is Some)
}

/// The outcome one consistent file input maps to: extension-only dispatch
/// to the standard path, the HEIF path, or a skip.
pub open spec fn file_outcome(i: FileInputView) -> Option<Result<Seq<u8>, ThumbError>> {
    match class_of_name(i.name) {
        FileClass::Standard => Some(standard_outcome(i.bytes)),
        FileClass::Heif => match i.heif {
            Some(Ok((w, h, p))) => Some(heif_plane_outcome(w, h, p)),
            Some(Err(e)) => Some(Err(e)),
            None => vstd::pervasive::arbitrary(),
        },
        FileClass::Unsupported => None,
    }
}

/// Copy a byte vector.
fn copy_bytes(v: &Vec<u8>) -> (r: Vec<u8>)
    ensures
        r@ == v@,
{
    let mut out: Vec<u8> = Vec::new();
    let mut k: usize = 0;
    while k < v.len()
        invariant
            k <= v.len(),
            out@ == v@.subrange(0, k as int),
        decreases v.len() - k,
    {
        out.push(v[k]);
        proof {
            assert(out@ =~= v@.subrange(0, k + 1));
        }
        k = k + 1;
    }
    proof {
        assert(out@ =~= v@);
    }
    out
}

/// Process one file to its terminal state.
pub fn process_file(input: &FileInput) -> (r: Outcome)
    requires
        input_consistent(input@),
    ensures
        r@ == file_outcome(input@),
{
    match classify_name(&input.name) {
        FileClass::Standard => match process_standard(&input.bytes) {
            Ok(p) => Outcome::Succeeded(p),
            Err(e) => Outcome::Failed(e),
        },
        FileClass::Heif => match &input.heif {
            Some(Ok((w, h, p))) => match process_heif_plane(*w, *h, copy_bytes(p)) {
                Ok(png) => Outcome::Succeeded(png),
                Err(e) => Outcome::Failed(e),
            },
            Some(Err(e)) => Outcome::Failed(*e),
            None => vstd::pervasive::unreached(),
        },
        FileClass::Unsupported => Outcome::Skipped,
    }
}

/// The views of a sequence of file inputs.
pub open spec fn input_views(files: Seq<FileInput>) -> Seq<FileInputView> {
    files.map_values(|f: FileInput| f@)
}

/// The views of a sequence of outcomes.
pub open spec fn outcome_views(outs: Seq<Outcome>) -> Seq<Option<Result<Seq<u8>, ThumbError>>> {
    outs.map_values(|o: Outcome| o@)
}

/// The outcome sequence a batch of inputs maps to, in input order.
pub open spec fn batch_outcomes(inputs: Seq<FileInputView>) -> Seq<Option<Result<Seq<u8>, ThumbError>>> {
    inputs.map_values(|i: FileInputView| file_outcome(i))
}

/// Whether an outcome sequence is the one a batch of inputs maps to.
pub open spec fn batch_result_matches(
    inputs: Seq<FileInputView>,
    r: Seq<Option<Result<Seq<u8>, ThumbError>>>,
) -> bool {
    &&& r.len() == inputs.len()
    &&& forall|i: int| 0 <= i < r.len() ==> r[i] == file_outcome(#[trigger] inputs[i])
}

/// The batch driver: process every file, strictly one at a time in input
/// order, collecting each file's terminal state.  No outcome aborts the
/// batch.
pub fn run_batch(files: &Vec<FileInput>) -> (r: Vec<Outcome>)
    requires
        forall|i: int| 0 <= i < files@.len() ==> input_consistent(#[trigger] files@[i]@),
    ensures
        batch_result_matches(input_views(files@), outcome_views(r@)),
{
    let mut out: Vec<Outcome> = Vec::new();
    let mut k: usize = 0;
    while k < files.len()
        invariant
            k <= files@.len(),
            out@.len() == k,
            forall|i: int| 0 <= i < files@.len() ==> input_consistent(#[trigger] files@[i]@),
            forall|i: int| 0 <= i < k ==> (#[trigger] out@[i])@ == file_outcome(files@[i]@),
        decreases files@.len() - k,
    {
        let o = process_file(&files[k]);
        out.push(o);
        k = k + 1;
    }
    proof {
        assert forall|i: int| 0 <= i < out@.len() implies
            outcome_views(out@)[i] == file_outcome(input_views(files@)[i]) by {
            assert(out@[i]@ == file_outcome(files@[i]@));
        }
    }
    out
}

/// Failure isolation: a file's outcome is a function of that file's input
/// alone, so another file's corruption or failure can never change it.
pub proof fn lemma_failure_isolation(a: Seq<FileInputView>, b: Seq<FileInputView>, i: int)
    requires
        a.len() == b.len(),
        0 <= i < a.len(),
        a[i] == b[i],
    ensures
        batch_outcomes(a)[i] == batch_outcomes(b)[i],
{
}

/// Idempotence: any two outcome sequences that a batch over the same
/// inputs admits are equal, so re-running an unchanged batch reproduces
/// byte-identical thumbnails.  (`run_batch` ensures exactly
/// `batch_result_matches` for its result.)
pub proof fn lemma_batch_idempotent(
    inputs: Seq<FileInputView>,
    r1: Seq<Option<Result<Seq<u8>, ThumbError>>>,
    r2: Seq<Option<Result<Seq<u8>, ThumbError>>>,
)
    requires
        batch_result_matches(inputs, r1),
        batch_result_matches(inputs, r2),
    ensures
        r1 == r2,
{
    assert forall|i: int| 0 <= i < r1.len() implies r1[i] == r2[i] by {
        assert(r1[i] == file_outcome(inputs[i]));
        assert(r2[i] == file_outcome(inputs[i]));
    }
    assert(r1 =~= r2);
}

/// An unsupported extension is a skip, never an error and never a
/// thumbnail: no output is produced for such a file.
pub proof fn lemma_unsupported_is_skipped(i: FileInputView)
    requires
        class_of_name(i.name) == FileClass::Unsupported,
    ensures
        file_outcome(i) is None,
{
}

/// A plane whose length is not exactly `width * height * 4` is rejected
/// as a buffer-size mismatch before any pixel is touched.
pub proof fn lemma_mismatched_plane_rejected(w: u32, h: u32, plane: Seq<u8>)
    requires
        plane.len() != w * h * 4,
    ensures
        heif_plane_outcome(w, h, plane) == Err::<Seq<u8>, ThumbError>(ThumbError::BufferSizeMismatch),
{
}

/// No letterboxing: the pixel grid behind every successful outcome is
/// exactly `THUMB_SIZE * THUMB_SIZE`, whatever the source dimensions.
pub proof fn lemma_thumbnail_is_square(w: u32, h: u32, data: Seq<u8>)
    requires
        1 <= w,
        1 <= h,
    ensures
        thumb_bytes(w, h, data).len() == THUMB_SIZE * THUMB_SIZE * 4,
        grid_outcome(w, h, data) is Ok ==> grid_outcome(w, h, data) ==
            Ok::<Seq<u8>, ThumbError>(
                png_encoded(THUMB_SIZE, THUMB_SIZE, thumb_bytes(w, h, data)).unwrap(),
            ),
{
}

} // verus!
