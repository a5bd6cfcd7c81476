//! The generic raster codec, consumed as three opaque capabilities:
//! decode bytes to a pixel grid, resize a pixel grid, encode a pixel grid
//! to PNG bytes.  Each is a trusted wrapper around the `image` crate; what
//! each call returns for given arguments is fixed by an uninterpreted
//! function of those arguments alone, so the whole pipeline is a
//! deterministic function of the input bytes.

use vstd::prelude::*;
use crate::grid::PixelGrid;

verus! {

/// What decoding a byte string as a standard raster format yields: `None`
/// on a decode failure, otherwise width, height and the interleaved RGBA
/// bytes of the decoded image.
pub uninterp spec fn std_decoded(bytes: Seq<u8>) -> Option<(u32, u32, Seq<u8>)>;

/// The interleaved RGBA bytes of a `w * h` grid resampled to `nw * nh`
/// with the fixed high-quality (Lanczos) filter.
pub uninterp spec fn resized(w: u32, h: u32, data: Seq<u8>, nw: u32, nh: u32) -> Seq<u8>;

/// The PNG serialization of a `w * h` interleaved RGBA grid, or `None` if
/// the encoder rejects it.
pub uninterp spec fn png_encoded(w: u32, h: u32, data: Seq<u8>) -> Option<Seq<u8>>;

/// Relies on `image::load_from_memory` and `DynamicImage::to_rgba8`: the
/// decoded image is a function of the input bytes alone, and an
/// `ImageBuffer`'s raw vector holds exactly `width * height * 4` bytes for
/// four-channel `u8` pixels.
#[verifier::external_body]
pub(crate) fn decode_rgba(bytes: &Vec<u8>) -> (r: Option<PixelGrid>)
    ensures
        (r is Some) <==> (std_decoded(bytes@) is Some),
        match r {
            Some(g) => {
                &&& std_decoded(bytes@) == Some((g.width, g.height, g.data@))
                &&& g.data@.len() == g.width * g.height * 4
            },
            None => true,
        },
{
    match image::load_from_memory(bytes.as_slice()) {
        Ok(img) => {
            let rgba = img.to_rgba8();
            let (width, height) = rgba.dimensions();
            Some(PixelGrid { width, height, data: rgba.into_raw() })
        },
        Err(_) => None,
    }
}

/// Relies on `image::imageops::resize`: the result is a `nw * nh` buffer,
/// a function of the source pixels and target dimensions alone.
#[verifier::external_body]
pub(crate) fn resize_rgba(g: &PixelGrid, nw: u32, nh: u32) -> (r: PixelGrid)
    requires
        g.wf(),
        nw >= 1,
        nh >= 1,
    ensures
        r.width == nw,
        r.height == nh,
        r.wf(),
        r.data@ == resized(g.width, g.height, g.data@, nw, nh),
{
    let buf = image::RgbaImage::from_raw(g.width, g.height, g.data.clone())
        .expect("well-formed grid");
    let out = image::imageops::resize(&buf, nw, nh, image::imageops::FilterType::Lanczos3);
    PixelGrid { width: nw, height: nh, data: out.into_raw() }
}

/// Relies on `DynamicImage::write_to` with the PNG format: the encoded
/// bytes are a function of the pixel grid alone.
#[verifier::external_body]
pub(crate) fn encode_png(g: &PixelGrid) -> (r: Option<Vec<u8>>)
    requires
        g.wf(),
    ensures
        (r is Some) <==> (png_encoded(g.width, g.height, g.data@) is Some),
        match r {
            Some(b) => png_encoded(g.width, g.height, g.data@) == Some(b@),
            None => true,
        },
{
    let buf = image::RgbaImage::from_raw(g.width, g.height, g.data.clone())
        .expect("well-formed grid");
    let mut out: Vec<u8> = Vec::new();
    let res = image::DynamicImage::ImageRgba8(buf)
        .write_to(&mut std::io::Cursor::new(&mut out), image::ImageFormat::Png);
    match res {
        Ok(()) => Some(out),
        Err(_) => None,
    }
}

} // verus!
