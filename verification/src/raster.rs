//! The raster layer: RGBA images and the operations on them, supplied by the
//! `image` crate behind trusted declarations.
//!
//! A [`Raster`] holds an `image::RgbaImage` in a field the verifier does not
//! see (the crate's `ImageBuffer` type cannot be declared to the verifier
//! because of the trait bound on its type parameter). This module gives names
//! to what a raster holds — its samples (`px_of`) and its dimensions
//! (`width_of`, `height_of`) — and to what the operations compute
//! (`overlay_px`, `png_of`). Every contract of the library speaks of rasters
//! through these names.

use vstd::prelude::*;

verus! {

/// An RGBA raster image. Wraps `image::RgbaImage`, which the verifier treats
/// as opaque; contracts describe a raster through [`px_of`], [`width_of`] and
/// [`height_of`].
#[verifier::external_body]
pub struct Raster {
    img: image::RgbaImage,
}

/// The RGBA samples a raster holds, row-major, four bytes per pixel.
pub uninterp spec fn px_of(img: Raster) -> Seq<u8>;

/// The width of a raster, in pixels.
pub uninterp spec fn width_of(img: Raster) -> nat;

/// The height of a raster, in pixels.
pub uninterp spec fn height_of(img: Raster) -> nat;

/// The samples of a base raster of dimensions `bw` x `bh` after a raster of
/// dimensions `tw` x `th` with samples `top` is composited onto it at
/// `(x, y)` with source-over alpha blending, clipped to the base's bounds.
pub uninterp spec fn overlay_px(
    base: Seq<u8>,
    bw: nat,
    bh: nat,
    top: Seq<u8>,
    tw: nat,
    th: nat,
    x: int,
    y: int,
) -> Seq<u8>;

/// The PNG encoding of a `w` x `h` RGBA raster with samples `px`.
pub uninterp spec fn png_of(w: nat, h: nat, px: Seq<u8>) -> Seq<u8>;

/// Whether an encoded image decodes successfully. Together with
/// [`decode_w`], [`decode_h`] and [`decode_px`] this names what
/// `image::load_from_memory` computes: decoding reads nothing but the bytes,
/// so success, dimensions and samples are functions of the bytes alone.
pub uninterp spec fn decode_ok(bytes: Seq<u8>) -> bool;

/// The width of the raster an encoded image decodes to.
pub uninterp spec fn decode_w(bytes: Seq<u8>) -> nat;

/// The height of the raster an encoded image decodes to.
pub uninterp spec fn decode_h(bytes: Seq<u8>) -> nat;

/// The RGBA samples of the raster an encoded image decodes to.
pub uninterp spec fn decode_px(bytes: Seq<u8>) -> Seq<u8>;

/// An all-zero sample buffer for a `w` x `h` RGBA raster.
pub open spec fn zero_px(w: nat, h: nat) -> Seq<u8> {
    Seq::<u8>::new(4 * w * h, |i: int| 0u8)
}

impl Raster {
    /// The width in pixels.
    pub fn width(&self) -> (w: u32)
        ensures
            w as nat == width_of(*self),
    {
        raster_width(self)
    }

    /// The height in pixels.
    pub fn height(&self) -> (h: u32)
        ensures
            h as nat == height_of(*self),
    {
        raster_height(self)
    }
}

/// Relies on `image::ImageBuffer::new`: a `w` x `h` RGBA canvas with every
/// sample zero. `new` panics only when the buffer length overflows `usize`,
/// which the precondition rules out.
#[verifier::external_body]
pub(crate) fn new_canvas(w: u32, h: u32) -> (r: Raster)
    requires
        4 * (w as int) * (h as int) < 0x8000_0000,
    ensures
        width_of(r) == w as nat,
        height_of(r) == h as nat,
        px_of(r) == zero_px(w as nat, h as nat),
{
    Raster { img: image::RgbaImage::new(w, h) }
}

/// Relies on `image::ImageBuffer::width`.
#[verifier::external_body]
pub(crate) fn raster_width(img: &Raster) -> (w: u32)
    ensures
        w as nat == width_of(*img),
{
    img.img.width()
}

/// Relies on `image::ImageBuffer::height`.
#[verifier::external_body]
pub(crate) fn raster_height(img: &Raster) -> (h: u32)
    ensures
        h as nat == height_of(*img),
{
    img.img.height()
}

/// Relies on `image::imageops::overlay`: composites `top` onto `base` at
/// `(x, y)` with source-over alpha blending, clipping to the base's bounds;
/// the base keeps its dimensions, and the call never panics (out-of-range
/// placements are clipped away).
#[verifier::external_body]
pub(crate) fn blit(base: &mut Raster, top: &Raster, x: i64, y: i64)
    ensures
        width_of(*final(base)) == width_of(*old(base)),
        height_of(*final(base)) == height_of(*old(base)),
        px_of(*final(base)) == overlay_px(
            px_of(*old(base)),
            width_of(*old(base)),
            height_of(*old(base)),
            px_of(*top),
            width_of(*top),
            height_of(*top),
            x as int,
            y as int,
        ),
{
    image::imageops::overlay(&mut base.img, &top.img, x, y);
}

/// Relies on `image::ImageBuffer::write_to` with `ImageFormat::Png`: the PNG
/// bytes are a deterministic function of the raster's dimensions and samples.
/// Writing to an in-memory cursor cannot raise an I/O error, and the PNG
/// encoder fails only on a zero width or height, which the precondition
/// rules out.
#[verifier::external_body]
pub(crate) fn encode_png(img: &Raster) -> (r: Vec<u8>)
    requires
        width_of(*img) > 0,
        height_of(*img) > 0,
    ensures
        r@ == png_of(width_of(*img), height_of(*img), px_of(*img)),
{
    let mut buffer = std::io::Cursor::new(Vec::new());
    img.img.write_to(&mut buffer, image::ImageFormat::Png).unwrap();
    buffer.into_inner()
}

/// Relies on `image::load_from_memory` and `DynamicImage::to_rgba8`: decodes
/// an encoded image into an RGBA raster, or reports failure. Whether the
/// bytes decode, and what they decode to, depend on the bytes alone.
#[verifier::external_body]
pub(crate) fn decode_rgba(bytes: &[u8]) -> (r: Option<Raster>)
    ensures
        r is Some <==> decode_ok(bytes@),
        r matches Some(img) ==> width_of(img) == decode_w(bytes@) && height_of(img) == decode_h(
            bytes@,
        ) && px_of(img) == decode_px(bytes@),
{
    match image::load_from_memory(bytes) {
        Ok(img) => Some(Raster { img: img.to_rgba8() }),
        Err(_) => None,
    }
}

/// Relies on `image::ImageBuffer`'s `Clone`: the copy has the same dimensions
/// and samples.
#[verifier::external_body]
pub(crate) fn clone_raster(img: &Raster) -> (r: Raster)
    ensures
        width_of(r) == width_of(*img),
        height_of(r) == height_of(*img),
        px_of(r) == px_of(*img),
{
    Raster { img: img.img.clone() }
}

} // verus!
