//! Rendered counter images: the digit compositor, the template compositor,
//! and the in-memory PNG form they produce.
//!
//! Rendering is pure and deterministic: the contracts pin every image's bytes
//! to a function of the count, the assets and (for the total image) the
//! season of the date, so identical inputs always produce byte-identical
//! output. Counts are unsigned, so a negative count cannot reach the
//! compositor at all.

use vstd::prelude::*;

use crate::assets::{Assets, GlyphSet, TOTAL_X_OFFSET};
use crate::digits::{digits_of, digits_vec, lemma_digits_len, n_digits};
use crate::raster::{
    blit, decode_h, decode_ok, decode_px, decode_rgba, decode_w, encode_png, height_of,
    new_canvas, png_of, px_of, raster_height, raster_width, width_of, zero_px, Raster,
};
use crate::season::{season_choice, seasonal_total_for, Date};

verus! {

/// The side length of the blank startup fallback total image.
pub const FALLBACK_DIM: u32 = 128;

/// An image held in memory as its PNG-encoded bytes.
#[derive(Debug)]
pub struct CountImage {
    body: Vec<u8>,
}

impl View for CountImage {
    type V = Seq<u8>;

    /// The PNG bytes of the image.
    closed spec fn view(&self) -> Seq<u8> {
        self.body@
    }
}

impl Clone for CountImage {
    fn clone(&self) -> (r: Self)
        ensures
            r@ == self@,
    {
        CountImage { body: self.body.clone() }
    }
}

impl CountImage {
    /// A copy of the encoded image bytes.
    pub fn get_image(&self) -> (r: Vec<u8>)
        ensures
            r@ == self@,
    {
        self.body.clone()
    }

    /// The startup fallback total image: a blank square canvas, used until a
    /// prior asset or the first refresh replaces it.
    pub fn total_new() -> (r: Self)
        ensures
            r@ == png_of(FALLBACK_DIM as nat, FALLBACK_DIM as nat, zero_px(FALLBACK_DIM as nat, FALLBACK_DIM as nat)),
    {
        let canvas = new_canvas(FALLBACK_DIM, FALLBACK_DIM);
        CountImage { body: encode_png(&canvas) }
    }

    /// An image from encoded bytes, re-encoded as an RGBA PNG: the startup
    /// path for a total image kept from an earlier run. `None` exactly when
    /// the bytes are corrupt or the decoded image has a zero dimension.
    pub fn from_image_bytes(bytes: &Vec<u8>) -> (r: Option<Self>)
        ensures
            r is Some <==> decode_ok(bytes@) && 0 < decode_w(bytes@) && 0 < decode_h(bytes@),
            r matches Some(img) ==> img@ == png_of(
                decode_w(bytes@),
                decode_h(bytes@),
                decode_px(bytes@),
            ),
    {
        match decode_rgba(bytes.as_slice()) {
            Some(raster) => {
                if raster_width(&raster) == 0 || raster_height(&raster) == 0 {
                    None
                } else {
                    Some(CountImage { body: encode_png(&raster) })
                }
            },
            None => None,
        }
    }

    /// The digit strip image for a count.
    pub fn from_count(glyphs: &GlyphSet, count: u128) -> (r: Self)
        ensures
            r@ == glyphs.count_png(count as nat),
    {
        let data = Self::create_count_image(glyphs, count);
        let body = encode_png(&data);
        CountImage { body }
    }

    /// The composed total image for a count: the digit strip overlaid on the
    /// seasonal header template of `date`.
    pub fn total_from_count(assets: &Assets, count: u128, date: Date) -> (r: Self)
        requires
            date.valid(),
        ensures
            r@ == assets.total_png(count as nat, season_choice(date)),
    {
        let data = Self::create_total_image(assets, count, date);
        let body = encode_png(&data);
        CountImage { body }
    }

    /// Renders the digit strip for a count: each decimal digit's glyph
    /// composited at `x = index * glyph-width` on a fresh canvas of width
    /// `glyph-width * digit-count` and glyph height.
    pub fn create_count_image(glyphs: &GlyphSet, count: u128) -> (r: Raster)
        ensures
            width_of(r) == glyphs.strip_w(n_digits(count as nat)),
            height_of(r) == glyphs.gh(),
            px_of(r) == glyphs.strip_px(count as nat),
            0 < width_of(r),
            0 < height_of(r),
    {
        let digits = digits_vec(count);
        let ghost dseq = digits@.map_values(|d: u8| d as nat);
        proof {
            lemma_digits_len(count as nat);
        }
        let gw = glyphs.width();
        let gh = glyphs.height();
        let nd = digits.len();
        assert(1 <= (gw as int) * (nd as int) <= 39000) by (nonlinear_arith)
            requires
                1 <= gw <= 1000,
                1 <= nd <= 39,
        ;
        let w: u32 = gw * (nd as u32);
        assert(w as nat == glyphs.strip_w(dseq.len())) by (nonlinear_arith)
            requires
                w == gw * nd,
                gw as nat == glyphs.gw(),
                nd == dseq.len(),
                glyphs.strip_w(dseq.len()) == glyphs.gw() * dseq.len(),
        ;
        assert(4 * (w as int) * (gh as int) < 0x8000_0000) by (nonlinear_arith)
            requires
                w <= 39000,
                gh <= 1000,
        ;
        let mut canvas = new_canvas(w, gh);
        let mut i: usize = 0;
        while i < nd
            invariant
                i <= nd,
                nd == digits@.len(),
                1 <= nd <= 39,
                dseq == digits@.map_values(|d: u8| d as nat),
                dseq == digits_of(count as nat),
                forall|j: int| 0 <= j < nd ==> digits@[j] < 10,
                gw as nat == glyphs.gw(),
                gh as nat == glyphs.gh(),
                0 < gw <= 1000,
                0 < gh <= 1000,
                1 <= w,
                w == gw * nd,
                w as nat == glyphs.strip_w(dseq.len()),
                width_of(canvas) == w as nat,
                height_of(canvas) == gh as nat,
                px_of(canvas) == glyphs.strip_px_upto(dseq, i as int),
            decreases nd - i,
        {
            let d = digits[i];
            assert(0 <= (i as int) * (gw as int) <= 39000) by (nonlinear_arith)
                requires
                    0 <= i <= 39,
                    0 < gw <= 1000,
            ;
            let x: i64 = (i as i64) * (gw as i64);
            blit(&mut canvas, glyphs.glyph(d), x, 0);
            proof {
                assert(dseq[i as int] == digits@[i as int] as nat);
                assert(x as int == (i as int) * (glyphs.gw() as int)) by (nonlinear_arith)
                    requires
                        x == (i as i64) * (gw as i64),
                        0 <= i <= 39,
                        0 < gw <= 1000,
                        gw as nat == glyphs.gw(),
                ;
            }
            i = i + 1;
        }
        proof {
            assert(px_of(canvas) == glyphs.strip_px_upto(dseq, dseq.len() as int));
            assert(glyphs.strip_px(count as nat) == glyphs.strip_px_upto(
                digits_of(count as nat),
                digits_of(count as nat).len() as int,
            ));
        }
        canvas
    }

    /// Renders the composed total image: the digit strip overlaid on the
    /// seasonal template at `x = `[`TOTAL_X_OFFSET`], vertically centered.
    pub fn create_total_image(assets: &Assets, count: u128, date: Date) -> (r: Raster)
        requires
            date.valid(),
        ensures
            px_of(r) == assets.total_px(count as nat, season_choice(date)),
            width_of(r) == width_of(assets.template_of(season_choice(date))),
            height_of(r) == height_of(assets.template_of(season_choice(date))),
            0 < width_of(r),
            0 < height_of(r),
    {
        let number = Self::create_count_image(assets.glyphs(), count);
        let mut base = seasonal_total_for(assets, date);
        let th = crate::raster::raster_height(&base);
        let nh = crate::raster::raster_height(&number);
        let y: i64 = ((th - nh) / 2) as i64;
        blit(&mut base, &number, TOTAL_X_OFFSET, y);
        base
    }
}

impl Default for CountImage {
    /// The default image is the startup fallback total image.
    fn default() -> (r: Self)
        ensures
            r@ == png_of(FALLBACK_DIM as nat, FALLBACK_DIM as nat, zero_px(FALLBACK_DIM as nat, FALLBACK_DIM as nat)),
    {
        Self::total_new()
    }
}

} // verus!
