//! The glyph and template store: the process-lifetime raster assets.
//!
//! A [`GlyphSet`] holds the ten digit glyphs, all of one size; [`Assets`] adds
//! the seasonal header templates (the standard header, the Halloween header,
//! the 22 advent variants and the Christmas-holiday header). Both are
//! immutable after construction, and their constructors validate every asset:
//! a missing or corrupt asset yields `None`.

use vstd::prelude::*;

use crate::digits::{digits_of, n_digits};
use crate::raster::{
    decode_h, decode_ok, decode_px, decode_rgba, decode_w, height_of, overlay_px, png_of, px_of,
    raster_height, raster_width, width_of, zero_px, Raster,
};

verus! {

/// The number of digit glyphs: one per decimal digit.
pub const GLYPH_COUNT: usize = 10;

/// The number of advent template variants, one per December day up to 22.
pub const ADVENT_COUNT: usize = 22;

/// The largest accepted glyph width or height, in pixels: a validation
/// choice of this library, made at load time. A digit strip can be 39 glyphs
/// wide (the longest 128-bit count), so this bound keeps the strip canvas —
/// `4 * 39 * width * height` bytes — far inside what every target can
/// allocate, with two orders of magnitude to spare over real glyph sizes.
pub const MAX_GLYPH_DIM: u32 = 1000;

/// The horizontal offset at which the digit strip is placed on a template.
pub const TOTAL_X_OFFSET: i64 = 560;

/// The ten digit glyphs, index = digit value, all sharing one size.
pub struct GlyphSet {
    glyphs: Vec<Raster>,
    width: u32,
    height: u32,
}

impl GlyphSet {
    #[verifier::type_invariant]
    spec fn wf(self) -> bool {
        &&& self.glyphs@.len() == GLYPH_COUNT
        &&& 0 < self.width <= MAX_GLYPH_DIM
        &&& 0 < self.height <= MAX_GLYPH_DIM
        &&& forall|i: int|
            0 <= i < self.glyphs@.len() ==> width_of(#[trigger] self.glyphs@[i])
                == self.width as nat && height_of(self.glyphs@[i]) == self.height as nat
    }

    /// The width every glyph shares, in pixels.
    pub closed spec fn gw(&self) -> nat {
        self.width as nat
    }

    /// The height every glyph shares, in pixels.
    pub closed spec fn gh(&self) -> nat {
        self.height as nat
    }

    /// The samples of the glyph for digit `d`.
    pub closed spec fn glyph_px(&self, d: int) -> Seq<u8> {
        px_of(self.glyphs@[d])
    }

    pub fn width(&self) -> (w: u32)
        ensures
            w as nat == self.gw(),
            0 < w <= MAX_GLYPH_DIM,
    {
        proof {
            use_type_invariant(self);
        }
        self.width
    }

    pub fn height(&self) -> (h: u32)
        ensures
            h as nat == self.gh(),
            0 < h <= MAX_GLYPH_DIM,
    {
        proof {
            use_type_invariant(self);
        }
        self.height
    }

    /// The glyph for digit `d`.
    pub fn glyph(&self, d: u8) -> (r: &Raster)
        requires
            d < GLYPH_COUNT,
        ensures
            px_of(*r) == self.glyph_px(d as int),
            width_of(*r) == self.gw(),
            height_of(*r) == self.gh(),
    {
        proof {
            use_type_invariant(self);
        }
        &self.glyphs[d as usize]
    }

    /// The width of the digit strip for a count with `nd` digits.
    pub open spec fn strip_w(&self, nd: nat) -> nat {
        self.gw() * nd
    }

    /// The samples of the digit strip for `digits` after the first `k` glyphs
    /// have been composited onto the zeroed canvas, each glyph `j` at
    /// `x = j * glyph-width`.
    pub open spec fn strip_px_upto(&self, digits: Seq<nat>, k: int) -> Seq<u8>
        decreases k,
    {
        if k <= 0 {
            zero_px(self.strip_w(digits.len()), self.gh())
        } else {
            overlay_px(
                self.strip_px_upto(digits, k - 1),
                self.strip_w(digits.len()),
                self.gh(),
                self.glyph_px(digits[k - 1] as int),
                self.gw(),
                self.gh(),
                (k - 1) * (self.gw() as int),
                0,
            )
        }
    }

    /// The samples of the digit strip for the count `n`.
    pub open spec fn strip_px(&self, n: nat) -> Seq<u8> {
        self.strip_px_upto(digits_of(n), digits_of(n).len() as int)
    }

    /// The PNG bytes of the digit strip for the count `n`.
    pub open spec fn count_png(&self, n: nat) -> Seq<u8> {
        png_of(self.strip_w(n_digits(n)), self.gh(), self.strip_px(n))
    }

    /// Whether ten rasters make a valid glyph set: one positive shared size,
    /// at most [`MAX_GLYPH_DIM`] each way.
    pub open spec fn glyph_rasters_ok(list: Seq<Raster>) -> bool {
        &&& list.len() == GLYPH_COUNT
        &&& 0 < width_of(list[0]) <= MAX_GLYPH_DIM
        &&& 0 < height_of(list[0]) <= MAX_GLYPH_DIM
        &&& forall|i: int|
            0 <= i < list.len() ==> width_of(#[trigger] list[i]) == width_of(list[0])
                && height_of(list[i]) == height_of(list[0])
    }

    /// Builds the set from ten decoded rasters, validating count and sizes.
    pub(crate) fn from_rasters(list: Vec<Raster>) -> (r: Option<GlyphSet>)
        ensures
            r is Some <==> Self::glyph_rasters_ok(list@),
            r matches Some(g) ==> {
                &&& g.gw() == width_of(list@[0])
                &&& g.gh() == height_of(list@[0])
                &&& forall|i: int| 0 <= i < GLYPH_COUNT ==> g.glyph_px(i) == px_of(list@[i])
            },
    {
        if list.len() != GLYPH_COUNT {
            return None;
        }
        let width = raster_width(&list[0]);
        let height = raster_height(&list[0]);
        if width == 0 || width > MAX_GLYPH_DIM || height == 0 || height > MAX_GLYPH_DIM {
            return None;
        }
        let mut i: usize = 1;
        while i < GLYPH_COUNT
            invariant
                1 <= i <= GLYPH_COUNT,
                list@.len() == GLYPH_COUNT,
                width as nat == width_of(list@[0]),
                height as nat == height_of(list@[0]),
                forall|j: int|
                    0 <= j < i ==> width_of(#[trigger] list@[j]) == width as nat && height_of(
                        list@[j],
                    ) == height as nat,
            decreases GLYPH_COUNT - i,
        {
            if raster_width(&list[i]) != width || raster_height(&list[i]) != height {
                return None;
            }
            i = i + 1;
        }
        Some(GlyphSet { glyphs: list, width, height })
    }

    /// Whether ten encoded images decode to a valid glyph set: every image
    /// decodes, and the decoded rasters share one positive size, at most
    /// [`MAX_GLYPH_DIM`] each way.
    pub open spec fn decoded_glyphs_ok(images: Seq<Vec<u8>>) -> bool {
        &&& images.len() == GLYPH_COUNT
        &&& forall|i: int| 0 <= i < images.len() ==> decode_ok(#[trigger] images[i]@)
        &&& 0 < decode_w(images[0]@) <= MAX_GLYPH_DIM
        &&& 0 < decode_h(images[0]@) <= MAX_GLYPH_DIM
        &&& forall|i: int|
            0 <= i < images.len() ==> decode_w(#[trigger] images[i]@) == decode_w(images[0]@)
                && decode_h(images[i]@) == decode_h(images[0]@)
    }

    /// Builds the set from ten encoded images, decoding and validating each;
    /// `None` exactly on a wrong count, a corrupt image, mismatched sizes,
    /// or sizes out of range.
    pub fn from_bytes(images: &Vec<Vec<u8>>) -> (r: Option<GlyphSet>)
        ensures
            r is Some <==> Self::decoded_glyphs_ok(images@),
            r matches Some(g) ==> {
                &&& g.gw() == decode_w(images@[0]@)
                &&& g.gh() == decode_h(images@[0]@)
                &&& forall|i: int|
                    0 <= i < GLYPH_COUNT ==> g.glyph_px(i) == decode_px(#[trigger] images@[i]@)
            },
    {
        if images.len() != GLYPH_COUNT {
            return None;
        }
        let mut rasters: Vec<Raster> = Vec::new();
        let mut i: usize = 0;
        while i < images.len()
            invariant
                i <= images@.len(),
                images@.len() == GLYPH_COUNT,
                rasters@.len() == i,
                forall|j: int| 0 <= j < i ==> decode_ok(#[trigger] images@[j]@),
                forall|j: int|
                    0 <= j < i ==> width_of(#[trigger] rasters@[j]) == decode_w(images@[j]@)
                        && height_of(rasters@[j]) == decode_h(images@[j]@) && px_of(rasters@[j])
                        == decode_px(images@[j]@),
            decreases images@.len() - i,
        {
            match decode_rgba(images[i].as_slice()) {
                Some(raster) => rasters.push(raster),
                None => {
                    return None;
                },
            }
            i = i + 1;
        }
        let r = Self::from_rasters(rasters);
        proof {
            if Self::glyph_rasters_ok(rasters@) {
                assert forall|j: int| 0 <= j < images@.len() implies decode_ok(
                    #[trigger] images@[j]@,
                ) && decode_w(images@[j]@) == decode_w(images@[0]@) && decode_h(images@[j]@)
                    == decode_h(images@[0]@) by {
                    assert(width_of(rasters@[j]) == width_of(rasters@[0]));
                    assert(height_of(rasters@[j]) == height_of(rasters@[0]));
                }
                assert(Self::decoded_glyphs_ok(images@));
            }
            if Self::decoded_glyphs_ok(images@) {
                assert forall|j: int| 0 <= j < rasters@.len() implies width_of(
                    #[trigger] rasters@[j],
                ) == width_of(rasters@[0]) && height_of(rasters@[j]) == height_of(
                    rasters@[0],
                ) by {
                    assert(decode_w(images@[j]@) == decode_w(images@[0]@));
                    assert(decode_h(images@[j]@) == decode_h(images@[0]@));
                }
                assert(Self::glyph_rasters_ok(rasters@));
            }
        }
        r
    }
}

/// Which header template the seasonal rules picked: the standard header, the
/// Halloween header, an advent variant (index 0 to 21), or the
/// Christmas-holiday header.
#[derive(Clone, Copy, Debug, PartialEq, Eq, Structural)]
pub enum TemplateChoice {
    Standard,
    Halloween,
    Advent(u8),
    Christmas,
}

/// Whether a choice names an existing template (an advent index below 22).
pub open spec fn choice_ok(c: TemplateChoice) -> bool {
    match c {
        TemplateChoice::Advent(i) => i < ADVENT_COUNT,
        _ => true,
    }
}

/// The full asset store: digit glyphs and the seasonal header templates.
pub struct Assets {
    glyphs: GlyphSet,
    header: Raster,
    halloween: Raster,
    advent: Vec<Raster>,
    christmas: Raster,
}

/// Whether `t` can serve as a header template for glyphs of height `gh`: a
/// positive width, and tall enough that the digit strip can be centered on it.
pub open spec fn template_ok(t: Raster, gh: nat) -> bool {
    &&& 0 < width_of(t)
    &&& gh <= height_of(t)
}

impl Assets {
    #[verifier::type_invariant]
    spec fn wf(self) -> bool {
        &&& self.advent@.len() == ADVENT_COUNT
        &&& template_ok(self.header, self.glyphs.gh())
        &&& template_ok(self.halloween, self.glyphs.gh())
        &&& template_ok(self.christmas, self.glyphs.gh())
        &&& forall|i: int|
            0 <= i < self.advent@.len() ==> template_ok(
                #[trigger] self.advent@[i],
                self.glyphs.gh(),
            )
    }

    /// The digit glyphs of the store.
    pub closed spec fn glyph_set(&self) -> GlyphSet {
        self.glyphs
    }

    /// The template raster a choice names.
    pub closed spec fn template_of(&self, c: TemplateChoice) -> Raster {
        match c {
            TemplateChoice::Standard => self.header,
            TemplateChoice::Halloween => self.halloween,
            TemplateChoice::Advent(i) => self.advent@[i as int],
            TemplateChoice::Christmas => self.christmas,
        }
    }

    pub fn glyphs(&self) -> (r: &GlyphSet)
        ensures
            *r == self.glyph_set(),
    {
        &self.glyphs
    }

    /// The template raster for a choice.
    pub fn template(&self, c: TemplateChoice) -> (r: &Raster)
        requires
            choice_ok(c),
        ensures
            *r == self.template_of(c),
            template_ok(*r, self.glyph_set().gh()),
    {
        proof {
            use_type_invariant(self);
        }
        match c {
            TemplateChoice::Standard => &self.header,
            TemplateChoice::Halloween => &self.halloween,
            TemplateChoice::Advent(i) => &self.advent[i as usize],
            TemplateChoice::Christmas => &self.christmas,
        }
    }

    /// The samples of the total image for count `n` under template choice
    /// `c`: the digit strip composited onto the template at
    /// `x = `[`TOTAL_X_OFFSET`], vertically centered.
    pub open spec fn total_px(&self, n: nat, c: TemplateChoice) -> Seq<u8> {
        let t = self.template_of(c);
        let g = self.glyph_set();
        overlay_px(
            px_of(t),
            width_of(t),
            height_of(t),
            g.strip_px(n),
            g.strip_w(n_digits(n)),
            g.gh(),
            TOTAL_X_OFFSET as int,
            (height_of(t) - g.gh()) / 2,
        )
    }

    /// The PNG bytes of the total image for count `n` under choice `c`.
    pub open spec fn total_png(&self, n: nat, c: TemplateChoice) -> Seq<u8> {
        let t = self.template_of(c);
        png_of(width_of(t), height_of(t), self.total_px(n, c))
    }

    /// Whether the templates fit the glyphs: 22 advent variants, and every
    /// template able to carry the digit strip.
    pub open spec fn template_rasters_ok(
        glyphs: GlyphSet,
        header: Raster,
        halloween: Raster,
        advent: Seq<Raster>,
        christmas: Raster,
    ) -> bool {
        &&& advent.len() == ADVENT_COUNT
        &&& template_ok(header, glyphs.gh())
        &&& template_ok(halloween, glyphs.gh())
        &&& template_ok(christmas, glyphs.gh())
        &&& forall|i: int| 0 <= i < advent.len() ==> template_ok(#[trigger] advent[i], glyphs.gh())
    }

    /// Builds the store from decoded rasters, validating every template.
    pub(crate) fn from_parts(
        glyphs: GlyphSet,
        header: Raster,
        halloween: Raster,
        advent: Vec<Raster>,
        christmas: Raster,
    ) -> (r: Option<Assets>)
        ensures
            r is Some <==> Self::template_rasters_ok(
                glyphs,
                header,
                halloween,
                advent@,
                christmas,
            ),
            r matches Some(a) ==> {
                &&& a.glyph_set() == glyphs
                &&& a.template_of(TemplateChoice::Standard) == header
                &&& a.template_of(TemplateChoice::Halloween) == halloween
                &&& a.template_of(TemplateChoice::Christmas) == christmas
                &&& forall|i: int|
                    0 <= i < ADVENT_COUNT ==> a.template_of(TemplateChoice::Advent(i as u8))
                        == advent@[i]
            },
    {
        let gh = glyphs.height();
        if advent.len() != ADVENT_COUNT {
            return None;
        }
        if raster_width(&header) == 0 || raster_height(&header) < gh {
            return None;
        }
        if raster_width(&halloween) == 0 || raster_height(&halloween) < gh {
            return None;
        }
        if raster_width(&christmas) == 0 || raster_height(&christmas) < gh {
            return None;
        }
        let mut i: usize = 0;
        while i < ADVENT_COUNT
            invariant
                i <= ADVENT_COUNT,
                advent@.len() == ADVENT_COUNT,
                gh as nat == glyphs.gh(),
                forall|j: int| 0 <= j < i ==> template_ok(#[trigger] advent@[j], glyphs.gh()),
            decreases ADVENT_COUNT - i,
        {
            if raster_width(&advent[i]) == 0 || raster_height(&advent[i]) < gh {
                return None;
            }
            i = i + 1;
        }
        Some(Assets { glyphs, header, halloween, advent, christmas })
    }

    /// Whether an encoded template decodes to one able to carry glyphs of
    /// height `gh`: it decodes, has a positive width, and is at least as
    /// tall as a glyph.
    pub open spec fn decoded_template_ok(bytes: Seq<u8>, gh: nat) -> bool {
        &&& decode_ok(bytes)
        &&& 0 < decode_w(bytes)
        &&& gh <= decode_h(bytes)
    }

    /// Whether the encoded parts decode to a valid asset store: a valid
    /// glyph set, 22 advent variants, and every template able to carry the
    /// digit strip.
    pub open spec fn decoded_assets_ok(
        glyph_images: Seq<Vec<u8>>,
        header_image: Seq<u8>,
        halloween_image: Seq<u8>,
        advent_images: Seq<Vec<u8>>,
        christmas_image: Seq<u8>,
    ) -> bool {
        let gh = decode_h(glyph_images[0]@);
        &&& GlyphSet::decoded_glyphs_ok(glyph_images)
        &&& advent_images.len() == ADVENT_COUNT
        &&& Self::decoded_template_ok(header_image, gh)
        &&& Self::decoded_template_ok(halloween_image, gh)
        &&& Self::decoded_template_ok(christmas_image, gh)
        &&& forall|i: int|
            0 <= i < advent_images.len() ==> Self::decoded_template_ok(
                #[trigger] advent_images[i]@,
                gh,
            )
    }

    /// Builds the store from encoded images: ten glyphs, the standard header,
    /// the Halloween header, the 22 advent variants and the Christmas-holiday
    /// header. `None` exactly on a wrong count, a corrupt image, or sizes
    /// that do not fit together; on success the store holds exactly the
    /// decoded rasters.
    pub fn from_bytes(
        glyph_images: &Vec<Vec<u8>>,
        header_image: &Vec<u8>,
        halloween_image: &Vec<u8>,
        advent_images: &Vec<Vec<u8>>,
        christmas_image: &Vec<u8>,
    ) -> (r: Option<Assets>)
        ensures
            r is Some <==> Self::decoded_assets_ok(
                glyph_images@,
                header_image@,
                halloween_image@,
                advent_images@,
                christmas_image@,
            ),
            r matches Some(a) ==> {
                &&& a.glyph_set().gw() == decode_w(glyph_images@[0]@)
                &&& a.glyph_set().gh() == decode_h(glyph_images@[0]@)
                &&& forall|i: int|
                    0 <= i < GLYPH_COUNT ==> a.glyph_set().glyph_px(i) == decode_px(
                        #[trigger] glyph_images@[i]@,
                    )
                &&& px_of(a.template_of(TemplateChoice::Standard)) == decode_px(header_image@)
                &&& width_of(a.template_of(TemplateChoice::Standard)) == decode_w(header_image@)
                &&& height_of(a.template_of(TemplateChoice::Standard)) == decode_h(header_image@)
                &&& px_of(a.template_of(TemplateChoice::Halloween)) == decode_px(halloween_image@)
                &&& width_of(a.template_of(TemplateChoice::Halloween)) == decode_w(
                    halloween_image@,
                )
                &&& height_of(a.template_of(TemplateChoice::Halloween)) == decode_h(
                    halloween_image@,
                )
                &&& px_of(a.template_of(TemplateChoice::Christmas)) == decode_px(christmas_image@)
                &&& width_of(a.template_of(TemplateChoice::Christmas)) == decode_w(
                    christmas_image@,
                )
                &&& height_of(a.template_of(TemplateChoice::Christmas)) == decode_h(
                    christmas_image@,
                )
                &&& forall|i: int|
                    0 <= i < ADVENT_COUNT ==> px_of(
                        #[trigger] a.template_of(TemplateChoice::Advent(i as u8)),
                    ) == decode_px(advent_images@[i]@) && width_of(
                        a.template_of(TemplateChoice::Advent(i as u8)),
                    ) == decode_w(advent_images@[i]@) && height_of(
                        a.template_of(TemplateChoice::Advent(i as u8)),
                    ) == decode_h(advent_images@[i]@)
            },
    {
        let glyphs = match GlyphSet::from_bytes(glyph_images) {
            Some(g) => g,
            None => {
                return None;
            },
        };
        if advent_images.len() != ADVENT_COUNT {
            return None;
        }
        let header = match decode_rgba(header_image.as_slice()) {
            Some(t) => t,
            None => {
                return None;
            },
        };
        let halloween = match decode_rgba(halloween_image.as_slice()) {
            Some(t) => t,
            None => {
                return None;
            },
        };
        let christmas = match decode_rgba(christmas_image.as_slice()) {
            Some(t) => t,
            None => {
                return None;
            },
        };
        let mut advent: Vec<Raster> = Vec::new();
        let mut i: usize = 0;
        while i < advent_images.len()
            invariant
                i <= advent_images@.len(),
                advent@.len() == i,
                advent_images@.len() == ADVENT_COUNT,
                forall|j: int| 0 <= j < i ==> decode_ok(#[trigger] advent_images@[j]@),
                forall|j: int|
                    0 <= j < i ==> width_of(#[trigger] advent@[j]) == decode_w(advent_images@[j]@)
                        && height_of(advent@[j]) == decode_h(advent_images@[j]@) && px_of(
                        advent@[j],
                    ) == decode_px(advent_images@[j]@),
            decreases advent_images@.len() - i,
        {
            match decode_rgba(advent_images[i].as_slice()) {
                Some(t) => advent.push(t),
                None => {
                    return None;
                },
            }
            i = i + 1;
        }
        let r = Self::from_parts(glyphs, header, halloween, advent, christmas);
        proof {
            let gh = decode_h(glyph_images@[0]@);
            if Self::template_rasters_ok(glyphs, header, halloween, advent@, christmas) {
                assert forall|j: int| 0 <= j < advent_images@.len() implies Self::decoded_template_ok(
                    #[trigger] advent_images@[j]@,
                    gh,
                ) by {
                    assert(template_ok(advent@[j], glyphs.gh()));
                }
                assert(Self::decoded_assets_ok(
                    glyph_images@,
                    header_image@,
                    halloween_image@,
                    advent_images@,
                    christmas_image@,
                ));
            }
            if Self::decoded_assets_ok(
                glyph_images@,
                header_image@,
                halloween_image@,
                advent_images@,
                christmas_image@,
            ) {
                assert forall|j: int| 0 <= j < advent@.len() implies template_ok(
                    #[trigger] advent@[j],
                    glyphs.gh(),
                ) by {
                    assert(Self::decoded_template_ok(advent_images@[j]@, gh));
                }
                assert(Self::template_rasters_ok(glyphs, header, halloween, advent@, christmas));
            }
            if r is Some {
                let a = r.unwrap();
                assert forall|i: int| 0 <= i < ADVENT_COUNT implies px_of(
                    #[trigger] a.template_of(TemplateChoice::Advent(i as u8)),
                ) == decode_px(advent_images@[i]@) && width_of(
                    a.template_of(TemplateChoice::Advent(i as u8)),
                ) == decode_w(advent_images@[i]@) && height_of(
                    a.template_of(TemplateChoice::Advent(i as u8)),
                ) == decode_h(advent_images@[i]@) by {
                    assert(a.template_of(TemplateChoice::Advent(i as u8)) == advent@[i]);
                    assert(width_of(advent@[i]) == decode_w(advent_images@[i]@));
                }
            }
        }
        r
    }
}

} // verus!
