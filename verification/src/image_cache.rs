//! The image cache: a single total-image slot and a bounded map of per-count
//! digit-strip images.
//!
//! The total slot is only ever replaced wholesale, by the periodic refresh
//! path. Count images are rendered lazily on a miss; once the map reaches its
//! capacity threshold it is flushed whole — no per-entry eviction — before
//! the new entry is stored. Every stored entry equals the deterministic
//! rendering of its key, so repeated lookups of one count always hand out
//! byte-identical images.

use vstd::prelude::*;

use std::collections::HashMap;

use crate::assets::{Assets, GlyphSet};
use crate::count_image::{CountImage, FALLBACK_DIM};
use crate::raster::{png_of, zero_px};
use crate::season::{current_date, season_choice, Date};

verus! {

broadcast use vstd::std_specs::hash::group_hash_axioms;

/// Seconds between two refreshes of the total image.
pub const UPDATE_INTERVAL_SECS: u64 = 300;

/// The capacity threshold of the count-image map: reaching it triggers a
/// full flush. Bounds worst-case memory at roughly 350 MB of images.
pub const MAX_CACHE_SIZE: usize = 13000;

/// The image cache: the asset store it renders from, the total-image slot,
/// and the bounded count-image map.
pub struct ImageCache {
    assets: Assets,
    capacity: usize,
    count_total_image: CountImage,
    count_images: HashMap<u128, CountImage>,
}

impl ImageCache {
    /// Every cached count image holds exactly the bytes that rendering its
    /// key from the store's glyphs produces.
    #[verifier::type_invariant]
    spec fn wf(self) -> bool {
        forall|k: u128|
            self.count_images@.contains_key(k) ==> (#[trigger] self.count_images@[k])@
                == self.assets.glyph_set().count_png(k as nat)
    }

    /// The asset store the cache renders from.
    pub closed spec fn store(&self) -> Assets {
        self.assets
    }

    /// The capacity threshold of the count-image map.
    pub closed spec fn threshold(&self) -> usize {
        self.capacity
    }

    /// The PNG bytes in the total slot.
    pub closed spec fn total_bytes(&self) -> Seq<u8> {
        self.count_total_image@
    }

    /// The cached count images, as a map from count to PNG bytes.
    pub closed spec fn counts(&self) -> Map<u128, Seq<u8>> {
        self.count_images@.map_values(|v: CountImage| v@)
    }

    /// A cache over `assets` with the standard capacity threshold, the blank
    /// fallback in the total slot, and no count images.
    pub fn new(assets: Assets) -> (r: Self)
        ensures
            r.store() == assets,
            r.threshold() == MAX_CACHE_SIZE,
            r.total_bytes() == png_of(
                FALLBACK_DIM as nat,
                FALLBACK_DIM as nat,
                zero_px(FALLBACK_DIM as nat, FALLBACK_DIM as nat),
            ),
            r.counts() == Map::<u128, Seq<u8>>::empty(),
    {
        Self::with_capacity(assets, MAX_CACHE_SIZE)
    }

    /// A cache with an explicit capacity threshold.
    pub fn with_capacity(assets: Assets, capacity: usize) -> (r: Self)
        ensures
            r.store() == assets,
            r.threshold() == capacity,
            r.total_bytes() == png_of(
                FALLBACK_DIM as nat,
                FALLBACK_DIM as nat,
                zero_px(FALLBACK_DIM as nat, FALLBACK_DIM as nat),
            ),
            r.counts() == Map::<u128, Seq<u8>>::empty(),
    {
        let r = ImageCache {
            assets,
            capacity,
            count_total_image: CountImage::total_new(),
            count_images: HashMap::new(),
        };
        proof {
            assert(r.counts() =~= Map::<u128, Seq<u8>>::empty());
        }
        r
    }

    /// The current total image. Never computes anything.
    pub fn get_total(&self) -> (r: CountImage)
        ensures
            r@ == self.total_bytes(),
    {
        self.count_total_image.clone()
    }

    /// Replaces the total slot wholesale.
    pub fn set_total(&mut self, img: CountImage)
        ensures
            final(self).total_bytes() == img@,
            final(self).counts() == old(self).counts(),
            final(self).store() == old(self).store(),
            final(self).threshold() == old(self).threshold(),
    {
        proof {
            use_type_invariant(&*self);
        }
        self.count_total_image = img;
    }

    /// Renders, without storing, the total image for a count under the
    /// season of `date`.
    pub fn render_total(&self, count: u128, date: Date) -> (r: CountImage)
        requires
            date.valid(),
        ensures
            r@ == self.store().total_png(count as nat, season_choice(date)),
    {
        CountImage::total_from_count(&self.assets, count, date)
    }

    /// Computes the new total image for `count` under the season of `date`
    /// and atomically replaces the total slot; the count map is untouched.
    pub fn update_total_for_date(&mut self, count: u128, date: Date)
        requires
            date.valid(),
        ensures
            final(self).total_bytes() == old(self).store().total_png(
                count as nat,
                season_choice(date),
            ),
            final(self).counts() == old(self).counts(),
            final(self).store() == old(self).store(),
            final(self).threshold() == old(self).threshold(),
    {
        let img = CountImage::total_from_count(&self.assets, count, date);
        self.set_total(img);
    }

    /// Computes the new total image for `count` under the current season and
    /// atomically replaces the total slot; the count map is untouched.
    pub fn update_total_image(&mut self, count: u128)
        ensures
            exists|date: Date|
                date.valid() && final(self).total_bytes() == old(self).store().total_png(
                    count as nat,
                    season_choice(date),
                ),
            final(self).counts() == old(self).counts(),
            final(self).store() == old(self).store(),
            final(self).threshold() == old(self).threshold(),
    {
        let date = current_date();
        self.update_total_for_date(count, date);
        proof {
            assert(date.valid() && self.total_bytes() == old(self).store().total_png(
                count as nat,
                season_choice(date),
            ));
        }
    }

    /// The cached digit-strip image for a count, if present. A present entry
    /// always holds the deterministic rendering of its key — the cache's
    /// maintained invariant.
    pub fn lookup_count(&self, count: u128) -> (r: Option<CountImage>)
        ensures
            match r {
                Some(img) => self.counts().contains_key(count) && img@ == self.counts()[count]
                    && img@ == self.store().glyph_set().count_png(count as nat),
                None => !self.counts().contains_key(count),
            },
    {
        proof {
            use_type_invariant(&*self);
        }
        match self.count_images.get(&count) {
            Some(img) => Some(img.clone()),
            None => None,
        }
    }

    /// Renders, without storing, the digit-strip image for a count.
    pub fn render_count(&self, count: u128) -> (r: CountImage)
        ensures
            r@ == self.store().glyph_set().count_png(count as nat),
    {
        CountImage::from_count(self.assets.glyphs(), count)
    }

    /// Stores a rendered digit-strip image. If the map has reached the
    /// capacity threshold it is flushed whole first, so the map afterwards
    /// holds either the old entries plus this one, or this one alone.
    pub fn insert_count(&mut self, count: u128, img: CountImage)
        requires
            img@ == old(self).store().glyph_set().count_png(count as nat),
        ensures
            final(self).store() == old(self).store(),
            final(self).threshold() == old(self).threshold(),
            final(self).total_bytes() == old(self).total_bytes(),
            final(self).counts() == if old(self).counts().len() >= old(self).threshold() {
                Map::<u128, Seq<u8>>::empty().insert(count, img@)
            } else {
                old(self).counts().insert(count, img@)
            },
    {
        proof {
            use_type_invariant(&*self);
        }
        let mut map: HashMap<u128, CountImage> = HashMap::new();
        std::mem::swap(&mut map, &mut self.count_images);
        proof {
            assert(self.counts() =~= Map::<u128, Seq<u8>>::empty());
        }
        if map.len() >= self.capacity {
            map.clear();
        }
        map.insert(count, img);
        proof {
            assert(old(self).counts().dom() =~= old(self).count_images@.dom());
        }
        self.count_images = map;
        proof {
            if old(self).counts().len() >= old(self).threshold() {
                assert(self.counts() =~= Map::<u128, Seq<u8>>::empty().insert(count, img@));
            } else {
                assert(self.counts() =~= old(self).counts().insert(count, img@));
            }
        }
    }

    /// The digit-strip image for a count: the cached entry when present;
    /// otherwise the strip is rendered, stored — flushing the map whole if it
    /// has reached the capacity threshold — and returned. Either way the
    /// result is the deterministic rendering of the count, so repeated calls
    /// hand out byte-identical images.
    pub fn get_count(&mut self, count: u128) -> (r: CountImage)
        ensures
            r@ == old(self).store().glyph_set().count_png(count as nat),
            final(self).store() == old(self).store(),
            final(self).threshold() == old(self).threshold(),
            final(self).total_bytes() == old(self).total_bytes(),
            final(self).counts() == if old(self).counts().contains_key(count) {
                old(self).counts()
            } else if old(self).counts().len() >= old(self).threshold() {
                Map::<u128, Seq<u8>>::empty().insert(count, r@)
            } else {
                old(self).counts().insert(count, r@)
            },
            old(self).counts().len() >= old(self).threshold() && !old(self).counts().contains_key(
                count,
            ) ==> final(self).counts().len() == 1,
            final(self).counts().contains_key(count) && final(self).counts()[count] == r@,
    {
        proof {
            use_type_invariant(&*self);
        }
        match self.lookup_count(count) {
            Some(img) => {
                return img;
            },
            None => {},
        }
        let img = self.render_count(count);
        self.insert_count(count, img.clone());
        img
    }

    /// How many count images the cache holds.
    pub fn cached_len(&self) -> (n: usize)
        ensures
            n == self.counts().len(),
    {
        proof {
            assert(self.counts().dom() =~= self.count_images@.dom());
        }
        self.count_images.len()
    }

    /// The capacity threshold.
    pub fn capacity(&self) -> (n: usize)
        ensures
            n == self.threshold(),
    {
        self.capacity
    }

    /// The asset store the cache renders from.
    pub fn assets(&self) -> (r: &Assets)
        ensures
            *r == self.store(),
    {
        &self.assets
    }
}

/// Law: rendering is pure, so the cache is idempotent — any two images it
/// hands out for the same count, under the same asset store, have
/// byte-identical content, whatever happened to the cache in between.
pub proof fn lemma_count_image_deterministic(g: GlyphSet, n: u128, a: Seq<u8>, b: Seq<u8>)
    requires
        a == g.count_png(n as nat),
        b == g.count_png(n as nat),
    ensures
        a == b,
{
}

} // verus!
