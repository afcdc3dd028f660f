//! Rendering and cache behaviour, checked against rasters composed directly
//! with the `image` crate.

use image::{Rgba, RgbaImage};

use neko_server::assets::{Assets, GlyphSet};
use neko_server::count_image::CountImage;
use neko_server::image_cache::{ImageCache, MAX_CACHE_SIZE, UPDATE_INTERVAL_SECS};
use neko_server::season::Date;

const GLYPH_W: u32 = 3;
const GLYPH_H: u32 = 5;
const TEMPLATE_W: u32 = 600;
const TEMPLATE_H: u32 = 30;

fn png_bytes(img: &RgbaImage) -> Vec<u8> {
    let mut cur = std::io::Cursor::new(Vec::new());
    img.write_to(&mut cur, image::ImageFormat::Png).unwrap();
    cur.into_inner()
}

fn solid(w: u32, h: u32, c: [u8; 4]) -> RgbaImage {
    let mut img = RgbaImage::new(w, h);
    for p in img.pixels_mut() {
        *p = Rgba(c);
    }
    img
}

fn glyph_images() -> Vec<RgbaImage> {
    (0u8..10).map(|d| solid(GLYPH_W, GLYPH_H, [d * 20, 255 - d * 20, 100, 255])).collect()
}

fn glyph_bytes() -> Vec<Vec<u8>> {
    glyph_images().iter().map(png_bytes).collect()
}

fn header_image() -> RgbaImage {
    solid(TEMPLATE_W, TEMPLATE_H, [10, 20, 30, 255])
}

fn halloween_image() -> RgbaImage {
    solid(TEMPLATE_W, TEMPLATE_H, [240, 120, 0, 255])
}

fn advent_image(i: u8) -> RgbaImage {
    solid(TEMPLATE_W, TEMPLATE_H, [i * 10, 50, 200, 255])
}

fn christmas_image() -> RgbaImage {
    solid(TEMPLATE_W, TEMPLATE_H, [200, 0, 0, 255])
}

fn make_glyphs() -> GlyphSet {
    GlyphSet::from_bytes(&glyph_bytes()).unwrap()
}

fn make_assets() -> Assets {
    let advent: Vec<Vec<u8>> = (0u8..22).map(|i| png_bytes(&advent_image(i))).collect();
    Assets::from_bytes(
        &glyph_bytes(),
        &png_bytes(&header_image()),
        &png_bytes(&halloween_image()),
        &advent,
        &png_bytes(&christmas_image()),
    )
    .unwrap()
}

fn expected_strip_raster(n: u128) -> RgbaImage {
    let digits: Vec<usize> =
        n.to_string().chars().map(|c| c.to_digit(10).unwrap() as usize).collect();
    let glyphs = glyph_images();
    let mut canvas = RgbaImage::new(GLYPH_W * digits.len() as u32, GLYPH_H);
    for (i, d) in digits.iter().enumerate() {
        image::imageops::overlay(&mut canvas, &glyphs[*d], i as i64 * GLYPH_W as i64, 0);
    }
    canvas
}

fn expected_strip(n: u128) -> Vec<u8> {
    png_bytes(&expected_strip_raster(n))
}

fn expected_total(template: &RgbaImage, n: u128) -> Vec<u8> {
    let strip = expected_strip_raster(n);
    let mut base = template.clone();
    let y: u32 = (template.height() - strip.height()) / 2;
    image::imageops::overlay(&mut base, &strip, 560, y as i64);
    png_bytes(&base)
}

#[test]
fn strip_dimensions_match_digit_count() {
    let glyphs = make_glyphs();
    for &(n, nd) in &[(0u128, 1u32), (7, 1), (42, 2), (123456, 6), (20_000_000_000_000, 14)] {
        let img = CountImage::from_count(&glyphs, n);
        let decoded = image::load_from_memory(&img.get_image()).unwrap().to_rgba8();
        assert_eq!(decoded.width(), GLYPH_W * nd);
        assert_eq!(decoded.height(), GLYPH_H);
    }
}

#[test]
fn strip_for_zero_is_single_zero_glyph() {
    let glyphs = make_glyphs();
    let img = CountImage::from_count(&glyphs, 0);
    assert_eq!(img.get_image(), expected_strip(0));
    let decoded = image::load_from_memory(&img.get_image()).unwrap().to_rgba8();
    assert_eq!(decoded.width(), GLYPH_W);
}

#[test]
fn strip_for_42_places_two_glyphs() {
    let glyphs = make_glyphs();
    let img = CountImage::from_count(&glyphs, 42);
    assert_eq!(img.get_image(), expected_strip(42));
}

#[test]
fn strip_for_key_beyond_64_bits() {
    let glyphs = make_glyphs();
    let n: u128 = u64::MAX as u128 + 12345;
    let img = CountImage::from_count(&glyphs, n);
    assert_eq!(img.get_image(), expected_strip(n));
}

#[test]
fn get_count_is_idempotent() {
    let mut cache = ImageCache::new(make_assets());
    let a = cache.get_count(42);
    let b = cache.get_count(42);
    assert_eq!(a.get_image(), b.get_image());
    cache.get_count(7);
    cache.get_count(123);
    let c = cache.get_count(42);
    assert_eq!(a.get_image(), c.get_image());
    assert_eq!(a.get_image(), expected_strip(42));
}

#[test]
fn cache_flushes_whole_at_capacity() {
    let mut cache = ImageCache::with_capacity(make_assets(), 3);
    cache.get_count(1);
    cache.get_count(2);
    cache.get_count(3);
    assert_eq!(cache.cached_len(), 3);
    cache.get_count(2);
    assert_eq!(cache.cached_len(), 3);
    cache.get_count(4);
    assert_eq!(cache.cached_len(), 1);
    assert_eq!(cache.get_count(4).get_image(), expected_strip(4));
    assert_eq!(cache.cached_len(), 1);
}

#[test]
fn default_capacity_is_standard() {
    let cache = ImageCache::new(make_assets());
    assert_eq!(cache.capacity(), MAX_CACHE_SIZE);
    assert_eq!(MAX_CACHE_SIZE, 13000);
    assert_eq!(UPDATE_INTERVAL_SECS, 300);
}

#[test]
fn get_total_before_update_is_fallback() {
    let cache = ImageCache::new(make_assets());
    let blank = RgbaImage::new(128, 128);
    assert_eq!(cache.get_total().get_image(), png_bytes(&blank));
    assert_eq!(CountImage::total_new().get_image(), png_bytes(&blank));
    assert_eq!(CountImage::default().get_image(), png_bytes(&blank));
}

#[test]
fn update_total_twice_is_byte_identical() {
    let mut cache = ImageCache::new(make_assets());
    let date = Date::new(6, 15).unwrap();
    cache.update_total_for_date(100, date);
    let a = cache.get_total().get_image();
    cache.update_total_for_date(100, date);
    let b = cache.get_total().get_image();
    assert_eq!(a, b);
    assert_eq!(a, expected_total(&header_image(), 100));
}

#[test]
fn update_total_uses_seasonal_template() {
    let mut cache = ImageCache::new(make_assets());
    cache.update_total_for_date(7, Date::new(10, 31).unwrap());
    assert_eq!(cache.get_total().get_image(), expected_total(&halloween_image(), 7));
    cache.update_total_for_date(7, Date::new(12, 25).unwrap());
    assert_eq!(cache.get_total().get_image(), expected_total(&christmas_image(), 7));
    cache.update_total_for_date(7, Date::new(3, 14).unwrap());
    assert_eq!(cache.get_total().get_image(), expected_total(&header_image(), 7));
}

#[test]
fn advent_templates_are_day_indexed() {
    let mut cache = ImageCache::new(make_assets());
    cache.update_total_for_date(5, Date::new(12, 1).unwrap());
    assert_eq!(cache.get_total().get_image(), expected_total(&advent_image(0), 5));
    cache.update_total_for_date(5, Date::new(12, 22).unwrap());
    assert_eq!(cache.get_total().get_image(), expected_total(&advent_image(21), 5));
}

#[test]
fn update_total_image_uses_current_date() {
    let mut cache = ImageCache::new(make_assets());
    cache.update_total_image(100);
    let total = cache.get_total().get_image();
    assert_ne!(total, CountImage::total_new().get_image());
    assert!(!total.is_empty());
}

#[test]
fn total_slot_independent_of_count_map() {
    let mut cache = ImageCache::with_capacity(make_assets(), 2);
    cache.update_total_for_date(9, Date::new(5, 1).unwrap());
    let total = cache.get_total().get_image();
    cache.get_count(1);
    cache.get_count(2);
    cache.get_count(3);
    assert_eq!(cache.get_total().get_image(), total);
}

#[test]
fn render_and_insert_match_get_count() {
    let mut cache = ImageCache::new(make_assets());
    let rendered = cache.render_count(77);
    assert!(cache.lookup_count(77).is_none());
    cache.insert_count(77, rendered.clone());
    let cached = cache.lookup_count(77).unwrap();
    assert_eq!(cached.get_image(), rendered.get_image());
    assert_eq!(cache.get_count(77).get_image(), rendered.get_image());
}

#[test]
fn seasonal_total_returns_current_template() {
    let assets = make_assets();
    let raster = neko_server::season::seasonal_count_total(&assets);
    assert_eq!(raster.width(), TEMPLATE_W);
    assert_eq!(raster.height(), TEMPLATE_H);
}

#[test]
fn from_image_bytes_round_trip() {
    let img = solid(40, 20, [1, 2, 3, 255]);
    let restored = CountImage::from_image_bytes(&png_bytes(&img)).unwrap();
    assert_eq!(restored.get_image(), png_bytes(&img));
    assert!(CountImage::from_image_bytes(&vec![0u8, 1, 2, 3]).is_none());
}

#[test]
fn glyph_set_rejects_bad_input() {
    assert!(GlyphSet::from_bytes(&glyph_bytes()[..9].to_vec()).is_none());
    let mut mismatched = glyph_bytes();
    mismatched[3] = png_bytes(&solid(GLYPH_W + 1, GLYPH_H, [0, 0, 0, 255]));
    assert!(GlyphSet::from_bytes(&mismatched).is_none());
    let mut corrupt = glyph_bytes();
    corrupt[0] = vec![1, 2, 3];
    assert!(GlyphSet::from_bytes(&corrupt).is_none());
    let zero_like = vec![png_bytes(&solid(GLYPH_W, GLYPH_H, [0, 0, 0, 255])); 10];
    assert!(GlyphSet::from_bytes(&zero_like).is_some());
}

#[test]
fn assets_reject_bad_templates() {
    let advent: Vec<Vec<u8>> = (0u8..22).map(|i| png_bytes(&advent_image(i))).collect();
    let short_advent: Vec<Vec<u8>> = (0u8..21).map(|i| png_bytes(&advent_image(i))).collect();
    let header = png_bytes(&header_image());
    let halloween = png_bytes(&halloween_image());
    let christmas = png_bytes(&christmas_image());
    assert!(
        Assets::from_bytes(&glyph_bytes(), &header, &halloween, &short_advent, &christmas)
            .is_none()
    );
    let low = png_bytes(&solid(TEMPLATE_W, GLYPH_H - 1, [0, 0, 0, 255]));
    assert!(Assets::from_bytes(&glyph_bytes(), &low, &halloween, &advent, &christmas).is_none());
    assert!(
        Assets::from_bytes(&glyph_bytes(), &header, &halloween, &advent, &vec![9u8, 9, 9])
            .is_none()
    );
    assert!(
        Assets::from_bytes(&glyph_bytes(), &header, &halloween, &advent, &christmas).is_some()
    );
}
