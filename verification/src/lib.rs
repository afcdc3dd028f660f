//! A library that renders a running numeric counter as composited PNG images
//! and caches the results: digit-glyph compositing, seasonal header template
//! selection, and a bounded in-memory image cache with a coarse full-flush
//! eviction policy.

pub mod aggregate;
pub mod assets;
pub mod auth;
pub mod count_image;
pub mod digits;
pub mod image_cache;
pub mod raster;
pub mod season;
