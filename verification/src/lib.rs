//! A deduplicating cache for decoded image assets, the producers that fill it,
//! and the geometry that fits an image into a layout box.
//!
//! - [`geometry`] and [`object_fit`]: lengths in fixed point, and the box that an
//!   image takes under each way of fitting.
//! - [`keys`]: sources of images and their fingerprints.
//! - [`asset_cache`]: one map for assets of every kind, filed by kind and hash.
//! - [`sharing`]: why requests that take turns do the work for a key once.
//! - [`fetch`], [`raster_or_vector`], [`vector`], [`img`]: from fetched bytes to
//!   pixels, through the cache.
//! - [`image_cache`]: a cache of fetch tasks, one for each source.
//! - [`svg_renderer`]: named vector graphics rendered to alpha masks.
//! - [`codecs`]: the calls into the decoders, which are relied on and not proved.
//!
//! Fetching, drawing a vector document on a surface and running tasks are
//! handed to the library as functions; it decides when they are called and what
//! becomes of their results.

pub mod asset_cache;
pub mod codecs;
pub mod error;
pub mod fetch;
pub mod geometry;
pub mod image_cache;
pub mod image_data;
pub mod img;
pub mod keys;
pub mod object_fit;
pub mod raster_or_vector;
pub mod sharing;
pub mod svg_renderer;
pub mod vector;
