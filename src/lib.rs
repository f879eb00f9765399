//! Schematic inputs for the host's UI components: proxy types that can be built from
//! plain data, their conversions into component values, deferred asset references,
//! and the registry that records which component types have a schematic.
pub mod codec;
pub mod components;
pub mod style;
pub mod asset;
pub mod entity;
pub mod registry;
