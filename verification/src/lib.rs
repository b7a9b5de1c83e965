//! Batch image resizing: classify the entries of a source directory, decode
//! each recognized image, scale it to a target box with a selectable
//! resampling filter, and re-encode it under the original filename in a
//! `resized-images` subdirectory.

pub mod classify;
pub mod config;
pub mod errors;
pub mod filter;
pub mod pipeline;
pub mod prepare;
pub mod text;
