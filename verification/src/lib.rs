//! Sanity checks on the metadata that storage backends report.

pub mod access;
pub mod check;
pub mod entry;
pub mod error;
pub mod info;
pub mod intercept;
pub mod layer;
pub mod ops;
pub mod path;
