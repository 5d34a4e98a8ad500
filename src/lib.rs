//! Bounding boxes of LAS point-cloud files, laid out as polygon features.
//!
//! The library holds the rules of a batch run: which directory entries are
//! point-cloud files, what each output is named, the polygon that stands for a
//! bounding box, the attributes of each feature, and the order in which the
//! run's outside work (reading headers, writing a shapefile) happens.
pub mod config;
pub mod error;
pub mod geometry;
pub mod names;
pub mod run;
pub mod scan;
