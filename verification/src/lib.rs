//! Nine-grid slicing of PNG images: the four corners of an image are cut out
//! along four guide lines, stitched back together and optionally rescaled.
//! The library holds the image model, the slicing rules, the per-image cut
//! parameters, the list of open images with its selection, and the rules that
//! name exported files.

pub mod raster;
pub mod paths;
pub mod item;
pub mod slicer;
pub mod state;
pub mod exporter;
pub mod loader;
