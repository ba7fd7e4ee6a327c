//! An animated grayscale field rendered as ASCII glyphs.
//!
//! A frame is made in three steps: a base field of luminance values, made
//! from coherent noise alone or from noise laid over a source image; a flow
//! through which the base field is read, each cell from a displaced place;
//! and a ramp of glyphs that turns luminance into text. A fixed-tick loop
//! decides when a frame is rendered and whether it is published.
//!
//! All arithmetic is in integers. A scalar is a count of millionths, a time
//! a count of microseconds. The noise itself is not computed here: the
//! library says at which points it has to be read, and takes the values
//! that were read there.

pub mod field;
pub mod fixed;
pub mod frame;
pub mod grid;
pub mod hash;
pub mod ramp;
pub mod realtime;
pub mod source;
pub mod warp;
