//! A minimal image-viewer core: decoding into an RGBA pixel buffer, viewer
//! state with a lazily cached texture, and the pan/zoom viewport transform.
//! All screen arithmetic is exact fixed-point (milli-pixel) integer math.

pub mod geom;
pub mod img;
pub mod laws;
pub mod viewer;
