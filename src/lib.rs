//! Screen-space presentation for a pixel-raster game: the viewport camera,
//! timed full-screen fades and the intro sequence.
pub mod camera;
pub mod color;
pub mod intro;
pub mod timer;
