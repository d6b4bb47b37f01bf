//! Verified core of the Picasso example for TRUEOS: the prepared DamagedHelmet
//! geometry and its retained transform table as resource-relative ranges, the
//! mixed triangle/line draw plans, the window's resize-grip interaction, the
//! shared execution ring's sizing and cache-visibility requests, and the
//! state of the hardware-video view. The platform calls themselves (UI4
//! windows, vGPU buffers and submissions, video decoding) are made by the
//! application around this library, which hands it plain values.
pub mod assets;
pub mod bytes;
pub mod resources;
pub mod geometry;
pub mod draws;
pub mod interaction;
pub mod ring;
pub mod upload;
pub mod heads;
pub mod video;
pub mod probe;
