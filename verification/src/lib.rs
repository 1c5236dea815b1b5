//! Frame-source resolution and playback for a looping raster animation.
//!
//! The crate decides where the frames of an animation come from (a directory
//! of numbered PNG stills, an animated GIF, or the built-in frame set), names
//! or decodes them in order, and advances a cursor over them at a fixed rate.
//! Reading directories and files, and handing frames to a renderer, is left
//! to the host; every rule in between is stated and proved here.

pub mod config;
pub mod gif;
pub mod naming;
pub mod playback;
pub mod resolver;
pub mod text;
