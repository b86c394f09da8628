//! Verified core of a video scrubbing-preview generator.
//!
//! The library turns an ordered stream of (timestamp, decoded RGB image)
//! events into tiled spritesheet pages with WebVTT cue metadata and into a
//! single filmstrip ("timelens") image.  Demuxing, decoding and file output
//! are collaborators that live outside this crate; the grid arithmetic,
//! page/cue bookkeeping and buffer accumulation are verified here.

pub mod av;
pub mod codec;
pub mod err;
pub mod extract;
pub mod err_av;
pub mod err_ffi;
pub mod media_time;
pub mod options;
pub mod raster;
pub mod spritesheet;
pub mod text;
pub mod timelens;
pub mod webvtt;
