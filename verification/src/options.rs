//! Shared option types for the preview outputs.

use vstd::prelude::*;

use crate::media_time::MediaTime;

verus! {

/// Output image container formats the artifact encoder understands.
#[derive(Clone, Copy, Debug, PartialEq, Eq, Structural)]
pub enum OutputFormat {
    Png,
    Jpeg,
    Bmp,
}

/// The file-name extension of an output format.
pub open spec fn spec_ext(f: OutputFormat) -> Seq<char> {
    match f {
        OutputFormat::Png => "png"@,
        OutputFormat::Jpeg => "jpeg"@,
        OutputFormat::Bmp => "bmp"@,
    }
}

impl OutputFormat {
    /// The file-name extension for this format.
    pub fn ending(&self) -> (r: &'static str)
        ensures
            r@ == spec_ext(*self),
    {
        match self {
            OutputFormat::Png => "png",
            OutputFormat::Jpeg => "jpeg",
            OutputFormat::Bmp => "bmp",
        }
    }
}

/// Combined options of a full extraction run.
pub struct ExtractOptions {
    pub max_size: u32,
    pub num_horizontal: u32,
    pub num_vertical: u32,
    pub frame_interval: MediaTime,
    pub format: OutputFormat,
    pub timelens: bool,
}

} // verus!
