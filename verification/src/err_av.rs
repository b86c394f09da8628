//! The native multimedia library's own error codes.

use vstd::prelude::*;

verus! {

/// The native multimedia library's own error conditions, tagged by
/// their four-character codes.
#[derive(Clone, Copy, Debug, PartialEq, Eq, Structural)]
pub enum AvInternalError {
    BitstreamFilterNotFound,
    Bug,
    Bug2,
    BufferTooSmall,
    DecoderNotFound,
    DemuxerNotFound,
    EncoderNotFound,
    EndOfFile,
    Exit,
    External,
    FilterNotFound,
    InputChanged,
    InvalidData,
    MuxerNotFound,
    OptionNotFound,
    OutputChanged,
    NotImplemented,
    ProtocolNotFound,
    StreamNotFound,
    Unknown,
    Experimental,
    InputAndOutputChanged,
    HttpBadRequest,
    HttpUnauthorized,
    HttpForbidden,
    HttpNotFound,
    HttpOther4xx,
    HttpServerError,
}

/// The native integer code of each `AvInternalError` variant.
pub open spec fn spec_av_code(e: AvInternalError) -> int {
    match e {
        AvInternalError::BitstreamFilterNotFound => 0x465342F8,
        AvInternalError::Bug => 0x21475542,
        AvInternalError::Bug2 => 0x20475542,
        AvInternalError::BufferTooSmall => 0x53465542,
        AvInternalError::DecoderNotFound => 0x434544F8,
        AvInternalError::DemuxerNotFound => 0x4D4544F8,
        AvInternalError::EncoderNotFound => 0x434E45F8,
        AvInternalError::EndOfFile => 0x20464F45,
        AvInternalError::Exit => 0x54495845,
        AvInternalError::External => 0x20545845,
        AvInternalError::FilterNotFound => 0x4C4946F8,
        AvInternalError::InputChanged => 0x636e6701,
        AvInternalError::InvalidData => 0x41444E49,
        AvInternalError::MuxerNotFound => 0x58554DF8,
        AvInternalError::OptionNotFound => 0x54504FF8,
        AvInternalError::OutputChanged => 0x636e6702,
        AvInternalError::NotImplemented => 0x45574150,
        AvInternalError::ProtocolNotFound => 0x4F5250F8,
        AvInternalError::StreamNotFound => 0x525453F8,
        AvInternalError::Unknown => 0x4E4B4E55,
        AvInternalError::Experimental => 0x2bb2afa8,
        AvInternalError::InputAndOutputChanged => 0x636e6703,
        AvInternalError::HttpBadRequest => 0x303034F8,
        AvInternalError::HttpUnauthorized => 0x313034F8,
        AvInternalError::HttpForbidden => 0x333034F8,
        AvInternalError::HttpNotFound => 0x343034F8,
        AvInternalError::HttpOther4xx => 0x585834F8,
        AvInternalError::HttpServerError => 0x585835F8,
    }
}

/// Some `AvInternalError` variant carries this code.
pub open spec fn is_av_code(v: int) -> bool {
    exists|e: AvInternalError| spec_av_code(e) == v
}

impl AvInternalError {
    /// Decodes a native integer code; `None` when no variant carries
    /// it.
    #[verifier::rlimit(100)]
    pub fn from_i32(value: i32) -> (r: Option<AvInternalError>)
        ensures
            r matches Some(e) ==> spec_av_code(e) == value as int,
            r is None ==> !is_av_code(value as int),
    {
        match value {
            0x465342F8 => Some(AvInternalError::BitstreamFilterNotFound),
            0x21475542 => Some(AvInternalError::Bug),
            0x20475542 => Some(AvInternalError::Bug2),
            0x53465542 => Some(AvInternalError::BufferTooSmall),
            0x434544F8 => Some(AvInternalError::DecoderNotFound),
            0x4D4544F8 => Some(AvInternalError::DemuxerNotFound),
            0x434E45F8 => Some(AvInternalError::EncoderNotFound),
            0x20464F45 => Some(AvInternalError::EndOfFile),
            0x54495845 => Some(AvInternalError::Exit),
            0x20545845 => Some(AvInternalError::External),
            0x4C4946F8 => Some(AvInternalError::FilterNotFound),
            0x636e6701 => Some(AvInternalError::InputChanged),
            0x41444E49 => Some(AvInternalError::InvalidData),
            0x58554DF8 => Some(AvInternalError::MuxerNotFound),
            0x54504FF8 => Some(AvInternalError::OptionNotFound),
            0x636e6702 => Some(AvInternalError::OutputChanged),
            0x45574150 => Some(AvInternalError::NotImplemented),
            0x4F5250F8 => Some(AvInternalError::ProtocolNotFound),
            0x525453F8 => Some(AvInternalError::StreamNotFound),
            0x4E4B4E55 => Some(AvInternalError::Unknown),
            0x2bb2afa8 => Some(AvInternalError::Experimental),
            0x636e6703 => Some(AvInternalError::InputAndOutputChanged),
            0x303034F8 => Some(AvInternalError::HttpBadRequest),
            0x313034F8 => Some(AvInternalError::HttpUnauthorized),
            0x333034F8 => Some(AvInternalError::HttpForbidden),
            0x343034F8 => Some(AvInternalError::HttpNotFound),
            0x585834F8 => Some(AvInternalError::HttpOther4xx),
            0x585835F8 => Some(AvInternalError::HttpServerError),
            _ => None,
        }
    }

    /// A human-readable description of the error.
    pub fn message(&self) -> (r: &'static str) {
        match self {
            AvInternalError::BitstreamFilterNotFound => "Bitstream filter not found",
            AvInternalError::Bug => "Internal bug, also see AVERROR_BUG2",
            AvInternalError::Bug2 => "Internal bug, also see AVERROR_BUG",
            AvInternalError::BufferTooSmall => "Buffer too small",
            AvInternalError::DecoderNotFound => "Decoder not found",
            AvInternalError::DemuxerNotFound => "Demuxer not found",
            AvInternalError::EncoderNotFound => "Encoder not found",
            AvInternalError::EndOfFile => "End of file",
            AvInternalError::Exit => "Immediate exit was requested; the called function should not be restarted",
            AvInternalError::External => "Generic error in an external library",
            AvInternalError::FilterNotFound => "Filter not found",
            AvInternalError::InputChanged => "Input changed between calls. Reconfiguration is required.",
            AvInternalError::InvalidData => "Invalid data found when processing input",
            AvInternalError::MuxerNotFound => "Muxer not found",
            AvInternalError::OptionNotFound => "Option not found",
            AvInternalError::OutputChanged => "Output changed between calls. Reconfiguration is required.",
            AvInternalError::NotImplemented => "Not yet implemented in FFmpeg, patches welcome",
            AvInternalError::ProtocolNotFound => "Protocol not found",
            AvInternalError::StreamNotFound => "Stream not found",
            AvInternalError::Unknown => "Unknown error, typically from an external library",
            AvInternalError::Experimental => "Requested feature is flagged experimental. Set strict_std_compliance if you really want to use it.",
            AvInternalError::InputAndOutputChanged => "Input and output changed between calls. Reconfiguration is required.",
            AvInternalError::HttpBadRequest => "HTTP: Bad Request",
            AvInternalError::HttpUnauthorized => "HTTP: Unauthorized",
            AvInternalError::HttpForbidden => "HTTP: Forbidden",
            AvInternalError::HttpNotFound => "HTTP: Not Found",
            AvInternalError::HttpOther4xx => "HTTP: Other 4xx error",
            AvInternalError::HttpServerError => "HTTP: Other 5xx error",
        }
    }
}

} // verus!
