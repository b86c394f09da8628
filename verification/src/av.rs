//! Value-level types of the native multimedia collaborator: the error
//! kinds its handle layer reports, and the scaler selection.

use vstd::prelude::*;
use vstd::string::{StrSliceExecFns, StringExecFns};

use crate::err::AVError;
use crate::text::str_eq;

verus! {

/// A native allocation failed; the payload names what was allocated.
#[derive(Debug, PartialEq, Eq)]
pub enum AVAllocError {
    AllocFailed(String),
}

/// A native string could not be read.
#[derive(Clone, Copy, Debug, PartialEq, Eq, Structural)]
pub enum StringError {
    NullError,
    Utf8Error,
}

/// Errors of the container-format probe.
#[derive(Debug, PartialEq, Eq)]
pub enum AVInputFormatError {
    Invalid,
    FieldInaccessible(String, StringError),
    InvalidMime(String, String),
}

/// Errors of packet allocation.
#[derive(Debug, PartialEq, Eq)]
pub enum AVPacketError {
    AllocFailed(AVAllocError),
}

/// Errors of frame allocation and decoding.
#[derive(Debug, PartialEq, Eq)]
pub enum AVFrameError {
    AllocFailed(AVAllocError),
    DecodingFailed(i32, i64, AVError),
}

/// Errors of the per-stream codec parameter view.
#[derive(Clone, Copy, Debug, PartialEq, Eq, Structural)]
pub enum AVCodecParametersError {
    Invalid(i32),
}

/// Errors of the codec lookup.
#[derive(Debug, PartialEq, Eq)]
pub enum AVCodecError {
    Invalid,
    FieldInaccessible(String, StringError),
}

/// Errors of the decoder context.
#[derive(Debug, PartialEq, Eq)]
pub enum AVCodecContextError {
    AllocFailed(AVAllocError),
    FieldInaccessible(String, StringError),
    PacketError(AVError),
    FrameError(AVError),
}

/// Errors of the scaling context.
#[derive(Debug, PartialEq, Eq)]
pub enum SwsContextError {
    AllocFailed(AVAllocError),
}

/// Index of the first comma in `s`, or `s.len()` when there is none.
pub open spec fn first_comma(s: Seq<char>) -> int
    decreases s.len(),
{
    if s.len() == 0 {
        0
    } else if s[0] == ',' {
        0
    } else {
        1 + first_comma(s.skip(1))
    }
}

/// The comma position characterizes `first_comma`: it is the unique
/// index with no comma before it that sits on a comma or at the end.
proof fn lemma_first_comma(s: Seq<char>, k: int)
    requires
        0 <= k <= s.len(),
        forall|j: int| 0 <= j < k ==> s[j] != ',',
        k == s.len() || s[k] == ',',
    ensures
        first_comma(s) == k,
    decreases s.len(),
{
    if s.len() == 0 {
    } else if s[0] == ',' {
    } else {
        assert(s.skip(1).len() == s.len() - 1);
        assert forall|j: int| 0 <= j < k - 1 implies s.skip(1)[j] != ',' by {
            assert(s.skip(1)[j] == s[j + 1]);
        }
        if k < s.len() {
            assert(s.skip(1)[k - 1] == s[k]);
        }
        lemma_first_comma(s.skip(1), k - 1);
    }
}

/// The MIME type for one container name and one codec name, if the pair
/// is a recognized combination.
pub open spec fn piece_mime(container: Seq<char>, codec: Seq<char>) -> Option<Seq<char>> {
    if container == "mp4"@ && (codec == "h264"@ || codec == "hevc"@) {
        Some("video/mp4"@)
    } else if container == "matroska"@ && (codec == "h264"@ || codec == "hevc"@) {
        Some("video/x-matroska"@)
    } else if container == "webm"@ && (codec == "vp8"@ || codec == "vp9"@ || codec == "av1"@) {
        Some("video/webm"@)
    } else {
        None
    }
}

/// The MIME type for a comma-separated container-name list: that of the
/// first listed container that, together with the codec, forms a
/// recognized combination.
pub open spec fn spec_mime(containers: Seq<char>, codec: Seq<char>) -> Option<Seq<char>>
    decreases containers.len(),
{
    let k = first_comma(containers);
    if 0 <= k && k < containers.len() {
        match piece_mime(containers.subrange(0, k), codec) {
            Some(m) => Some(m),
            None => spec_mime(containers.subrange(k + 1, containers.len() as int), codec),
        }
    } else {
        piece_mime(containers, codec)
    }
}

/// The MIME type of one container piece, by the recognized pairs.
fn piece_mime_lookup(piece: &str, codec: &str) -> (r: Option<&'static str>)
    ensures
        match r {
            Some(m) => piece_mime(piece@, codec@) == Some(m@),
            None => piece_mime(piece@, codec@) is None,
        },
{
    if str_eq(piece, "mp4") && (str_eq(codec, "h264") || str_eq(codec, "hevc")) {
        Some("video/mp4")
    } else if str_eq(piece, "matroska") && (str_eq(codec, "h264") || str_eq(codec, "hevc")) {
        Some("video/x-matroska")
    } else if str_eq(piece, "webm") && (str_eq(codec, "vp8") || str_eq(codec, "vp9") || str_eq(
        codec,
        "av1",
    )) {
        Some("video/webm")
    } else {
        None
    }
}

/// Walks the container list piece by piece, in order.
fn mime_lookup(containers: &str, codec: &str) -> (r: Option<&'static str>)
    ensures
        match r {
            Some(m) => spec_mime(containers@, codec@) == Some(m@),
            None => spec_mime(containers@, codec@) is None,
        },
    decreases containers@.len(),
{
    let n = containers.unicode_len();
    let mut k: usize = 0;
    while k < n && containers.get_char(k) != ','
        invariant
            0 <= k <= n,
            n == containers@.len(),
            forall|j: int| 0 <= j < k ==> containers@[j] != ',',
        decreases n - k,
    {
        k = k + 1;
    }
    proof {
        lemma_first_comma(containers@, k as int);
    }
    let piece = containers.substring_char(0, k);
    proof {
        if k == n {
            assert(piece@ =~= containers@);
        }
    }
    match piece_mime_lookup(piece, codec) {
        Some(m) => Some(m),
        None => {
            if k == n {
                None
            } else {
                let rest = containers.substring_char(k + 1, n);
                mime_lookup(rest, codec)
            }
        },
    }
}

/// Determines the MIME type of a video stream from the demuxer's
/// comma-separated container-name list and the codec name: the first
/// listed container forming a recognized pair with the codec decides;
/// an unrecognized combination is rejected with both names.
pub fn determine_mime(containers: &str, stream_codec: &str) -> (r: Result<
    &'static str,
    AVInputFormatError,
>)
    ensures
        spec_mime(containers@, stream_codec@) matches Some(m) ==> (r matches Ok(s) && s@ == m),
        spec_mime(containers@, stream_codec@) is None ==> (r matches Err(e) && e matches
            AVInputFormatError::InvalidMime(c, t) && c@ == stream_codec@ && t@ == containers@),
{
    match mime_lookup(containers, stream_codec) {
        Some(m) => Ok(m),
        None => Err(
            AVInputFormatError::InvalidMime(stream_codec.to_owned(), containers.to_owned()),
        ),
    }
}

/// The resampling algorithms the native scaler offers.
#[derive(Clone, Copy, Debug, PartialEq, Eq, Structural)]
pub enum SwsScaler {
    FastBilinear,
    Bilinear,
    Bicubic,
    X,
    Point,
    Area,
    Bicublin,
    Gauss,
    Sinc,
    Lanczos,
    Spline,
}

/// Parses a scaler name as given on a command line.  Every known name
/// maps to its scaler; anything else is rejected with a message naming
/// the input.
pub fn parse_scaler(src: &str) -> (r: Result<SwsScaler, String>)
    ensures
        src@ == "fast_bilinear"@ ==> r == Ok::<SwsScaler, String>(SwsScaler::FastBilinear),
        src@ == "bilinear"@ ==> r == Ok::<SwsScaler, String>(SwsScaler::Bilinear),
        src@ == "bicubic"@ ==> r == Ok::<SwsScaler, String>(SwsScaler::Bicubic),
        src@ == "x"@ ==> r == Ok::<SwsScaler, String>(SwsScaler::X),
        src@ == "point"@ ==> r == Ok::<SwsScaler, String>(SwsScaler::Point),
        src@ == "area"@ ==> r == Ok::<SwsScaler, String>(SwsScaler::Area),
        src@ == "bicublin"@ ==> r == Ok::<SwsScaler, String>(SwsScaler::Bicublin),
        src@ == "gauss"@ ==> r == Ok::<SwsScaler, String>(SwsScaler::Gauss),
        src@ == "sinc"@ ==> r == Ok::<SwsScaler, String>(SwsScaler::Sinc),
        src@ == "lanczos"@ ==> r == Ok::<SwsScaler, String>(SwsScaler::Lanczos),
        src@ == "spline"@ ==> r == Ok::<SwsScaler, String>(SwsScaler::Spline),
        r is Ok ==> (src@ == "fast_bilinear"@ || src@ == "bilinear"@ || src@ == "bicubic"@ || src@
            == "x"@ || src@ == "point"@ || src@ == "area"@ || src@ == "bicublin"@ || src@
            == "gauss"@ || src@ == "sinc"@ || src@ == "lanczos"@ || src@ == "spline"@),
        r matches Err(m) ==> m@ == "Invalid scaler: "@ + src@,
{
    proof {
        reveal_strlit("fast_bilinear");
        reveal_strlit("bilinear");
        reveal_strlit("bicubic");
        reveal_strlit("x");
        reveal_strlit("point");
        reveal_strlit("area");
        reveal_strlit("bicublin");
        reveal_strlit("gauss");
        reveal_strlit("sinc");
        reveal_strlit("lanczos");
        reveal_strlit("spline");
        assert("fast_bilinear"@.len() == 13);
        assert("bilinear"@.len() == 8);
        assert("bicubic"@.len() == 7);
        assert("x"@.len() == 1);
        assert("point"@.len() == 5);
        assert("area"@.len() == 4);
        assert("bicublin"@.len() == 8);
        assert("gauss"@.len() == 5);
        assert("sinc"@.len() == 4);
        assert("lanczos"@.len() == 7);
        assert("spline"@.len() == 6);
        assert("bilinear"@[2] != "bicublin"@[2]);
        assert("point"@[0] != "gauss"@[0]);
        assert("area"@[0] != "sinc"@[0]);
        assert("bicubic"@[2] != "lanczos"@[2]);
    }
    if str_eq(src, "fast_bilinear") {
        Ok(SwsScaler::FastBilinear)
    } else if str_eq(src, "bilinear") {
        Ok(SwsScaler::Bilinear)
    } else if str_eq(src, "bicubic") {
        Ok(SwsScaler::Bicubic)
    } else if str_eq(src, "x") {
        Ok(SwsScaler::X)
    } else if str_eq(src, "point") {
        Ok(SwsScaler::Point)
    } else if str_eq(src, "area") {
        Ok(SwsScaler::Area)
    } else if str_eq(src, "bicublin") {
        Ok(SwsScaler::Bicublin)
    } else if str_eq(src, "gauss") {
        Ok(SwsScaler::Gauss)
    } else if str_eq(src, "sinc") {
        Ok(SwsScaler::Sinc)
    } else if str_eq(src, "lanczos") {
        Ok(SwsScaler::Lanczos)
    } else if str_eq(src, "spline") {
        Ok(SwsScaler::Spline)
    } else {
        let mut m = String::from_str("Invalid scaler: ");
        m.append(src);
        Err(m)
    }
}

} // verus!
