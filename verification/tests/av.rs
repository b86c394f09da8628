use preview_generator::av::{determine_mime, parse_scaler, AVInputFormatError, SwsScaler};
use preview_generator::err::AVError;
use preview_generator::err_av::AvInternalError;
use preview_generator::err_ffi::AvFfiError;

#[test]
fn parse_scaler_accepts_known_names() {
    assert_eq!(parse_scaler("fast_bilinear"), Ok(SwsScaler::FastBilinear));
    assert_eq!(parse_scaler("bilinear"), Ok(SwsScaler::Bilinear));
    assert_eq!(parse_scaler("bicubic"), Ok(SwsScaler::Bicubic));
    assert_eq!(parse_scaler("x"), Ok(SwsScaler::X));
    assert_eq!(parse_scaler("point"), Ok(SwsScaler::Point));
    assert_eq!(parse_scaler("area"), Ok(SwsScaler::Area));
    assert_eq!(parse_scaler("bicublin"), Ok(SwsScaler::Bicublin));
    assert_eq!(parse_scaler("gauss"), Ok(SwsScaler::Gauss));
    assert_eq!(parse_scaler("sinc"), Ok(SwsScaler::Sinc));
    assert_eq!(parse_scaler("lanczos"), Ok(SwsScaler::Lanczos));
    assert_eq!(parse_scaler("spline"), Ok(SwsScaler::Spline));
}

#[test]
fn parse_scaler_rejects_unknown_names() {
    assert_eq!(parse_scaler("cubic"), Err(String::from("Invalid scaler: cubic")));
    assert_eq!(parse_scaler(""), Err(String::from("Invalid scaler: ")));
}

#[test]
fn determine_mime_picks_first_matching_container() {
    assert_eq!(determine_mime("mp4", "h264"), Ok("video/mp4"));
    assert_eq!(determine_mime("mov,mp4,m4a", "hevc"), Ok("video/mp4"));
    assert_eq!(determine_mime("matroska,webm", "h264"), Ok("video/x-matroska"));
    assert_eq!(determine_mime("webm", "vp9"), Ok("video/webm"));
}

#[test]
fn determine_mime_rejects_unknown_pairs() {
    match determine_mime("avi", "h264") {
        Err(AVInputFormatError::InvalidMime(codec, containers)) => {
            assert_eq!(codec, "h264");
            assert_eq!(containers, "avi");
        }
        other => panic!("expected InvalidMime, got {:?}", other),
    }
    assert!(determine_mime("webm", "h264").is_err());
}

#[test]
fn from_errno_zero_is_success() {
    assert_eq!(AVError::from_errno(0), Ok(()));
}

#[test]
fn from_errno_decodes_system_errors() {
    assert_eq!(
        AVError::from_errno(-2),
        Err(AVError::System(AvFfiError::NoSuchFileOrDirectory))
    );
    assert_eq!(AVError::from_errno(-5), Err(AVError::System(AvFfiError::IoError)));
}

#[test]
fn from_errno_decodes_internal_errors() {
    // AVERROR_EOF: the four-character "EOF " tag, surfaced negated.
    assert_eq!(
        AVError::from_errno(-0x20464F45),
        Err(AVError::Internal(AvInternalError::EndOfFile))
    );
}

#[test]
fn from_errno_keeps_unknown_codes() {
    assert_eq!(AVError::from_errno(123456), Err(AVError::Unknown(-123456)));
}

#[test]
fn error_messages_are_descriptive() {
    assert_eq!(AvFfiError::NoSuchFileOrDirectory.message(), "No such file or directory");
    assert_eq!(AvInternalError::EndOfFile.message(), "End of file");
}
