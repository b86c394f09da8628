use preview_generator::media_time::{MediaTime, MediaTimeError, TimeBase};

#[test]
fn from_millis_works() {
    assert_eq!(MediaTime::from_millis(0).seconds(), 0);
    assert_eq!(MediaTime::from_millis(1357).seconds(), 1);
    assert_eq!(MediaTime::from_millis(1357).milliseconds(), 1357);
}

#[test]
fn from_seconds_works() {
    assert_eq!(MediaTime::from_seconds(0).seconds(), 0);
    assert_eq!(MediaTime::from_seconds(1357).seconds(), 1357);
    assert_eq!(MediaTime::from_seconds(1357).milliseconds(), 1357000);
}

#[test]
fn from_rational_works() {
    assert_eq!(MediaTime::from_rational(0, &TimeBase::new(1u64, 1u64)).unwrap().seconds(), 0);
    assert_eq!(MediaTime::from_rational(1357, &TimeBase::new(1u64, 1u64)).unwrap().seconds(), 1357);
    assert_eq!(MediaTime::from_rational(30, &TimeBase::new(1u64, 3u64)).unwrap().seconds(), 10);
}

#[test]
fn from_rational_rejects_degenerate_bases() {
    let no_numer = TimeBase { numer: None, denom: Some(1) };
    assert_eq!(
        MediaTime::from_rational(5, &no_numer),
        Err(MediaTimeError::TimebaseNumeratorMissing)
    );
    let no_denom = TimeBase { numer: Some(1), denom: None };
    assert_eq!(
        MediaTime::from_rational(5, &no_denom),
        Err(MediaTimeError::TimebaseDenominatorMissing)
    );
    assert_eq!(
        MediaTime::from_rational(5, &TimeBase::new(1u64, 0u64)),
        Err(MediaTimeError::TimebaseDenominatorInvalid)
    );
}

#[test]
fn from_rational_truncates_toward_zero() {
    assert_eq!(MediaTime::from_rational(-30, &TimeBase::new(1u64, 3u64)).unwrap().milliseconds(), -10000);
    assert_eq!(MediaTime::from_rational(1, &TimeBase::new(1u64, 3u64)).unwrap().milliseconds(), 333);
    assert_eq!(MediaTime::from_rational(-1, &TimeBase::new(1u64, 3u64)).unwrap().milliseconds(), -333);
}

#[test]
fn display_pads_and_switches_to_hours() {
    assert_eq!(MediaTime::from_millis(1357).to_display().as_str(), "00:01.357");
    assert_eq!(MediaTime::from_millis(0).to_display().as_str(), "00:00.000");
    assert_eq!(MediaTime::from_millis(65_005).to_display().as_str(), "01:05.005");
    assert_eq!(MediaTime::from_millis(3_600_000).to_display().as_str(), "01:00:00.000");
    assert_eq!(MediaTime::from_millis(37_923_042).to_display().as_str(), "10:32:03.042");
}

#[test]
fn arithmetic_and_zero() {
    assert!(MediaTime::from_millis(0).is_zero());
    assert!(!MediaTime::from_millis(1).is_zero());
    let a = MediaTime::from_millis(1500);
    let b = MediaTime::from_millis(500);
    assert_eq!(a.plus(b).milliseconds(), 2000);
    assert_eq!(a.minus(b).milliseconds(), 1000);
    assert_eq!(MediaTime::from_millis(-2500).seconds(), -2);
}
