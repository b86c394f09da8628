use preview_generator::media_time::MediaTime;
use preview_generator::options::OutputFormat;
use preview_generator::raster::RgbImage;
use preview_generator::timelens::{TimelensError, TimelensManager, TimelensOptions};

fn options() -> TimelensOptions {
    TimelensOptions {
        width: 10,
        height: 4,
        frame_interval: MediaTime::from_millis(1000),
        format: OutputFormat::Png,
    }
}

fn column(value: u8) -> RgbImage {
    RgbImage { width: 1, height: 4, data: vec![value; 12] }
}

#[test]
fn strip_width_is_interval_count_rounded_up() {
    let m = TimelensManager::new(options(), MediaTime::from_millis(5500), "preview");
    assert_eq!(m.spritesheet.width, 6);
    let exact = TimelensManager::new(options(), MediaTime::from_millis(6000), "preview");
    assert_eq!(exact.spritesheet.width, 6);
}

#[test]
fn empty_stream_is_reported_not_encoded() {
    let mut m = TimelensManager::new(options(), MediaTime::from_millis(5500), "preview");
    m.initialize();
    assert!(matches!(m.save(), Err(TimelensError::EmptyStream)));
}

#[test]
fn short_stream_still_fills_target_width() {
    let mut m = TimelensManager::new(options(), MediaTime::from_millis(5500), "preview");
    m.initialize();
    assert!(m.initialized());
    for k in 0..3u32 {
        let t = MediaTime::from_millis(2000 * k as i64);
        assert!(m.fulfils_frame_interval(t));
        m.add_frame(t, &column(k as u8 + 1)).unwrap();
    }
    let artifact = m.save().unwrap();
    assert_eq!(artifact.file_name, "preview_timelens.png");
    assert_eq!(artifact.image.width, 10);
    assert_eq!(artifact.image.height, 4);
    assert_eq!(artifact.image.data.len(), 3 * 10 * 4);
}

#[test]
fn rejects_wrong_column_size() {
    let mut m = TimelensManager::new(options(), MediaTime::from_millis(5500), "preview");
    m.initialize();
    let wrong = RgbImage { width: 2, height: 4, data: vec![0; 24] };
    let r = m.add_frame(MediaTime::from_millis(0), &wrong);
    assert_eq!(
        r,
        Err(TimelensError::DimensionMismatch {
            got_width: 2,
            got_height: 4,
            expected_width: 1,
            expected_height: 4,
        })
    );
}

#[test]
fn timelens_sampling_gate_is_strict() {
    let mut m = TimelensManager::new(options(), MediaTime::from_millis(5500), "preview");
    m.initialize();
    assert!(m.fulfils_frame_interval(MediaTime::from_millis(0)));
    m.add_frame(MediaTime::from_millis(0), &column(1)).unwrap();
    assert!(!m.fulfils_frame_interval(MediaTime::from_millis(1000)));
    assert!(m.fulfils_frame_interval(MediaTime::from_millis(1001)));
}
