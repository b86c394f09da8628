use preview_generator::extract::PreviewExtractor;
use preview_generator::media_time::MediaTime;
use preview_generator::options::OutputFormat;
use preview_generator::raster::RgbImage;
use preview_generator::spritesheet::SpritesheetOptions;
use preview_generator::timelens::TimelensOptions;

fn sprite_options() -> SpritesheetOptions {
    SpritesheetOptions {
        max_size: 2,
        columns: 2,
        rows: 2,
        frame_interval: MediaTime::from_millis(1000),
        format: OutputFormat::Png,
    }
}

fn timelens_options() -> TimelensOptions {
    TimelensOptions {
        width: 8,
        height: 2,
        frame_interval: MediaTime::from_millis(1000),
        format: OutputFormat::Png,
    }
}

#[test]
fn run_with_both_outputs() {
    let duration = MediaTime::from_millis(10_000);
    let mut ex = PreviewExtractor::new(
        Some(sprite_options()),
        Some(timelens_options()),
        duration,
        "preview",
    );
    let mut pages = Vec::new();
    for k in 0..5u32 {
        let t = MediaTime::from_millis(2000 * k as i64);
        assert!(ex.wants_frame(t));
        if ex.sprite_wants(t) {
            ex.initialize_spritesheet(4, 4);
            let tile = RgbImage { width: 2, height: 2, data: vec![k as u8; 12] };
            if let Some(page) = ex.feed_spritesheet(t, &tile).unwrap() {
                pages.push(page);
            }
        }
        if ex.timelens_wants(t) {
            ex.initialize_timelens();
            let col = RgbImage { width: 1, height: 2, data: vec![k as u8; 6] };
            ex.feed_timelens(t, &col).unwrap();
        }
    }
    // Five tiles at capacity four: one full page flushed mid-stream.
    assert_eq!(pages.len(), 1);
    assert_eq!(pages[0].index, 0);
    assert_eq!(pages[0].file_name, "preview_0.png");

    let artifacts = ex.finish(duration);
    let sprite = artifacts.spritesheet.expect("spritesheet was configured");
    let page = sprite.page.expect("one tile sits on the second page");
    assert_eq!(page.index, 1);
    assert_eq!(sprite.metadata_text.matches(" --> ").count(), 5);
    assert!(sprite.metadata_text.ends_with("00:08.000 --> 00:10.000\npreview_1.png#xywh=0,0,2,2\n\n"));

    let strip = artifacts.timelens.expect("timelens was configured").unwrap();
    assert_eq!(strip.file_name, "preview_timelens.png");
    assert_eq!(strip.image.width, 8);
    assert_eq!(strip.image.height, 2);
}

#[test]
fn consumers_sample_independently() {
    let duration = MediaTime::from_millis(10_000);
    let mut ex = PreviewExtractor::new(Some(sprite_options()), None, duration, "preview");
    let t0 = MediaTime::from_millis(0);
    assert!(ex.wants_frame(t0));
    assert!(ex.sprite_wants(t0));
    assert!(!ex.timelens_wants(t0));
    ex.initialize_spritesheet(4, 4);
    let tile = RgbImage { width: 2, height: 2, data: vec![7; 12] };
    ex.feed_spritesheet(t0, &tile).unwrap();
    // Within the interval nothing is wanted any more.
    assert!(!ex.wants_frame(MediaTime::from_millis(500)));
}

#[test]
fn finish_reports_empty_timelens_per_output() {
    let duration = MediaTime::from_millis(10_000);
    let mut ex = PreviewExtractor::new(
        Some(sprite_options()),
        Some(timelens_options()),
        duration,
        "preview",
    );
    let artifacts = ex.finish(duration);
    let sprite = artifacts.spritesheet.expect("spritesheet was configured");
    assert!(sprite.page.is_none());
    assert_eq!(sprite.metadata_text.as_str(), "WEBVTT\n\n");
    assert!(artifacts.timelens.expect("timelens was configured").is_err());
}
