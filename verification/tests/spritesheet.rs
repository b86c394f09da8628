use preview_generator::media_time::MediaTime;
use preview_generator::options::OutputFormat;
use preview_generator::raster::RgbImage;
use preview_generator::spritesheet::{SpriteError, SpritesheetManager, SpritesheetOptions};

fn options_5x5() -> SpritesheetOptions {
    SpritesheetOptions {
        max_size: 2,
        columns: 5,
        rows: 5,
        frame_interval: MediaTime::from_millis(1000),
        format: OutputFormat::Png,
    }
}

fn tile(value: u8) -> RgbImage {
    RgbImage { width: 2, height: 2, data: vec![value; 12] }
}

fn manager() -> SpritesheetManager {
    let mut m = SpritesheetManager::new(options_5x5(), "preview");
    m.initialize(2, 2);
    m
}

#[test]
fn initialize_keeps_aspect_ratio() {
    let mut m = SpritesheetManager::new(
        SpritesheetOptions {
            max_size: 240,
            columns: 5,
            rows: 5,
            frame_interval: MediaTime::from_millis(1000),
            format: OutputFormat::Png,
        },
        "preview",
    );
    assert!(!m.initialized());
    m.initialize(1920, 1080);
    assert!(m.initialized());
    assert_eq!(m.sprite_width(), 240);
    assert_eq!(m.sprite_height(), 135);
}

#[test]
fn initialize_portrait_scales_width() {
    let mut m = SpritesheetManager::new(options_5x5(), "preview");
    m.initialize(100, 200);
    assert_eq!(m.sprite_width(), 1);
    assert_eq!(m.sprite_height(), 2);
}

#[test]
fn sampling_gate_is_strict() {
    let mut m = manager();
    assert!(m.fulfils_frame_interval(MediaTime::from_millis(0)));
    m.add_frame(MediaTime::from_millis(0), &tile(1)).unwrap();
    assert!(!m.fulfils_frame_interval(MediaTime::from_millis(1000)));
    assert!(m.fulfils_frame_interval(MediaTime::from_millis(1001)));
}

#[test]
fn rejects_wrong_tile_size() {
    let mut m = manager();
    let wrong = RgbImage { width: 3, height: 2, data: vec![0; 18] };
    let r = m.add_frame(MediaTime::from_millis(0), &wrong);
    assert_eq!(
        r,
        Err(SpriteError::DimensionMismatch {
            got_width: 3,
            got_height: 2,
            expected_width: 2,
            expected_height: 2,
        })
    );
}

#[test]
fn hundred_frames_make_four_full_pages() {
    let mut m = manager();
    let mut pages = Vec::new();
    for k in 0..100u32 {
        let t = MediaTime::from_millis(2000 * k as i64);
        if let Some(page) = m.add_frame(t, &tile(k as u8)).unwrap() {
            pages.push(page);
        }
    }
    assert_eq!(pages.len(), 4);
    for (p, page) in pages.iter().enumerate() {
        assert_eq!(page.index, p as u32);
        assert_eq!(page.file_name, format!("preview_{}.png", p));
        assert_eq!(page.image.width, 10);
        assert_eq!(page.image.height, 10);
        // Every slot of every page is filled with its tile's value.
        for s in 0..25usize {
            let k = p * 25 + s;
            let x = (s % 5) * 2;
            let y = ((s / 5) % 5) * 2;
            for dy in 0..2 {
                for dx in 0..2 {
                    for c in 0..3 {
                        let idx = 3 * ((y + dy) * 10 + (x + dx)) + c;
                        assert_eq!(page.image.data[idx], k as u8);
                    }
                }
            }
        }
    }
    m.end_frame(MediaTime::from_millis(200_000));
    let artifacts = m.save();
    // The last page was already flushed when it filled: nothing re-emitted.
    assert!(artifacts.page.is_none());
    assert_eq!(artifacts.metadata_name, "preview.vtt");
    assert!(artifacts.metadata_text.starts_with("WEBVTT\n\n"));
    assert_eq!(artifacts.metadata_text.matches(" --> ").count(), 100);
}

#[test]
fn seven_frames_leave_partial_page_for_save() {
    let mut m = manager();
    for k in 0..7u32 {
        let t = MediaTime::from_millis(2000 * k as i64);
        assert!(m.add_frame(t, &tile(100 + k as u8)).unwrap().is_none());
    }
    m.end_frame(MediaTime::from_millis(14_000));
    let artifacts = m.save();
    let page = artifacts.page.expect("partial page must be flushed by save");
    assert_eq!(page.index, 0);
    assert_eq!(page.file_name, "preview_0.png");
    // Seven filled slots...
    for s in 0..7usize {
        let x = (s % 5) * 2;
        let y = ((s / 5) % 5) * 2;
        assert_eq!(page.image.data[3 * (y * 10 + x)], 100 + s as u8);
    }
    // ...and the remaining eighteen blank.
    for s in 7..25usize {
        let x = (s % 5) * 2;
        let y = ((s / 5) % 5) * 2;
        for dy in 0..2 {
            for dx in 0..2 {
                for c in 0..3 {
                    let idx = 3 * ((y + dy) * 10 + (x + dx)) + c;
                    assert_eq!(page.image.data[idx], 0);
                }
            }
        }
    }
    assert_eq!(artifacts.metadata_text.matches(" --> ").count(), 7);
}

#[test]
fn save_never_reemits_a_flushed_page() {
    let mut m = manager();
    let mut flushed = 0;
    for k in 0..25u32 {
        let t = MediaTime::from_millis(2000 * k as i64);
        if m.add_frame(t, &tile(k as u8)).unwrap().is_some() {
            flushed += 1;
        }
    }
    assert_eq!(flushed, 1);
    m.end_frame(MediaTime::from_millis(50_000));
    // The only page was flushed when it filled; saving afterwards must
    // not emit it again, however often it is invoked.
    let first = m.save();
    assert!(first.page.is_none());
    let second = m.save();
    assert!(second.page.is_none());
    assert_eq!(first.metadata_text, second.metadata_text);
}

#[test]
fn cue_payloads_carry_page_and_rectangle() {
    let mut m = manager();
    m.add_frame(MediaTime::from_millis(0), &tile(1)).unwrap();
    m.add_frame(MediaTime::from_millis(2000), &tile(2)).unwrap();
    m.end_frame(MediaTime::from_millis(4000));
    let artifacts = m.save();
    assert_eq!(
        artifacts.metadata_text.as_str(),
        "WEBVTT\n\n00:00.000 --> 00:02.000\npreview_0.png#xywh=0,0,2,2\n\n00:02.000 --> 00:04.000\npreview_0.png#xywh=2,0,2,2\n\n"
    );
}

#[test]
fn save_without_frames_emits_no_page_and_no_cues() {
    let mut m = manager();
    m.end_frame(MediaTime::from_millis(1000));
    let artifacts = m.save();
    assert!(artifacts.page.is_none());
    assert_eq!(artifacts.metadata_text.as_str(), "WEBVTT\n\n");
}
