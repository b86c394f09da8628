use preview_generator::media_time::MediaTime;
use preview_generator::webvtt::{WebVTTCue, WebVTTFile};

#[test]
fn empty_file_is_header_only() {
    let file = WebVTTFile::new();
    assert_eq!(file.render().as_str(), "WEBVTT\n\n");
}

#[test]
fn render_starts_with_header_and_counts_cues() {
    let mut file = WebVTTFile::new();
    file.add(WebVTTCue::new(
        MediaTime::from_millis(0),
        MediaTime::from_millis(2000),
        String::from("a.png#xywh=0,0,4,4"),
    ));
    file.add(WebVTTCue::new(
        MediaTime::from_millis(2000),
        MediaTime::from_millis(4000),
        String::from("a.png#xywh=4,0,4,4"),
    ));
    let text = file.render();
    assert!(text.starts_with("WEBVTT\n\n"));
    assert_eq!(text.matches(" --> ").count(), 2);
    assert_eq!(
        text.as_str(),
        "WEBVTT\n\n00:00.000 --> 00:02.000\na.png#xywh=0,0,4,4\n\n00:02.000 --> 00:04.000\na.png#xywh=4,0,4,4\n\n"
    );
}

#[test]
fn render_uses_hour_format_past_one_hour() {
    let mut file = WebVTTFile::new();
    file.add(WebVTTCue::new(
        MediaTime::from_millis(3_599_999),
        MediaTime::from_millis(3_600_001),
        String::from("p"),
    ));
    assert_eq!(
        file.render().as_str(),
        "WEBVTT\n\n59:59.999 --> 01:00:00.001\np\n\n"
    );
}
