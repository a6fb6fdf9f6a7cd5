use oxide::highlight::{highlight_segments, highlighted_log_job, LogSegment, SegmentKind};

fn parts(v: &[LogSegment]) -> Vec<(SegmentKind, String)> {
    v.iter().map(|s| (s.kind, s.text.clone())).collect()
}

#[test]
fn words_are_highlighted_in_any_case() {
    let segs = highlighted_log_job("Sound: Enabled, VSync: disabled", "enabled", "disabled").unwrap();
    assert_eq!(
        parts(&segs),
        vec![
            (SegmentKind::Plain, "Sound: ".to_string()),
            (SegmentKind::Enabled, "Enabled".to_string()),
            (SegmentKind::Plain, ", VSync: ".to_string()),
            (SegmentKind::Disabled, "disabled".to_string()),
        ]
    );
}

#[test]
fn plain_line_is_one_segment() {
    let segs = highlighted_log_job("nothing here", "on", "off").unwrap();
    assert_eq!(parts(&segs), vec![(SegmentKind::Plain, "nothing here".to_string())]);
    assert!(highlighted_log_job("", "on", "off").unwrap().is_empty());
}

#[test]
fn earlier_match_wins_and_ties_go_to_enabled() {
    let segs = highlighted_log_job("activé désactivé", "activé", "désactivé").unwrap();
    assert_eq!(
        parts(&segs),
        vec![
            (SegmentKind::Enabled, "activé".to_string()),
            (SegmentKind::Plain, " ".to_string()),
            (SegmentKind::Disabled, "désactivé".to_string()),
        ]
    );
    let tie = highlight_segments("onx", "onx", "on", "on");
    assert_eq!(parts(&tie), vec![(SegmentKind::Enabled, "on".to_string()), (SegmentKind::Plain, "x".to_string())]);
}

#[test]
fn empty_words_or_length_changes_give_none() {
    assert!(highlighted_log_job("abc", "", "off").is_none());
    assert!(highlighted_log_job("İx", "x", "y").is_none());
}

#[test]
fn segments_put_back_together_give_the_line() {
    let line = "00:00:01.000 |I| Sound: ENABLED, VSync: disabled, again enabled";
    let segs = highlighted_log_job(line, "enabled", "disabled").unwrap();
    let joined: String = segs.iter().map(|s| s.text.as_str()).collect();
    assert_eq!(joined, line);
    assert_eq!(segs.iter().filter(|s| s.kind == SegmentKind::Enabled).count(), 2);
}

#[test]
fn line_without_words_is_plain_even_when_case_changes_length() {
    let segs = highlighted_log_job("İ", "enabled", "disabled").unwrap();
    assert_eq!(parts(&segs), vec![(SegmentKind::Plain, "İ".to_string())]);
    assert!(highlighted_log_job("", "", "").unwrap().is_empty());
}
