use vidbrowse::events::{AppEvent, Key};
use vidbrowse::state::AppState;
use vidbrowse::video_info::{
    contains_text, panel_lines, probe_says_video, stream_lines, FieldValue, StreamInfo, VideoInfo,
};

fn empty_stream() -> StreamInfo {
    StreamInfo {
        index: FieldValue::Absent,
        codec_type: FieldValue::Absent,
        codec_name: FieldValue::Absent,
        codec_long_name: FieldValue::Absent,
        width: FieldValue::Absent,
        height: FieldValue::Absent,
        channel_layout: FieldValue::Absent,
        language: FieldValue::Absent,
        title: FieldValue::Absent,
    }
}

#[test]
fn no_video_gives_one_line() {
    let is_video = probe_says_video(true, "");
    assert!(!is_video);
    let lines = panel_lines(is_video, &vec![empty_stream()]);
    assert_eq!(lines, vec!["value: false"]);
}

#[test]
fn probe_needs_success_and_marker() {
    assert!(probe_says_video(true, "video\n"));
    assert!(!probe_says_video(false, "video\n"));
    assert!(!probe_says_video(true, "audio\n"));
    assert!(contains_text("xxvideoyy", "video"));
    assert!(!contains_text("vide", "video"));
    assert!(contains_text("abc", ""));
}

#[test]
fn stream_report_lists_present_fields() {
    let mut v = empty_stream();
    v.index = FieldValue::Unsigned(0);
    v.codec_type = FieldValue::Text("video".to_string());
    v.codec_name = FieldValue::Text("h264".to_string());
    v.codec_long_name = FieldValue::Unsigned(5);
    v.width = FieldValue::Unsigned(1920);
    v.height = FieldValue::Text("tall".to_string());
    v.language = FieldValue::Text("".to_string());
    v.title = FieldValue::Text("Main".to_string());
    let mut a = empty_stream();
    a.index = FieldValue::Unsigned(42);
    a.channel_layout = FieldValue::Text("stereo".to_string());
    a.language = FieldValue::Text("eng".to_string());
    let lines = stream_lines(&vec![v, a]);
    assert_eq!(
        lines,
        vec![
            "Stream Index: 0\n",
            "Codec Type: video\n",
            "Codec Name: h264\n",
            "Long Codec Name: Unknown\n",
            "Width: 1920\n",
            "Height: 0\n",
            "Title: Main\n",
            "",
            "Stream Index: 42\n",
            "Channel Layout: stereo\n",
            "Language: eng\n",
            "",
        ]
    );
    assert!(stream_lines(&vec![]).is_empty());
}

#[test]
fn scroll_saturates_at_zero() {
    let mut st = AppState::new();
    let mut v = VideoInfo::new();
    v.handle_event(&AppEvent::Input(Key::Down), &mut st);
    assert_eq!(v.vertical_scroll(), 0);
    v.set_focus(true);
    v.handle_event(&AppEvent::Input(Key::Up), &mut st);
    assert_eq!(v.vertical_scroll(), 0);
    v.handle_event(&AppEvent::Input(Key::Down), &mut st);
    v.handle_event(&AppEvent::Input(Key::Down), &mut st);
    assert_eq!(v.vertical_scroll(), 6);
    v.handle_event(&AppEvent::Input(Key::Up), &mut st);
    assert_eq!(v.vertical_scroll(), 3);
    v.handle_event(&AppEvent::Tick, &mut st);
    v.handle_event(&AppEvent::Input(Key::Up), &mut st);
    v.handle_event(&AppEvent::Input(Key::Up), &mut st);
    assert_eq!(v.vertical_scroll(), 0);
    assert_eq!(st.selected_file, None);
    v.record_content(10);
    v.record_content(10);
    assert_eq!(v.content_length(), 10);
}

#[test]
fn large_numbers_print_all_digits() {
    let mut s = empty_stream();
    s.index = FieldValue::Unsigned(u64::MAX);
    s.width = FieldValue::Unsigned(10);
    s.height = FieldValue::Unsigned(7);
    let lines = stream_lines(&vec![s]);
    assert_eq!(
        lines,
        vec!["Stream Index: 18446744073709551615\n", "Width: 10\n", "Height: 7\n", ""]
    );
}
