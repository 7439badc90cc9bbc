use batch_remux::model::TrackKind;
use batch_remux::probe::{
    digits_only, format_duration, kind_from_inspector, kind_from_multiplexer, parse_bitrate_text,
    parse_clock_duration, parse_number_text, parse_positive_id_text, split_str,
};
use batch_remux::progress::{handle_output_line, JobStatus};

#[test]
fn digits_are_picked_out_of_text() {
    assert_eq!(digits_only("3 455 kb/s"), "3455");
    assert_eq!(digits_only("no digits"), "");
    assert_eq!(digits_only("٣4"), "4");
}

#[test]
fn numbers_are_read_from_their_digits() {
    assert_eq!(parse_number_text("ID 12 (0x0C)"), Some(1200));
    assert_eq!(parse_number_text("7"), Some(7));
    assert_eq!(parse_number_text("0"), Some(0));
    assert_eq!(parse_number_text(""), None);
    assert_eq!(parse_number_text("abc"), None);
    assert_eq!(parse_number_text("99999999999999999999999"), None);
}

#[test]
fn zero_is_no_positive_id() {
    assert_eq!(parse_positive_id_text("0"), None);
    assert_eq!(parse_positive_id_text("track 2"), Some(2));
    assert_eq!(parse_positive_id_text("-"), None);
}

#[test]
fn small_bit_rates_are_taken_as_kilobits() {
    assert_eq!(parse_bitrate_text("3 455 kb/s"), Some(3_455_000));
    assert_eq!(parse_bitrate_text("9999"), Some(9_999_000));
    assert_eq!(parse_bitrate_text("10000"), Some(10_000));
    assert_eq!(parse_bitrate_text("1536000"), Some(1_536_000));
    assert_eq!(parse_bitrate_text("0"), Some(0));
    assert_eq!(parse_bitrate_text("fast"), None);
}

#[test]
fn track_kinds_by_tag() {
    assert_eq!(kind_from_multiplexer("video"), Some(TrackKind::Video));
    assert_eq!(kind_from_multiplexer("audio"), Some(TrackKind::Audio));
    assert_eq!(kind_from_multiplexer("subtitles"), Some(TrackKind::Subtitle));
    assert_eq!(kind_from_multiplexer("subtitle"), None);
    assert_eq!(kind_from_multiplexer("Video"), None);
    assert_eq!(kind_from_inspector("Video"), Some(TrackKind::Video));
    assert_eq!(kind_from_inspector("Audio"), Some(TrackKind::Audio));
    assert_eq!(kind_from_inspector("Text"), Some(TrackKind::Subtitle));
    assert_eq!(kind_from_inspector("Menu"), None);
    assert_eq!(kind_from_inspector("General"), None);
}

#[test]
fn durations_are_written_as_a_clock() {
    assert_eq!(format_duration(0), "00:00:00");
    assert_eq!(format_duration(59), "00:00:59");
    assert_eq!(format_duration(3661), "01:01:01");
    assert_eq!(format_duration(7749), "02:09:09");
    assert_eq!(format_duration(360000), "100:00:00");
    for t in [0u64, 1, 60, 3599, 3600, 86399, 1_000_000, u64::MAX] {
        assert_eq!(
            format_duration(t),
            format!("{:02}:{:02}:{:02}", t / 3600, (t % 3600) / 60, t % 60)
        );
    }
}

#[test]
fn text_is_split_at_each_separator() {
    for s in ["", ":", "a", "a:b", "a::b", ":a:", "01:02:03.5", "::"] {
        let expected: Vec<String> = s.split(':').map(|p| p.to_string()).collect();
        assert_eq!(split_str(s, ':'), expected, "input {:?}", s);
    }
}

#[test]
fn clock_durations_are_read() {
    assert_eq!(parse_clock_duration("01:02:03.500"), Some("01:02:03".to_string()));
    assert_eq!(parse_clock_duration("1:2:3"), Some("01:02:03".to_string()));
    assert_eq!(parse_clock_duration("100:75:99"), Some("100:75:99".to_string()));
    assert_eq!(parse_clock_duration("1:2:3:4"), Some("01:02:03".to_string()));
    assert_eq!(parse_clock_duration("12:34"), None);
    assert_eq!(parse_clock_duration("a:b:c"), None);
    assert_eq!(parse_clock_duration("1:2:.5"), None);
    assert_eq!(parse_clock_duration(""), None);
}

#[test]
fn output_line_is_trimmed_and_read_for_progress() {
    let line = handle_output_line("job-9", "Progress: 57%\r\n");
    assert_eq!(line.text, "Progress: 57%");
    let event = line.event.unwrap();
    assert_eq!(event.job_id, "job-9");
    assert_eq!(event.status, JobStatus::Processing);
    assert_eq!(event.progress, 57);
    let line = handle_output_line("job-9", "  Multiplexing took 3 seconds.  \n");
    assert_eq!(line.text, "  Multiplexing took 3 seconds.");
    assert_eq!(line.event, None);
}
