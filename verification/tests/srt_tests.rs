use autosubs::srt::{build_srt, decimal_string, format_srt_time, SrtCue, SrtTime};

fn time(hours: u32, minutes: u32, seconds: u32, millis: u32) -> SrtTime {
    SrtTime { hours, minutes, seconds, millis }
}

#[test]
fn decimals() {
    assert_eq!(decimal_string(0), "0");
    assert_eq!(decimal_string(7), "7");
    assert_eq!(decimal_string(10), "10");
    assert_eq!(decimal_string(1234567890), "1234567890");
    assert_eq!(decimal_string(u64::MAX), u64::MAX.to_string());
}

#[test]
fn timestamps_are_zero_padded() {
    assert_eq!(format_srt_time(time(0, 0, 0, 0)), "00:00:00,000");
    assert_eq!(format_srt_time(time(1, 2, 3, 4)), "01:02:03,004");
    assert_eq!(format_srt_time(time(12, 34, 56, 789)), "12:34:56,789");
    assert_eq!(format_srt_time(time(123, 5, 9, 50)), "123:05:09,050");
}

#[test]
fn timestamps_have_fixed_width() {
    for t in [time(0, 0, 0, 0), time(99, 59, 59, 999), time(7, 30, 1, 10)] {
        assert_eq!(format_srt_time(t).chars().count(), 12);
    }
}

#[test]
fn document_numbers_cues_from_one() {
    let cues = vec![
        SrtCue { start: time(0, 0, 1, 0), end: time(0, 0, 2, 500), text: "  Hello there \n".to_string() },
        SrtCue { start: time(0, 0, 2, 500), end: time(0, 1, 0, 0), text: "Bye".to_string() },
    ];
    assert_eq!(
        build_srt(&cues),
        "1\n00:00:01,000 --> 00:00:02,500\nHello there\n\n2\n00:00:02,500 --> 00:01:00,000\nBye\n\n"
    );
}

#[test]
fn empty_document() {
    assert_eq!(build_srt(&Vec::new()), "");
}
